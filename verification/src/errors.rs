//! The failure taxonomy of the control plane and its fixed numeric code
//! table. Every failure a caller can see is one of these variants; variants
//! that carry a `String` hold the message of a lower layer passed through
//! opaquely.

use vstd::prelude::*;
use vstd::string::StringExecFns;
use crate::json::JsonValue;

verus! {

/// Everything that can go wrong while serving a request: parse and version
/// failures, dispatch failures, domain failures passed through as text, and
/// subscription-state failures.
#[derive(Debug)]
pub enum RpcError {
    ParseBodyError,
    InvalidRequest,
    InvalidParams(String),
    UnexpectedParams,
    InvalidVersion,
    MethodNotFound(String),
    BlockchainError(String),
    DeserializerError(String),
    AnyError(String),
    ExpectedNormalAddress,
    NoP2p,
    ClientNotRegistered,
    WebSocketSendError(String),
}

impl RpcError {
    /// The numeric code of this failure on the wire. Parse, request, method
    /// and parameter failures each have their own code; every other failure
    /// collapses to the generic internal-error code.
    pub open spec fn spec_code(&self) -> i16 {
        match self {
            RpcError::ParseBodyError => -32700i16,
            RpcError::InvalidRequest | RpcError::InvalidVersion => -32600i16,
            RpcError::MethodNotFound(_) => -32601i16,
            RpcError::InvalidParams(_) | RpcError::UnexpectedParams => -32602i16,
            _ => -32603i16,
        }
    }

    pub fn get_code(&self) -> (code: i16)
        ensures
            code == self.spec_code(),
    {
        match self {
            RpcError::ParseBodyError => -32700i16,
            RpcError::InvalidRequest | RpcError::InvalidVersion => -32600i16,
            RpcError::MethodNotFound(_) => -32601i16,
            RpcError::InvalidParams(_) | RpcError::UnexpectedParams => -32602i16,
            _ => -32603i16,
        }
    }

    /// The human-readable message of this failure. Variants that wrap a
    /// lower layer's message repeat it verbatim; `MethodNotFound` embeds the
    /// requested method name.
    pub open spec fn spec_message(&self) -> Seq<char> {
        match self {
            RpcError::ParseBodyError => "Invalid body in request"@,
            RpcError::InvalidRequest => "Invalid request"@,
            RpcError::InvalidParams(e) => "Invalid params: "@ + e@,
            RpcError::UnexpectedParams => "Unexpected parameters for this method"@,
            RpcError::InvalidVersion => "Expected json_rpc set to '2.0'"@,
            RpcError::MethodNotFound(m) => "Method '"@ + m@ + "' in request was not found"@,
            RpcError::BlockchainError(e) => e@,
            RpcError::DeserializerError(e) => e@,
            RpcError::AnyError(e) => e@,
            RpcError::ExpectedNormalAddress => "Error, expected a normal wallet address"@,
            RpcError::NoP2p => "Error, no P2p enabled"@,
            RpcError::ClientNotRegistered => "WebSocket client is not registered"@,
            RpcError::WebSocketSendError(e) => "Could not send message to address: "@ + e@,
        }
    }

    pub fn message(&self) -> (m: String)
        ensures
            m@ == self.spec_message(),
    {
        match self {
            RpcError::ParseBodyError => String::from_str("Invalid body in request"),
            RpcError::InvalidRequest => String::from_str("Invalid request"),
            RpcError::InvalidParams(e) => {
                let mut m = String::from_str("Invalid params: ");
                m.append(e.as_str());
                m
            },
            RpcError::UnexpectedParams => String::from_str("Unexpected parameters for this method"),
            RpcError::InvalidVersion => String::from_str("Expected json_rpc set to '2.0'"),
            RpcError::MethodNotFound(name) => {
                let mut m = String::from_str("Method '");
                m.append(name.as_str());
                m.append("' in request was not found");
                m
            },
            RpcError::BlockchainError(e) => e.clone(),
            RpcError::DeserializerError(e) => e.clone(),
            RpcError::AnyError(e) => e.clone(),
            RpcError::ExpectedNormalAddress => String::from_str("Error, expected a normal wallet address"),
            RpcError::NoP2p => String::from_str("Error, no P2p enabled"),
            RpcError::ClientNotRegistered => String::from_str("WebSocket client is not registered"),
            RpcError::WebSocketSendError(e) => {
                let mut m = String::from_str("Could not send message to address: ");
                m.append(e.as_str());
                m
            },
        }
    }
}

/// An unknown method's failure carries the method-not-found code and embeds
/// the requested name in its message.
pub proof fn lemma_method_not_found_error(name: String)
    ensures
        RpcError::MethodNotFound(name).spec_code() == -32601i16,
        RpcError::MethodNotFound(name).spec_message() == "Method '"@ + name@ + "' in request was not found"@,
{
}

/// A failure bound to the request that provoked it: the correlation id to
/// echo (when one could be recovered) and the failure itself.
#[derive(Debug)]
pub struct RpcResponseError {
    pub id: Option<u64>,
    pub error: RpcError,
}

impl RpcResponseError {
    pub fn new(id: Option<u64>, error: RpcError) -> (r: Self)
        ensures
            r.id == id,
            r.error == error,
    {
        Self { id, error }
    }

    /// The correlation id as it appears on the wire: the echoed id, or null
    /// when none could be recovered from the request.
    pub fn get_id(&self) -> (v: JsonValue)
        ensures
            self.id matches Some(n) ==> v == JsonValue::UInt(n),
            self.id is None ==> v is Null,
    {
        match self.id {
            Some(n) => JsonValue::UInt(n),
            None => JsonValue::Null,
        }
    }
}

} // verus!
