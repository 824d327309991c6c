//! The mining admission gateway: validates an inbound miner's claimed
//! address and worker name against the node's configured network before the
//! connection may be handed to the mining work-distribution subsystem.
//! Rejected miners never reach that subsystem.
//!
//! Addresses are modelled as text: a network prefix (`xel:` on mainnet,
//! `xet:` on testnet) followed by at least 64 lowercase hex digits. The
//! first 64 digits encode the 32 public-key bytes; an address with exactly
//! those digits is in normal form, while trailing digits beyond them mark an
//! integrated variant carrying extra embedded data.

use vstd::prelude::*;
use vstd::string::StringExecFns;
use vstd::string::StringSliceAdditionalSpecFns;

verus! {

/// Why a miner was turned away. Each reason maps to one fixed,
/// caller-visible string; no internal detail leaks past it.
#[derive(PartialEq, Eq, Structural, Clone, Copy, Debug)]
pub enum AdmissionError {
    MiningDisabled,
    WorkerNameTooLong,
    InvalidAddress,
    AddressNotNormal,
    NetworkMismatch,
}

impl AdmissionError {
    /// The fixed reason string shown to the rejected miner.
    pub open spec fn spec_reason(&self) -> Seq<char> {
        match self {
            AdmissionError::MiningDisabled => "GetWork server is not enabled"@,
            AdmissionError::WorkerNameTooLong => "Worker name must be less or equal to 32 chars"@,
            AdmissionError::InvalidAddress => "Invalid miner address for getwork server"@,
            AdmissionError::AddressNotNormal => "Address should be in normal format"@,
            AdmissionError::NetworkMismatch => "Address is not in same network state"@,
        }
    }

    pub fn reason(&self) -> (m: String)
        ensures
            m@ == self.spec_reason(),
    {
        match self {
            AdmissionError::MiningDisabled => String::from_str("GetWork server is not enabled"),
            AdmissionError::WorkerNameTooLong => String::from_str("Worker name must be less or equal to 32 chars"),
            AdmissionError::InvalidAddress => String::from_str("Invalid miner address for getwork server"),
            AdmissionError::AddressNotNormal => String::from_str("Address should be in normal format"),
            AdmissionError::NetworkMismatch => String::from_str("Address is not in same network state"),
        }
    }
}

pub open spec fn is_hex_digit(b: u8) -> bool {
    (48 <= b && b <= 57) || (97 <= b && b <= 102)
}

/// The value of one lowercase hex digit.
pub open spec fn hex_val(b: u8) -> u8
    recommends
        is_hex_digit(b),
{
    if b <= 57 {
        (b - 48) as u8
    } else {
        (b - 97 + 10) as u8
    }
}

/// Whether the text starts with the network prefix of the given network.
pub open spec fn has_prefix(b: Seq<u8>, mainnet: bool) -> bool {
    &&& b.len() >= 4
    &&& b[0] == 120u8
    &&& b[1] == 101u8
    &&& b[2] == (if mainnet { 108u8 } else { 116u8 })
    &&& b[3] == 58u8
}

/// A structurally valid address: either network prefix, then at least 64
/// lowercase hex digits and nothing else.
pub open spec fn spec_valid_address(b: Seq<u8>) -> bool {
    &&& (has_prefix(b, true) || has_prefix(b, false))
    &&& b.len() >= 68
    &&& forall|i: int| 4 <= i < b.len() ==> is_hex_digit(#[trigger] b[i])
}

/// The network flag embedded in a valid address.
pub open spec fn spec_is_mainnet(b: Seq<u8>) -> bool {
    has_prefix(b, true)
}

/// Normal form: exactly the 64 key digits, no extra embedded data.
pub open spec fn spec_is_normal(b: Seq<u8>) -> bool {
    b.len() == 68
}

/// The `i`-th public-key byte encoded in a valid address.
pub open spec fn spec_key_byte(b: Seq<u8>, i: int) -> u8
    recommends
        spec_valid_address(b),
        0 <= i < 32,
{
    ((hex_val(b[4 + 2 * i]) as int) * 16 + (hex_val(b[4 + 2 * i + 1]) as int)) as u8
}

fn hex_digit_value(b: u8) -> (r: Option<u8>)
    ensures
        r is Some <==> is_hex_digit(b),
        r matches Some(v) ==> v == hex_val(b) && v < 16,
{
    if 48 <= b && b <= 57 {
        Some(b - 48)
    } else if 97 <= b && b <= 102 {
        Some(b - 97 + 10)
    } else {
        None
    }
}

/// A parsed miner address: its network flag, whether it is in normal form,
/// and the 32 public-key bytes it encodes.
pub struct Address {
    mainnet: bool,
    normal: bool,
    key: Vec<u8>,
}

impl Address {
    pub closed spec fn spec_mainnet(&self) -> bool {
        self.mainnet
    }

    pub closed spec fn spec_normal(&self) -> bool {
        self.normal
    }

    pub closed spec fn spec_key(&self) -> Seq<u8> {
        self.key@
    }

    pub fn is_mainnet(&self) -> (r: bool)
        ensures
            r == self.spec_mainnet(),
    {
        self.mainnet
    }

    pub fn is_normal(&self) -> (r: bool)
        ensures
            r == self.spec_normal(),
    {
        self.normal
    }

    /// Hands out the public-key bytes; the address keeps nothing back.
    pub fn to_public_key(self) -> (r: Vec<u8>)
        ensures
            r@ == self.spec_key(),
    {
        self.key
    }

    /// Parses a claimed address. It succeeds exactly on structurally valid
    /// text, and what comes out is determined by that text: the embedded
    /// network flag, the normal-form flag, and the decoded key bytes.
    pub fn from_string(s: &str) -> (r: Option<Address>)
        ensures
            r is Some <==> spec_valid_address(s.spec_bytes()),
            r matches Some(a) ==> {
                &&& a.spec_mainnet() == spec_is_mainnet(s.spec_bytes())
                &&& a.spec_normal() == spec_is_normal(s.spec_bytes())
                &&& a.spec_key().len() == 32
                &&& forall|i: int| 0 <= i < 32 ==> a.spec_key()[i] == spec_key_byte(s.spec_bytes(), i)
            },
    {
        let b = s.as_bytes();
        if b.len() < 68 {
            return None;
        }
        let mainnet = if b[0] == 120 && b[1] == 101 && b[2] == 108 && b[3] == 58 {
            true
        } else if b[0] == 120 && b[1] == 101 && b[2] == 116 && b[3] == 58 {
            false
        } else {
            return None;
        };
        let mut i: usize = 4;
        while i < b.len()
            invariant
                b@ == s.spec_bytes(),
                4 <= i <= b@.len(),
                forall|j: int| 4 <= j < i ==> is_hex_digit(#[trigger] b@[j]),
            decreases b@.len() - i,
        {
            if hex_digit_value(b[i]).is_none() {
                return None;
            }
            i = i + 1;
        }
        let mut key: Vec<u8> = Vec::new();
        let mut k: usize = 0;
        while k < 32
            invariant
                k <= 32,
                b@.len() >= 68,
                forall|j: int| 4 <= j < b@.len() ==> is_hex_digit(#[trigger] b@[j]),
                key@.len() == k,
                forall|j: int| 0 <= j < k ==> key@[j] == spec_key_byte(b@, j),
            decreases 32 - k,
        {
            let hi = match hex_digit_value(b[4 + 2 * k]) {
                Some(v) => v,
                None => {
                    return None;
                },
            };
            let lo = match hex_digit_value(b[4 + 2 * k + 1]) {
                Some(v) => v,
                None => {
                    return None;
                },
            };
            key.push(hi * 16 + lo);
            k = k + 1;
        }
        Some(Address { mainnet, normal: b.len() == 68, key })
    }
}

/// What an accepted miner hands to the mining subsystem: the address's
/// public-key material and the worker name.
#[derive(Debug)]
pub struct MinerAdmission {
    pub key: Vec<u8>,
    pub worker: String,
}

/// Validates a miner's claimed address and worker name against the node's
/// network. Checks run in a fixed order and stop at the first failure:
/// mining enabled at all, worker name at most 32 bytes, address parses,
/// address in normal form, address network equal to the node's. On success
/// the public-key material and worker name are handed on; the gateway owes
/// nothing further.
pub fn admit_miner(mining_enabled: bool, claimed_address: &str, worker_name: &str, node_mainnet: bool) -> (r: Result<MinerAdmission, AdmissionError>)
    ensures
        !mining_enabled ==> r == Err::<MinerAdmission, AdmissionError>(AdmissionError::MiningDisabled),
        mining_enabled && worker_name.spec_bytes().len() > 32 ==> r == Err::<MinerAdmission, AdmissionError>(AdmissionError::WorkerNameTooLong),
        mining_enabled && worker_name.spec_bytes().len() <= 32 && !spec_valid_address(claimed_address.spec_bytes())
            ==> r == Err::<MinerAdmission, AdmissionError>(AdmissionError::InvalidAddress),
        mining_enabled && worker_name.spec_bytes().len() <= 32 && spec_valid_address(claimed_address.spec_bytes())
            && !spec_is_normal(claimed_address.spec_bytes())
            ==> r == Err::<MinerAdmission, AdmissionError>(AdmissionError::AddressNotNormal),
        mining_enabled && worker_name.spec_bytes().len() <= 32 && spec_valid_address(claimed_address.spec_bytes())
            && spec_is_normal(claimed_address.spec_bytes())
            && spec_is_mainnet(claimed_address.spec_bytes()) != node_mainnet
            ==> r == Err::<MinerAdmission, AdmissionError>(AdmissionError::NetworkMismatch),
        mining_enabled && worker_name.spec_bytes().len() <= 32 && spec_valid_address(claimed_address.spec_bytes())
            && spec_is_normal(claimed_address.spec_bytes())
            && spec_is_mainnet(claimed_address.spec_bytes()) == node_mainnet
            ==> (r matches Ok(a)
                && a.worker@ == worker_name@
                && a.key@.len() == 32
                && (forall|i: int| 0 <= i < 32 ==> a.key@[i] == spec_key_byte(claimed_address.spec_bytes(), i))),
{
    if !mining_enabled {
        return Err(AdmissionError::MiningDisabled);
    }
    if worker_name.as_bytes().len() > 32 {
        return Err(AdmissionError::WorkerNameTooLong);
    }
    let address = match Address::from_string(claimed_address) {
        Some(a) => a,
        None => {
            return Err(AdmissionError::InvalidAddress);
        },
    };
    if !address.is_normal() {
        return Err(AdmissionError::AddressNotNormal);
    }
    if address.is_mainnet() != node_mainnet {
        return Err(AdmissionError::NetworkMismatch);
    }
    let key = address.to_public_key();
    Ok(MinerAdmission { key, worker: worker_name.to_owned() })
}

} // verus!
