//! The RPC server core: the closed method registry built at startup, request
//! dispatch against it, and the subscriber registry the persistent
//! connections live in. Method handlers themselves run outside the library:
//! dispatch resolves a request to an invocation (or to the error envelope it
//! owes instead), and the handler's outcome is wrapped back into a response
//! here.

use vstd::prelude::*;
use crate::json::JsonValue;
use crate::errors::{RpcError, RpcResponseError};
use crate::envelope;
use crate::envelope::{RpcRequest, is_success_envelope};
use crate::registry::{ClientRegistry, ConnectionId, Delivery, EventKind};

verus! {

/// Whether a method name stands in the registry.
pub open spec fn contains_method(ms: Seq<String>, name: Seq<char>) -> bool {
    exists|i: int| 0 <= i < ms.len() && ms[i]@ == name
}

/// A request resolved against the registry: the correlation id to answer
/// under, the registered method to run, and the parameter value to hand it —
/// the explicit no-value sentinel when the request carried none.
#[derive(Debug)]
pub struct Invocation {
    pub id: Option<u64>,
    pub method: String,
    pub params: JsonValue,
}

/// The request-dispatch and event-fanout core. The method registry is fixed
/// once startup has registered every handler name; the subscriber registry
/// changes for as long as the server runs.
pub struct RpcServer {
    methods: Vec<String>,
    clients: ClientRegistry,
}

impl RpcServer {
    /// The registered method names.
    pub closed spec fn methods_view(&self) -> Seq<String> {
        self.methods@
    }

    /// The subscriber registry's abstract value.
    pub closed spec fn clients_view(&self) -> Map<ConnectionId, Map<EventKind, Option<u64>>> {
        self.clients@
    }

    pub closed spec fn wf(&self) -> bool {
        self.clients.wf()
    }

    pub fn new() -> (r: Self)
        ensures
            r.wf(),
            r.methods_view() == Seq::<String>::empty(),
            r.clients_view() == Map::<ConnectionId, Map<EventKind, Option<u64>>>::empty(),
    {
        RpcServer { methods: Vec::new(), clients: ClientRegistry::new() }
    }

    fn find_method(&self, name: &String) -> (r: Option<usize>)
        ensures
            r matches Some(i) ==> 0 <= i < self.methods@.len() && self.methods@[i as int]@ == name@,
            r is None ==> forall|j: int| 0 <= j < self.methods@.len() ==> self.methods@[j]@ != name@,
    {
        let mut i: usize = 0;
        while i < self.methods.len()
            invariant
                i <= self.methods@.len(),
                forall|j: int| 0 <= j < i ==> self.methods@[j]@ != name@,
            decreases self.methods@.len() - i,
        {
            if self.methods[i] == *name {
                return Some(i);
            }
            i = i + 1;
        }
        None
    }

    /// Adds a method name to the registry. Registering a name twice is a
    /// rejected insertion: the registry keeps its first entry, the caller is
    /// told so, and startup goes on — a guard against registration bugs, not
    /// a runtime fault path.
    pub fn register_method(&mut self, name: String) -> (fresh: bool)
        ensures
            final(self).wf() == old(self).wf(),
            fresh == !contains_method(old(self).methods_view(), name@),
            fresh ==> final(self).methods_view() == old(self).methods_view().push(name),
            !fresh ==> final(self).methods_view() == old(self).methods_view(),
            final(self).clients_view() == old(self).clients_view(),
    {
        match self.find_method(&name) {
            Some(_) => false,
            None => {
                self.methods.push(name);
                true
            },
        }
    }

    /// Reads one Request Envelope out of a JSON value; see
    /// [`envelope::spec_parse`] for everything the result is.
    pub fn parse_request(&self, body: JsonValue) -> (r: Result<RpcRequest, RpcResponseError>)
        ensures
            r == envelope::spec_parse(body),
    {
        envelope::parse_request(body)
    }

    /// Resolves a parsed request against the method registry: an exact name
    /// match yields the invocation to run, with absent parameters replaced
    /// by the explicit no-value sentinel; any other name yields the
    /// method-not-found error carrying the requested name, under the
    /// request's id.
    pub fn execute_method(&self, request: RpcRequest) -> (r: Result<Invocation, RpcResponseError>)
        ensures
            r is Ok <==> contains_method(self.methods_view(), request.method@),
            r matches Ok(inv) ==> {
                &&& inv.id == request.id
                &&& inv.method == request.method
                &&& (request.params matches Some(p) ==> inv.params == p)
                &&& (request.params is None ==> inv.params is Null)
            },
            r matches Err(e) ==> e.id == request.id && e.error == RpcError::MethodNotFound(request.method),
    {
        match self.find_method(&request.method) {
            Some(_) => {
                let params = match request.params {
                    Some(p) => p,
                    None => JsonValue::Null,
                };
                Ok(Invocation { id: request.id, method: request.method, params })
            },
            None => Err(RpcResponseError::new(request.id, RpcError::MethodNotFound(request.method))),
        }
    }

    /// Registers a connection with an empty subscription set; registering it
    /// again resets the set to empty.
    pub fn add_client(&mut self, conn: ConnectionId)
        requires
            old(self).wf(),
        ensures
            final(self).wf(),
            final(self).clients_view() == old(self).clients_view().insert(conn, Map::<EventKind, Option<u64>>::empty()),
            final(self).methods_view() == old(self).methods_view(),
    {
        self.clients.add_client(conn);
    }

    /// Removes a connection and all its subscriptions atomically; removing
    /// an absent connection is a no-op.
    pub fn remove_client(&mut self, conn: ConnectionId) -> (deleted: bool)
        requires
            old(self).wf(),
        ensures
            final(self).wf(),
            deleted == old(self).clients_view().contains_key(conn),
            final(self).clients_view() == old(self).clients_view().remove(conn),
            final(self).methods_view() == old(self).methods_view(),
    {
        self.clients.remove_client(conn)
    }

    /// Inserts or overwrites one (event kind, correlation id) subscription
    /// of a registered connection; an unregistered connection is refused and
    /// nothing is created for it.
    pub fn subscribe_client_to(&mut self, conn: ConnectionId, kind: EventKind, id: Option<u64>) -> (r: Result<(), RpcError>)
        requires
            old(self).wf(),
        ensures
            final(self).wf(),
            r is Ok <==> old(self).clients_view().contains_key(conn),
            r is Ok ==> final(self).clients_view() == old(self).clients_view().insert(conn, old(self).clients_view()[conn].insert(kind, id)),
            r matches Err(e) ==> e is ClientNotRegistered && *final(self) == *old(self),
            final(self).methods_view() == old(self).methods_view(),
    {
        self.clients.subscribe_client_to(conn, kind, id)
    }

    /// Removes one event kind from a registered connection's subscriptions;
    /// an unregistered connection is refused, an absent kind is not an
    /// error.
    pub fn unsubscribe_client_from(&mut self, conn: ConnectionId, kind: EventKind) -> (r: Result<(), RpcError>)
        requires
            old(self).wf(),
        ensures
            final(self).wf(),
            r is Ok <==> old(self).clients_view().contains_key(conn),
            r is Ok ==> final(self).clients_view() == old(self).clients_view().insert(conn, old(self).clients_view()[conn].remove(kind)),
            r matches Err(e) ==> e is ClientNotRegistered && *final(self) == *old(self),
            final(self).methods_view() == old(self).methods_view(),
    {
        self.clients.unsubscribe_client_from(conn, kind)
    }

    /// Selects the broadcast targets for one event kind: exactly the
    /// connections subscribed to it, each once, with the correlation id
    /// captured at subscribe time. Delivery to each target is dispatched
    /// independently outside the library, after the registry is released.
    pub fn notify_clients(&self, kind: EventKind) -> (r: Vec<Delivery>)
        requires
            self.wf(),
        ensures
            forall|k: int| 0 <= k < r@.len() ==> {
                let d = #[trigger] r@[k];
                &&& self.clients_view().contains_key(d.conn)
                &&& self.clients_view()[d.conn].contains_key(kind)
                &&& d.id == self.clients_view()[d.conn][kind]
            },
            forall|c: ConnectionId| #[trigger] self.clients_view().contains_key(c) && self.clients_view()[c].contains_key(kind)
                ==> exists|k: int| 0 <= k < r@.len() && r@[k].conn == c,
            forall|k1: int, k2: int| 0 <= k1 < k2 < r@.len() ==> r@[k1].conn != r@[k2].conn,
    {
        self.clients.notify_clients(kind)
    }
}

/// Wraps a handler's outcome into the one Response Envelope its request is
/// owed: a success envelope around the result value verbatim, or the
/// handler's failure bound to the request's id for the fixed code table to
/// translate.
pub fn complete_invocation(id: Option<u64>, outcome: Result<JsonValue, RpcError>) -> (r: Result<JsonValue, RpcResponseError>)
    ensures
        outcome matches Ok(v) ==> (r matches Ok(env) && is_success_envelope(env, id, v)),
        outcome matches Err(e) ==> (r matches Err(re) && re.id == id && re.error == e),
{
    match outcome {
        Ok(v) => Ok(envelope::make_success_response(id, v)),
        Err(e) => Err(RpcResponseError::new(id, e)),
    }
}

} // verus!
