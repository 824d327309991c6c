use xelis_rpc::json::JsonValue;
use xelis_rpc::errors::RpcError;
use xelis_rpc::envelope::{build_notification, decode_response, encode_response, RpcRequest, ResponseBody, RpcResponse};
use xelis_rpc::dispatch::{complete_invocation, RpcServer};
use xelis_rpc::registry::{ClientRegistry, ConnectionId, Delivery, EventKind};

fn request(method: &str, id: Option<u64>, params: Option<JsonValue>) -> RpcRequest {
    RpcRequest { jsonrpc: "2.0".to_string(), id, method: method.to_string(), params }
}

#[test]
fn unknown_method_yields_method_not_found_with_the_name() {
    let mut server = RpcServer::new();
    assert!(server.register_method("get_info".to_string()));
    let err = server.execute_method(request("nope", Some(2), None)).unwrap_err();
    assert_eq!(err.id, Some(2));
    match &err.error {
        RpcError::MethodNotFound(name) => assert_eq!(name, "nope"),
        _ => panic!("expected a method-not-found error"),
    }
    assert_eq!(err.error.get_code(), -32601);
    assert_eq!(err.error.message(), "Method 'nope' in request was not found");
}

#[test]
fn known_method_resolves_with_null_params_sentinel() {
    let mut server = RpcServer::new();
    assert!(server.register_method("get_info".to_string()));
    let inv = server.execute_method(request("get_info", Some(1), None)).unwrap();
    assert_eq!(inv.id, Some(1));
    assert_eq!(inv.method, "get_info");
    assert!(matches!(inv.params, JsonValue::Null));
}

#[test]
fn known_method_passes_params_verbatim() {
    let mut server = RpcServer::new();
    assert!(server.register_method("submit".to_string()));
    let inv = server.execute_method(request("submit", None, Some(JsonValue::UInt(9)))).unwrap();
    assert!(matches!(inv.params, JsonValue::UInt(9)));
}

#[test]
fn duplicate_method_registration_is_rejected_and_harmless() {
    let mut server = RpcServer::new();
    assert!(server.register_method("get_info".to_string()));
    assert!(!server.register_method("get_info".to_string()));
    assert!(server.execute_method(request("get_info", None, None)).is_ok());
}

#[test]
fn complete_invocation_wraps_success_and_failure() {
    let ok = complete_invocation(Some(4), Ok(JsonValue::Bool(true))).unwrap();
    match ok {
        JsonValue::Object(fields) => {
            assert_eq!(fields[1].key, "id");
            assert!(matches!(fields[1].value, JsonValue::UInt(4)));
            assert_eq!(fields[2].key, "result");
        },
        _ => panic!("expected an object"),
    }
    let err = complete_invocation(Some(4), Err(RpcError::UnexpectedParams)).unwrap_err();
    assert_eq!(err.id, Some(4));
    assert!(matches!(err.error, RpcError::UnexpectedParams));
}

fn targets(deliveries: &[Delivery]) -> Vec<(u64, Option<u64>)> {
    let mut v: Vec<(u64, Option<u64>)> = deliveries.iter().map(|d| (d.conn.0, d.id)).collect();
    v.sort();
    v
}

#[test]
fn subscribe_then_broadcast_delivers_exactly_once_with_captured_id() {
    let mut reg = ClientRegistry::new();
    reg.add_client(ConnectionId(1));
    reg.subscribe_client_to(ConnectionId(1), EventKind(5), Some(7)).unwrap();
    let hits = reg.notify_clients(EventKind(5));
    assert_eq!(targets(&hits), vec![(1, Some(7))]);
    let misses = reg.notify_clients(EventKind(6));
    assert!(misses.is_empty());
}

#[test]
fn deregistration_removes_all_subscriptions() {
    let mut reg = ClientRegistry::new();
    reg.add_client(ConnectionId(1));
    reg.subscribe_client_to(ConnectionId(1), EventKind(5), Some(7)).unwrap();
    reg.subscribe_client_to(ConnectionId(1), EventKind(6), None).unwrap();
    assert!(reg.remove_client(ConnectionId(1)));
    assert!(reg.notify_clients(EventKind(5)).is_empty());
    assert!(reg.notify_clients(EventKind(6)).is_empty());
}

#[test]
fn removing_an_absent_connection_is_a_noop() {
    let mut reg = ClientRegistry::new();
    assert!(!reg.remove_client(ConnectionId(99)));
    reg.add_client(ConnectionId(1));
    assert!(!reg.remove_client(ConnectionId(99)));
    assert!(reg.remove_client(ConnectionId(1)));
}

#[test]
fn subscribe_and_unsubscribe_refuse_unregistered_connections() {
    let mut reg = ClientRegistry::new();
    let err = reg.subscribe_client_to(ConnectionId(3), EventKind(5), Some(7)).unwrap_err();
    assert!(matches!(err, RpcError::ClientNotRegistered));
    let err = reg.unsubscribe_client_from(ConnectionId(3), EventKind(5)).unwrap_err();
    assert!(matches!(err, RpcError::ClientNotRegistered));
    // no entry was created behind the refusal
    reg.add_client(ConnectionId(3));
    assert!(reg.notify_clients(EventKind(5)).is_empty());
}

#[test]
fn resubscribing_overwrites_the_captured_id() {
    let mut reg = ClientRegistry::new();
    reg.add_client(ConnectionId(1));
    reg.subscribe_client_to(ConnectionId(1), EventKind(5), Some(1)).unwrap();
    reg.subscribe_client_to(ConnectionId(1), EventKind(5), Some(2)).unwrap();
    assert_eq!(targets(&reg.notify_clients(EventKind(5))), vec![(1, Some(2))]);
}

#[test]
fn reregistering_a_connection_resets_its_subscriptions() {
    let mut reg = ClientRegistry::new();
    reg.add_client(ConnectionId(1));
    reg.subscribe_client_to(ConnectionId(1), EventKind(5), Some(7)).unwrap();
    reg.add_client(ConnectionId(1));
    assert!(reg.notify_clients(EventKind(5)).is_empty());
}

#[test]
fn unsubscribe_removes_only_the_named_kind() {
    let mut reg = ClientRegistry::new();
    reg.add_client(ConnectionId(1));
    reg.subscribe_client_to(ConnectionId(1), EventKind(5), Some(7)).unwrap();
    reg.subscribe_client_to(ConnectionId(1), EventKind(6), Some(8)).unwrap();
    reg.unsubscribe_client_from(ConnectionId(1), EventKind(5)).unwrap();
    assert!(reg.notify_clients(EventKind(5)).is_empty());
    assert_eq!(targets(&reg.notify_clients(EventKind(6))), vec![(1, Some(8))]);
    // an absent kind is not an error
    reg.unsubscribe_client_from(ConnectionId(1), EventKind(5)).unwrap();
}

#[test]
fn broadcast_reaches_every_subscriber_once() {
    let mut reg = ClientRegistry::new();
    for c in 1..=4u64 {
        reg.add_client(ConnectionId(c));
    }
    reg.subscribe_client_to(ConnectionId(1), EventKind(5), Some(10)).unwrap();
    reg.subscribe_client_to(ConnectionId(2), EventKind(6), Some(20)).unwrap();
    reg.subscribe_client_to(ConnectionId(3), EventKind(5), None).unwrap();
    assert_eq!(targets(&reg.notify_clients(EventKind(5))), vec![(1, Some(10)), (3, None)]);
    assert_eq!(targets(&reg.notify_clients(EventKind(6))), vec![(2, Some(20))]);
}

// Operations on disjoint connections commute: whatever order an interleaving
// gives them, the registry ends in the same state, with no lost or
// duplicated entries.
#[test]
fn interleavings_on_disjoint_connections_commute() {
    #[derive(Clone, Copy)]
    enum Op {
        Register(u64),
        Subscribe(u64, u64, Option<u64>),
        Deregister(u64),
    }
    // two connections' operation streams
    let c1_ops = [Op::Register(1), Op::Subscribe(1, 5, Some(7)), Op::Subscribe(1, 6, None)];
    let c2_ops = [Op::Register(2), Op::Subscribe(2, 5, Some(9)), Op::Deregister(2)];
    // all ways of interleaving the two streams while keeping each in order
    fn interleave(a: &[Op], b: &[Op], prefix: Vec<Op>, out: &mut Vec<Vec<Op>>) {
        if a.is_empty() && b.is_empty() {
            out.push(prefix);
            return;
        }
        if let Some((first, rest)) = a.split_first() {
            let mut p = prefix.clone();
            p.push(*first);
            interleave(rest, b, p, out);
        }
        if let Some((first, rest)) = b.split_first() {
            let mut p = prefix.clone();
            p.push(*first);
            interleave(a, rest, p, out);
        }
    }
    let mut schedules = Vec::new();
    interleave(&c1_ops, &c2_ops, Vec::new(), &mut schedules);
    assert!(schedules.len() > 1);
    for schedule in schedules {
        let mut reg = ClientRegistry::new();
        for op in schedule {
            match op {
                Op::Register(c) => reg.add_client(ConnectionId(c)),
                Op::Subscribe(c, k, id) => {
                    reg.subscribe_client_to(ConnectionId(c), EventKind(k), id).unwrap();
                },
                Op::Deregister(c) => {
                    reg.remove_client(ConnectionId(c));
                },
            }
        }
        assert_eq!(targets(&reg.notify_clients(EventKind(5))), vec![(1, Some(7))]);
        assert_eq!(targets(&reg.notify_clients(EventKind(6))), vec![(1, None)]);
    }
}

#[test]
fn broadcast_delivers_one_notification_with_captured_id_and_payload() {
    let mut reg = ClientRegistry::new();
    reg.add_client(ConnectionId(1));
    reg.subscribe_client_to(ConnectionId(1), EventKind(5), Some(7)).unwrap();
    let deliveries = reg.notify_clients(EventKind(5));
    assert_eq!(deliveries.len(), 1);
    let envelope = build_notification(
        JsonValue::Str("BlockOrdered".to_string()),
        JsonValue::Str("payload".to_string()),
        deliveries[0].id,
    );
    match envelope {
        JsonValue::Object(fields) => {
            assert!(matches!(fields[1].value, JsonValue::UInt(7)));
            match &fields[2].value {
                JsonValue::Object(inner) => {
                    assert!(matches!(&inner[1].value, JsonValue::Str(s) if s == "payload"));
                },
                _ => panic!("expected the result object"),
            }
        },
        _ => panic!("expected an envelope object"),
    }
    assert!(reg.notify_clients(EventKind(6)).is_empty());
}

#[test]
fn server_delegates_subscription_management() {
    let mut server = RpcServer::new();
    server.add_client(ConnectionId(8));
    server.subscribe_client_to(ConnectionId(8), EventKind(1), Some(3)).unwrap();
    assert_eq!(targets(&server.notify_clients(EventKind(1))), vec![(8, Some(3))]);
    server.unsubscribe_client_from(ConnectionId(8), EventKind(1)).unwrap();
    assert!(server.notify_clients(EventKind(1)).is_empty());
    assert!(server.remove_client(ConnectionId(8)));
}

#[test]
fn response_round_trip_through_dispatch_values() {
    let resp = RpcResponse { id: Some(11), body: ResponseBody::Result(JsonValue::Null) };
    let back = decode_response(encode_response(resp)).unwrap();
    assert_eq!(back.id, Some(11));
    assert!(matches!(back.body, ResponseBody::Result(JsonValue::Null)));
}
