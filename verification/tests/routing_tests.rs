use stfx::tsp::error::TspError;
use stfx::tsp::routing::{
    forward_message, process_routed_message, RouteEntry, RouteTable, NANOS_PER_SEC,
};
use stfx::tsp::types::{CryptoType, MessageType, ReceivedTspMessage, SignatureType, TspPayload};

const T0: u128 = 1_700_000_000 * NANOS_PER_SEC;

#[test]
fn test_route_table_add_get() {
    let mut table = RouteTable::new();

    let route = vec!["relay1".to_string(), "relay2".to_string()];
    table.add_route("did:peer:bob".to_string(), route.clone());

    let retrieved = table.get_route("did:peer:bob").unwrap();
    assert_eq!(retrieved, route);
}

#[test]
fn test_route_validity() {
    let mut table = RouteTable::with_ttl(1); // 1 second TTL
    let route = vec!["relay".to_string()];
    table.add_route_at("did:peer:bob".to_string(), route, T0);

    // Should exist immediately
    assert!(table.get_route_at("did:peer:bob", T0).is_some());

    // Should be expired two seconds later
    assert!(table.get_route_at("did:peer:bob", T0 + 2 * NANOS_PER_SEC).is_none());
}

#[test]
fn test_cleanup_stale_routes() {
    let mut table = RouteTable::with_ttl(1);

    table.add_route_at("vid1".to_string(), vec!["relay".to_string()], T0);
    assert_eq!(table.list_routes_at(T0).len(), 1);

    table.cleanup_stale_routes_at(T0 + 2 * NANOS_PER_SEC);

    assert_eq!(table.list_routes_at(T0 + 2 * NANOS_PER_SEC).len(), 0);
    assert_eq!(table.list_routes_at(T0).len(), 0);
}

#[test]
fn a_route_lives_for_whole_seconds_below_the_ttl() {
    let mut table = RouteTable::with_ttl(10);
    let hops = vec!["r".to_string()];
    table.add_route_at("bob".to_string(), hops.clone(), T0);

    assert_eq!(table.get_route_at("bob", T0), Some(hops.clone()));
    assert_eq!(table.get_route_at("bob", T0 + 9 * NANOS_PER_SEC), Some(hops.clone()));
    assert_eq!(table.get_route_at("bob", T0 + 10 * NANOS_PER_SEC - 1), Some(hops.clone()));
    assert_eq!(table.get_route_at("bob", T0 + 10 * NANOS_PER_SEC), None);
    assert_eq!(table.get_route_at("bob", T0 + 11 * NANOS_PER_SEC), None);
    // A clock that went back finds no valid route.
    assert_eq!(table.get_route_at("bob", T0 - 1), None);
    // Reading never removes: the entry is still there for an earlier time.
    assert_eq!(table.get_route_at("bob", T0 + 1), Some(hops));
}

#[test]
fn a_zero_ttl_keeps_nothing_valid() {
    let mut table = RouteTable::with_ttl(0);
    table.add_route_at("bob".to_string(), vec![], T0);
    assert_eq!(table.get_route_at("bob", T0), None);
}

#[test]
fn the_default_ttl_is_one_hour() {
    let mut table = RouteTable::new();
    table.add_route_at("bob".to_string(), vec!["r".to_string()], T0);
    assert!(table.get_route_at("bob", T0 + 3599 * NANOS_PER_SEC).is_some());
    assert!(table.get_route_at("bob", T0 + 3600 * NANOS_PER_SEC).is_none());
}

#[test]
fn adding_a_route_again_overwrites_it() {
    let mut table = RouteTable::with_ttl(5);
    table.add_route_at("bob".to_string(), vec!["old".to_string()], T0);
    table.add_route_at("bob".to_string(), vec!["new".to_string()], T0 + 4 * NANOS_PER_SEC);
    assert_eq!(
        table.get_route_at("bob", T0 + 8 * NANOS_PER_SEC),
        Some(vec!["new".to_string()])
    );
    assert_eq!(table.list_routes_at(T0 + 8 * NANOS_PER_SEC).len(), 1);
    assert_eq!(table.get_route_at("alice", T0), None);
}

#[test]
fn cleanup_removes_exactly_the_expired_entries() {
    let mut table = RouteTable::with_ttl(10);
    table.add_route_at("old".to_string(), vec!["a".to_string()], T0);
    table.add_route_at("mid".to_string(), vec!["b".to_string()], T0 + 5 * NANOS_PER_SEC);
    table.add_route_at("new".to_string(), vec!["c".to_string()], T0 + 9 * NANOS_PER_SEC);

    let now = T0 + 12 * NANOS_PER_SEC;
    let mut listed = table.list_routes_at(now);
    listed.sort();
    assert_eq!(
        listed,
        vec![
            ("mid".to_string(), vec!["b".to_string()]),
            ("new".to_string(), vec!["c".to_string()]),
        ]
    );

    table.cleanup_stale_routes_at(now);
    // The expired entry is gone even for a time at which it was valid.
    assert_eq!(table.get_route_at("old", T0), None);
    assert_eq!(table.get_route_at("mid", now), Some(vec!["b".to_string()]));
    assert_eq!(table.get_route_at("new", now), Some(vec!["c".to_string()]));
    assert_eq!(table.list_routes_at(now).len(), 2);
}

#[test]
fn clock_driven_operations_agree_with_the_table() {
    let mut table = RouteTable::new();
    table.add_route("bob".to_string(), vec!["r".to_string()]);
    assert_eq!(table.list_routes(), vec![("bob".to_string(), vec!["r".to_string()])]);
    table.cleanup_stale_routes();
    assert_eq!(table.get_route("bob"), Some(vec!["r".to_string()]));
    assert_eq!(table.get_route("carol"), None);
}

#[test]
fn route_entry_validity() {
    let entry = RouteEntry::learned("bob".to_string(), vec!["r".to_string()], T0);
    assert_eq!(entry.vid, "bob");
    assert_eq!(entry.learned_at, T0);
    assert!(entry.is_valid_at(T0, 1));
    assert!(entry.is_valid_at(T0 + NANOS_PER_SEC - 1, 1));
    assert!(!entry.is_valid_at(T0 + NANOS_PER_SEC, 1));
    assert!(!entry.is_valid_at(T0 - 1, 1));
    assert!(!entry.is_valid_at(T0, 0));

    let fresh = RouteEntry::new("bob".to_string(), vec![]);
    assert!(fresh.is_valid(3600));
    assert!(!fresh.is_valid(0));
    assert_eq!(fresh.clone().hops, fresh.hops);
}

#[test]
fn test_forward_message() {
    let route = vec!["relay1".to_string(), "relay2".to_string(), "did:peer:bob".to_string()];

    let payload = TspPayload::Content(b"hello".to_vec());

    let (next_hop, _msg) =
        forward_message("did:peer:alice", "did:peer:bob", &route, &payload).unwrap();

    assert_eq!(next_hop, "relay1");
}

#[test]
fn forward_message_embeds_the_remaining_hops_and_the_payload() {
    let route = vec!["relay1".to_string(), "relay2".to_string(), "did:peer:bob".to_string()];
    let payload = TspPayload::Content(b"hello".to_vec());
    let (next_hop, msg) = forward_message("a", "b", &route, &payload).unwrap();
    assert_eq!(next_hop, "relay1");
    match TspPayload::from_bytes(&msg).unwrap() {
        TspPayload::RoutedMessage { hops, payload: inner } => {
            assert_eq!(hops, vec!["relay2".to_string(), "did:peer:bob".to_string()]);
            assert_eq!(inner, payload.to_bytes());
        }
        _ => panic!("expected a routed message"),
    }

    let (only, msg) = forward_message("a", "b", &vec!["last".to_string()], &payload).unwrap();
    assert_eq!(only, "last");
    match TspPayload::from_bytes(&msg).unwrap() {
        TspPayload::RoutedMessage { hops, .. } => assert!(hops.is_empty()),
        _ => panic!("expected a routed message"),
    }
}

#[test]
fn forward_message_refuses_an_empty_route() {
    let payload = TspPayload::Content(vec![]);
    match forward_message("a", "b", &vec![], &payload) {
        Err(TspError::InvalidRoute(m)) => assert_eq!(m, "Route is empty"),
        _ => panic!("expected an invalid route"),
    }
}

#[test]
fn test_process_routed_message_final_hop() {
    let payload = TspPayload::Content(b"test content".to_vec());
    let payload_bytes = payload.to_bytes();

    let result = process_routed_message("did:peer:alice", &vec![], &payload_bytes).unwrap();

    match result {
        ReceivedTspMessage::GenericMessage { message, .. } => {
            assert_eq!(message, b"test content".to_vec());
        }
        _ => panic!("Expected GenericMessage"),
    }
}

#[test]
fn the_final_hop_reports_sender_and_plaintext_type() {
    let bytes = TspPayload::Content(vec![1, 2]).to_bytes();
    match process_routed_message("alice", &vec![], &bytes).unwrap() {
        ReceivedTspMessage::GenericMessage { sender, receiver, message, message_type } => {
            assert_eq!(sender, "alice");
            assert_eq!(receiver, None);
            assert_eq!(message, vec![1, 2]);
            assert_eq!(
                message_type,
                MessageType {
                    crypto_type: CryptoType::Plaintext,
                    signature_type: SignatureType::NoSignature
                }
            );
        }
        _ => panic!("expected a generic message"),
    }
}

#[test]
fn the_final_hop_passes_other_payloads_through_as_they_came() {
    let bytes = TspPayload::Referral { referred_vid: "carol".to_string() }.to_bytes();
    match process_routed_message("alice", &vec![], &bytes).unwrap() {
        ReceivedTspMessage::GenericMessage { message, .. } => assert_eq!(message, bytes),
        _ => panic!("expected a generic message"),
    }
}

#[test]
fn an_intermediate_hop_is_refused() {
    let bytes = TspPayload::Content(vec![1]).to_bytes();
    match process_routed_message("alice", &vec!["next".to_string()], &bytes) {
        Err(TspError::InvalidRoute(m)) => {
            assert_eq!(m, "Intermediate relay needs forwarding logic")
        }
        _ => panic!("expected an invalid route"),
    }
    // The hops are looked at before the payload.
    assert!(matches!(
        process_routed_message("alice", &vec!["next".to_string()], b"junk"),
        Err(TspError::InvalidRoute(_))
    ));
}

#[test]
fn the_final_hop_refuses_bytes_that_are_no_payload() {
    assert!(matches!(
        process_routed_message("alice", &vec![], b"junk"),
        Err(TspError::MessageFormat(_))
    ));
    assert!(matches!(
        process_routed_message("alice", &vec![], b""),
        Err(TspError::MessageFormat(_))
    ));
}
