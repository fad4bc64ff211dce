use stfx::crypto::hash::blake2b256;
use stfx::tsp::error::TspError;
use stfx::tsp::handler::TspHandler;
use stfx::tsp::message::TspMessage;
use stfx::tsp::routing::{RouteTable, NANOS_PER_SEC};
use stfx::tsp::types::{
    CryptoType, MessageType, ReceivedTspMessage, RelationshipStatus, SignatureType, TspPayload,
};
use stfx::tsp::wallet::TspWallet;

const T0: u128 = 1_700_000_000 * NANOS_PER_SEC;

fn alice_and_bob() -> TspWallet {
    let mut wallet = TspWallet::new();
    wallet.add_private_vid("alice".to_string(), Some(b"dummy-key".to_vec()), None).unwrap();
    wallet.add_verified_vid("bob".to_string(), None).unwrap();
    wallet
}

#[test]
fn test_handler_creation() {
    let wallet = TspWallet::new();
    let handler = TspHandler::new(wallet);
    assert!(handler.wallet().list_vids().unwrap().is_empty());
}

#[test]
fn test_propose_relationship() {
    let mut handler = TspHandler::new(alice_and_bob());
    let result = handler.propose_relationship("alice", "bob");
    assert!(result.is_ok());
}

#[test]
fn test_propose_nonexistent_sender() {
    let mut wallet = TspWallet::new();
    wallet.add_verified_vid("bob".to_string(), None).unwrap();

    let mut handler = TspHandler::new(wallet);
    let result = handler.propose_relationship("alice", "bob");
    assert!(result.is_err());
}

#[test]
fn a_proposal_stores_the_status_and_carries_the_thread_id() {
    let mut handler = TspHandler::new(alice_and_bob());
    let (url, bytes) = handler.propose_relationship("alice", "bob").unwrap();
    assert_eq!(url.as_str(), "tcp://127.0.0.1:8080");

    let thread_id = blake2b256(b"alicebob").to_vec();
    // The status is kept under the receiver, with the sender as counterparty.
    assert_eq!(
        handler.wallet().get_relationship("bob", "alice").unwrap(),
        RelationshipStatus::Unidirectional { thread_id: thread_id.clone() }
    );
    let bob = handler.wallet().get_vid("bob").unwrap().unwrap();
    assert_eq!(bob.relation_vid, Some("alice".to_string()));
    let alice = handler.wallet().get_vid("alice").unwrap().unwrap();
    assert_eq!(alice.relation_status, RelationshipStatus::Unrelated);

    let message = TspMessage::from_bytes(&bytes).unwrap();
    assert_eq!(message.sender, "alice");
    assert_eq!(message.receiver, Some("bob".to_string()));
    assert_eq!(message.nonconfidential_data, None);
    match TspPayload::from_bytes(&message.payload).unwrap() {
        TspPayload::RequestRelationship { route, thread_id: carried } => {
            assert_eq!(route, None);
            assert_eq!(carried, thread_id);
        }
        _ => panic!("expected a relationship request"),
    }
}

#[test]
fn a_proposal_fails_before_anything_changes() {
    let mut wallet = TspWallet::new();
    wallet.add_verified_vid("alice".to_string(), None).unwrap();
    wallet.add_private_vid("carol".to_string(), Some(vec![1]), None).unwrap();
    let mut handler = TspHandler::new(wallet);

    // A sender that is known but not private.
    match handler.propose_relationship("alice", "carol") {
        Err(TspError::MissingPrivateVid(vid)) => assert_eq!(vid, "alice"),
        _ => panic!("expected a missing private identifier"),
    }
    // The sender is looked at first.
    match handler.propose_relationship("nobody", "nobody-else") {
        Err(TspError::MissingPrivateVid(vid)) => assert_eq!(vid, "nobody"),
        _ => panic!("expected a missing private identifier"),
    }
    // A receiver that is not known.
    match handler.propose_relationship("carol", "bob") {
        Err(TspError::UnverifiedVid(vid)) => assert_eq!(vid, "bob"),
        _ => panic!("expected an unknown identifier"),
    }
    for name in ["alice", "carol"] {
        let context = handler.wallet().get_vid(name).unwrap().unwrap();
        assert_eq!(context.relation_status, RelationshipStatus::Unrelated);
        assert_eq!(context.relation_vid, None);
    }
    assert_eq!(handler.wallet().list_vids().unwrap().len(), 2);
}

#[test]
fn test_complete_relationship_workflow() {
    let mut alice_wallet = TspWallet::new();
    let mut bob_wallet = TspWallet::new();

    alice_wallet
        .add_private_vid("did:peer:alice".to_string(), Some(b"alice-key".to_vec()), None)
        .unwrap();
    bob_wallet
        .add_private_vid("did:peer:bob".to_string(), Some(b"bob-key".to_vec()), None)
        .unwrap();
    alice_wallet.add_verified_vid("did:peer:bob".to_string(), None).unwrap();
    bob_wallet.add_verified_vid("did:peer:alice".to_string(), None).unwrap();

    let mut alice_handler = TspHandler::new(alice_wallet);
    let mut bob_handler = TspHandler::new(bob_wallet);

    let (_, propose_msg) =
        alice_handler.propose_relationship("did:peer:alice", "did:peer:bob").unwrap();

    let received = bob_handler.handle_message(propose_msg).unwrap();

    match received {
        ReceivedTspMessage::RequestRelationship { sender, .. } => {
            assert_eq!(sender, "did:peer:alice");
        }
        _ => panic!("Expected RequestRelationship"),
    }
}

#[test]
fn test_routing_workflow() {
    let mut alice_wallet = TspWallet::new();
    let mut relay_wallet = TspWallet::new();
    let mut bob_wallet = TspWallet::new();

    alice_wallet
        .add_private_vid("did:peer:alice".to_string(), Some(b"alice-key".to_vec()), None)
        .unwrap();
    relay_wallet
        .add_private_vid("did:peer:relay".to_string(), Some(b"relay-key".to_vec()), None)
        .unwrap();
    bob_wallet
        .add_private_vid("did:peer:bob".to_string(), Some(b"bob-key".to_vec()), None)
        .unwrap();
    alice_wallet.add_verified_vid("did:peer:bob".to_string(), None).unwrap();

    let mut alice_handler = TspHandler::new(alice_wallet);
    let mut bob_handler = TspHandler::new(bob_wallet);

    alice_handler.add_route("did:peer:bob".to_string(), vec!["did:peer:relay".to_string()]);

    let routes = alice_handler.list_routes();
    assert_eq!(routes.len(), 1);
    assert_eq!(routes[0].0, "did:peer:bob");
    assert_eq!(routes[0].1, vec!["did:peer:relay".to_string()]);

    let (_, msg) = alice_handler.propose_relationship("did:peer:alice", "did:peer:bob").unwrap();

    let received = bob_handler.handle_message(msg).unwrap();

    match received {
        ReceivedTspMessage::RequestRelationship { sender, .. } => {
            assert_eq!(sender, "did:peer:alice");
        }
        _ => panic!("Expected RequestRelationship"),
    }
}

#[test]
fn test_relationship_state_transitions() {
    let mut handler = TspHandler::new(alice_and_bob());

    let (_, msg1) = handler.propose_relationship("alice", "bob").unwrap();

    let proposal_msg = TspMessage::from_bytes(&msg1).unwrap();
    let payload = TspPayload::from_bytes(&proposal_msg.payload).unwrap();
    let thread_id = match payload {
        TspPayload::RequestRelationship { thread_id, .. } => thread_id,
        _ => panic!("Expected RequestRelationship payload"),
    };

    let (_, msg2) = handler.accept_relationship("bob", "alice", &thread_id).unwrap();

    assert!(!msg1.is_empty());
    assert!(!msg2.is_empty());
}

#[test]
fn acceptance_makes_the_relationship_bidirectional() {
    let mut handler = TspHandler::new(alice_and_bob());
    handler.propose_relationship("alice", "bob").unwrap();
    let thread_id = blake2b256(b"alicebob").to_vec();

    let (url, bytes) = handler.accept_relationship("bob", "alice", &thread_id).unwrap();
    assert_eq!(url.as_str(), "tcp://127.0.0.1:8080");
    assert_eq!(
        handler.wallet().get_relationship("bob", "alice").unwrap(),
        RelationshipStatus::Bidirectional {
            thread_id: thread_id.clone(),
            outstanding_nested_thread_ids: vec![]
        }
    );
    let envelope = TspMessage::from_bytes(&bytes).unwrap();
    assert_eq!(envelope.sender, "alice");
    assert_eq!(envelope.receiver, Some("bob".to_string()));
    assert!(envelope.payload.is_empty());

    // A second acceptance starts from a bidirectional relationship.
    match handler.accept_relationship("bob", "alice", &thread_id) {
        Err(TspError::Relationship(m)) => assert_eq!(m, "Cannot accept from current state"),
        _ => panic!("expected a relationship error"),
    }
}

#[test]
fn acceptance_is_refused_without_changing_anything() {
    let mut handler = TspHandler::new(alice_and_bob());
    // Nothing was proposed.
    match handler.accept_relationship("bob", "alice", &vec![1]) {
        Err(TspError::Relationship(m)) => assert_eq!(m, "Cannot accept from current state"),
        _ => panic!("expected a relationship error"),
    }
    handler.propose_relationship("alice", "bob").unwrap();
    // Another thread id.
    assert!(matches!(
        handler.accept_relationship("bob", "alice", &vec![1]),
        Err(TspError::ThreadIdMismatch)
    ));
    assert_eq!(
        handler.wallet().get_relationship("bob", "alice").unwrap(),
        RelationshipStatus::Unidirectional { thread_id: blake2b256(b"alicebob").to_vec() }
    );
    // The receiver must be private, the sender known.
    match handler.accept_relationship("alice", "bob", &vec![1]) {
        Err(TspError::MissingPrivateVid(vid)) => assert_eq!(vid, "bob"),
        _ => panic!("expected a missing private identifier"),
    }
    match handler.accept_relationship("carol", "alice", &vec![1]) {
        Err(TspError::UnverifiedVid(vid)) => assert_eq!(vid, "carol"),
        _ => panic!("expected an unknown identifier"),
    }
}

#[test]
fn acceptance_of_a_remote_proposal() {
    let mut wallet = alice_and_bob();
    wallet
        .set_relationship(
            "bob",
            RelationshipStatus::ReverseUnidirectional { thread_id: vec![5] },
            Some("alice".to_string()),
        )
        .unwrap();
    let mut handler = TspHandler::new(wallet);
    handler.accept_relationship("bob", "alice", &vec![5]).unwrap();
    assert_eq!(
        handler.wallet().get_relationship("bob", "alice").unwrap(),
        RelationshipStatus::bi(vec![5])
    );
}

#[test]
fn cancellation_resets_the_pair() {
    let mut wallet = TspWallet::new();
    wallet.add_verified_vid("alice".to_string(), None).unwrap();
    wallet.add_verified_vid("bob".to_string(), None).unwrap();
    wallet
        .set_relationship("bob", RelationshipStatus::bi(vec![1]), Some("alice".to_string()))
        .unwrap();
    wallet
        .set_relationship("alice", RelationshipStatus::bi(vec![2]), Some("carol".to_string()))
        .unwrap();
    let mut handler = TspHandler::new(wallet);

    let (url, bytes) = handler.cancel_relationship("alice", "bob").unwrap();
    assert_eq!(url.as_str(), "tcp://127.0.0.1:8080");
    // The entry that held the relationship of the pair is reset.
    assert_eq!(
        handler.wallet().get_relationship("bob", "alice").unwrap(),
        RelationshipStatus::Unrelated
    );
    let bob = handler.wallet().get_vid("bob").unwrap().unwrap();
    assert_eq!(bob.relation_status, RelationshipStatus::Unrelated);
    assert_eq!(bob.relation_vid, None);
    // The sender's own entry, which holds another relationship, is not touched.
    assert_eq!(
        handler.wallet().get_relationship("alice", "carol").unwrap(),
        RelationshipStatus::bi(vec![2])
    );
    let envelope = TspMessage::from_bytes(&bytes).unwrap();
    assert_eq!(envelope.sender, "alice");
    assert_eq!(envelope.receiver, Some("bob".to_string()));
    assert!(envelope.payload.is_empty());

    // There is nothing left to cancel, and nothing left to accept.
    match handler.cancel_relationship("alice", "bob") {
        Err(TspError::Relationship(m)) => assert_eq!(m, "No relationship to cancel"),
        _ => panic!("expected a relationship error"),
    }
}

#[test]
fn a_cancelled_proposal_can_no_longer_be_accepted() {
    let mut handler = TspHandler::new(alice_and_bob());
    handler.propose_relationship("alice", "bob").unwrap();
    let thread_id = blake2b256(b"alicebob").to_vec();
    handler.cancel_relationship("alice", "bob").unwrap();
    assert_eq!(
        handler.wallet().get_relationship("bob", "alice").unwrap(),
        RelationshipStatus::Unrelated
    );
    match handler.accept_relationship("bob", "alice", &thread_id) {
        Err(TspError::Relationship(m)) => assert_eq!(m, "Cannot accept from current state"),
        _ => panic!("expected a relationship error"),
    }
    assert!(handler.cancel_relationship("alice", "bob").is_err());
}

#[test]
fn cancellation_from_every_standing_status() {
    let standing = vec![
        RelationshipStatus::Unidirectional { thread_id: vec![1] },
        RelationshipStatus::ReverseUnidirectional { thread_id: vec![1] },
        RelationshipStatus::bi(vec![1]),
    ];
    for status in standing {
        let mut wallet = TspWallet::new();
        wallet.add_verified_vid("alice".to_string(), None).unwrap();
        wallet.add_verified_vid("bob".to_string(), None).unwrap();
        wallet.set_relationship("bob", status, Some("alice".to_string())).unwrap();
        let mut handler = TspHandler::new(wallet);
        assert!(handler.cancel_relationship("alice", "bob").is_ok());
        assert_eq!(
            handler.wallet().get_relationship("bob", "alice").unwrap(),
            RelationshipStatus::Unrelated
        );
        assert!(handler.cancel_relationship("alice", "bob").is_err());
    }
}

#[test]
fn cancellation_without_a_relationship_is_refused() {
    let mut handler = TspHandler::new(alice_and_bob());
    match handler.cancel_relationship("alice", "bob") {
        Err(TspError::Relationship(m)) => assert_eq!(m, "No relationship to cancel"),
        _ => panic!("expected a relationship error"),
    }
    // A receiver that is not known stands as unrelated.
    assert!(matches!(
        handler.cancel_relationship("alice", "nobody"),
        Err(TspError::Relationship(_))
    ));
    // A relationship with another counterparty does not count.
    let mut wallet = alice_and_bob();
    wallet
        .set_relationship("bob", RelationshipStatus::bi(vec![1]), Some("carol".to_string()))
        .unwrap();
    let mut handler = TspHandler::new(wallet);
    assert!(matches!(
        handler.cancel_relationship("alice", "bob"),
        Err(TspError::Relationship(_))
    ));
    // The sender need not be known: the entry of the pair is the receiver's.
    let mut wallet = TspWallet::new();
    wallet.add_verified_vid("bob".to_string(), None).unwrap();
    wallet
        .set_relationship("bob", RelationshipStatus::bi(vec![1]), Some("zed".to_string()))
        .unwrap();
    let mut handler = TspHandler::new(wallet);
    assert!(handler.cancel_relationship("zed", "bob").is_ok());
    assert_eq!(
        handler.wallet().get_relationship("bob", "zed").unwrap(),
        RelationshipStatus::Unrelated
    );
    assert_eq!(handler.wallet().list_vids().unwrap(), vec!["bob".to_string()]);
    assert!(matches!(
        handler.cancel_relationship("zed", "bob"),
        Err(TspError::Relationship(_))
    ));
}

fn sealed_type() -> MessageType {
    MessageType { crypto_type: CryptoType::Encrypted, signature_type: SignatureType::Signature }
}

fn message_with(payload: &TspPayload, receiver: Option<&str>) -> Vec<u8> {
    TspMessage::new(
        "alice".to_string(),
        receiver.map(|r| r.to_string()),
        payload.to_bytes(),
        None,
    )
    .to_bytes()
    .unwrap()
}

#[test]
fn content_is_dispatched_as_a_generic_message() {
    let mut handler = TspHandler::new(TspWallet::new());
    let bytes = message_with(&TspPayload::Content(vec![1, 2, 3]), Some("bob"));
    match handler.handle_message(bytes).unwrap() {
        ReceivedTspMessage::GenericMessage { sender, receiver, message, message_type } => {
            assert_eq!(sender, "alice");
            assert_eq!(receiver, Some("bob".to_string()));
            assert_eq!(message, vec![1, 2, 3]);
            assert_eq!(message_type, sealed_type());
        }
        _ => panic!("expected a generic message"),
    }
}

#[test]
fn relationship_messages_are_dispatched_by_kind() {
    let mut handler = TspHandler::new(TspWallet::new());
    let request = TspPayload::RequestRelationship { route: None, thread_id: vec![7] };
    match handler.handle_message(message_with(&request, Some("bob"))).unwrap() {
        ReceivedTspMessage::RequestRelationship {
            sender,
            receiver,
            route,
            thread_id,
            nested_vid,
        } => {
            assert_eq!(sender, "alice");
            assert_eq!(receiver, "bob");
            assert_eq!(route, None);
            assert_eq!(thread_id, vec![7]);
            assert_eq!(nested_vid, None);
        }
        _ => panic!("expected a relationship request"),
    }
    let accept = TspPayload::AcceptRelationship { thread_id: vec![7] };
    // A message without a receiver is reported with an empty one.
    match handler.handle_message(message_with(&accept, None)).unwrap() {
        ReceivedTspMessage::AcceptRelationship { sender, receiver, nested_vid } => {
            assert_eq!(sender, "alice");
            assert_eq!(receiver, "");
            assert_eq!(nested_vid, None);
        }
        _ => panic!("expected a relationship acceptance"),
    }
    let cancel = TspPayload::CancelRelationship { thread_id: vec![7] };
    match handler.handle_message(message_with(&cancel, Some("bob"))).unwrap() {
        ReceivedTspMessage::CancelRelationship { sender, receiver } => {
            assert_eq!(sender, "alice");
            assert_eq!(receiver, "bob");
        }
        _ => panic!("expected a relationship cancellation"),
    }
    assert!(handler.list_routes().is_empty());
}

#[test]
fn a_request_with_a_route_teaches_the_route_to_its_sender() {
    let mut handler = TspHandler::with_routes(TspWallet::new(), RouteTable::with_ttl(10));
    let hops = vec!["relay1".to_string(), "relay2".to_string()];
    let request = TspPayload::RequestRelationship { route: Some(hops.clone()), thread_id: vec![7] };
    match handler.handle_message_at(message_with(&request, Some("bob")), T0).unwrap() {
        // The route is learned, not reported.
        ReceivedTspMessage::RequestRelationship { route, .. } => assert_eq!(route, None),
        _ => panic!("expected a relationship request"),
    }
    assert_eq!(handler.get_route_at("alice", T0 + 9 * NANOS_PER_SEC), Some(hops.clone()));
    assert_eq!(handler.get_route_at("alice", T0 + 10 * NANOS_PER_SEC), None);
    assert_eq!(handler.list_routes_at(T0), vec![("alice".to_string(), hops)]);
    assert_eq!(handler.get_route_at("bob", T0), None);
}

#[test]
fn unfinished_variants_degrade_to_a_generic_message() {
    let mut handler = TspHandler::new(TspWallet::new());
    let payloads = vec![
        TspPayload::Referral { referred_vid: "carol".to_string() },
        TspPayload::NewIdentifier { thread_id: vec![1], new_vid: "alice2".to_string() },
        TspPayload::NestedMessage { payload: vec![1] },
        TspPayload::RequestNestedRelationship { inner: vec![1], thread_id: vec![2] },
        TspPayload::AcceptNestedRelationship { inner: vec![1], thread_id: vec![2] },
    ];
    for payload in payloads.iter() {
        match handler.handle_message(message_with(payload, Some("bob"))).unwrap() {
            ReceivedTspMessage::GenericMessage { sender, receiver, message, message_type } => {
                assert_eq!(sender, "alice");
                assert_eq!(receiver, Some("bob".to_string()));
                assert_eq!(message, payload.to_bytes());
                assert_eq!(message_type, sealed_type());
            }
            _ => panic!("expected a generic message"),
        }
    }
}

#[test]
fn routed_messages_are_delivered_at_the_final_hop_only() {
    let mut handler = TspHandler::new(TspWallet::new());
    let inner = TspPayload::Content(b"deep".to_vec());
    let last = TspPayload::RoutedMessage { hops: vec![], payload: inner.to_bytes() };
    match handler.handle_message(message_with(&last, Some("bob"))).unwrap() {
        ReceivedTspMessage::GenericMessage { sender, receiver, message, message_type } => {
            assert_eq!(sender, "alice");
            assert_eq!(receiver, None);
            assert_eq!(message, b"deep".to_vec());
            assert_eq!(
                message_type,
                MessageType {
                    crypto_type: CryptoType::Plaintext,
                    signature_type: SignatureType::NoSignature
                }
            );
        }
        _ => panic!("expected a generic message"),
    }
    let onward =
        TspPayload::RoutedMessage { hops: vec!["next".to_string()], payload: inner.to_bytes() };
    match handler.handle_message(message_with(&onward, Some("bob"))) {
        Err(TspError::InvalidRoute(m)) => {
            assert_eq!(m, "Relay not implemented for intermediate hops")
        }
        _ => panic!("expected an invalid route"),
    }
    let junk = TspPayload::RoutedMessage { hops: vec![], payload: b"junk".to_vec() };
    assert!(matches!(
        handler.handle_message(message_with(&junk, Some("bob"))),
        Err(TspError::MessageFormat(_))
    ));
}

#[test]
fn bytes_that_are_no_message_are_refused() {
    let mut handler = TspHandler::new(TspWallet::new());
    assert!(matches!(handler.handle_message(vec![]), Err(TspError::MessageFormat(_))));
    assert!(matches!(
        handler.handle_message(b"not a message".to_vec()),
        Err(TspError::MessageFormat(_))
    ));
    // A message whose payload is no payload.
    let outer =
        TspMessage::new("alice".to_string(), None, b"junk".to_vec(), None).to_bytes().unwrap();
    assert!(matches!(handler.handle_message(outer), Err(TspError::MessageFormat(_))));
    // The acceptance envelope carries an empty payload, which is none either.
    let mut both = TspHandler::new(alice_and_bob());
    both.propose_relationship("alice", "bob").unwrap();
    let (_, envelope) =
        both.accept_relationship("bob", "alice", &blake2b256(b"alicebob").to_vec()).unwrap();
    assert!(TspMessage::from_bytes(&envelope).is_ok());
    assert!(matches!(handler.handle_message(envelope), Err(TspError::MessageFormat(_))));
}

#[test]
fn end_to_end_proposal_and_acceptance() {
    let mut alice_wallet = TspWallet::new();
    alice_wallet.add_private_vid("alice".to_string(), Some(vec![1]), None).unwrap();
    alice_wallet.add_verified_vid("bob".to_string(), None).unwrap();
    let mut bob_wallet = TspWallet::new();
    bob_wallet.add_private_vid("bob".to_string(), Some(vec![2]), None).unwrap();
    bob_wallet.add_verified_vid("alice".to_string(), None).unwrap();
    let mut alice = TspHandler::new(alice_wallet);
    let mut bob = TspHandler::new(bob_wallet);

    let (_, proposal) = alice.propose_relationship("alice", "bob").unwrap();
    let thread_id = match bob.handle_message(proposal.clone()).unwrap() {
        ReceivedTspMessage::RequestRelationship { sender, receiver, thread_id, .. } => {
            assert_eq!(sender, "alice");
            assert_eq!(receiver, "bob");
            thread_id
        }
        _ => panic!("expected a relationship request"),
    };
    assert_eq!(thread_id, blake2b256(b"alicebob").to_vec());

    // Bob, on his side, has nothing pending for this pair yet: he records the
    // remote proposal and then accepts it with the thread id he extracted.
    let mut bob_wallet = TspWallet::new();
    bob_wallet.add_private_vid("bob".to_string(), Some(vec![2]), None).unwrap();
    bob_wallet.add_verified_vid("alice".to_string(), None).unwrap();
    bob_wallet
        .set_relationship(
            "alice",
            RelationshipStatus::ReverseUnidirectional { thread_id: thread_id.clone() },
            Some("bob".to_string()),
        )
        .unwrap();
    let mut bob = TspHandler::new(bob_wallet);
    let (_, acceptance) = bob.accept_relationship("alice", "bob", &thread_id).unwrap();
    assert_eq!(
        bob.wallet().get_relationship("alice", "bob").unwrap(),
        RelationshipStatus::bi(thread_id.clone())
    );

    // Both envelopes deserialize without error.
    assert!(TspMessage::from_bytes(&proposal).is_ok());
    assert!(TspMessage::from_bytes(&acceptance).is_ok());
    // And Alice accepts on her side with the same thread id.
    alice.accept_relationship("bob", "alice", &thread_id).unwrap();
    assert_eq!(
        alice.wallet().get_relationship("bob", "alice").unwrap(),
        RelationshipStatus::bi(thread_id)
    );
}

#[test]
fn the_wallet_can_change_under_the_handler() {
    let mut handler = TspHandler::new(TspWallet::new());
    assert!(handler.propose_relationship("alice", "bob").is_err());
    handler.wallet_mut().add_private_vid("alice".to_string(), Some(vec![1]), None).unwrap();
    handler.wallet_mut().add_verified_vid("bob".to_string(), None).unwrap();
    assert!(handler.propose_relationship("alice", "bob").is_ok());
    let (wallet, routes) = handler.into_parts();
    assert!(wallet.has_private_vid("alice").unwrap());
    assert_eq!(routes.ttl_secs(), 3600);
    assert_eq!(RouteTable::default().ttl_secs(), 3600);
    assert_eq!(RouteTable::with_ttl(5).ttl_secs(), 5);
}

#[test]
fn operations_deliver_to_the_destination_they_are_given() {
    let elsewhere = url::Url::parse("https://relay.example/inbox").unwrap();
    let mut handler = TspHandler::new(alice_and_bob());

    let (to, proposal) =
        handler.propose_relationship_to("alice", "bob", elsewhere.clone()).unwrap();
    assert_eq!(to, elsewhere);
    let thread_id = blake2b256(b"alicebob").to_vec();
    assert_eq!(
        handler.wallet().get_relationship("bob", "alice").unwrap(),
        RelationshipStatus::Unidirectional { thread_id: thread_id.clone() }
    );
    // The bytes are those of the operation on the placeholder.
    let mut other = TspHandler::new(alice_and_bob());
    let (placeholder, same) = other.propose_relationship("alice", "bob").unwrap();
    assert_eq!(placeholder.as_str(), "tcp://127.0.0.1:8080");
    assert_eq!(proposal, same);

    let (to, acceptance) =
        handler.accept_relationship_to("bob", "alice", &thread_id, elsewhere.clone()).unwrap();
    assert_eq!(to, elsewhere);
    assert!(TspMessage::from_bytes(&acceptance).is_ok());
    assert_eq!(
        handler.wallet().get_relationship("bob", "alice").unwrap(),
        RelationshipStatus::bi(thread_id.clone())
    );

    let (to, cancellation) =
        handler.cancel_relationship_to("alice", "bob", elsewhere.clone()).unwrap();
    assert_eq!(to, elsewhere);
    assert!(TspMessage::from_bytes(&cancellation).is_ok());
    assert_eq!(
        handler.wallet().get_relationship("bob", "alice").unwrap(),
        RelationshipStatus::Unrelated
    );
}

#[test]
fn operations_with_a_destination_refuse_as_the_others_do() {
    let elsewhere = url::Url::parse("https://relay.example/inbox").unwrap();
    let mut handler = TspHandler::new(alice_and_bob());
    match handler.propose_relationship_to("bob", "alice", elsewhere.clone()) {
        Err(TspError::MissingPrivateVid(vid)) => assert_eq!(vid, "bob"),
        _ => panic!("expected a missing private identifier"),
    }
    match handler.propose_relationship_to("alice", "carol", elsewhere.clone()) {
        Err(TspError::UnverifiedVid(vid)) => assert_eq!(vid, "carol"),
        _ => panic!("expected an unknown identifier"),
    }
    match handler.accept_relationship_to("bob", "alice", &vec![1], elsewhere.clone()) {
        Err(TspError::Relationship(m)) => assert_eq!(m, "Cannot accept from current state"),
        _ => panic!("expected a relationship error"),
    }
    handler.propose_relationship_to("alice", "bob", elsewhere.clone()).unwrap();
    assert!(matches!(
        handler.accept_relationship_to("bob", "alice", &vec![1], elsewhere.clone()),
        Err(TspError::ThreadIdMismatch)
    ));
    match handler.accept_relationship_to("alice", "bob", &vec![1], elsewhere.clone()) {
        Err(TspError::MissingPrivateVid(vid)) => assert_eq!(vid, "bob"),
        _ => panic!("expected a missing private identifier"),
    }
    match handler.cancel_relationship_to("bob", "alice", elsewhere.clone()) {
        Err(TspError::Relationship(m)) => assert_eq!(m, "No relationship to cancel"),
        _ => panic!("expected a relationship error"),
    }
    assert_eq!(
        handler.wallet().get_relationship("bob", "alice").unwrap(),
        RelationshipStatus::Unidirectional { thread_id: blake2b256(b"alicebob").to_vec() }
    );
}
