use stfx::tsp::error::TspError;
use stfx::tsp::message::TspMessage;
use stfx::tsp::types::TspPayload;
use stfx::tsp::wire::{
    append_field, join, read_optional, read_optional_text, read_optional_texts, read_texts, split,
    write_optional, write_optional_text, write_optional_texts, write_text, write_texts,
};

#[test]
fn test_message_serialization() {
    let msg = TspMessage::new(
        "did:peer:alice".to_string(),
        Some("did:peer:bob".to_string()),
        b"hello".to_vec(),
        None,
    );

    let bytes = msg.to_bytes().unwrap();
    let restored = TspMessage::from_bytes(&bytes).unwrap();

    assert_eq!(restored.sender, "did:peer:alice");
    assert_eq!(restored.receiver, Some("did:peer:bob".to_string()));
}

fn same_message(a: &TspMessage, b: &TspMessage) -> bool {
    a.sender == b.sender
        && a.receiver == b.receiver
        && a.payload == b.payload
        && a.nonconfidential_data == b.nonconfidential_data
}

#[test]
fn messages_round_trip_field_by_field() {
    let cases = vec![
        TspMessage::new(String::new(), None, vec![], None),
        TspMessage::new("a".to_string(), Some(String::new()), vec![0], Some(vec![])),
        TspMessage::new(
            "did:peer:\u{e4}lice-\u{2713}".to_string(),
            Some("did:peer:bob".to_string()),
            (0..=255u8).collect(),
            Some(vec![1, 0, 1]),
        ),
        TspMessage::new("s".to_string(), None, vec![9; 1000], Some(vec![1])),
    ];
    for msg in cases.iter() {
        let bytes = msg.to_bytes().unwrap();
        let back = TspMessage::from_bytes(&bytes).unwrap();
        assert!(same_message(msg, &back));
        assert!(same_message(&msg.clone(), msg));
        assert_eq!(back.to_bytes().unwrap(), bytes);
    }
}

#[test]
fn the_wire_form_of_a_message_is_its_framed_fields() {
    let msg = TspMessage::new("ab".to_string(), None, vec![7], Some(vec![8, 9]));
    let expected: Vec<u8> = vec![
        2, 0, 0, 0, 0, 0, 0, 0, b'a', b'b', // sender
        0, 0, 0, 0, 0, 0, 0, 0, // no receiver
        1, 0, 0, 0, 0, 0, 0, 0, 7, // payload
        3, 0, 0, 0, 0, 0, 0, 0, 1, 8, 9, // header data, present
    ];
    assert_eq!(msg.to_bytes().unwrap(), expected);
}

#[test]
fn bytes_that_are_no_message_are_a_format_error() {
    let good = TspMessage::new("a".to_string(), None, vec![1], None).to_bytes().unwrap();
    assert!(TspMessage::from_bytes(&good).is_ok());
    for cut in 0..good.len() {
        assert!(matches!(
            TspMessage::from_bytes(&good[..cut]),
            Err(TspError::MessageFormat(_))
        ));
    }
    let mut extra = good.clone();
    extra.push(0);
    assert!(matches!(TspMessage::from_bytes(&extra), Err(TspError::MessageFormat(_))));
    // One field too many.
    let mut five = good.clone();
    five.extend_from_slice(&[0, 0, 0, 0, 0, 0, 0, 0]);
    assert!(matches!(TspMessage::from_bytes(&five), Err(TspError::MessageFormat(_))));
    // A sender that is not text.
    let bad_text = join(&vec![vec![0xff], vec![], vec![], vec![]]);
    assert!(matches!(TspMessage::from_bytes(&bad_text), Err(TspError::MessageFormat(_))));
    // An optional field with an unknown marker.
    let bad_marker = join(&vec![vec![b'a'], vec![2, b'b'], vec![], vec![]]);
    assert!(matches!(TspMessage::from_bytes(&bad_marker), Err(TspError::MessageFormat(_))));
}

fn same_payload(a: &TspPayload, b: &TspPayload) -> bool {
    match (a, b) {
        (TspPayload::Content(x), TspPayload::Content(y)) => x == y,
        (
            TspPayload::RequestRelationship { route: ra, thread_id: ta },
            TspPayload::RequestRelationship { route: rb, thread_id: tb },
        ) => ra == rb && ta == tb,
        (
            TspPayload::AcceptRelationship { thread_id: ta },
            TspPayload::AcceptRelationship { thread_id: tb },
        ) => ta == tb,
        (
            TspPayload::CancelRelationship { thread_id: ta },
            TspPayload::CancelRelationship { thread_id: tb },
        ) => ta == tb,
        (
            TspPayload::RequestNestedRelationship { inner: ia, thread_id: ta },
            TspPayload::RequestNestedRelationship { inner: ib, thread_id: tb },
        ) => ia == ib && ta == tb,
        (
            TspPayload::AcceptNestedRelationship { inner: ia, thread_id: ta },
            TspPayload::AcceptNestedRelationship { inner: ib, thread_id: tb },
        ) => ia == ib && ta == tb,
        (
            TspPayload::NewIdentifier { thread_id: ta, new_vid: va },
            TspPayload::NewIdentifier { thread_id: tb, new_vid: vb },
        ) => ta == tb && va == vb,
        (
            TspPayload::Referral { referred_vid: va },
            TspPayload::Referral { referred_vid: vb },
        ) => va == vb,
        (
            TspPayload::RoutedMessage { hops: ha, payload: pa },
            TspPayload::RoutedMessage { hops: hb, payload: pb },
        ) => ha == hb && pa == pb,
        (TspPayload::NestedMessage { payload: pa }, TspPayload::NestedMessage { payload: pb }) => {
            pa == pb
        }
        _ => false,
    }
}

#[test]
fn every_payload_variant_round_trips() {
    let cases = vec![
        TspPayload::Content(vec![]),
        TspPayload::Content(vec![0, 1, 2]),
        TspPayload::RequestRelationship { route: None, thread_id: vec![1; 32] },
        TspPayload::RequestRelationship { route: Some(vec![]), thread_id: vec![] },
        TspPayload::RequestRelationship {
            route: Some(vec!["ra".to_string(), String::new(), "r3".to_string()]),
            thread_id: vec![2],
        },
        TspPayload::AcceptRelationship { thread_id: vec![3] },
        TspPayload::CancelRelationship { thread_id: vec![4] },
        TspPayload::RequestNestedRelationship { inner: vec![5, 5], thread_id: vec![6] },
        TspPayload::AcceptNestedRelationship { inner: vec![], thread_id: vec![7] },
        TspPayload::NewIdentifier { thread_id: vec![8], new_vid: "did:new".to_string() },
        TspPayload::Referral { referred_vid: "did:r\u{e9}".to_string() },
        TspPayload::RoutedMessage { hops: vec!["h".to_string()], payload: vec![9] },
        TspPayload::RoutedMessage { hops: vec![], payload: vec![] },
        TspPayload::NestedMessage { payload: vec![10] },
    ];
    for (i, payload) in cases.iter().enumerate() {
        let bytes = payload.to_bytes();
        let back = TspPayload::from_bytes(&bytes).unwrap();
        assert!(same_payload(payload, &back));
        assert!(same_payload(payload, &payload.clone()));
        for (j, other) in cases.iter().enumerate() {
            if i != j {
                assert_ne!(bytes, other.to_bytes());
            }
        }
    }
}

#[test]
fn the_wire_form_of_a_payload_starts_with_its_tag() {
    assert_eq!(
        TspPayload::Content(vec![7, 8]).to_bytes(),
        vec![1, 0, 0, 0, 0, 0, 0, 0, 0, 2, 0, 0, 0, 0, 0, 0, 0, 7, 8]
    );
    assert_eq!(
        TspPayload::NestedMessage { payload: vec![] }.to_bytes(),
        vec![1, 0, 0, 0, 0, 0, 0, 0, 9, 0, 0, 0, 0, 0, 0, 0, 0]
    );
}

#[test]
fn bytes_that_are_no_payload_are_a_format_error() {
    assert!(matches!(TspPayload::from_bytes(b""), Err(TspError::MessageFormat(_))));
    assert!(matches!(TspPayload::from_bytes(b"{}"), Err(TspError::MessageFormat(_))));
    // Unknown tag.
    let unknown = join(&vec![vec![10], vec![]]);
    assert!(matches!(TspPayload::from_bytes(&unknown), Err(TspError::MessageFormat(_))));
    // Known tag with the wrong number of fields.
    let short = join(&vec![vec![1], vec![]]);
    assert!(matches!(TspPayload::from_bytes(&short), Err(TspError::MessageFormat(_))));
    let long = join(&vec![vec![0], vec![], vec![]]);
    assert!(matches!(TspPayload::from_bytes(&long), Err(TspError::MessageFormat(_))));
    // A tag field of two bytes.
    let wide = join(&vec![vec![0, 0], vec![]]);
    assert!(matches!(TspPayload::from_bytes(&wide), Err(TspError::MessageFormat(_))));
    // An identifier that is not text.
    let bad = join(&vec![vec![7], vec![0xc3]]);
    assert!(matches!(TspPayload::from_bytes(&bad), Err(TspError::MessageFormat(_))));
    // Hops that are not a list.
    let hops = join(&vec![vec![8], vec![1, 2, 3], vec![]]);
    assert!(matches!(TspPayload::from_bytes(&hops), Err(TspError::MessageFormat(_))));
}

#[test]
fn fields_split_as_they_were_joined() {
    let lists: Vec<Vec<Vec<u8>>> = vec![
        vec![],
        vec![vec![]],
        vec![vec![], vec![]],
        vec![vec![1, 2, 3], vec![], vec![255; 300]],
    ];
    for fields in lists.iter() {
        assert_eq!(split(&join(fields)), Some(fields.clone()));
    }
    assert_eq!(join(&vec![]), Vec::<u8>::new());
    assert_eq!(join(&vec![vec![5]]), vec![1, 0, 0, 0, 0, 0, 0, 0, 5]);
    let mut out = vec![42];
    append_field(&mut out, &[1, 2]);
    assert_eq!(out, vec![42, 2, 0, 0, 0, 0, 0, 0, 0, 1, 2]);
}

#[test]
fn split_refuses_what_is_no_list() {
    assert_eq!(split(&[0; 7]), None);
    assert_eq!(split(&[2, 0, 0, 0, 0, 0, 0, 0, 1]), None);
    assert_eq!(split(&[255; 8]), None);
    assert_eq!(split(&[0, 0, 0, 0, 0, 0, 0, 0, 1]), None);
    assert_eq!(split(&[0; 8]), Some(vec![vec![]]));
}

#[test]
fn optional_and_text_fields() {
    assert_eq!(write_optional(&None), Vec::<u8>::new());
    assert_eq!(write_optional(&Some(vec![])), vec![1]);
    assert_eq!(write_optional(&Some(vec![4, 5])), vec![1, 4, 5]);
    assert_eq!(read_optional(&[]), Some(None));
    assert_eq!(read_optional(&[1]), Some(Some(vec![])));
    assert_eq!(read_optional(&[1, 4, 5]), Some(Some(vec![4, 5])));
    assert_eq!(read_optional(&[0]), None);
    assert_eq!(read_optional(&[2, 4]), None);

    assert_eq!(write_text("h\u{e9}"), vec![b'h', 0xc3, 0xa9]);
    assert_eq!(write_optional_text(&Some("a".to_string())), vec![1, b'a']);
    assert_eq!(read_optional_text(&[1, b'a']), Some(Some("a".to_string())));
    assert_eq!(read_optional_text(&[]), Some(None));
    assert_eq!(read_optional_text(&[1, 0xff]), None);

    let texts = vec!["a".to_string(), "bc".to_string()];
    assert_eq!(read_texts(&write_texts(&texts)), Some(texts.clone()));
    assert_eq!(read_texts(&join(&vec![vec![0xff]])), None);
    assert_eq!(read_texts(&[1]), None);
    assert_eq!(read_optional_texts(&write_optional_texts(&Some(texts.clone()))), Some(Some(texts)));
    assert_eq!(read_optional_texts(&write_optional_texts(&None)), Some(None));
    assert_eq!(read_optional_texts(&[1, 1]), None);
}
