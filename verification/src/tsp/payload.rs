//! Wire form of payloads.
//!
//! A payload travels as a list of fields: a one-byte tag naming the
//! variant, then the variant's fields in declaration order.

use vstd::prelude::*;
use vstd::string::StringExecFns;
use vstd::utf8::{decode_utf8, encode_utf8, encode_utf8_decode_utf8, encode_utf8_valid_utf8, valid_utf8};
use crate::text::text_from_utf8;
use crate::tsp::error::TspError;
use crate::tsp::types::{TspPayload, TspPayloadView};
use crate::tsp::wire::{
    tag_field, take_last,
    fields_fit, fields_view, join, join_fields, lemma_optional_texts_field, lemma_split_join,
    lemma_texts_field, optional_texts_field, optional_texts_fit, parse_optional_texts_field,
    parse_texts_field, read_optional_texts, read_texts, split, split_fields, 
    texts_field, texts_fit, write_optional_texts, write_text, write_texts,
};

verus! {

/// The fields that carry a payload.
pub open spec fn payload_fields(payload: TspPayloadView) -> Seq<Seq<u8>> {
    match payload {
        TspPayloadView::Content(data) => seq![seq![0u8], data],
        TspPayloadView::RequestRelationship { route, thread_id } => seq![
            seq![1u8],
            optional_texts_field(route),
            thread_id,
        ],
        TspPayloadView::AcceptRelationship { thread_id } => seq![seq![2u8], thread_id],
        TspPayloadView::CancelRelationship { thread_id } => seq![seq![3u8], thread_id],
        TspPayloadView::RequestNestedRelationship { inner, thread_id } => seq![
            seq![4u8],
            inner,
            thread_id,
        ],
        TspPayloadView::AcceptNestedRelationship { inner, thread_id } => seq![
            seq![5u8],
            inner,
            thread_id,
        ],
        TspPayloadView::NewIdentifier { thread_id, new_vid } => seq![
            seq![6u8],
            thread_id,
            encode_utf8(new_vid),
        ],
        TspPayloadView::Referral { referred_vid } => seq![seq![7u8], encode_utf8(referred_vid)],
        TspPayloadView::RoutedMessage { hops, payload } => seq![
            seq![8u8],
            texts_field(hops),
            payload,
        ],
        TspPayloadView::NestedMessage { payload } => seq![seq![9u8], payload],
    }
}

/// The payload carried by a list of fields, if the list is well formed.
pub open spec fn payload_of_fields(fields: Seq<Seq<u8>>) -> Option<TspPayloadView> {
    if fields.len() < 2 || fields[0].len() != 1 {
        None
    } else {
        let tag = fields[0][0];
        if tag == 0u8 && fields.len() == 2 {
            Some(TspPayloadView::Content(fields[1]))
        } else if tag == 1u8 && fields.len() == 3 {
            match parse_optional_texts_field(fields[1]) {
                Some(route) => Some(
                    TspPayloadView::RequestRelationship { route, thread_id: fields[2] },
                ),
                None => None,
            }
        } else if tag == 2u8 && fields.len() == 2 {
            Some(TspPayloadView::AcceptRelationship { thread_id: fields[1] })
        } else if tag == 3u8 && fields.len() == 2 {
            Some(TspPayloadView::CancelRelationship { thread_id: fields[1] })
        } else if tag == 4u8 && fields.len() == 3 {
            Some(
                TspPayloadView::RequestNestedRelationship {
                    inner: fields[1],
                    thread_id: fields[2],
                },
            )
        } else if tag == 5u8 && fields.len() == 3 {
            Some(
                TspPayloadView::AcceptNestedRelationship {
                    inner: fields[1],
                    thread_id: fields[2],
                },
            )
        } else if tag == 6u8 && fields.len() == 3 && valid_utf8(fields[2]) {
            Some(
                TspPayloadView::NewIdentifier {
                    thread_id: fields[1],
                    new_vid: decode_utf8(fields[2]),
                },
            )
        } else if tag == 7u8 && fields.len() == 2 && valid_utf8(fields[1]) {
            Some(TspPayloadView::Referral { referred_vid: decode_utf8(fields[1]) })
        } else if tag == 8u8 && fields.len() == 3 {
            match parse_texts_field(fields[1]) {
                Some(hops) => Some(TspPayloadView::RoutedMessage { hops, payload: fields[2] }),
                None => None,
            }
        } else if tag == 9u8 && fields.len() == 2 {
            Some(TspPayloadView::NestedMessage { payload: fields[1] })
        } else {
            None
        }
    }
}

/// The serialized form of a payload.
pub open spec fn payload_bytes(payload: TspPayloadView) -> Seq<u8> {
    join_fields(payload_fields(payload))
}

/// The payload that `bytes` serializes, if any.
pub open spec fn payload_of_bytes(bytes: Seq<u8>) -> Option<TspPayloadView> {
    match split_fields(bytes) {
        Some(fields) => payload_of_fields(fields),
        None => None,
    }
}

/// Every part of the payload is short enough for its length to be written
/// in 64 bits. Holds of every payload that exists in memory.
pub open spec fn payload_fits(payload: TspPayloadView) -> bool {
    &&& fields_fit(payload_fields(payload))
    &&& match payload {
        TspPayloadView::RequestRelationship { route, .. } => optional_texts_fit(route),
        TspPayloadView::RoutedMessage { hops, .. } => texts_fit(hops),
        _ => true,
    }
}

/// Deserializing a serialized payload gives the payload back.
pub proof fn lemma_payload_round_trip(payload: TspPayloadView)
    requires
        payload_fits(payload),
    ensures
        payload_of_bytes(payload_bytes(payload)) == Some(payload),
{
    let fields = payload_fields(payload);
    lemma_split_join(fields);
    match payload {
        TspPayloadView::RequestRelationship { route, .. } => {
            lemma_optional_texts_field(route);
        },
        TspPayloadView::NewIdentifier { new_vid, .. } => {
            encode_utf8_valid_utf8(new_vid);
            encode_utf8_decode_utf8(new_vid);
        },
        TspPayloadView::Referral { referred_vid } => {
            encode_utf8_valid_utf8(referred_vid);
            encode_utf8_decode_utf8(referred_vid);
        },
        TspPayloadView::RoutedMessage { hops, .. } => {
            lemma_texts_field(hops);
        },
        _ => {},
    }
}

/// The error that reports bytes which serialize no payload.
fn malformed() -> (e: TspError)
    ensures
        e is MessageFormat,
        e.detail() == "malformed payload"@,
{
    TspError::MessageFormat(String::from_str("malformed payload"))
}

impl TspPayload {
    /// Serializes the payload. The bytes deserialize to the payload.
    pub fn to_bytes(&self) -> (r: Vec<u8>)
        ensures
            r@ == payload_bytes(self@),
            payload_of_bytes(r@) == Some(self@),
            payload_fits(self@),
    {
        let mut fields: Vec<Vec<u8>> = Vec::new();
        match self {
            TspPayload::Content(data) => {
                fields.push(tag_field(0u8));
                fields.push(crate::tsp::types::clone_bytes(data));
            },
            TspPayload::RequestRelationship { route, thread_id } => {
                fields.push(tag_field(1u8));
                fields.push(write_optional_texts(route));
                fields.push(crate::tsp::types::clone_bytes(thread_id));
            },
            TspPayload::AcceptRelationship { thread_id } => {
                fields.push(tag_field(2u8));
                fields.push(crate::tsp::types::clone_bytes(thread_id));
            },
            TspPayload::CancelRelationship { thread_id } => {
                fields.push(tag_field(3u8));
                fields.push(crate::tsp::types::clone_bytes(thread_id));
            },
            TspPayload::RequestNestedRelationship { inner, thread_id } => {
                fields.push(tag_field(4u8));
                fields.push(crate::tsp::types::clone_bytes(inner));
                fields.push(crate::tsp::types::clone_bytes(thread_id));
            },
            TspPayload::AcceptNestedRelationship { inner, thread_id } => {
                fields.push(tag_field(5u8));
                fields.push(crate::tsp::types::clone_bytes(inner));
                fields.push(crate::tsp::types::clone_bytes(thread_id));
            },
            TspPayload::NewIdentifier { thread_id, new_vid } => {
                fields.push(tag_field(6u8));
                fields.push(crate::tsp::types::clone_bytes(thread_id));
                fields.push(write_text(new_vid.as_str()));
            },
            TspPayload::Referral { referred_vid } => {
                fields.push(tag_field(7u8));
                fields.push(write_text(referred_vid.as_str()));
            },
            TspPayload::RoutedMessage { hops, payload } => {
                fields.push(tag_field(8u8));
                fields.push(write_texts(hops));
                fields.push(crate::tsp::types::clone_bytes(payload));
            },
            TspPayload::NestedMessage { payload } => {
                fields.push(tag_field(9u8));
                fields.push(crate::tsp::types::clone_bytes(payload));
            },
        }
        assert(fields_view(fields) =~= payload_fields(self@));
        let bytes = join(&fields);
        proof {
            lemma_payload_round_trip(self@);
        }
        bytes
    }

    /// Deserializes a payload; bytes that serialize no payload are a
    /// message format error.
    pub fn from_bytes(data: &[u8]) -> (r: Result<TspPayload, TspError>)
        ensures
            match r {
                Ok(payload) => payload_of_bytes(data@) == Some(payload@),
                Err(e) => payload_of_bytes(data@) is None && e is MessageFormat && e.detail()
                    == "malformed payload"@,
            },
    {
        let mut fields = match split(data) {
            Some(fields) => fields,
            None => { return Err(malformed()); },
        };
        let ghost all = fields_view(fields);
        let count = fields.len();
        if count < 2 || count > 3 || fields[0].len() != 1 {
            return Err(malformed());
        }
        let tag = fields[0][0];
        assert(all[0][0] == tag);
        let last = take_last(&mut fields);
        assert(last@ == all[count - 1]);
        if count == 2 {
            assert(all[1] == last@);
            if tag == 0u8 {
                Ok(TspPayload::Content(last))
            } else if tag == 2u8 {
                Ok(TspPayload::AcceptRelationship { thread_id: last })
            } else if tag == 3u8 {
                Ok(TspPayload::CancelRelationship { thread_id: last })
            } else if tag == 7u8 {
                match text_from_utf8(last) {
                    Some(referred_vid) => Ok(TspPayload::Referral { referred_vid }),
                    None => Err(malformed()),
                }
            } else if tag == 9u8 {
                Ok(TspPayload::NestedMessage { payload: last })
            } else {
                Err(malformed())
            }
        } else {
            let middle = take_last(&mut fields);
            assert(middle@ == all[1]);
            assert(last@ == all[2]);
            if tag == 1u8 {
                match read_optional_texts(middle.as_slice()) {
                    Some(route) => Ok(TspPayload::RequestRelationship { route, thread_id: last }),
                    None => Err(malformed()),
                }
            } else if tag == 4u8 {
                Ok(TspPayload::RequestNestedRelationship { inner: middle, thread_id: last })
            } else if tag == 5u8 {
                Ok(TspPayload::AcceptNestedRelationship { inner: middle, thread_id: last })
            } else if tag == 6u8 {
                match text_from_utf8(last) {
                    Some(new_vid) => Ok(TspPayload::NewIdentifier { thread_id: middle, new_vid }),
                    None => Err(malformed()),
                }
            } else if tag == 8u8 {
                match read_texts(middle.as_slice()) {
                    Some(hops) => Ok(TspPayload::RoutedMessage { hops, payload: last }),
                    None => Err(malformed()),
                }
            } else {
                Err(malformed())
            }
        }
    }
}

} // verus!
