//! The message envelope exchanged between handlers.

use vstd::prelude::*;
use vstd::string::StringExecFns;
use vstd::utf8::{
    decode_utf8, encode_utf8, encode_utf8_decode_utf8, encode_utf8_valid_utf8, valid_utf8,
};
use crate::text::text_from_utf8;
use crate::tsp::error::TspError;
use crate::tsp::types::{clone_bytes, clone_opt_bytes, clone_opt_string, opt_bytes_view, opt_string_view};
use crate::tsp::wire::{
    take_last,
    fields_fit, fields_view, join, join_fields, lemma_optional_field, lemma_optional_text_field,
    lemma_split_join, optional_field, optional_text_field, parse_optional_field,
    parse_optional_text_field, read_optional, read_optional_text, split, split_fields,
     write_optional, write_optional_text, write_text,
};

verus! {

/// Mathematical value of a [`TspMessage`].
pub struct TspMessageView {
    pub sender: Seq<char>,
    pub receiver: Option<Seq<char>>,
    pub payload: Seq<u8>,
    pub nonconfidential_data: Option<Seq<u8>>,
}

/// A message between two identifiers.
#[derive(Debug)]
pub struct TspMessage {
    /// Sender identifier.
    pub sender: String,
    /// Receiver identifier; absent for broadcasts.
    pub receiver: Option<String>,
    /// Serialized payload.
    pub payload: Vec<u8>,
    /// Unencrypted header data.
    pub nonconfidential_data: Option<Vec<u8>>,
}

impl View for TspMessage {
    type V = TspMessageView;

    open spec fn view(&self) -> TspMessageView {
        TspMessageView {
            sender: self.sender@,
            receiver: opt_string_view(self.receiver),
            payload: self.payload@,
            nonconfidential_data: opt_bytes_view(self.nonconfidential_data),
        }
    }
}

impl Clone for TspMessage {
    fn clone(&self) -> (r: Self)
        ensures
            r@ == self@,
    {
        TspMessage {
            sender: self.sender.clone(),
            receiver: clone_opt_string(&self.receiver),
            payload: clone_bytes(&self.payload),
            nonconfidential_data: clone_opt_bytes(&self.nonconfidential_data),
        }
    }
}

/// The fields that carry a message.
pub open spec fn message_fields(message: TspMessageView) -> Seq<Seq<u8>> {
    seq![
        encode_utf8(message.sender),
        optional_text_field(message.receiver),
        message.payload,
        optional_field(message.nonconfidential_data),
    ]
}

/// The message carried by a list of fields, if the list is well formed.
pub open spec fn message_of_fields(fields: Seq<Seq<u8>>) -> Option<TspMessageView> {
    if fields.len() != 4 || !valid_utf8(fields[0]) {
        None
    } else {
        match (parse_optional_text_field(fields[1]), parse_optional_field(fields[3])) {
            (Some(receiver), Some(nonconfidential_data)) => Some(
                TspMessageView {
                    sender: decode_utf8(fields[0]),
                    receiver,
                    payload: fields[2],
                    nonconfidential_data,
                },
            ),
            _ => None,
        }
    }
}

/// The serialized form of a message.
pub open spec fn message_bytes(message: TspMessageView) -> Seq<u8> {
    join_fields(message_fields(message))
}

/// The message that `bytes` serializes, if any.
pub open spec fn message_of_bytes(bytes: Seq<u8>) -> Option<TspMessageView> {
    match split_fields(bytes) {
        Some(fields) => message_of_fields(fields),
        None => None,
    }
}

/// Every part of the message is short enough for its length to be written
/// in 64 bits. Holds of every message that exists in memory.
pub open spec fn message_fits(message: TspMessageView) -> bool {
    fields_fit(message_fields(message))
}

/// Round trip: deserializing a serialized message gives the message back,
/// field by field.
pub proof fn lemma_message_round_trip(message: TspMessageView)
    requires
        message_fits(message),
    ensures
        message_of_bytes(message_bytes(message)) == Some(message),
{
    lemma_split_join(message_fields(message));
    encode_utf8_valid_utf8(message.sender);
    encode_utf8_decode_utf8(message.sender);
    lemma_optional_text_field(message.receiver);
    lemma_optional_field(message.nonconfidential_data);
}

/// The error that reports bytes which serialize no message.
fn malformed() -> (e: TspError)
    ensures
        e is MessageFormat,
        e.detail() == "malformed message"@,
{
    TspError::MessageFormat(String::from_str("malformed message"))
}

impl TspMessage {
    /// Assembles a message from its parts.
    pub fn new(
        sender: String,
        receiver: Option<String>,
        payload: Vec<u8>,
        nonconfidential_data: Option<Vec<u8>>,
    ) -> (r: Self)
        ensures
            r.sender == sender,
            r.receiver == receiver,
            r.payload == payload,
            r.nonconfidential_data == nonconfidential_data,
    {
        TspMessage { sender, receiver, payload, nonconfidential_data }
    }

    /// Serializes the message for transmission. Always succeeds, and the
    /// bytes deserialize to the message, field by field.
    pub fn to_bytes(&self) -> (r: Result<Vec<u8>, TspError>)
        ensures
            r matches Ok(bytes) && bytes@ == message_bytes(self@) && message_of_bytes(bytes@)
                == Some(self@),
            message_fits(self@),
    {
        let mut fields: Vec<Vec<u8>> = Vec::new();
        fields.push(write_text(self.sender.as_str()));
        fields.push(write_optional_text(&self.receiver));
        fields.push(clone_bytes(&self.payload));
        fields.push(write_optional(&self.nonconfidential_data));
        assert(fields_view(fields) =~= message_fields(self@));
        let bytes = join(&fields);
        proof {
            lemma_message_round_trip(self@);
        }
        Ok(bytes)
    }

    /// Deserializes a message; bytes that serialize no message are a
    /// message format error.
    pub fn from_bytes(data: &[u8]) -> (r: Result<TspMessage, TspError>)
        ensures
            match r {
                Ok(message) => message_of_bytes(data@) == Some(message@),
                Err(e) => message_of_bytes(data@) is None && e is MessageFormat && e.detail()
                    == "malformed message"@,
            },
    {
        let mut fields = match split(data) {
            Some(fields) => fields,
            None => { return Err(malformed()); },
        };
        let ghost all = fields_view(fields);
        if fields.len() != 4 {
            return Err(malformed());
        }
        let extra = take_last(&mut fields);
        let payload = take_last(&mut fields);
        let to = take_last(&mut fields);
        let from = take_last(&mut fields);
        assert(from@ == all[0] && to@ == all[1] && payload@ == all[2] && extra@ == all[3]);
        let sender = match text_from_utf8(from) {
            Some(sender) => sender,
            None => { return Err(malformed()); },
        };
        let receiver = match read_optional_text(to.as_slice()) {
            Some(receiver) => receiver,
            None => { return Err(malformed()); },
        };
        let nonconfidential_data = match read_optional(extra.as_slice()) {
            Some(data) => data,
            None => { return Err(malformed()); },
        };
        Ok(TspMessage { sender, receiver, payload, nonconfidential_data })
    }
}

} // verus!
