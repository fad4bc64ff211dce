//! Length-delimited wire framing.
//!
//! Every serialized value is a list of fields. A field travels as its
//! length (eight bytes, little endian) followed by its bytes; a list is
//! the concatenation of its fields. Nested structure is carried by fields
//! that are themselves lists.

use vstd::prelude::*;
use vstd::bytes::{
    lemma_auto_spec_u64_to_from_le_bytes, spec_u64_from_le_bytes, spec_u64_to_le_bytes,
    u64_from_le_bytes, u64_to_le_bytes,
};
use vstd::slice::{slice_subrange, slice_to_vec};
use crate::text::text_from_utf8;
use vstd::utf8::{
    decode_utf8, encode_utf8, encode_utf8_decode_utf8,
    encode_utf8_valid_utf8, valid_utf8,
};

verus! {

/// One field on the wire: its length, then its bytes.
pub open spec fn frame(field: Seq<u8>) -> Seq<u8> {
    spec_u64_to_le_bytes(field.len() as u64) + field
}

/// Every field is short enough for its length to be written in 64 bits.
pub open spec fn fields_fit(fields: Seq<Seq<u8>>) -> bool {
    forall|i: int| 0 <= i < fields.len() ==> (#[trigger] fields[i]).len() <= u64::MAX
}

/// The wire form of a list of fields.
pub open spec fn join_fields(fields: Seq<Seq<u8>>) -> Seq<u8>
    decreases fields.len(),
{
    if fields.len() == 0 {
        Seq::empty()
    } else {
        join_fields(fields.drop_last()) + frame(fields.last())
    }
}

/// The list of fields that `bytes` is the wire form of, if it is one.
pub open spec fn split_fields(bytes: Seq<u8>) -> Option<Seq<Seq<u8>>>
    decreases bytes.len(),
{
    if bytes.len() == 0 {
        Some(Seq::empty())
    } else if bytes.len() < 8 {
        None
    } else {
        let n = spec_u64_from_le_bytes(bytes.subrange(0, 8)) as int;
        if n > bytes.len() - 8 {
            None
        } else {
            match split_fields(bytes.subrange(8 + n, bytes.len() as int)) {
                Some(rest) => Some(seq![bytes.subrange(8, 8 + n)] + rest),
                None => None,
            }
        }
    }
}

/// Joining a list with one more field in front puts that field's frame in
/// front of the joined rest.
pub proof fn lemma_join_prepend(first: Seq<u8>, rest: Seq<Seq<u8>>)
    ensures
        join_fields(seq![first] + rest) == frame(first) + join_fields(rest),
    decreases rest.len(),
{
    let all = seq![first] + rest;
    if rest.len() == 0 {
        assert(all.drop_last() =~= Seq::<Seq<u8>>::empty());
        assert(all.last() == first);
        assert(join_fields(all) == join_fields(all.drop_last()) + frame(first));
        assert(join_fields(all.drop_last()) =~= Seq::<u8>::empty());
        assert(join_fields(all) =~= frame(first) + join_fields(rest));
    } else {
        lemma_join_prepend(first, rest.drop_last());
        assert(all.drop_last() =~= seq![first] + rest.drop_last());
        assert(all.last() == rest.last());
        assert(join_fields(all) =~= frame(first) + join_fields(rest));
    }
}

/// Splitting the wire form of a list gives the list back.
pub proof fn lemma_split_join(fields: Seq<Seq<u8>>)
    requires
        fields_fit(fields),
    ensures
        split_fields(join_fields(fields)) == Some(fields),
    decreases fields.len(),
{
    if fields.len() == 0 {
    } else {
        let first = fields.first();
        let rest = fields.drop_first();
        assert(fields =~= seq![first] + rest);
        lemma_join_prepend(first, rest);
        lemma_auto_spec_u64_to_from_le_bytes();
        let bytes = join_fields(fields);
        let head = spec_u64_to_le_bytes(first.len() as u64);
        assert(bytes == head + first + join_fields(rest));
        assert(head.len() == 8);
        assert(bytes.subrange(0, 8) =~= head);
        assert(fields[0].len() <= u64::MAX);
        let n = first.len() as int;
        assert(spec_u64_from_le_bytes(bytes.subrange(0, 8)) as int == n);
        assert(bytes.subrange(8, 8 + n) =~= first);
        assert(bytes.subrange(8 + n, bytes.len() as int) =~= join_fields(rest));
        assert(fields_fit(rest)) by {
            assert forall|i: int| 0 <= i < rest.len() implies (#[trigger] rest[i]).len()
                <= u64::MAX by {
                assert(rest[i] == fields[i + 1]);
            }
        }
        lemma_split_join(rest);
    }
}

/// A list of byte strings as a sequence of sequences.
pub open spec fn fields_view(fields: Vec<Vec<u8>>) -> Seq<Seq<u8>> {
    Seq::new(fields@.len(), |i: int| fields@[i]@)
}

/// Appends the frame of `field` to `out`.
pub fn append_field(out: &mut Vec<u8>, field: &[u8])
    ensures
        final(out)@ == old(out)@ + frame(field@),
{
    let head = u64_to_le_bytes(field.len() as u64);
    let mut i: usize = 0;
    while i < 8
        invariant
            i <= 8,
            head@.len() == 8,
            out@ == old(out)@ + head@.subrange(0, i as int),
        decreases 8 - i,
    {
        out.push(head[i]);
        i = i + 1;
        assert(out@ =~= old(out)@ + head@.subrange(0, i as int));
    }
    assert(head@.subrange(0, 8) =~= head@);
    let ghost mid = out@;
    let mut j: usize = 0;
    while j < field.len()
        invariant
            j <= field.len(),
            out@ == mid + field@.subrange(0, j as int),
        decreases field.len() - j,
    {
        out.push(field[j]);
        j = j + 1;
        assert(out@ =~= mid + field@.subrange(0, j as int));
    }
    assert(field@.subrange(0, field.len() as int) =~= field@);
    assert(out@ =~= old(out)@ + frame(field@));
}

/// Serializes a list of fields.
pub fn join(fields: &Vec<Vec<u8>>) -> (r: Vec<u8>)
    ensures
        r@ == join_fields(fields_view(*fields)),
        fields_fit(fields_view(*fields)),
{
    let mut out: Vec<u8> = Vec::new();
    let mut i: usize = 0;
    let ghost all = fields_view(*fields);
    while i < fields.len()
        invariant
            i <= fields.len(),
            all == fields_view(*fields),
            out@ == join_fields(all.take(i as int)),
        decreases fields.len() - i,
    {
        append_field(&mut out, fields[i].as_slice());
        proof {
            let next = all.take(i + 1);
            assert(next.drop_last() =~= all.take(i as int));
            assert(next.last() == fields@[i as int]@);
        }
        i = i + 1;
    }
    assert(all.take(fields.len() as int) =~= all);
    assert forall|i: int| 0 <= i < all.len() implies (#[trigger] all[i]).len() <= u64::MAX by {
        assert(all[i].len() == fields@[i].len());
    }
    out
}

/// Parses a list of fields; `None` when `data` is not the wire form of
/// any list.
pub fn split(data: &[u8]) -> (r: Option<Vec<Vec<u8>>>)
    ensures
        match r {
            Some(fields) => split_fields(data@) == Some(fields_view(fields)),
            None => split_fields(data@) is None,
        },
{
    let mut fields: Vec<Vec<u8>> = Vec::new();
    let mut pos: usize = 0;
    let total = data.len();
    assert(data@.subrange(0, total as int) =~= data@);
    assert(Seq::<Seq<u8>>::empty() + Seq::<Seq<u8>>::empty() =~= Seq::<Seq<u8>>::empty());
    assert(fields_view(fields) =~= Seq::<Seq<u8>>::empty());
    while pos < total
        invariant
            pos <= total,
            total == data@.len(),
            split_fields(data@) == match split_fields(data@.subrange(pos as int, total as int)) {
                Some(rest) => Some(fields_view(fields) + rest),
                None => None,
            },
        decreases total - pos,
    {
        let ghost tail = data@.subrange(pos as int, total as int);
        if total - pos < 8 {
            return None;
        }
        let head = slice_subrange(data, pos, pos + 8);
        assert(head@ =~= tail.subrange(0, 8));
        let n = u64_from_le_bytes(head);
        if n > (total - pos - 8) as u64 {
            return None;
        }
        let len = n as usize;
        let body = slice_subrange(data, pos + 8, pos + 8 + len);
        let ghost before = fields_view(fields);
        fields.push(slice_to_vec(body));
        proof {
            assert(body@ =~= tail.subrange(8, 8 + len));
            let after = data@.subrange(pos + 8 + len, total as int);
            assert(after =~= tail.subrange(8 + len, tail.len() as int));
            assert(fields_view(fields) =~= before + seq![body@]);
            match split_fields(after) {
                Some(rest) => {
                    assert(before + (seq![body@] + rest) =~= fields_view(fields) + rest);
                },
                None => {},
            }
        }
        pos = pos + 8 + len;
    }
    proof {
        assert(data@.subrange(pos as int, total as int) =~= Seq::<u8>::empty());
        assert(fields_view(fields) + Seq::<Seq<u8>>::empty() =~= fields_view(fields));
    }
    Some(fields)
}

/// A one-byte field holding a variant tag.
pub(crate) fn tag_field(tag: u8) -> (r: Vec<u8>)
    ensures
        r@ == seq![tag],
{
    let mut out: Vec<u8> = Vec::new();
    out.push(tag);
    assert(out@ =~= seq![tag]);
    out
}

/// Removes and returns the last field of a list.
pub(crate) fn take_last(fields: &mut Vec<Vec<u8>>) -> (r: Vec<u8>)
    requires
        old(fields)@.len() > 0,
    ensures
        final(fields)@ == old(fields)@.drop_last(),
        r == old(fields)@.last(),
{
    fields.pop().unwrap()
}

/// The field that carries an optional byte string: empty when absent,
/// otherwise a marker byte followed by the bytes.
pub open spec fn optional_field(value: Option<Seq<u8>>) -> Seq<u8> {
    match value {
        None => Seq::empty(),
        Some(bytes) => seq![1u8] + bytes,
    }
}

/// The optional byte string carried by a field, if the field is well
/// formed.
pub open spec fn parse_optional_field(field: Seq<u8>) -> Option<Option<Seq<u8>>> {
    if field.len() == 0 {
        Some(None)
    } else if field[0] == 1u8 {
        Some(Some(field.subrange(1, field.len() as int)))
    } else {
        None
    }
}

/// An optional field parses back to what it carries.
pub proof fn lemma_optional_field(value: Option<Seq<u8>>)
    ensures
        parse_optional_field(optional_field(value)) == Some(value),
{
    match value {
        None => {},
        Some(bytes) => {
            let f = seq![1u8] + bytes;
            assert(f.subrange(1, f.len() as int) =~= bytes);
        },
    }
}

/// Builds the field of an optional byte string.
pub fn write_optional(value: &Option<Vec<u8>>) -> (r: Vec<u8>)
    ensures
        r@ == optional_field(
            match *value {
                Some(b) => Some(b@),
                None => None,
            },
        ),
{
    match value {
        None => Vec::new(),
        Some(bytes) => {
            let mut out: Vec<u8> = Vec::new();
            out.push(1u8);
            let mut i: usize = 0;
            while i < bytes.len()
                invariant
                    i <= bytes.len(),
                    out@ == seq![1u8] + bytes@.subrange(0, i as int),
                decreases bytes.len() - i,
            {
                out.push(bytes[i]);
                i = i + 1;
                assert(out@ =~= seq![1u8] + bytes@.subrange(0, i as int));
            }
            assert(bytes@.subrange(0, bytes.len() as int) =~= bytes@);
            out
        },
    }
}

/// Reads the optional byte string that a field carries; the outer `None`
/// reports a malformed field.
pub fn read_optional(field: &[u8]) -> (r: Option<Option<Vec<u8>>>)
    ensures
        match r {
            Some(Some(b)) => parse_optional_field(field@) == Some(Some(b@)),
            Some(None) => parse_optional_field(field@) == Some(None::<Seq<u8>>),
            None => parse_optional_field(field@) is None,
        },
{
    if field.len() == 0 {
        Some(None)
    } else if field[0] == 1u8 {
        Some(Some(slice_to_vec(slice_subrange(field, 1, field.len()))))
    } else {
        None
    }
}

/// The field that carries a list of texts: the wire form of their UTF-8
/// encodings.
pub open spec fn texts_field(texts: Seq<Seq<char>>) -> Seq<u8> {
    join_fields(Seq::new(texts.len(), |i: int| encode_utf8(texts[i])))
}

/// The list of texts carried by a field, if the field is well formed.
pub open spec fn parse_texts_field(field: Seq<u8>) -> Option<Seq<Seq<char>>> {
    match split_fields(field) {
        Some(items) => if forall|i: int| 0 <= i < items.len() ==> valid_utf8(#[trigger] items[i]) {
            Some(Seq::new(items.len(), |i: int| decode_utf8(items[i])))
        } else {
            None
        },
        None => None,
    }
}

/// Each text is short enough for its encoding's length to be written in
/// 64 bits.
pub open spec fn texts_fit(texts: Seq<Seq<char>>) -> bool {
    forall|i: int| 0 <= i < texts.len() ==> encode_utf8(#[trigger] texts[i]).len() <= u64::MAX
}

/// A field of texts parses back to the texts.
pub proof fn lemma_texts_field(texts: Seq<Seq<char>>)
    requires
        texts_fit(texts),
    ensures
        parse_texts_field(texts_field(texts)) == Some(texts),
{
    let items = Seq::new(texts.len(), |i: int| encode_utf8(texts[i]));
    assert(fields_fit(items));
    lemma_split_join(items);
    assert forall|i: int| 0 <= i < items.len() implies valid_utf8(#[trigger] items[i]) by {
        encode_utf8_valid_utf8(texts[i]);
    }
    let back = Seq::new(items.len(), |i: int| decode_utf8(items[i]));
    assert forall|i: int| 0 <= i < texts.len() implies back[i] == texts[i] by {
        encode_utf8_decode_utf8(texts[i]);
    }
    assert(back =~= texts);
}

/// Builds the field of a list of texts.
pub fn write_texts(texts: &Vec<String>) -> (r: Vec<u8>)
    ensures
        r@ == texts_field(Seq::new(texts@.len(), |i: int| texts@[i]@)),
        texts_fit(Seq::new(texts@.len(), |i: int| texts@[i]@)),
{
    let ghost model = Seq::new(texts@.len(), |i: int| texts@[i]@);
    let mut items: Vec<Vec<u8>> = Vec::new();
    let mut i: usize = 0;
    while i < texts.len()
        invariant
            i <= texts.len(),
            items@.len() == i,
            forall|j: int| 0 <= j < i ==> items@[j]@ == encode_utf8(texts@[j]@),
        decreases texts.len() - i,
    {
        items.push(slice_to_vec(texts[i].as_str().as_bytes()));
        i = i + 1;
    }
    assert(fields_view(items) =~= Seq::new(model.len(), |i: int| encode_utf8(model[i])));
    let out = join(&items);
    assert forall|i: int| 0 <= i < model.len() implies encode_utf8(#[trigger] model[i]).len()
        <= u64::MAX by {
        assert(fields_view(items)[i] == encode_utf8(model[i]));
    }
    out
}

/// Reads the list of texts that a field carries; `None` reports a
/// malformed field.
pub fn read_texts(field: &[u8]) -> (r: Option<Vec<String>>)
    ensures
        match r {
            Some(texts) => parse_texts_field(field@) == Some(
                Seq::new(texts@.len(), |i: int| texts@[i]@),
            ),
            None => parse_texts_field(field@) is None,
        },
{
    let items = match split(field) {
        Some(items) => items,
        None => { return None; },
    };
    let ghost raw = fields_view(items);
    let mut texts: Vec<String> = Vec::new();
    let mut i: usize = 0;
    while i < items.len()
        invariant
            i <= items.len(),
            raw == fields_view(items),
            split_fields(field@) == Some(raw),
            texts@.len() == i,
            forall|j: int| 0 <= j < i ==> valid_utf8(#[trigger] raw[j]),
            forall|j: int| 0 <= j < i ==> texts@[j]@ == decode_utf8(raw[j]),
        decreases items.len() - i,
    {
        match text_from_utf8(slice_to_vec(items[i].as_slice())) {
            Some(text) => {
                texts.push(text);
            },
            None => {
                assert(!valid_utf8(raw[i as int]));
                return None;
            },
        }
        i = i + 1;
    }
    assert(Seq::new(texts@.len(), |i: int| texts@[i]@) =~= Seq::new(
        raw.len(),
        |i: int| decode_utf8(raw[i]),
    ));
    Some(texts)
}

/// Builds the field of a text: its UTF-8 encoding.
pub fn write_text(text: &str) -> (r: Vec<u8>)
    ensures
        r@ == encode_utf8(text@),
{
    slice_to_vec(text.as_bytes())
}

/// The field that carries an optional text.
pub open spec fn optional_text_field(value: Option<Seq<char>>) -> Seq<u8> {
    optional_field(
        match value {
            Some(text) => Some(encode_utf8(text)),
            None => None,
        },
    )
}

/// The optional text carried by a field, if the field is well formed.
pub open spec fn parse_optional_text_field(field: Seq<u8>) -> Option<Option<Seq<char>>> {
    match parse_optional_field(field) {
        Some(Some(bytes)) => if valid_utf8(bytes) {
            Some(Some(decode_utf8(bytes)))
        } else {
            None
        },
        Some(None) => Some(None),
        None => None,
    }
}

/// An optional text field parses back to what it carries.
pub proof fn lemma_optional_text_field(value: Option<Seq<char>>)
    ensures
        parse_optional_text_field(optional_text_field(value)) == Some(value),
{
    match value {
        Some(text) => {
            lemma_optional_field(Some(encode_utf8(text)));
            encode_utf8_valid_utf8(text);
            encode_utf8_decode_utf8(text);
        },
        None => {
            lemma_optional_field(None);
        },
    }
}

/// Builds the field of an optional text.
pub fn write_optional_text(value: &Option<String>) -> (r: Vec<u8>)
    ensures
        r@ == optional_text_field(
            match *value {
                Some(s) => Some(s@),
                None => None,
            },
        ),
{
    match value {
        Some(text) => {
            let encoded = Some(write_text(text.as_str()));
            write_optional(&encoded)
        },
        None => write_optional(&None),
    }
}

/// Reads the optional text that a field carries; the outer `None`
/// reports a malformed field.
pub fn read_optional_text(field: &[u8]) -> (r: Option<Option<String>>)
    ensures
        match r {
            Some(Some(s)) => parse_optional_text_field(field@) == Some(Some(s@)),
            Some(None) => parse_optional_text_field(field@) == Some(None::<Seq<char>>),
            None => parse_optional_text_field(field@) is None,
        },
{
    match read_optional(field) {
        Some(Some(bytes)) => match text_from_utf8(bytes) {
            Some(text) => Some(Some(text)),
            None => None,
        },
        Some(None) => Some(None),
        None => None,
    }
}

/// The field that carries an optional list of texts.
pub open spec fn optional_texts_field(value: Option<Seq<Seq<char>>>) -> Seq<u8> {
    optional_field(
        match value {
            Some(texts) => Some(texts_field(texts)),
            None => None,
        },
    )
}

/// The optional list of texts carried by a field, if the field is well
/// formed.
pub open spec fn parse_optional_texts_field(field: Seq<u8>) -> Option<Option<Seq<Seq<char>>>> {
    match parse_optional_field(field) {
        Some(Some(bytes)) => match parse_texts_field(bytes) {
            Some(texts) => Some(Some(texts)),
            None => None,
        },
        Some(None) => Some(None),
        None => None,
    }
}

/// Every text of an optional list fits.
pub open spec fn optional_texts_fit(value: Option<Seq<Seq<char>>>) -> bool {
    match value {
        Some(texts) => texts_fit(texts),
        None => true,
    }
}

/// An optional field of texts parses back to what it carries.
pub proof fn lemma_optional_texts_field(value: Option<Seq<Seq<char>>>)
    requires
        optional_texts_fit(value),
    ensures
        parse_optional_texts_field(optional_texts_field(value)) == Some(value),
{
    match value {
        Some(texts) => {
            lemma_optional_field(Some(texts_field(texts)));
            lemma_texts_field(texts);
        },
        None => {
            lemma_optional_field(None);
        },
    }
}

/// Builds the field of an optional list of texts.
pub fn write_optional_texts(value: &Option<Vec<String>>) -> (r: Vec<u8>)
    ensures
        r@ == optional_texts_field(
            match *value {
                Some(t) => Some(Seq::new(t@.len(), |i: int| t@[i]@)),
                None => None,
            },
        ),
        optional_texts_fit(
            match *value {
                Some(t) => Some(Seq::new(t@.len(), |i: int| t@[i]@)),
                None => None,
            },
        ),
{
    match value {
        Some(texts) => {
            let encoded = Some(write_texts(texts));
            write_optional(&encoded)
        },
        None => write_optional(&None),
    }
}

/// Reads the optional list of texts that a field carries; the outer
/// `None` reports a malformed field.
pub fn read_optional_texts(field: &[u8]) -> (r: Option<Option<Vec<String>>>)
    ensures
        match r {
            Some(Some(t)) => parse_optional_texts_field(field@) == Some(
                Some(Seq::new(t@.len(), |i: int| t@[i]@)),
            ),
            Some(None) => parse_optional_texts_field(field@) == Some(None::<Seq<Seq<char>>>),
            None => parse_optional_texts_field(field@) is None,
        },
{
    match read_optional(field) {
        Some(Some(bytes)) => match read_texts(bytes.as_slice()) {
            Some(texts) => Some(Some(texts)),
            None => None,
        },
        Some(None) => Some(None),
        None => None,
    }
}

} // verus!
