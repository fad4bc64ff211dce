//! Wallet snapshots: the durable projection of a wallet.
//!
//! A snapshot holds every context, alias and key of a wallet. It
//! serializes to the wire framing of this crate; restoring a
//! deserialized snapshot into an empty wallet reproduces the wallet it
//! was taken from.

use vstd::prelude::*;
use vstd::string::StringExecFns;
use vstd::utf8::{
    decode_utf8, encode_utf8, encode_utf8_decode_utf8, encode_utf8_valid_utf8, valid_utf8,
};
use crate::text::text_from_utf8;
use crate::tsp::error::TspError;
use crate::tsp::types::{
    byte_strings_view, clone_bytes, Aliases,
    RelationshipStatus, RelationshipStatusView, VidContext, VidContextView, WebvhUpdateKeys,
};
use crate::tsp::wallet::{
    aliases_view, contexts_view, keys_view, lemma_export_import, TspWallet, TspWalletView,
};
use crate::tsp::wire::{
    fields_fit, fields_view, join, join_fields, lemma_optional_field, lemma_optional_text_field,
    lemma_optional_texts_field, lemma_split_join, optional_field, optional_text_field,
    optional_texts_field, optional_texts_fit, parse_optional_field, parse_optional_text_field,
    parse_optional_texts_field, read_optional, read_optional_text, read_optional_texts, split,
    split_fields, tag_field, take_last, write_optional, write_optional_text, write_optional_texts,
    write_text,
};

verus! {

/// The fields that carry a relationship status.
pub open spec fn status_fields(status: RelationshipStatusView) -> Seq<Seq<u8>> {
    match status {
        RelationshipStatusView::Unrelated => seq![seq![0u8]],
        RelationshipStatusView::Unidirectional { thread_id } => seq![seq![1u8], thread_id],
        RelationshipStatusView::ReverseUnidirectional { thread_id } => seq![seq![2u8], thread_id],
        RelationshipStatusView::Bidirectional { thread_id, outstanding_nested_thread_ids } => seq![
            seq![3u8],
            thread_id,
            join_fields(outstanding_nested_thread_ids),
        ],
    }
}

/// The status carried by a list of fields, if the list is well formed.
pub open spec fn status_of_fields(fields: Seq<Seq<u8>>) -> Option<RelationshipStatusView> {
    if fields.len() < 1 || fields[0].len() != 1 {
        None
    } else {
        let tag = fields[0][0];
        if tag == 0u8 && fields.len() == 1 {
            Some(RelationshipStatusView::Unrelated)
        } else if tag == 1u8 && fields.len() == 2 {
            Some(RelationshipStatusView::Unidirectional { thread_id: fields[1] })
        } else if tag == 2u8 && fields.len() == 2 {
            Some(RelationshipStatusView::ReverseUnidirectional { thread_id: fields[1] })
        } else if tag == 3u8 && fields.len() == 3 {
            match split_fields(fields[2]) {
                Some(nested) => Some(
                    RelationshipStatusView::Bidirectional {
                        thread_id: fields[1],
                        outstanding_nested_thread_ids: nested,
                    },
                ),
                None => None,
            }
        } else {
            None
        }
    }
}

/// The serialized form of a status.
pub open spec fn status_bytes(status: RelationshipStatusView) -> Seq<u8> {
    join_fields(status_fields(status))
}

/// The status that `bytes` serializes, if any.
pub open spec fn status_of_bytes(bytes: Seq<u8>) -> Option<RelationshipStatusView> {
    match split_fields(bytes) {
        Some(fields) => status_of_fields(fields),
        None => None,
    }
}

/// Every part of the status is short enough to be framed.
pub open spec fn status_fits(status: RelationshipStatusView) -> bool {
    &&& fields_fit(status_fields(status))
    &&& status matches RelationshipStatusView::Bidirectional { outstanding_nested_thread_ids, .. }
        ==> fields_fit(outstanding_nested_thread_ids)
}

/// Deserializing a serialized status gives it back.
pub proof fn lemma_status_round_trip(status: RelationshipStatusView)
    requires
        status_fits(status),
    ensures
        status_of_bytes(status_bytes(status)) == Some(status),
{
    lemma_split_join(status_fields(status));
    match status {
        RelationshipStatusView::Bidirectional { outstanding_nested_thread_ids, .. } => {
            lemma_split_join(outstanding_nested_thread_ids);
        },
        _ => {},
    }
}

/// The fields that carry a context.
pub open spec fn context_fields(context: VidContextView) -> Seq<Seq<u8>> {
    seq![
        encode_utf8(context.vid),
        optional_field(context.private),
        status_bytes(context.relation_status),
        optional_text_field(context.relation_vid),
        optional_text_field(context.parent_vid),
        optional_texts_field(context.tunnel),
        optional_text_field(context.metadata),
    ]
}

/// The context carried by a list of fields, if the list is well formed.
pub open spec fn context_of_fields(fields: Seq<Seq<u8>>) -> Option<VidContextView> {
    if fields.len() != 7 || !valid_utf8(fields[0]) {
        None
    } else {
        match (
            parse_optional_field(fields[1]),
            status_of_bytes(fields[2]),
            parse_optional_text_field(fields[3]),
            parse_optional_text_field(fields[4]),
            parse_optional_texts_field(fields[5]),
            parse_optional_text_field(fields[6]),
        ) {
            (
                Some(private),
                Some(relation_status),
                Some(relation_vid),
                Some(parent_vid),
                Some(tunnel),
                Some(metadata),
            ) => Some(
                VidContextView {
                    vid: decode_utf8(fields[0]),
                    private,
                    relation_status,
                    relation_vid,
                    parent_vid,
                    tunnel,
                    metadata,
                },
            ),
            _ => None,
        }
    }
}

/// The serialized form of a context.
pub open spec fn context_bytes(context: VidContextView) -> Seq<u8> {
    join_fields(context_fields(context))
}

/// The context that `bytes` serializes, if any.
pub open spec fn context_of_bytes(bytes: Seq<u8>) -> Option<VidContextView> {
    match split_fields(bytes) {
        Some(fields) => context_of_fields(fields),
        None => None,
    }
}

/// Every part of the context is short enough to be framed.
pub open spec fn context_fits(context: VidContextView) -> bool {
    &&& fields_fit(context_fields(context))
    &&& status_fits(context.relation_status)
    &&& optional_texts_fit(context.tunnel)
}

/// Deserializing a serialized context gives it back.
pub proof fn lemma_context_round_trip(context: VidContextView)
    requires
        context_fits(context),
    ensures
        context_of_bytes(context_bytes(context)) == Some(context),
{
    lemma_split_join(context_fields(context));
    encode_utf8_valid_utf8(context.vid);
    encode_utf8_decode_utf8(context.vid);
    lemma_optional_field(context.private);
    lemma_status_round_trip(context.relation_status);
    lemma_optional_text_field(context.relation_vid);
    lemma_optional_text_field(context.parent_vid);
    lemma_optional_texts_field(context.tunnel);
    lemma_optional_text_field(context.metadata);
}

/// Mathematical value of a [`WalletSnapshot`].
pub struct WalletSnapshotView {
    pub vids: Seq<VidContextView>,
    pub aliases: Seq<(Seq<char>, Seq<char>)>,
    pub keys: Seq<(Seq<char>, Seq<u8>)>,
}

/// The serialized contexts, one item each.
pub open spec fn context_items(vids: Seq<VidContextView>) -> Seq<Seq<u8>> {
    Seq::new(vids.len(), |i: int| context_bytes(vids[i]))
}

/// The serialized form of one alias binding.
pub open spec fn alias_bytes(alias: (Seq<char>, Seq<char>)) -> Seq<u8> {
    join_fields(seq![encode_utf8(alias.0), encode_utf8(alias.1)])
}

/// The alias binding that `bytes` serializes, if any.
pub open spec fn alias_of_bytes(bytes: Seq<u8>) -> Option<(Seq<char>, Seq<char>)> {
    match split_fields(bytes) {
        Some(fields) => if fields.len() == 2 && valid_utf8(fields[0]) && valid_utf8(fields[1]) {
            Some((decode_utf8(fields[0]), decode_utf8(fields[1])))
        } else {
            None
        },
        None => None,
    }
}

/// The serialized form of one key with its id.
pub open spec fn key_bytes(key: (Seq<char>, Seq<u8>)) -> Seq<u8> {
    join_fields(seq![encode_utf8(key.0), key.1])
}

/// The key with its id that `bytes` serializes, if any.
pub open spec fn key_of_bytes(bytes: Seq<u8>) -> Option<(Seq<char>, Seq<u8>)> {
    match split_fields(bytes) {
        Some(fields) => if fields.len() == 2 && valid_utf8(fields[0]) {
            Some((decode_utf8(fields[0]), fields[1]))
        } else {
            None
        },
        None => None,
    }
}

/// The serialized aliases, one item each.
pub open spec fn alias_items(aliases: Seq<(Seq<char>, Seq<char>)>) -> Seq<Seq<u8>> {
    Seq::new(aliases.len(), |i: int| alias_bytes(aliases[i]))
}

/// The serialized keys, one item each.
pub open spec fn key_items(keys: Seq<(Seq<char>, Seq<u8>)>) -> Seq<Seq<u8>> {
    Seq::new(keys.len(), |i: int| key_bytes(keys[i]))
}

/// The contexts carried by items, if every item carries one.
pub open spec fn contexts_of_items(items: Seq<Seq<u8>>) -> Option<Seq<VidContextView>> {
    if forall|i: int| 0 <= i < items.len() ==> context_of_bytes(#[trigger] items[i]) is Some {
        Some(Seq::new(items.len(), |i: int| context_of_bytes(items[i]).unwrap()))
    } else {
        None
    }
}

/// The aliases carried by items, if every item carries one.
pub open spec fn aliases_of_items(items: Seq<Seq<u8>>) -> Option<Seq<(Seq<char>, Seq<char>)>> {
    if forall|i: int| 0 <= i < items.len() ==> alias_of_bytes(#[trigger] items[i]) is Some {
        Some(Seq::new(items.len(), |i: int| alias_of_bytes(items[i]).unwrap()))
    } else {
        None
    }
}

/// The keys carried by items, if every item carries one.
pub open spec fn keys_of_items(items: Seq<Seq<u8>>) -> Option<Seq<(Seq<char>, Seq<u8>)>> {
    if forall|i: int| 0 <= i < items.len() ==> key_of_bytes(#[trigger] items[i]) is Some {
        Some(Seq::new(items.len(), |i: int| key_of_bytes(items[i]).unwrap()))
    } else {
        None
    }
}

/// The fields that carry a snapshot.
pub open spec fn snapshot_fields(snapshot: WalletSnapshotView) -> Seq<Seq<u8>> {
    seq![
        join_fields(context_items(snapshot.vids)),
        join_fields(alias_items(snapshot.aliases)),
        join_fields(key_items(snapshot.keys)),
    ]
}

/// The serialized form of a snapshot.
pub open spec fn snapshot_bytes(snapshot: WalletSnapshotView) -> Seq<u8> {
    join_fields(snapshot_fields(snapshot))
}

/// The snapshot that `bytes` serializes, if any.
pub open spec fn snapshot_of_bytes(bytes: Seq<u8>) -> Option<WalletSnapshotView> {
    match split_fields(bytes) {
        Some(fields) => if fields.len() != 3 {
            None
        } else {
            match (split_fields(fields[0]), split_fields(fields[1]), split_fields(fields[2])) {
                (Some(v), Some(a), Some(k)) => match (
                    contexts_of_items(v),
                    aliases_of_items(a),
                    keys_of_items(k),
                ) {
                    (Some(vids), Some(aliases), Some(keys)) => Some(
                        WalletSnapshotView { vids, aliases, keys },
                    ),
                    _ => None,
                },
                _ => None,
            }
        },
        None => None,
    }
}

/// Both parts of the alias binding are short enough to be framed.
pub open spec fn alias_fits(alias: (Seq<char>, Seq<char>)) -> bool {
    fields_fit(seq![encode_utf8(alias.0), encode_utf8(alias.1)])
}

/// Both parts of the key are short enough to be framed.
pub open spec fn key_fits(key: (Seq<char>, Seq<u8>)) -> bool {
    fields_fit(seq![encode_utf8(key.0), key.1])
}

/// Every part of the snapshot is short enough to be framed. Holds of
/// every snapshot that exists in memory.
pub open spec fn snapshot_fits(snapshot: WalletSnapshotView) -> bool {
    &&& forall|i: int| 0 <= i < snapshot.vids.len() ==> context_fits(#[trigger] snapshot.vids[i])
    &&& forall|i: int|
        0 <= i < snapshot.aliases.len() ==> alias_fits(#[trigger] snapshot.aliases[i])
    &&& forall|i: int| 0 <= i < snapshot.keys.len() ==> key_fits(#[trigger] snapshot.keys[i])
    &&& fields_fit(context_items(snapshot.vids))
    &&& fields_fit(alias_items(snapshot.aliases))
    &&& fields_fit(key_items(snapshot.keys))
    &&& fields_fit(snapshot_fields(snapshot))
}

/// The items of contexts carry the contexts.
pub proof fn lemma_context_items(vids: Seq<VidContextView>)
    requires
        forall|i: int| 0 <= i < vids.len() ==> context_fits(#[trigger] vids[i]),
    ensures
        contexts_of_items(context_items(vids)) == Some(vids),
{
    let v = context_items(vids);
    assert forall|i: int| 0 <= i < v.len() implies context_of_bytes(#[trigger] v[i]) == Some(
        vids[i],
    ) by {
        lemma_context_round_trip(vids[i]);
    }
    assert(contexts_of_items(v).unwrap() =~= vids);
}

/// Deserializing a serialized alias binding gives it back.
pub proof fn lemma_alias_round_trip(alias: (Seq<char>, Seq<char>))
    requires
        alias_fits(alias),
    ensures
        alias_of_bytes(alias_bytes(alias)) == Some(alias),
{
    lemma_split_join(seq![encode_utf8(alias.0), encode_utf8(alias.1)]);
    encode_utf8_valid_utf8(alias.0);
    encode_utf8_valid_utf8(alias.1);
    encode_utf8_decode_utf8(alias.0);
    encode_utf8_decode_utf8(alias.1);
}

/// Deserializing a serialized key gives it back.
pub proof fn lemma_key_round_trip(key: (Seq<char>, Seq<u8>))
    requires
        key_fits(key),
    ensures
        key_of_bytes(key_bytes(key)) == Some(key),
{
    lemma_split_join(seq![encode_utf8(key.0), key.1]);
    encode_utf8_valid_utf8(key.0);
    encode_utf8_decode_utf8(key.0);
}

/// The items of aliases carry the aliases.
pub proof fn lemma_alias_items(aliases: Seq<(Seq<char>, Seq<char>)>)
    requires
        forall|i: int| 0 <= i < aliases.len() ==> alias_fits(#[trigger] aliases[i]),
    ensures
        aliases_of_items(alias_items(aliases)) == Some(aliases),
{
    let a = alias_items(aliases);
    assert forall|i: int| 0 <= i < a.len() implies alias_of_bytes(#[trigger] a[i]) == Some(
        aliases[i],
    ) by {
        lemma_alias_round_trip(aliases[i]);
    }
    assert(aliases_of_items(a).unwrap() =~= aliases);
}

/// The items of keys carry the keys.
pub proof fn lemma_key_items(keys: Seq<(Seq<char>, Seq<u8>)>)
    requires
        forall|i: int| 0 <= i < keys.len() ==> key_fits(#[trigger] keys[i]),
    ensures
        keys_of_items(key_items(keys)) == Some(keys),
{
    let k = key_items(keys);
    assert forall|i: int| 0 <= i < k.len() implies key_of_bytes(#[trigger] k[i]) == Some(
        keys[i],
    ) by {
        lemma_key_round_trip(keys[i]);
    }
    assert(keys_of_items(k).unwrap() =~= keys);
}

/// Deserializing a serialized snapshot gives it back.
pub proof fn lemma_snapshot_round_trip(snapshot: WalletSnapshotView)
    requires
        snapshot_fits(snapshot),
    ensures
        snapshot_of_bytes(snapshot_bytes(snapshot)) == Some(snapshot),
{
    let fields = snapshot_fields(snapshot);
    let v = context_items(snapshot.vids);
    let a = alias_items(snapshot.aliases);
    let k = key_items(snapshot.keys);
    assert(split_fields(snapshot_bytes(snapshot)) == Some(fields)) by {
        lemma_split_join(fields);
    }
    assert(fields.len() == 3 && fields[0] == join_fields(v) && fields[1] == join_fields(a)
        && fields[2] == join_fields(k));
    assert(split_fields(fields[0]) == Some(v)) by {
        lemma_split_join(v);
    }
    assert(split_fields(fields[1]) == Some(a)) by {
        lemma_split_join(a);
    }
    assert(split_fields(fields[2]) == Some(k)) by {
        lemma_split_join(k);
    }
    assert(contexts_of_items(v) == Some(snapshot.vids)) by {
        lemma_context_items(snapshot.vids);
    }
    assert(aliases_of_items(a) == Some(snapshot.aliases)) by {
        lemma_alias_items(snapshot.aliases);
    }
    assert(keys_of_items(k) == Some(snapshot.keys)) by {
        lemma_key_items(snapshot.keys);
    }
}

/// Snapshot round trip: what a wallet exported, once serialized and
/// deserialized and restored into an empty wallet, reproduces the wallet;
/// in particular the same identifiers are private and the same are
/// verified.
pub proof fn lemma_snapshot_persistence(wallet: TspWalletView, snapshot: WalletSnapshotView)
    requires
        wallet.exported_as(snapshot.vids, snapshot.aliases, snapshot.keys),
        snapshot_fits(snapshot),
    ensures
        snapshot_of_bytes(snapshot_bytes(snapshot)) == Some(snapshot),
        TspWalletView::empty().imported(snapshot.vids, snapshot.aliases, snapshot.keys) == wallet,
        forall|vid: Seq<char>|
            TspWalletView::empty().imported(
                snapshot.vids,
                snapshot.aliases,
                snapshot.keys,
            ).has_private(vid) == wallet.has_private(vid),
        forall|vid: Seq<char>|
            TspWalletView::empty().imported(
                snapshot.vids,
                snapshot.aliases,
                snapshot.keys,
            ).has_verified(vid) == wallet.has_verified(vid),
{
    lemma_snapshot_round_trip(snapshot);
    lemma_export_import(wallet, snapshot.vids, snapshot.aliases, snapshot.keys);
}

/// Serializes a status.
fn write_status(status: &RelationshipStatus) -> (r: Vec<u8>)
    ensures
        r@ == status_bytes(status@),
        status_fits(status@),
{
    let mut fields: Vec<Vec<u8>> = Vec::new();
    match status {
        RelationshipStatus::Unrelated => {
            fields.push(tag_field(0u8));
        },
        RelationshipStatus::Unidirectional { thread_id } => {
            fields.push(tag_field(1u8));
            fields.push(clone_bytes(thread_id));
        },
        RelationshipStatus::ReverseUnidirectional { thread_id } => {
            fields.push(tag_field(2u8));
            fields.push(clone_bytes(thread_id));
        },
        RelationshipStatus::Bidirectional { thread_id, outstanding_nested_thread_ids } => {
            fields.push(tag_field(3u8));
            fields.push(clone_bytes(thread_id));
            assert(fields_view(*outstanding_nested_thread_ids) =~= byte_strings_view(
                *outstanding_nested_thread_ids,
            ));
            fields.push(join(outstanding_nested_thread_ids));
        },
    }
    assert(fields_view(fields) =~= status_fields(status@));
    join(&fields)
}

/// Deserializes a status.
fn read_status(data: &[u8]) -> (r: Option<RelationshipStatus>)
    ensures
        match r {
            Some(status) => status_of_bytes(data@) == Some(status@),
            None => status_of_bytes(data@) is None,
        },
{
    let mut fields = match split(data) {
        Some(fields) => fields,
        None => { return None; },
    };
    let ghost all = fields_view(fields);
    let count = fields.len();
    if count < 1 || count > 3 || fields[0].len() != 1 {
        return None;
    }
    let tag = fields[0][0];
    assert(all[0][0] == tag);
    if count == 1 {
        if tag == 0u8 {
            Some(RelationshipStatus::Unrelated)
        } else {
            None
        }
    } else if count == 2 {
        let thread_id = take_last(&mut fields);
        assert(thread_id@ == all[1]);
        if tag == 1u8 {
            Some(RelationshipStatus::Unidirectional { thread_id })
        } else if tag == 2u8 {
            Some(RelationshipStatus::ReverseUnidirectional { thread_id })
        } else {
            None
        }
    } else {
        let nested = take_last(&mut fields);
        let thread_id = take_last(&mut fields);
        assert(thread_id@ == all[1] && nested@ == all[2]);
        if tag == 3u8 {
            match split(nested.as_slice()) {
                Some(outstanding_nested_thread_ids) => {
                    assert(fields_view(outstanding_nested_thread_ids) =~= byte_strings_view(
                        outstanding_nested_thread_ids,
                    ));
                    Some(RelationshipStatus::Bidirectional { thread_id, outstanding_nested_thread_ids })
                },
                None => None,
            }
        } else {
            None
        }
    }
}

/// Serializes a context.
fn write_context(context: &VidContext) -> (r: Vec<u8>)
    ensures
        r@ == context_bytes(context@),
        context_fits(context@),
{
    let mut fields: Vec<Vec<u8>> = Vec::new();
    fields.push(write_text(context.vid.as_str()));
    fields.push(write_optional(&context.private));
    fields.push(write_status(&context.relation_status));
    fields.push(write_optional_text(&context.relation_vid));
    fields.push(write_optional_text(&context.parent_vid));
    fields.push(write_optional_texts(&context.tunnel));
    fields.push(write_optional_text(&context.metadata));
    assert(fields_view(fields) =~= context_fields(context@));
    join(&fields)
}

/// Deserializes a context.
fn read_context(data: &[u8]) -> (r: Option<VidContext>)
    ensures
        match r {
            Some(context) => context_of_bytes(data@) == Some(context@),
            None => context_of_bytes(data@) is None,
        },
{
    let mut fields = match split(data) {
        Some(fields) => fields,
        None => { return None; },
    };
    let ghost all = fields_view(fields);
    if fields.len() != 7 {
        return None;
    }
    let f6 = take_last(&mut fields);
    let f5 = take_last(&mut fields);
    let f4 = take_last(&mut fields);
    let f3 = take_last(&mut fields);
    let f2 = take_last(&mut fields);
    let f1 = take_last(&mut fields);
    let f0 = take_last(&mut fields);
    assert(f0@ == all[0] && f1@ == all[1] && f2@ == all[2] && f3@ == all[3] && f4@ == all[4]
        && f5@ == all[5] && f6@ == all[6]);
    let vid = match text_from_utf8(f0) {
        Some(v) => v,
        None => { return None; },
    };
    let private = match read_optional(f1.as_slice()) {
        Some(v) => v,
        None => { return None; },
    };
    let relation_status = match read_status(f2.as_slice()) {
        Some(v) => v,
        None => { return None; },
    };
    let relation_vid = match read_optional_text(f3.as_slice()) {
        Some(v) => v,
        None => { return None; },
    };
    let parent_vid = match read_optional_text(f4.as_slice()) {
        Some(v) => v,
        None => { return None; },
    };
    let tunnel = match read_optional_texts(f5.as_slice()) {
        Some(v) => v,
        None => { return None; },
    };
    let metadata = match read_optional_text(f6.as_slice()) {
        Some(v) => v,
        None => { return None; },
    };
    Some(
        VidContext { vid, private, relation_status, relation_vid, parent_vid, tunnel, metadata },
    )
}

/// Serializes an alias binding.
fn write_alias(name: &str, target: &str) -> (r: Vec<u8>)
    ensures
        r@ == alias_bytes((name@, target@)),
        alias_fits((name@, target@)),
{
    let mut fields: Vec<Vec<u8>> = Vec::new();
    fields.push(write_text(name));
    fields.push(write_text(target));
    assert(fields_view(fields) =~= seq![encode_utf8(name@), encode_utf8(target@)]);
    join(&fields)
}

/// Deserializes an alias binding.
fn read_alias(data: &[u8]) -> (r: Option<(String, String)>)
    ensures
        match r {
            Some((name, target)) => alias_of_bytes(data@) == Some((name@, target@)),
            None => alias_of_bytes(data@) is None,
        },
{
    let mut fields = match split(data) {
        Some(fields) => fields,
        None => { return None; },
    };
    let ghost all = fields_view(fields);
    if fields.len() != 2 {
        return None;
    }
    let second = take_last(&mut fields);
    let first = take_last(&mut fields);
    assert(first@ == all[0] && second@ == all[1]);
    let name = match text_from_utf8(first) {
        Some(text) => text,
        None => { return None; },
    };
    let target = match text_from_utf8(second) {
        Some(text) => text,
        None => { return None; },
    };
    Some((name, target))
}

/// Serializes a key with its id.
fn write_key(kid: &str, key: &Vec<u8>) -> (r: Vec<u8>)
    ensures
        r@ == key_bytes((kid@, key@)),
        key_fits((kid@, key@)),
{
    let mut fields: Vec<Vec<u8>> = Vec::new();
    fields.push(write_text(kid));
    fields.push(clone_bytes(key));
    assert(fields_view(fields) =~= seq![encode_utf8(kid@), key@]);
    join(&fields)
}

/// Deserializes a key with its id.
fn read_key(data: &[u8]) -> (r: Option<(String, Vec<u8>)>)
    ensures
        match r {
            Some((kid, key)) => key_of_bytes(data@) == Some((kid@, key@)),
            None => key_of_bytes(data@) is None,
        },
{
    let mut fields = match split(data) {
        Some(fields) => fields,
        None => { return None; },
    };
    let ghost all = fields_view(fields);
    if fields.len() != 2 {
        return None;
    }
    let key = take_last(&mut fields);
    let first = take_last(&mut fields);
    assert(first@ == all[0] && key@ == all[1]);
    let kid = match text_from_utf8(first) {
        Some(text) => text,
        None => { return None; },
    };
    Some((kid, key))
}

/// Everything a wallet holds, for persistence.
#[derive(Debug)]
pub struct WalletSnapshot {
    /// Every context of the wallet.
    pub vids: Vec<VidContext>,
    /// The alias bindings.
    pub aliases: Aliases,
    /// The auxiliary keys.
    pub keys: WebvhUpdateKeys,
}

impl View for WalletSnapshot {
    type V = WalletSnapshotView;

    open spec fn view(&self) -> WalletSnapshotView {
        WalletSnapshotView {
            vids: contexts_view(self.vids),
            aliases: aliases_view(self.aliases),
            keys: keys_view(self.keys),
        }
    }
}

/// The error that reports bytes which serialize no snapshot.
fn malformed() -> (e: TspError)
    ensures
        e is Custom,
        e.detail() == "Failed to deserialize: malformed snapshot"@,
{
    TspError::Custom(String::from_str("Failed to deserialize: malformed snapshot"))
}

impl WalletSnapshot {
    /// The snapshot of a wallet: every context, alias and key, each once.
    /// Restored into an empty wallet it reproduces the wallet.
    pub fn from_wallet(wallet: &TspWallet) -> (r: Result<Self, TspError>)
        ensures
            r matches Ok(snapshot) && wallet@.exported_as(
                snapshot@.vids,
                snapshot@.aliases,
                snapshot@.keys,
            ) && TspWalletView::empty().imported(snapshot@.vids, snapshot@.aliases, snapshot@.keys)
                == wallet@,
    {
        match wallet.export() {
            Ok((vids, aliases, keys)) => {
                let snapshot = WalletSnapshot { vids, aliases, keys };
                proof {
                    lemma_export_import(
                        wallet@,
                        snapshot@.vids,
                        snapshot@.aliases,
                        snapshot@.keys,
                    );
                }
                Ok(snapshot)
            },
            Err(e) => Err(e),
        }
    }

    /// Restores the snapshot into a wallet: contexts are merged by
    /// identifier, aliases and keys are replaced.
    pub fn restore_to_wallet(&self, wallet: &mut TspWallet) -> (r: Result<(), TspError>)
        ensures
            r is Ok,
            final(wallet)@ == old(wallet)@.imported(self@.vids, self@.aliases, self@.keys),
    {
        let mut vids: Vec<VidContext> = Vec::new();
        let mut i: usize = 0;
        while i < self.vids.len()
            invariant
                i <= self.vids.len(),
                vids@.len() == i,
                forall|j: int| 0 <= j < i ==> (#[trigger] vids@[j])@ == self.vids@[j]@,
            decreases self.vids.len() - i,
        {
            vids.push(self.vids[i].clone());
            i = i + 1;
        }
        let mut aliases: Vec<(String, String)> = Vec::new();
        let mut a: usize = 0;
        while a < self.aliases.len()
            invariant
                a <= self.aliases.len(),
                aliases@.len() == a,
                forall|j: int|
                    0 <= j < a ==> (#[trigger] aliases@[j]).0@ == self.aliases@[j].0@
                        && aliases@[j].1@ == self.aliases@[j].1@,
            decreases self.aliases.len() - a,
        {
            aliases.push((self.aliases[a].0.clone(), self.aliases[a].1.clone()));
            a = a + 1;
        }
        let mut keys: Vec<(String, Vec<u8>)> = Vec::new();
        let mut k: usize = 0;
        while k < self.keys.len()
            invariant
                k <= self.keys.len(),
                keys@.len() == k,
                forall|j: int|
                    0 <= j < k ==> (#[trigger] keys@[j]).0@ == self.keys@[j].0@ && keys@[j].1@
                        == self.keys@[j].1@,
            decreases self.keys.len() - k,
        {
            keys.push((self.keys[k].0.clone(), clone_bytes(&self.keys[k].1)));
            k = k + 1;
        }
        assert(contexts_view(vids) =~= self@.vids);
        assert(aliases_view(aliases) =~= self@.aliases);
        assert(keys_view(keys) =~= self@.keys);
        wallet.import(vids, aliases, keys)
    }

    /// Serializes the snapshot. Always succeeds, and the bytes
    /// deserialize to the snapshot.
    pub fn to_bytes(&self) -> (r: Result<Vec<u8>, TspError>)
        ensures
            r matches Ok(bytes) && bytes@ == snapshot_bytes(self@) && snapshot_of_bytes(bytes@)
                == Some(self@),
            snapshot_fits(self@),
    {
        let mut items: Vec<Vec<u8>> = Vec::new();
        let mut i: usize = 0;
        while i < self.vids.len()
            invariant
                i <= self.vids.len(),
                items@.len() == i,
                forall|j: int|
                    0 <= j < i ==> (#[trigger] items@[j])@ == context_bytes(self.vids@[j]@)
                        && context_fits(self.vids@[j]@),
            decreases self.vids.len() - i,
        {
            items.push(write_context(&self.vids[i]));
            i = i + 1;
        }
        assert(fields_view(items) =~= context_items(self@.vids));
        let vids_field = join(&items);
        let mut alias_list: Vec<Vec<u8>> = Vec::new();
        let mut a: usize = 0;
        while a < self.aliases.len()
            invariant
                a <= self.aliases.len(),
                alias_list@.len() == a,
                forall|j: int|
                    0 <= j < a ==> (#[trigger] alias_list@[j])@ == alias_bytes(
                        (self.aliases@[j].0@, self.aliases@[j].1@),
                    ) && alias_fits((self.aliases@[j].0@, self.aliases@[j].1@)),
            decreases self.aliases.len() - a,
        {
            alias_list.push(write_alias(self.aliases[a].0.as_str(), self.aliases[a].1.as_str()));
            a = a + 1;
        }
        assert(fields_view(alias_list) =~= alias_items(self@.aliases));
        let aliases_field = join(&alias_list);
        let mut key_list: Vec<Vec<u8>> = Vec::new();
        let mut k: usize = 0;
        while k < self.keys.len()
            invariant
                k <= self.keys.len(),
                key_list@.len() == k,
                forall|j: int|
                    0 <= j < k ==> (#[trigger] key_list@[j])@ == key_bytes(
                        (self.keys@[j].0@, self.keys@[j].1@),
                    ) && key_fits((self.keys@[j].0@, self.keys@[j].1@)),
            decreases self.keys.len() - k,
        {
            key_list.push(write_key(self.keys[k].0.as_str(), &self.keys[k].1));
            k = k + 1;
        }
        assert(fields_view(key_list) =~= key_items(self@.keys));
        let keys_field = join(&key_list);
        let mut fields: Vec<Vec<u8>> = Vec::new();
        fields.push(vids_field);
        fields.push(aliases_field);
        fields.push(keys_field);
        assert(fields_view(fields) =~= snapshot_fields(self@));
        let bytes = join(&fields);
        proof {
            assert forall|j: int| 0 <= j < self@.vids.len() implies context_fits(
                #[trigger] self@.vids[j],
            ) by {
                assert(items@[j]@ == context_bytes(self.vids@[j]@));
            }
            assert forall|j: int| 0 <= j < self@.aliases.len() implies alias_fits(
                #[trigger] self@.aliases[j],
            ) by {
                assert(alias_list@[j]@ == alias_bytes((self.aliases@[j].0@, self.aliases@[j].1@)));
            }
            assert forall|j: int| 0 <= j < self@.keys.len() implies key_fits(
                #[trigger] self@.keys[j],
            ) by {
                assert(key_list@[j]@ == key_bytes((self.keys@[j].0@, self.keys@[j].1@)));
            }
            lemma_snapshot_round_trip(self@);
        }
        Ok(bytes)
    }

    /// Deserializes a snapshot; bytes that serialize none are refused.
    #[verifier::loop_isolation(false)]
    pub fn from_bytes(data: &[u8]) -> (r: Result<Self, TspError>)
        ensures
            match r {
                Ok(snapshot) => snapshot_of_bytes(data@) == Some(snapshot@),
                Err(e) => snapshot_of_bytes(data@) is None && e is Custom && e.detail()
                    == "Failed to deserialize: malformed snapshot"@,
            },
    {
        let mut fields = match split(data) {
            Some(fields) => fields,
            None => { return Err(malformed()); },
        };
        let ghost all = fields_view(fields);
        if fields.len() != 3 {
            return Err(malformed());
        }
        let keys_field = take_last(&mut fields);
        let aliases_field = take_last(&mut fields);
        let vids_field = take_last(&mut fields);
        assert(vids_field@ == all[0] && aliases_field@ == all[1] && keys_field@ == all[2]);
        let v = match split(vids_field.as_slice()) {
            Some(items) => items,
            None => { return Err(malformed()); },
        };
        let a = match split(aliases_field.as_slice()) {
            Some(items) => items,
            None => { return Err(malformed()); },
        };
        let k = match split(keys_field.as_slice()) {
            Some(items) => items,
            None => { return Err(malformed()); },
        };
        let ghost vi = fields_view(v);
        let ghost ai = fields_view(a);
        let ghost ki = fields_view(k);
        let mut vids: Vec<VidContext> = Vec::new();
        let mut i: usize = 0;
        while i < v.len()
            invariant
                i <= v.len(),
                vi == fields_view(v),
                vids@.len() == i,
                forall|j: int|
                    0 <= j < i ==> context_of_bytes(#[trigger] vi[j]) == Some(vids@[j]@),
            decreases v.len() - i,
        {
            match read_context(v[i].as_slice()) {
                Some(context) => {
                    vids.push(context);
                },
                None => {
                    assert(context_of_bytes(vi[i as int]) is None);
                    return Err(malformed());
                },
            }
            i = i + 1;
        }
        assert(contexts_of_items(vi).unwrap() =~= contexts_view(vids));
        let mut aliases: Vec<(String, String)> = Vec::new();
        let mut p: usize = 0;
        while p < a.len()
            invariant
                p <= a.len(),
                ai == fields_view(a),
                aliases@.len() == p,
                forall|j: int|
                    0 <= j < p ==> alias_of_bytes(#[trigger] ai[j]) == Some(
                        (aliases@[j].0@, aliases@[j].1@),
                    ),
            decreases a.len() - p,
        {
            match read_alias(a[p].as_slice()) {
                Some(alias) => {
                    aliases.push(alias);
                },
                None => {
                    assert(alias_of_bytes(ai[p as int]) is None);
                    return Err(malformed());
                },
            }
            p = p + 1;
        }
        assert(aliases_of_items(ai).unwrap() =~= aliases_view(aliases));
        let mut keys: Vec<(String, Vec<u8>)> = Vec::new();
        let mut q: usize = 0;
        while q < k.len()
            invariant
                q <= k.len(),
                ki == fields_view(k),
                keys@.len() == q,
                forall|j: int|
                    0 <= j < q ==> key_of_bytes(#[trigger] ki[j]) == Some(
                        (keys@[j].0@, keys@[j].1@),
                    ),
            decreases k.len() - q,
        {
            match read_key(k[q].as_slice()) {
                Some(key) => {
                    keys.push(key);
                },
                None => {
                    assert(key_of_bytes(ki[q as int]) is None);
                    return Err(malformed());
                },
            }
            q = q + 1;
        }
        assert(keys_of_items(ki).unwrap() =~= keys_view(keys));
        Ok(WalletSnapshot { vids, aliases, keys })
    }
}

} // verus!
