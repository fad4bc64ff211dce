//! The handler: protocol operations over a wallet and a route table.
//!
//! The handler owns its wallet and route table. Every operation is one
//! step on that state; whoever shares a handler between tasks serializes
//! the steps.

use vstd::prelude::*;
use vstd::slice::slice_to_vec;
use vstd::string::StringExecFns;
use vstd::utf8::encode_utf8;
use crate::crypto::hash::{blake2b256_digest, Blake2b256Hasher};
use crate::crypto::traits::Hasher;
use crate::tsp::error::TspError;
use crate::tsp::message::{
    lemma_message_round_trip, message_bytes, message_of_bytes, TspMessage, TspMessageView,
};
use crate::tsp::payload::{lemma_payload_round_trip, payload_bytes, payload_of_bytes};
use crate::tsp::relationship::RelationshipManager;
use crate::tsp::routing::{
    delivered, listing_view, lists_fresh_routes, process_routed_message, RouteEntryView,
    RouteTable, RouteTableView, DEFAULT_TTL_SECS,
};
use crate::tsp::types::{
    clone_bytes, opt_route_view, route_view, CryptoType, MessageType, ReceivedTspMessage,
    ReceivedTspMessageView, RelationshipStatus, RelationshipStatusView, Route, SignatureType,
    ThreadId, TspPayload, TspPayloadView,
};
use crate::tsp::wallet::{TspWallet, TspWalletView};

verus! {

#[verifier::external_type_specification]
#[verifier::external_body]
pub struct ExUrl(url::Url);

#[verifier::external_type_specification]
#[verifier::external_body]
pub struct ExUrlParseError(url::ParseError);

/// Whether the `url` crate parses `text` as an absolute URL.
pub uninterp spec fn url_parses(text: Seq<char>) -> bool;

/// Calls `Url::parse`.
#[verifier::external_body]
fn parse_url(text: &str) -> (r: Result<url::Url, url::ParseError>)
    ensures
        r is Ok <==> url_parses(text@),
{
    url::Url::parse(text)
}

/// Renders a URL parse error, with its `Display`, behind a fixed
/// introduction. Nothing is promised of the text.
#[verifier::external_body]
fn describe_url_error(e: url::ParseError) -> String {
    format!("URL parse error: {}", e)
}

/// Where an outgoing message is to be delivered, until identifiers carry
/// their own transport address.
pub open spec fn destination_text() -> Seq<char> {
    "tcp://127.0.0.1:8080"@
}

/// The destination placeholder as a URL, or the custom error that the
/// parser's refusal maps to.
fn destination() -> (r: Result<url::Url, TspError>)
    ensures
        r is Ok <==> url_parses(destination_text()),
        r matches Err(e) ==> e is Custom,
{
    match parse_url("tcp://127.0.0.1:8080") {
        Ok(url) => Ok(url),
        Err(e) => Err(TspError::Custom(describe_url_error(e))),
    }
}

/// The thread id of the negotiation that `sender` opens with `receiver`:
/// the BLAKE2b-256 digest of the sender's bytes followed by the
/// receiver's.
pub open spec fn thread_id_of(sender: Seq<char>, receiver: Seq<char>) -> Seq<u8> {
    blake2b256_digest(encode_utf8(sender) + encode_utf8(receiver))
}

/// A message from `sender` to `receiver` with the given payload and no
/// unencrypted header.
pub open spec fn envelope(sender: Seq<char>, receiver: Seq<char>, payload: Seq<u8>) -> TspMessageView {
    TspMessageView { sender, receiver: Some(receiver), payload, nonconfidential_data: None }
}

/// The relationship request that `sender` sends to `receiver`.
pub open spec fn proposal_payload(sender: Seq<char>, receiver: Seq<char>) -> TspPayloadView {
    TspPayloadView::RequestRelationship { route: None, thread_id: thread_id_of(sender, receiver) }
}

/// The proposal message from `sender` to `receiver`.
pub open spec fn proposal(sender: Seq<char>, receiver: Seq<char>) -> TspMessageView {
    envelope(sender, receiver, payload_bytes(proposal_payload(sender, receiver)))
}

/// The receiver of a message, or the empty identifier when it names
/// none.
pub open spec fn receiver_or_empty(message: TspMessageView) -> Seq<char> {
    match message.receiver {
        Some(r) => r,
        None => Seq::empty(),
    }
}

/// The protection that the handler reports for what it dispatches
/// itself.
pub open spec fn sealed_type() -> MessageType {
    MessageType { crypto_type: CryptoType::Encrypted, signature_type: SignatureType::Signature }
}

/// What the handler makes of a message with the given payload; `None`
/// where it refuses to relay.
pub open spec fn dispatched(message: TspMessageView, payload: TspPayloadView) -> Option<
    ReceivedTspMessageView,
> {
    match payload {
        TspPayloadView::Content(data) => Some(
            ReceivedTspMessageView::GenericMessage {
                sender: message.sender,
                receiver: message.receiver,
                message: data,
                message_type: sealed_type(),
            },
        ),
        TspPayloadView::RequestRelationship { route, thread_id } => Some(
            ReceivedTspMessageView::RequestRelationship {
                sender: message.sender,
                receiver: receiver_or_empty(message),
                route: None,
                thread_id,
                nested_vid: None,
            },
        ),
        TspPayloadView::AcceptRelationship { .. } => Some(
            ReceivedTspMessageView::AcceptRelationship {
                sender: message.sender,
                receiver: receiver_or_empty(message),
                nested_vid: None,
            },
        ),
        TspPayloadView::CancelRelationship { .. } => Some(
            ReceivedTspMessageView::CancelRelationship {
                sender: message.sender,
                receiver: receiver_or_empty(message),
            },
        ),
        TspPayloadView::RoutedMessage { hops, payload: inner } => {
            if hops.len() == 0 {
                match payload_of_bytes(inner) {
                    Some(innermost) => Some(delivered(message.sender, inner, innermost)),
                    None => None,
                }
            } else {
                None
            }
        },
        _ => Some(
            ReceivedTspMessageView::GenericMessage {
                sender: message.sender,
                receiver: message.receiver,
                message: message.payload,
                message_type: sealed_type(),
            },
        ),
    }
}

/// The route table after a message with the given payload was handled at
/// time `now`: a relationship request that carries a route teaches the
/// route to its sender.
pub open spec fn routes_learned(
    routes: RouteTableView,
    message: TspMessageView,
    payload: TspPayloadView,
    now: u128,
) -> RouteTableView {
    match payload {
        TspPayloadView::RequestRelationship { route: Some(hops), .. } => routes.with_route(
            message.sender,
            hops,
            now,
        ),
        _ => routes,
    }
}

/// Mathematical value of a [`TspHandler`].
pub struct TspHandlerView {
    pub wallet: TspWalletView,
    pub routes: RouteTableView,
}

/// Handling `message` at time `now` takes a handler from `before` to
/// `after` with outcome `r`.
///
/// Bytes that serialize no message, or a message whose payload
/// serializes no payload, are a message format error and change nothing.
/// Otherwise the wallet is untouched, the route table learns what the
/// payload teaches, and the outcome is what the payload dispatches to; a
/// routed message with hops left is an invalid route, and one at its
/// final hop whose inner payload serializes none is a message format
/// error.
pub open spec fn handles(
    before: TspHandlerView,
    message: Seq<u8>,
    now: u128,
    after: TspHandlerView,
    r: Result<ReceivedTspMessage, TspError>,
) -> bool {
    match message_of_bytes(message) {
        None => r matches Err(e) && e is MessageFormat && e.detail() == "malformed message"@
            && after == before,
        Some(msg) => match payload_of_bytes(msg.payload) {
            None => r matches Err(e) && e is MessageFormat && e.detail() == "malformed payload"@
                && after == before,
            Some(payload) => {
                &&& after.wallet == before.wallet
                &&& after.routes == routes_learned(before.routes, msg, payload, now)
                &&& match dispatched(msg, payload) {
                    Some(received) => r matches Ok(got) && got@ == received,
                    None => r matches Err(e) && if payload
                        matches TspPayloadView::RoutedMessage { hops, .. } && hops.len() > 0 {
                        e is InvalidRoute && e.detail()
                            == "Relay not implemented for intermediate hops"@
                    } else {
                        e is MessageFormat && e.detail() == "malformed payload"@
                    },
                }
            },
        },
    }
}

/// The outcome of an operation that returns a destination with bytes,
/// without the destination: the bytes, or the error.
pub open spec fn sent(r: Result<(url::Url, Vec<u8>), TspError>) -> Result<Seq<u8>, TspError> {
    match r {
        Ok((_, bytes)) => Ok(bytes@),
        Err(e) => Err(e),
    }
}

/// The status that a cancellation between `sender` and `receiver` starts
/// from: the one stored for the receiver with the sender as
/// counterparty, or `Unrelated` when the receiver is not known.
pub open spec fn standing(
    wallet: TspWalletView,
    sender: Seq<char>,
    receiver: Seq<char>,
) -> RelationshipStatusView {
    if wallet.vids.contains_key(receiver) {
        wallet.relationship(receiver, sender)
    } else {
        RelationshipStatusView::Unrelated
    }
}

/// Proposing a relationship from `sender` to `receiver` takes a handler
/// from `before` to `after` with outcome `r`.
///
/// A sender that is not locally controlled is refused, then a receiver
/// that is not known; a refusal changes nothing. Otherwise the proposal
/// succeeds: the receiver's entry holds `Unidirectional` on the thread
/// id of the pair with the sender as counterparty, nothing else changes,
/// and the bytes are the serialized proposal, which deserializes to a
/// message from sender to receiver whose payload is the relationship
/// request on that thread id with no route.
pub open spec fn proposes(
    before: TspHandlerView,
    sender: Seq<char>,
    receiver: Seq<char>,
    after: TspHandlerView,
    r: Result<Seq<u8>, TspError>,
) -> bool {
    if !before.wallet.has_private(sender) {
        r matches Err(e) && e is MissingPrivateVid && e.detail() == sender && after == before
    } else if !before.wallet.has_verified(receiver) {
        r matches Err(e) && e is UnverifiedVid && e.detail() == receiver && after == before
    } else {
        &&& r matches Ok(bytes)
        &&& after.routes == before.routes
        &&& after.wallet == before.wallet.with_relationship(
            receiver,
            RelationshipStatusView::initiated(thread_id_of(sender, receiver)),
            Some(sender),
        )
        &&& after.wallet.relationship(receiver, sender) == RelationshipStatusView::initiated(
            thread_id_of(sender, receiver),
        )
        &&& bytes == message_bytes(proposal(sender, receiver))
        &&& message_of_bytes(bytes) == Some(proposal(sender, receiver))
        &&& payload_of_bytes(proposal(sender, receiver).payload) == Some(
            proposal_payload(sender, receiver),
        )
    }
}

/// Accepting on `thread_id` the proposal that `sender` made to
/// `receiver` takes a handler from `before` to `after` with outcome `r`.
///
/// A receiver that is not locally controlled is refused, then a sender
/// that is not known, then a transition that the status stored for the
/// sender with the receiver as counterparty does not allow; a refusal
/// changes nothing. Otherwise the acceptance succeeds: the sender's
/// entry holds the accepted status with the receiver as counterparty,
/// nothing else changes, and the bytes are the serialized envelope from
/// receiver to sender.
pub open spec fn accepts(
    before: TspHandlerView,
    sender: Seq<char>,
    receiver: Seq<char>,
    thread_id: Seq<u8>,
    after: TspHandlerView,
    r: Result<Seq<u8>, TspError>,
) -> bool {
    if !before.wallet.has_private(receiver) {
        r matches Err(e) && e is MissingPrivateVid && e.detail() == receiver && after == before
    } else if !before.wallet.has_verified(sender) {
        r matches Err(e) && e is UnverifiedVid && e.detail() == sender && after == before
    } else {
        match before.wallet.relationship(sender, receiver).accepted(thread_id) {
            Err(why) => r matches Err(e) && why.reported_as(e) && after == before,
            Ok(status) => {
                &&& r matches Ok(bytes)
                &&& after.routes == before.routes
                &&& after.wallet == before.wallet.with_relationship(
                    sender,
                    status,
                    Some(receiver),
                )
                &&& after.wallet.relationship(sender, receiver) == status
                &&& bytes == message_bytes(envelope(receiver, sender, Seq::empty()))
                &&& message_of_bytes(bytes) == Some(envelope(receiver, sender, Seq::empty()))
            },
        }
    }
}

/// Cancelling the relationship between `sender` and `receiver` takes a
/// handler from `before` to `after` with outcome `r`.
///
/// The standing status is taken through the cancellation transition,
/// which refuses `Unrelated`; a refusal changes nothing. Otherwise the
/// cancellation succeeds: the entry that was read, the receiver's, is
/// reset to `Unrelated` with no counterparty, so that the pair reads
/// `Unrelated` from then on; nothing else changes, and the bytes are the
/// serialized envelope from sender to receiver.
pub open spec fn cancels(
    before: TspHandlerView,
    sender: Seq<char>,
    receiver: Seq<char>,
    after: TspHandlerView,
    r: Result<Seq<u8>, TspError>,
) -> bool {
    match standing(before.wallet, sender, receiver).cancelled() {
        Err(why) => r matches Err(e) && why.reported_as(e) && after == before,
        Ok(_) => {
            &&& r matches Ok(bytes)
            &&& after.routes == before.routes
            &&& after.wallet == before.wallet.with_relationship(
                receiver,
                RelationshipStatusView::Unrelated,
                None,
            )
            &&& standing(after.wallet, sender, receiver) is Unrelated
            &&& bytes == message_bytes(envelope(sender, receiver, Seq::empty()))
            &&& message_of_bytes(bytes) == Some(envelope(sender, receiver, Seq::empty()))
        },
    }
}

/// The outcome of an operation whose destination placeholder the parser
/// refuses: a custom error, and nothing changed.
pub open spec fn undeliverable(
    before: TspHandlerView,
    after: TspHandlerView,
    r: Result<Seq<u8>, TspError>,
) -> bool {
    r matches Err(e) && e is Custom && after == before
}

/// Coordinates wallet, relationship machine and route table.
#[derive(Debug)]
pub struct TspHandler {
    wallet: TspWallet,
    routes: RouteTable,
}

impl View for TspHandler {
    type V = TspHandlerView;

    closed spec fn view(&self) -> TspHandlerView {
        TspHandlerView { wallet: self.wallet@, routes: self.routes@ }
    }
}

/// The error that reports a sender without a locally controlled key.
fn missing_private(vid: &str) -> (e: TspError)
    ensures
        e is MissingPrivateVid,
        e.detail() == vid@,
{
    TspError::MissingPrivateVid(vid.to_owned())
}

/// The error that reports an identifier the wallet does not know.
fn unverified(vid: &str) -> (e: TspError)
    ensures
        e is UnverifiedVid,
        e.detail() == vid@,
{
    TspError::UnverifiedVid(vid.to_owned())
}

impl TspHandler {
    /// A handler over `wallet` with an empty route table.
    pub fn new(wallet: TspWallet) -> (r: Self)
        ensures
            r@.wallet == wallet@,
            r@.routes.routes == Map::<Seq<char>, RouteEntryView>::empty(),
            r@.routes.ttl_secs == DEFAULT_TTL_SECS,
    {
        TspHandler { wallet, routes: RouteTable::new() }
    }

    /// A handler over `wallet` with the given route table.
    pub fn with_routes(wallet: TspWallet, routes: RouteTable) -> (r: Self)
        ensures
            r@.wallet == wallet@,
            r@.routes == routes@,
    {
        TspHandler { wallet, routes }
    }

    /// Takes the handler apart into its wallet and route table.
    pub fn into_parts(self) -> (r: (TspWallet, RouteTable))
        ensures
            r.0@ == self@.wallet,
            r.1@ == self@.routes,
    {
        (self.wallet, self.routes)
    }

    /// Learns a route at the given time.
    pub fn add_route_at(&mut self, vid: String, hops: Route, at: u128)
        ensures
            final(self)@.wallet == old(self)@.wallet,
            final(self)@.routes == old(self)@.routes.with_route(vid@, route_view(hops), at),
    {
        self.routes.add_route_at(vid, hops, at);
    }

    /// Learns a route now, by the system clock.
    pub fn add_route(&mut self, vid: String, hops: Route)
        ensures
            final(self)@.wallet == old(self)@.wallet,
            exists|at: u128|
                final(self)@.routes == old(self)@.routes.with_route(vid@, route_view(hops), at),
    {
        let at = crate::tsp::routing::now_nanos();
        self.routes.add_route_at(vid, hops, at);
        assert(self@.routes == old(self)@.routes.with_route(vid@, route_view(hops), at));
    }

    /// The hops to `vid` if a route is known and still valid at `now`.
    pub fn get_route_at(&self, vid: &str, now: u128) -> (r: Option<Route>)
        ensures
            opt_route_view(r) == self@.routes.lookup(vid@, now),
    {
        self.routes.get_route_at(vid, now)
    }

    /// The hops to `vid` if a route is known and still valid now.
    pub fn get_route(&self, vid: &str) -> (r: Option<Route>)
        ensures
            exists|now: u128| opt_route_view(r) == self@.routes.lookup(vid@, now),
    {
        let now = crate::tsp::routing::now_nanos();
        let r = self.routes.get_route_at(vid, now);
        assert(opt_route_view(r) == self@.routes.lookup(vid@, now));
        r
    }

    /// Every route that is still valid at `now`.
    pub fn list_routes_at(&self, now: u128) -> (r: Vec<(String, Route)>)
        ensures
            lists_fresh_routes(listing_view(r), self@.routes, now),
    {
        self.routes.list_routes_at(now)
    }

    /// Every route that is still valid now.
    pub fn list_routes(&self) -> (r: Vec<(String, Route)>)
        ensures
            exists|now: u128| lists_fresh_routes(listing_view(r), self@.routes, now),
    {
        let now = crate::tsp::routing::now_nanos();
        let r = self.routes.list_routes_at(now);
        assert(lists_fresh_routes(listing_view(r), self@.routes, now));
        r
    }

    /// The wallet.
    pub fn wallet(&self) -> (r: &TspWallet)
        ensures
            r@ == self@.wallet,
    {
        &self.wallet
    }

    /// The wallet, for changes.
    pub fn wallet_mut(&mut self) -> (r: &mut TspWallet)
        ensures
            r@ == old(self)@.wallet,
            final(self)@.wallet == final(r)@,
            final(self)@.routes == old(self)@.routes,
    {
        &mut self.wallet
    }

    /// Proposes a relationship from `sender` to `receiver`, for delivery
    /// to `destination`.
    ///
    /// The sender must be locally controlled and the receiver known; the
    /// proposal then succeeds. The receiver's entry holds `Unidirectional`
    /// on the thread id of the pair with the sender as counterparty, and
    /// the result is the destination handed in with the serialized
    /// proposal. A failure changes nothing.
    pub fn propose_relationship_to(
        &mut self,
        sender: &str,
        receiver: &str,
        destination: url::Url,
    ) -> (r: Result<(url::Url, Vec<u8>), TspError>)
        ensures
            r is Ok <==> old(self)@.wallet.has_private(sender@) && old(self)@.wallet.has_verified(
                receiver@,
            ),
            r matches Ok((to, _)) ==> to == destination,
            proposes(old(self)@, sender@, receiver@, final(self)@, sent(r)),
    {
        let has_private = match self.wallet.has_private_vid(sender) {
            Ok(b) => b,
            Err(e) => { return Err(e); },
        };
        if !has_private {
            return Err(missing_private(sender));
        }
        let has_verified = match self.wallet.has_verified_vid(receiver) {
            Ok(b) => b,
            Err(e) => { return Err(e); },
        };
        if !has_verified {
            return Err(unverified(receiver));
        }
        let hasher = Blake2b256Hasher;
        let mut data = slice_to_vec(sender.as_bytes());
        data.extend_from_slice(receiver.as_bytes());
        assert(data@ =~= encode_utf8(sender@) + encode_utf8(receiver@));
        let thread_id = hasher.hash(data.as_slice());
        let status = match RelationshipManager::initiate(clone_bytes(&thread_id)) {
            Ok(s) => s,
            Err(e) => { return Err(e); },
        };
        match self.wallet.set_relationship(receiver, status, Some(sender.to_owned())) {
            Ok(_) => {},
            Err(e) => { return Err(e); },
        }
        let payload = TspPayload::RequestRelationship { route: None, thread_id };
        let payload_bytes = payload.to_bytes();
        let msg = TspMessage::new(
            sender.to_owned(),
            Some(receiver.to_owned()),
            payload_bytes,
            None,
        );
        let sealed = match msg.to_bytes() {
            Ok(b) => b,
            Err(e) => { return Err(e); },
        };
        proof {
            lemma_payload_round_trip(payload@);
            lemma_message_round_trip(msg@);
        }
        Ok((destination, sealed))
    }

    /// Proposes a relationship from `sender` to `receiver`, for delivery
    /// to the destination placeholder.
    ///
    /// The placeholder is parsed first; a parser that refuses it fails the
    /// operation with a custom error before anything changes. With the
    /// placeholder parsed the operation is
    /// [`TspHandler::propose_relationship_to`].
    pub fn propose_relationship(&mut self, sender: &str, receiver: &str) -> (r: Result<
        (url::Url, Vec<u8>),
        TspError,
    >)
        ensures
            if url_parses(destination_text()) {
                proposes(old(self)@, sender@, receiver@, final(self)@, sent(r))
            } else {
                undeliverable(old(self)@, final(self)@, sent(r))
            },
    {
        match destination() {
            Ok(url) => self.propose_relationship_to(sender, receiver, url),
            Err(e) => Err(e),
        }
    }

    /// Accepts the proposal on `thread_id` that `sender` made to
    /// `receiver`, for delivery to `destination`.
    ///
    /// The receiver must be locally controlled and the sender known. The
    /// status stored for the sender with the receiver as counterparty is
    /// taken through the acceptance transition and stored back. On success
    /// the result is the destination handed in with the serialized
    /// acceptance envelope. A failure changes nothing.
    pub fn accept_relationship_to(
        &mut self,
        sender: &str,
        receiver: &str,
        thread_id: &ThreadId,
        destination: url::Url,
    ) -> (r: Result<(url::Url, Vec<u8>), TspError>)
        ensures
            r is Ok <==> old(self)@.wallet.has_private(receiver@) && old(self)@.wallet.has_verified(
                sender@,
            ) && old(self)@.wallet.relationship(sender@, receiver@).accepted(thread_id@) is Ok,
            r matches Ok((to, _)) ==> to == destination,
            accepts(old(self)@, sender@, receiver@, thread_id@, final(self)@, sent(r)),
    {
        let has_private = match self.wallet.has_private_vid(receiver) {
            Ok(b) => b,
            Err(e) => { return Err(e); },
        };
        if !has_private {
            return Err(missing_private(receiver));
        }
        let has_verified = match self.wallet.has_verified_vid(sender) {
            Ok(b) => b,
            Err(e) => { return Err(e); },
        };
        if !has_verified {
            return Err(unverified(sender));
        }
        let current_status = match self.wallet.get_relationship(sender, receiver) {
            Ok(status) => status,
            Err(_) => RelationshipStatus::Unrelated,
        };
        let new_status = match RelationshipManager::accept(&current_status, thread_id) {
            Ok(status) => status,
            Err(e) => { return Err(e); },
        };
        match self.wallet.set_relationship(sender, new_status, Some(receiver.to_owned())) {
            Ok(_) => {},
            Err(e) => { return Err(e); },
        }
        let msg = TspMessage::new(receiver.to_owned(), Some(sender.to_owned()), Vec::new(), None);
        let payload = match msg.to_bytes() {
            Ok(b) => b,
            Err(e) => { return Err(e); },
        };
        proof {
            assert(msg@.payload =~= Seq::<u8>::empty());
            lemma_message_round_trip(msg@);
        }
        Ok((destination, payload))
    }

    /// Accepts the proposal on `thread_id` that `sender` made to
    /// `receiver`, for delivery to the destination placeholder.
    ///
    /// The placeholder is parsed first; a parser that refuses it fails the
    /// operation with a custom error before anything changes. With the
    /// placeholder parsed the operation is
    /// [`TspHandler::accept_relationship_to`].
    pub fn accept_relationship(&mut self, sender: &str, receiver: &str, thread_id: &ThreadId) -> (r:
        Result<(url::Url, Vec<u8>), TspError>)
        ensures
            if url_parses(destination_text()) {
                accepts(old(self)@, sender@, receiver@, thread_id@, final(self)@, sent(r))
            } else {
                undeliverable(old(self)@, final(self)@, sent(r))
            },
    {
        match destination() {
            Ok(url) => self.accept_relationship_to(sender, receiver, thread_id, url),
            Err(e) => Err(e),
        }
    }

    /// Cancels the relationship between `sender` and `receiver`, for
    /// delivery to `destination`.
    ///
    /// The status stored for the receiver with the sender as counterparty
    /// is taken through the cancellation transition, which refuses
    /// `Unrelated`. That entry is then reset to `Unrelated` with no
    /// counterparty, so that the pair reads `Unrelated` afterwards and a
    /// second cancellation is refused. On success the result is the
    /// destination handed in with the serialized cancellation envelope. A
    /// failure changes nothing.
    pub fn cancel_relationship_to(&mut self, sender: &str, receiver: &str, destination: url::Url) -> (r:
        Result<(url::Url, Vec<u8>), TspError>)
        ensures
            r is Ok <==> standing(old(self)@.wallet, sender@, receiver@) !is Unrelated,
            r matches Ok((to, _)) ==> to == destination,
            cancels(old(self)@, sender@, receiver@, final(self)@, sent(r)),
    {
        let current_status = match self.wallet.get_relationship(receiver, sender) {
            Ok(status) => status,
            Err(_) => RelationshipStatus::Unrelated,
        };
        let new_status = match RelationshipManager::cancel(&current_status) {
            Ok(status) => status,
            Err(e) => { return Err(e); },
        };
        match self.wallet.set_relationship(receiver, new_status, None) {
            Ok(_) => {},
            Err(e) => { return Err(e); },
        }
        let msg = TspMessage::new(sender.to_owned(), Some(receiver.to_owned()), Vec::new(), None);
        let payload = match msg.to_bytes() {
            Ok(b) => b,
            Err(e) => { return Err(e); },
        };
        proof {
            assert(msg@.payload =~= Seq::<u8>::empty());
            lemma_message_round_trip(msg@);
        }
        Ok((destination, payload))
    }

    /// Cancels the relationship between `sender` and `receiver`, for
    /// delivery to the destination placeholder.
    ///
    /// The placeholder is parsed first; a parser that refuses it fails the
    /// operation with a custom error before anything changes. With the
    /// placeholder parsed the operation is
    /// [`TspHandler::cancel_relationship_to`].
    pub fn cancel_relationship(&mut self, sender: &str, receiver: &str) -> (r: Result<
        (url::Url, Vec<u8>),
        TspError,
    >)
        ensures
            if url_parses(destination_text()) {
                cancels(old(self)@, sender@, receiver@, final(self)@, sent(r))
            } else {
                undeliverable(old(self)@, final(self)@, sent(r))
            },
    {
        match destination() {
            Ok(url) => self.cancel_relationship_to(sender, receiver, url),
            Err(e) => Err(e),
        }
    }

    /// Handles a received message at time `now`.
    ///
    /// The bytes are deserialized as a message and its payload as a
    /// payload; either failing is a message format error. The payload is
    /// then dispatched by variant. A relationship request that carries a
    /// route teaches that route to its sender. A routed message with hops
    /// left is refused as an invalid route. Nothing else changes the
    /// handler.
    pub fn handle_message_at(&mut self, message: Vec<u8>, now: u128) -> (r: Result<
        ReceivedTspMessage,
        TspError,
    >)
        ensures
            handles(old(self)@, message@, now, final(self)@, r),
    {
        let tsp_msg = match TspMessage::from_bytes(message.as_slice()) {
            Ok(m) => m,
            Err(e) => { return Err(e); },
        };
        let payload = match TspPayload::from_bytes(tsp_msg.payload.as_slice()) {
            Ok(p) => p,
            Err(e) => { return Err(e); },
        };
        let sealed = MessageType {
            crypto_type: CryptoType::Encrypted,
            signature_type: SignatureType::Signature,
        };
        let TspMessage { sender, receiver, payload: raw_payload, nonconfidential_data: _ } =
            tsp_msg;
        match payload {
            TspPayload::Content(data) => Ok(
                ReceivedTspMessage::GenericMessage {
                    sender,
                    receiver,
                    message: data,
                    message_type: sealed,
                },
            ),
            TspPayload::RequestRelationship { route, thread_id } => {
                match route {
                    Some(hops) => {
                        self.routes.add_route_at(sender.clone(), hops, now);
                    },
                    None => {},
                }
                Ok(
                    ReceivedTspMessage::RequestRelationship {
                        sender,
                        receiver: match receiver {
                            Some(r) => r,
                            None => String::new(),
                        },
                        route: None,
                        thread_id,
                        nested_vid: None,
                    },
                )
            },
            TspPayload::AcceptRelationship { thread_id: _ } => Ok(
                ReceivedTspMessage::AcceptRelationship {
                    sender,
                    receiver: match receiver {
                        Some(r) => r,
                        None => String::new(),
                    },
                    nested_vid: None,
                },
            ),
            TspPayload::CancelRelationship { thread_id: _ } => Ok(
                ReceivedTspMessage::CancelRelationship {
                    sender,
                    receiver: match receiver {
                        Some(r) => r,
                        None => String::new(),
                    },
                },
            ),
            TspPayload::RoutedMessage { hops, payload: inner } => {
                if hops.len() == 0 {
                    process_routed_message(sender.as_str(), &hops, inner.as_slice())
                } else {
                    Err(
                        TspError::InvalidRoute(
                            String::from_str("Relay not implemented for intermediate hops"),
                        ),
                    )
                }
            },
            _ => Ok(
                ReceivedTspMessage::GenericMessage {
                    sender,
                    receiver,
                    message: raw_payload,
                    message_type: sealed,
                },
            ),
        }
    }

    /// Handles a received message now, by the system clock.
    pub fn handle_message(&mut self, message: Vec<u8>) -> (r: Result<ReceivedTspMessage, TspError>)
        ensures
            exists|now: u128| handles(old(self)@, message@, now, final(self)@, r),
    {
        let now = crate::tsp::routing::now_nanos();
        let r = self.handle_message_at(message, now);
        assert(handles(old(self)@, message@, now, self@, r));
        r
    }
}

} // verus!
