//! Message and relationship types, each with its mathematical view.

use vstd::prelude::*;

verus! {

/// Digest identifying one relationship negotiation.
pub type ThreadId = Vec<u8>;

/// Ordered relay hops; the first element is the next hop to contact.
pub type Route = Vec<String>;

/// A route as a sequence of identifiers.
pub open spec fn route_view(route: Route) -> Seq<Seq<char>> {
    Seq::new(route@.len(), |i: int| route@[i]@)
}

/// An optional route as an optional sequence of identifiers.
pub open spec fn opt_route_view(route: Option<Route>) -> Option<Seq<Seq<char>>> {
    match route {
        Some(r) => Some(route_view(r)),
        None => None,
    }
}

/// A list of byte strings as a sequence of sequences.
pub open spec fn byte_strings_view(items: Vec<Vec<u8>>) -> Seq<Seq<u8>> {
    Seq::new(items@.len(), |i: int| items@[i]@)
}

/// An optional byte string as an optional sequence.
pub open spec fn opt_bytes_view(bytes: Option<Vec<u8>>) -> Option<Seq<u8>> {
    match bytes {
        Some(b) => Some(b@),
        None => None,
    }
}

/// An optional string as an optional sequence of characters.
pub open spec fn opt_string_view(text: Option<String>) -> Option<Seq<char>> {
    match text {
        Some(s) => Some(s@),
        None => None,
    }
}

/// Copies a byte string.
pub(crate) fn clone_bytes(bytes: &Vec<u8>) -> (r: Vec<u8>)
    ensures
        r@ == bytes@,
{
    let mut out: Vec<u8> = Vec::new();
    let mut i: usize = 0;
    while i < bytes.len()
        invariant
            i <= bytes.len(),
            out@ == bytes@.subrange(0, i as int),
        decreases bytes.len() - i,
    {
        out.push(bytes[i]);
        i = i + 1;
    }
    assert(bytes@.subrange(0, bytes.len() as int) =~= bytes@);
    out
}

/// Copies a list of byte strings.
pub(crate) fn clone_byte_strings(items: &Vec<Vec<u8>>) -> (r: Vec<Vec<u8>>)
    ensures
        byte_strings_view(r) == byte_strings_view(*items),
{
    let mut out: Vec<Vec<u8>> = Vec::new();
    let mut i: usize = 0;
    while i < items.len()
        invariant
            i <= items.len(),
            out@.len() == i,
            forall|j: int| 0 <= j < i ==> out@[j]@ == items@[j]@,
        decreases items.len() - i,
    {
        out.push(clone_bytes(&items[i]));
        i = i + 1;
    }
    assert(byte_strings_view(out) =~= byte_strings_view(*items));
    out
}

/// Copies a route.
pub(crate) fn clone_route(route: &Route) -> (r: Route)
    ensures
        route_view(r) == route_view(*route),
{
    let mut out: Vec<String> = Vec::new();
    let mut i: usize = 0;
    while i < route.len()
        invariant
            i <= route.len(),
            out@.len() == i,
            forall|j: int| 0 <= j < i ==> out@[j]@ == route@[j]@,
        decreases route.len() - i,
    {
        out.push(route[i].clone());
        i = i + 1;
    }
    assert(route_view(out) =~= route_view(*route));
    out
}

/// Copies an optional route.
pub(crate) fn clone_opt_route(route: &Option<Route>) -> (r: Option<Route>)
    ensures
        opt_route_view(r) == opt_route_view(*route),
{
    match route {
        Some(hops) => Some(clone_route(hops)),
        None => None,
    }
}

/// Copies an optional byte string.
pub(crate) fn clone_opt_bytes(bytes: &Option<Vec<u8>>) -> (r: Option<Vec<u8>>)
    ensures
        opt_bytes_view(r) == opt_bytes_view(*bytes),
{
    match bytes {
        Some(b) => Some(clone_bytes(b)),
        None => None,
    }
}

/// Copies an optional string.
pub(crate) fn clone_opt_string(text: &Option<String>) -> (r: Option<String>)
    ensures
        opt_string_view(r) == opt_string_view(*text),
{
    match text {
        Some(s) => Some(s.clone()),
        None => None,
    }
}

/// Byte-wise equality of two byte strings.
pub(crate) fn bytes_equal(a: &[u8], b: &[u8]) -> (r: bool)
    ensures
        r == (a@ == b@),
{
    if a.len() != b.len() {
        return false;
    }
    let mut i: usize = 0;
    while i < a.len()
        invariant
            i <= a.len(),
            a.len() == b.len(),
            forall|j: int| 0 <= j < i ==> a@[j] == b@[j],
        decreases a.len() - i,
    {
        if a[i] != b[i] {
            return false;
        }
        i = i + 1;
    }
    assert(a@ =~= b@);
    true
}

/// Mathematical value of a [`RelationshipStatus`].
pub enum RelationshipStatusView {
    Unrelated,
    Unidirectional { thread_id: Seq<u8> },
    ReverseUnidirectional { thread_id: Seq<u8> },
    Bidirectional { thread_id: Seq<u8>, outstanding_nested_thread_ids: Seq<Seq<u8>> },
}

/// Relationship status between two identifiers.
#[derive(Debug, PartialEq, Eq)]
pub enum RelationshipStatus {
    /// No relationship established.
    Unrelated,
    /// The local party proposed and awaits acceptance.
    Unidirectional { thread_id: ThreadId },
    /// The remote party proposed.
    ReverseUnidirectional { thread_id: ThreadId },
    /// Mutually accepted relationship.
    Bidirectional { thread_id: ThreadId, outstanding_nested_thread_ids: Vec<ThreadId> },
}

impl View for RelationshipStatus {
    type V = RelationshipStatusView;

    open spec fn view(&self) -> RelationshipStatusView {
        match *self {
            RelationshipStatus::Unrelated => RelationshipStatusView::Unrelated,
            RelationshipStatus::Unidirectional { thread_id } => {
                RelationshipStatusView::Unidirectional { thread_id: thread_id@ }
            },
            RelationshipStatus::ReverseUnidirectional { thread_id } => {
                RelationshipStatusView::ReverseUnidirectional { thread_id: thread_id@ }
            },
            RelationshipStatus::Bidirectional { thread_id, outstanding_nested_thread_ids } => {
                RelationshipStatusView::Bidirectional {
                    thread_id: thread_id@,
                    outstanding_nested_thread_ids: byte_strings_view(
                        outstanding_nested_thread_ids,
                    ),
                }
            },
        }
    }
}

impl Clone for RelationshipStatus {
    fn clone(&self) -> (r: Self)
        ensures
            r@ == self@,
    {
        match self {
            RelationshipStatus::Unrelated => RelationshipStatus::Unrelated,
            RelationshipStatus::Unidirectional { thread_id } => {
                RelationshipStatus::Unidirectional { thread_id: clone_bytes(thread_id) }
            },
            RelationshipStatus::ReverseUnidirectional { thread_id } => {
                RelationshipStatus::ReverseUnidirectional { thread_id: clone_bytes(thread_id) }
            },
            RelationshipStatus::Bidirectional { thread_id, outstanding_nested_thread_ids } => {
                RelationshipStatus::Bidirectional {
                    thread_id: clone_bytes(thread_id),
                    outstanding_nested_thread_ids: clone_byte_strings(
                        outstanding_nested_thread_ids,
                    ),
                }
            },
        }
    }
}

impl RelationshipStatus {
    /// A bidirectional relationship with an empty thread id and nothing
    /// outstanding.
    pub fn bi_default() -> (r: Self)
        ensures
            r@ == (RelationshipStatusView::Bidirectional {
                thread_id: Seq::empty(),
                outstanding_nested_thread_ids: Seq::empty(),
            }),
    {
        let r = RelationshipStatus::Bidirectional {
            thread_id: Vec::new(),
            outstanding_nested_thread_ids: Vec::new(),
        };
        assert(r@->outstanding_nested_thread_ids =~= Seq::<Seq<u8>>::empty());
        r
    }

    /// A bidirectional relationship on `thread_id` with nothing outstanding.
    pub fn bi(thread_id: ThreadId) -> (r: Self)
        ensures
            r@ == (RelationshipStatusView::Bidirectional {
                thread_id: thread_id@,
                outstanding_nested_thread_ids: Seq::empty(),
            }),
    {
        let r = RelationshipStatus::Bidirectional {
            thread_id,
            outstanding_nested_thread_ids: Vec::new(),
        };
        assert(r@->outstanding_nested_thread_ids =~= Seq::<Seq<u8>>::empty());
        r
    }
}

/// Mathematical value of a [`TspPayload`].
pub enum TspPayloadView {
    Content(Seq<u8>),
    RequestRelationship { route: Option<Seq<Seq<char>>>, thread_id: Seq<u8> },
    AcceptRelationship { thread_id: Seq<u8> },
    CancelRelationship { thread_id: Seq<u8> },
    RequestNestedRelationship { inner: Seq<u8>, thread_id: Seq<u8> },
    AcceptNestedRelationship { inner: Seq<u8>, thread_id: Seq<u8> },
    NewIdentifier { thread_id: Seq<u8>, new_vid: Seq<char> },
    Referral { referred_vid: Seq<char> },
    RoutedMessage { hops: Seq<Seq<char>>, payload: Seq<u8> },
    NestedMessage { payload: Seq<u8> },
}

/// Control and content payloads carried inside a message.
#[derive(Debug)]
pub enum TspPayload {
    /// Plain content.
    Content(Vec<u8>),
    /// Relationship request.
    RequestRelationship { route: Option<Route>, thread_id: ThreadId },
    /// Relationship acceptance.
    AcceptRelationship { thread_id: ThreadId },
    /// Relationship cancellation.
    CancelRelationship { thread_id: ThreadId },
    /// Nested relationship request, with the inner signed message.
    RequestNestedRelationship { inner: Vec<u8>, thread_id: ThreadId },
    /// Nested relationship acceptance, with the inner signed message.
    AcceptNestedRelationship { inner: Vec<u8>, thread_id: ThreadId },
    /// New identifier notification.
    NewIdentifier { thread_id: ThreadId, new_vid: String },
    /// Third-party introduction.
    Referral { referred_vid: String },
    /// Message relayed through the listed hops.
    RoutedMessage { hops: Route, payload: Vec<u8> },
    /// Message relayed by a parent identity.
    NestedMessage { payload: Vec<u8> },
}

impl View for TspPayload {
    type V = TspPayloadView;

    open spec fn view(&self) -> TspPayloadView {
        match *self {
            TspPayload::Content(data) => TspPayloadView::Content(data@),
            TspPayload::RequestRelationship { route, thread_id } => {
                TspPayloadView::RequestRelationship {
                    route: opt_route_view(route),
                    thread_id: thread_id@,
                }
            },
            TspPayload::AcceptRelationship { thread_id } => TspPayloadView::AcceptRelationship {
                thread_id: thread_id@,
            },
            TspPayload::CancelRelationship { thread_id } => TspPayloadView::CancelRelationship {
                thread_id: thread_id@,
            },
            TspPayload::RequestNestedRelationship { inner, thread_id } => {
                TspPayloadView::RequestNestedRelationship { inner: inner@, thread_id: thread_id@ }
            },
            TspPayload::AcceptNestedRelationship { inner, thread_id } => {
                TspPayloadView::AcceptNestedRelationship { inner: inner@, thread_id: thread_id@ }
            },
            TspPayload::NewIdentifier { thread_id, new_vid } => TspPayloadView::NewIdentifier {
                thread_id: thread_id@,
                new_vid: new_vid@,
            },
            TspPayload::Referral { referred_vid } => TspPayloadView::Referral {
                referred_vid: referred_vid@,
            },
            TspPayload::RoutedMessage { hops, payload } => TspPayloadView::RoutedMessage {
                hops: route_view(hops),
                payload: payload@,
            },
            TspPayload::NestedMessage { payload } => TspPayloadView::NestedMessage {
                payload: payload@,
            },
        }
    }
}

impl Clone for TspPayload {
    fn clone(&self) -> (r: Self)
        ensures
            r@ == self@,
    {
        match self {
            TspPayload::Content(data) => TspPayload::Content(clone_bytes(data)),
            TspPayload::RequestRelationship { route, thread_id } => {
                TspPayload::RequestRelationship {
                    route: clone_opt_route(route),
                    thread_id: clone_bytes(thread_id),
                }
            },
            TspPayload::AcceptRelationship { thread_id } => TspPayload::AcceptRelationship {
                thread_id: clone_bytes(thread_id),
            },
            TspPayload::CancelRelationship { thread_id } => TspPayload::CancelRelationship {
                thread_id: clone_bytes(thread_id),
            },
            TspPayload::RequestNestedRelationship { inner, thread_id } => {
                TspPayload::RequestNestedRelationship {
                    inner: clone_bytes(inner),
                    thread_id: clone_bytes(thread_id),
                }
            },
            TspPayload::AcceptNestedRelationship { inner, thread_id } => {
                TspPayload::AcceptNestedRelationship {
                    inner: clone_bytes(inner),
                    thread_id: clone_bytes(thread_id),
                }
            },
            TspPayload::NewIdentifier { thread_id, new_vid } => TspPayload::NewIdentifier {
                thread_id: clone_bytes(thread_id),
                new_vid: new_vid.clone(),
            },
            TspPayload::Referral { referred_vid } => TspPayload::Referral {
                referred_vid: referred_vid.clone(),
            },
            TspPayload::RoutedMessage { hops, payload } => TspPayload::RoutedMessage {
                hops: clone_route(hops),
                payload: clone_bytes(payload),
            },
            TspPayload::NestedMessage { payload } => TspPayload::NestedMessage {
                payload: clone_bytes(payload),
            },
        }
    }
}

/// Cryptographic treatment of a message.
#[derive(Clone, Copy, Debug, PartialEq, Eq)]
pub enum CryptoType {
    /// Encrypted and authenticated.
    Encrypted,
    /// Not encrypted.
    Plaintext,
}

/// Signature carried by a message.
#[derive(Clone, Copy, Debug, PartialEq, Eq)]
pub enum SignatureType {
    /// No signature present.
    NoSignature,
    /// One signature present.
    Signature,
}

/// How a received message was protected.
#[derive(Clone, Copy, Debug, PartialEq, Eq)]
pub struct MessageType {
    pub crypto_type: CryptoType,
    pub signature_type: SignatureType,
}

/// Mathematical value of a [`ReceivedTspMessage`].
#[allow(inconsistent_fields)]
pub enum ReceivedTspMessageView {
    GenericMessage {
        sender: Seq<char>,
        receiver: Option<Seq<char>>,
        message: Seq<u8>,
        message_type: MessageType,
    },
    RequestRelationship {
        sender: Seq<char>,
        receiver: Seq<char>,
        route: Option<Seq<Seq<char>>>,
        thread_id: Seq<u8>,
        nested_vid: Option<Seq<char>>,
    },
    AcceptRelationship { sender: Seq<char>, receiver: Seq<char>, nested_vid: Option<Seq<char>> },
    CancelRelationship { sender: Seq<char>, receiver: Seq<char> },
    NewIdentifier { sender: Seq<char>, receiver: Seq<char>, new_vid: Seq<char> },
    Referral { sender: Seq<char>, receiver: Seq<char>, referred_vid: Seq<char> },
    ForwardRequest {
        sender: Seq<char>,
        receiver: Seq<char>,
        next_hop: Seq<char>,
        route: Seq<Seq<u8>>,
        opaque_payload: Seq<u8>,
    },
}

/// What a handler makes of a message it received.
#[allow(inconsistent_fields)]
#[derive(Debug)]
pub enum ReceivedTspMessage {
    /// Content, or a payload the handler passes through as it came.
    GenericMessage {
        sender: String,
        receiver: Option<String>,
        message: Vec<u8>,
        message_type: MessageType,
    },
    /// Relationship request received.
    RequestRelationship {
        sender: String,
        receiver: String,
        route: Option<Route>,
        thread_id: ThreadId,
        nested_vid: Option<String>,
    },
    /// Relationship acceptance received.
    AcceptRelationship { sender: String, receiver: String, nested_vid: Option<String> },
    /// Relationship cancellation received.
    CancelRelationship { sender: String, receiver: String },
    /// New identifier notification received.
    NewIdentifier { sender: String, receiver: String, new_vid: String },
    /// Third-party introduction received.
    Referral { sender: String, receiver: String, referred_vid: String },
    /// Routed message to forward.
    ForwardRequest {
        sender: String,
        receiver: String,
        next_hop: String,
        route: Vec<Vec<u8>>,
        opaque_payload: Vec<u8>,
    },
}

impl View for ReceivedTspMessage {
    type V = ReceivedTspMessageView;

    open spec fn view(&self) -> ReceivedTspMessageView {
        match *self {
            ReceivedTspMessage::GenericMessage { sender, receiver, message, message_type } => {
                ReceivedTspMessageView::GenericMessage {
                    sender: sender@,
                    receiver: opt_string_view(receiver),
                    message: message@,
                    message_type,
                }
            },
            ReceivedTspMessage::RequestRelationship {
                sender,
                receiver,
                route,
                thread_id,
                nested_vid,
            } => ReceivedTspMessageView::RequestRelationship {
                sender: sender@,
                receiver: receiver@,
                route: opt_route_view(route),
                thread_id: thread_id@,
                nested_vid: opt_string_view(nested_vid),
            },
            ReceivedTspMessage::AcceptRelationship { sender, receiver, nested_vid } => {
                ReceivedTspMessageView::AcceptRelationship {
                    sender: sender@,
                    receiver: receiver@,
                    nested_vid: opt_string_view(nested_vid),
                }
            },
            ReceivedTspMessage::CancelRelationship { sender, receiver } => {
                ReceivedTspMessageView::CancelRelationship {
                    sender: sender@,
                    receiver: receiver@,
                }
            },
            ReceivedTspMessage::NewIdentifier { sender, receiver, new_vid } => {
                ReceivedTspMessageView::NewIdentifier {
                    sender: sender@,
                    receiver: receiver@,
                    new_vid: new_vid@,
                }
            },
            ReceivedTspMessage::Referral { sender, receiver, referred_vid } => {
                ReceivedTspMessageView::Referral {
                    sender: sender@,
                    receiver: receiver@,
                    referred_vid: referred_vid@,
                }
            },
            ReceivedTspMessage::ForwardRequest {
                sender,
                receiver,
                next_hop,
                route,
                opaque_payload,
            } => ReceivedTspMessageView::ForwardRequest {
                sender: sender@,
                receiver: receiver@,
                next_hop: next_hop@,
                route: byte_strings_view(route),
                opaque_payload: opaque_payload@,
            },
        }
    }
}

impl Clone for ReceivedTspMessage {
    fn clone(&self) -> (r: Self)
        ensures
            r@ == self@,
    {
        match self {
            ReceivedTspMessage::GenericMessage { sender, receiver, message, message_type } => {
                ReceivedTspMessage::GenericMessage {
                    sender: sender.clone(),
                    receiver: clone_opt_string(receiver),
                    message: clone_bytes(message),
                    message_type: *message_type,
                }
            },
            ReceivedTspMessage::RequestRelationship {
                sender,
                receiver,
                route,
                thread_id,
                nested_vid,
            } => ReceivedTspMessage::RequestRelationship {
                sender: sender.clone(),
                receiver: receiver.clone(),
                route: clone_opt_route(route),
                thread_id: clone_bytes(thread_id),
                nested_vid: clone_opt_string(nested_vid),
            },
            ReceivedTspMessage::AcceptRelationship { sender, receiver, nested_vid } => {
                ReceivedTspMessage::AcceptRelationship {
                    sender: sender.clone(),
                    receiver: receiver.clone(),
                    nested_vid: clone_opt_string(nested_vid),
                }
            },
            ReceivedTspMessage::CancelRelationship { sender, receiver } => {
                ReceivedTspMessage::CancelRelationship {
                    sender: sender.clone(),
                    receiver: receiver.clone(),
                }
            },
            ReceivedTspMessage::NewIdentifier { sender, receiver, new_vid } => {
                ReceivedTspMessage::NewIdentifier {
                    sender: sender.clone(),
                    receiver: receiver.clone(),
                    new_vid: new_vid.clone(),
                }
            },
            ReceivedTspMessage::Referral { sender, receiver, referred_vid } => {
                ReceivedTspMessage::Referral {
                    sender: sender.clone(),
                    receiver: receiver.clone(),
                    referred_vid: referred_vid.clone(),
                }
            },
            ReceivedTspMessage::ForwardRequest {
                sender,
                receiver,
                next_hop,
                route,
                opaque_payload,
            } => ReceivedTspMessage::ForwardRequest {
                sender: sender.clone(),
                receiver: receiver.clone(),
                next_hop: next_hop.clone(),
                route: clone_byte_strings(route),
                opaque_payload: clone_bytes(opaque_payload),
            },
        }
    }
}

/// Mathematical value of a [`VidContext`].
pub struct VidContextView {
    pub vid: Seq<char>,
    pub private: Option<Seq<u8>>,
    pub relation_status: RelationshipStatusView,
    pub relation_vid: Option<Seq<char>>,
    pub parent_vid: Option<Seq<char>>,
    pub tunnel: Option<Seq<Seq<char>>>,
    pub metadata: Option<Seq<char>>,
}

/// What a wallet knows about one identifier.
#[derive(Debug)]
pub struct VidContext {
    /// The identifier.
    pub vid: String,
    /// Placeholder for secret key material; present for identifiers that
    /// are controlled locally.
    pub private: Option<Vec<u8>>,
    /// Relationship status with this identifier.
    pub relation_status: RelationshipStatus,
    /// The counterparty of the relationship, if any.
    pub relation_vid: Option<String>,
    /// Parent identifier, for nested identities.
    pub parent_vid: Option<String>,
    /// Route for reaching this identifier.
    pub tunnel: Option<Route>,
    /// Application metadata, as opaque text.
    pub metadata: Option<String>,
}

impl View for VidContext {
    type V = VidContextView;

    open spec fn view(&self) -> VidContextView {
        VidContextView {
            vid: self.vid@,
            private: opt_bytes_view(self.private),
            relation_status: self.relation_status@,
            relation_vid: opt_string_view(self.relation_vid),
            parent_vid: opt_string_view(self.parent_vid),
            tunnel: opt_route_view(self.tunnel),
            metadata: opt_string_view(self.metadata),
        }
    }
}

impl Clone for VidContext {
    fn clone(&self) -> (r: Self)
        ensures
            r@ == self@,
    {
        VidContext {
            vid: self.vid.clone(),
            private: clone_opt_bytes(&self.private),
            relation_status: self.relation_status.clone(),
            relation_vid: clone_opt_string(&self.relation_vid),
            parent_vid: clone_opt_string(&self.parent_vid),
            tunnel: clone_opt_route(&self.tunnel),
            metadata: clone_opt_string(&self.metadata),
        }
    }
}

/// Friendly names and the identifiers they stand for.
pub type Aliases = Vec<(String, String)>;

/// Auxiliary update keys by key id.
pub type WebvhUpdateKeys = Vec<(String, Vec<u8>)>;

} // verus!
