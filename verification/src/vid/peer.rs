//! The peer identifier: an endpoint with public keys, and with secret
//! keys where it is controlled locally.

use vstd::prelude::*;
use vstd::string::StringExecFns;
use crate::vid::error::{L1Error, L1VidVerifyError};
use crate::vid::traits::{
    ControllerView, EvaluatorView, KeyView, PrivateKey, PublicKey, Verifiable, Vid,
};

verus! {

/// Mathematical value of a [`PeerVid`].
pub struct PeerVidView {
    pub peer_id: Seq<char>,
    pub pk_e: KeyView,
    pub pk_s: KeyView,
    pub sk_e: Option<KeyView>,
    pub sk_s: Option<KeyView>,
    pub is_verifiable: bool,
}

/// Why a peer does not verify.
pub enum VerifyFault {
    Revoked,
    EmptyEncryptionKey,
    EmptySigningKey,
    EmptyPeerId,
}

impl VerifyFault {
    /// The error value that reports this fault.
    pub open spec fn reported_as(self, e: L1VidVerifyError) -> bool {
        match self {
            VerifyFault::Revoked => e matches L1VidVerifyError::InvalidStatus(m) && m@
                == "Peer is revoked or not verifiable"@,
            VerifyFault::EmptyEncryptionKey => e matches L1VidVerifyError::RecordsInvalid(m) && m@
                == "Encryption public key is empty"@,
            VerifyFault::EmptySigningKey => e matches L1VidVerifyError::RecordsInvalid(m) && m@
                == "Signing public key is empty"@,
            VerifyFault::EmptyPeerId => e matches L1VidVerifyError::RecordsInvalid(m) && m@
                == "Peer ID is empty"@,
        }
    }
}

impl PeerVidView {
    /// The peer holds both secret keys.
    pub open spec fn is_controller(self) -> bool {
        self.sk_e is Some && self.sk_s is Some
    }

    /// The first check that the peer fails, in the order in which they
    /// are made; `None` when it passes all.
    pub open spec fn fault(self) -> Option<VerifyFault> {
        if !self.is_verifiable {
            Some(VerifyFault::Revoked)
        } else if self.pk_e.bytes.len() == 0 {
            Some(VerifyFault::EmptyEncryptionKey)
        } else if self.pk_s.bytes.len() == 0 {
            Some(VerifyFault::EmptySigningKey)
        } else if self.peer_id.len() == 0 {
            Some(VerifyFault::EmptyPeerId)
        } else {
            None
        }
    }

    /// The text that describes the peer.
    pub open spec fn rendering(self) -> Seq<char> {
        "PeerVid("@ + self.peer_id + "; controller="@ + (if self.is_controller() {
            "true"@
        } else {
            "false"@
        }) + "; verifiable="@ + (if self.is_verifiable {
            "true"@
        } else {
            "false"@
        }) + ")"@
    }
}

/// A peer endpoint of the network.
#[derive(Debug)]
pub struct PeerVid {
    peer_id: String,
    pk_e: PublicKey,
    pk_s: PublicKey,
    sk_e: Option<PrivateKey>,
    sk_s: Option<PrivateKey>,
    is_verifiable: bool,
}

impl View for PeerVid {
    type V = PeerVidView;

    closed spec fn view(&self) -> PeerVidView {
        PeerVidView {
            peer_id: self.peer_id@,
            pk_e: self.pk_e@,
            pk_s: self.pk_s@,
            sk_e: match self.sk_e {
                Some(k) => Some(k@),
                None => None,
            },
            sk_s: match self.sk_s {
                Some(k) => Some(k@),
                None => None,
            },
            is_verifiable: self.is_verifiable,
        }
    }
}

/// Copies an optional private key.
fn clone_secret(key: &Option<PrivateKey>) -> (r: Option<PrivateKey>)
    ensures
        match (*key, r) {
            (Some(a), Some(b)) => a@ == b@,
            (None, None) => true,
            _ => false,
        },
{
    match key {
        Some(k) => Some(k.clone()),
        None => None,
    }
}

impl Clone for PeerVid {
    fn clone(&self) -> (r: Self)
        ensures
            r@ == self@,
    {
        PeerVid {
            peer_id: self.peer_id.clone(),
            pk_e: self.pk_e.clone(),
            pk_s: self.pk_s.clone(),
            sk_e: clone_secret(&self.sk_e),
            sk_s: clone_secret(&self.sk_s),
            is_verifiable: self.is_verifiable,
        }
    }
}

/// The error that reports a peer without secret keys.
fn evaluator_only() -> (e: L1Error)
    ensures
        e matches L1Error::SecretKeyNotAvailable(m) && m@
            == "This PeerVid is evaluator-only (no controller secret keys)"@,
{
    L1Error::SecretKeyNotAvailable(
        String::from_str("This PeerVid is evaluator-only (no controller secret keys)"),
    )
}

impl PeerVid {
    /// An evaluator-side peer: public keys only, verifiable.
    pub fn new(peer_id: &str, pk_e: PublicKey, pk_s: PublicKey) -> (r: Self)
        ensures
            r@ == (PeerVidView {
                peer_id: peer_id@,
                pk_e: pk_e@,
                pk_s: pk_s@,
                sk_e: None,
                sk_s: None,
                is_verifiable: true,
            }),
    {
        PeerVid {
            peer_id: peer_id.to_owned(),
            pk_e,
            pk_s,
            sk_e: None,
            sk_s: None,
            is_verifiable: true,
        }
    }

    /// A controller-side peer: with secret keys, verifiable.
    pub fn with_secrets(
        peer_id: &str,
        pk_e: PublicKey,
        pk_s: PublicKey,
        sk_e: PrivateKey,
        sk_s: PrivateKey,
    ) -> (r: Self)
        ensures
            r@ == (PeerVidView {
                peer_id: peer_id@,
                pk_e: pk_e@,
                pk_s: pk_s@,
                sk_e: Some(sk_e@),
                sk_s: Some(sk_s@),
                is_verifiable: true,
            }),
    {
        PeerVid {
            peer_id: peer_id.to_owned(),
            pk_e,
            pk_s,
            sk_e: Some(sk_e),
            sk_s: Some(sk_s),
            is_verifiable: true,
        }
    }

    /// The peer identifier.
    pub fn peer_id(&self) -> (r: &str)
        ensures
            r@ == self@.peer_id,
    {
        self.peer_id.as_str()
    }

    /// Whether the peer holds both secret keys.
    pub fn is_controller(&self) -> (r: bool)
        ensures
            r == self@.is_controller(),
    {
        self.sk_e.is_some() && self.sk_s.is_some()
    }

    /// Whether the peer can be verified.
    pub fn is_verifiable(&self) -> (r: bool)
        ensures
            r == self@.is_verifiable,
    {
        self.is_verifiable
    }

    /// Marks the peer as revoked: it no longer verifies.
    pub fn revoke(&mut self)
        ensures
            final(self)@ == (PeerVidView { is_verifiable: false, ..old(self)@ }),
    {
        self.is_verifiable = false;
    }

    /// Describes the peer.
    pub fn to_string(&self) -> (r: String)
        ensures
            r@ == self@.rendering(),
    {
        let controller = if self.is_controller() {
            "true"
        } else {
            "false"
        };
        let verifiable = if self.is_verifiable {
            "true"
        } else {
            "false"
        };
        String::from_str("PeerVid(").concat(self.peer_id.as_str()).concat("; controller=").concat(
            controller,
        ).concat("; verifiable=").concat(verifiable).concat(")")
    }
}

impl Vid for PeerVid {
    type Address = String;

    fn as_str(&self) -> (r: &str)
        ensures
            r@ == self@.peer_id,
    {
        self.peer_id.as_str()
    }

    /// The transport address of a peer is its identifier.
    fn resolve_address(&self) -> (r: Result<String, L1Error>)
        ensures
            r matches Ok(address) && address@ == self@.peer_id,
    {
        Ok(self.peer_id.clone())
    }
}

impl EvaluatorView for PeerVid {
    fn pk_e(&self) -> (r: Result<PublicKey, L1Error>)
        ensures
            r matches Ok(key) && key@ == self@.pk_e,
    {
        Ok(self.pk_e.clone())
    }

    fn pk_s(&self) -> (r: Result<PublicKey, L1Error>)
        ensures
            r matches Ok(key) && key@ == self@.pk_s,
    {
        Ok(self.pk_s.clone())
    }
}

impl ControllerView for PeerVid {
    fn sk_e(&self) -> (r: Result<PrivateKey, L1Error>)
        ensures
            match r {
                Ok(key) => self@.sk_e == Some(key@),
                Err(e) => self@.sk_e is None && e is SecretKeyNotAvailable,
            },
    {
        match &self.sk_e {
            Some(key) => Ok(key.clone()),
            None => Err(evaluator_only()),
        }
    }

    fn sk_s(&self) -> (r: Result<PrivateKey, L1Error>)
        ensures
            match r {
                Ok(key) => self@.sk_s == Some(key@),
                Err(e) => self@.sk_s is None && e is SecretKeyNotAvailable,
            },
    {
        match &self.sk_s {
            Some(key) => Ok(key.clone()),
            None => Err(evaluator_only()),
        }
    }
}

impl Verifiable for PeerVid {
    /// A peer verifies when it is not revoked, both public keys are
    /// non-empty, and its identifier is non-empty. The checks are made in
    /// that order and the first that fails is reported.
    fn verify(&self) -> (r: Result<(), L1VidVerifyError>)
        ensures
            match r {
                Ok(_) => self@.fault() is None,
                Err(e) => self@.fault() matches Some(why) && why.reported_as(e),
            },
    {
        if !self.is_verifiable {
            return Err(
                L1VidVerifyError::InvalidStatus(
                    String::from_str("Peer is revoked or not verifiable"),
                ),
            );
        }
        if self.pk_e.bytes().len() == 0 {
            return Err(
                L1VidVerifyError::RecordsInvalid(String::from_str("Encryption public key is empty")),
            );
        }
        if self.pk_s.bytes().len() == 0 {
            return Err(
                L1VidVerifyError::RecordsInvalid(String::from_str("Signing public key is empty")),
            );
        }
        if self.peer_id.as_str().is_empty() {
            return Err(L1VidVerifyError::RecordsInvalid(String::from_str("Peer ID is empty")));
        }
        Ok(())
    }
}

} // verus!
