//! Primitives of a sovereign trust framework.
//!
//! - [`crypto`]: signing, hashing, key agreement and authenticated
//!   encryption behind narrow traits.
//! - [`vid`]: verifiable identifiers and their key material.
//! - [`tsp`]: the Trust Spanning Protocol engine: the relationship state
//!   machine, route learning and forwarding, sealed and signed envelopes,
//!   the wallet, and the handler over them.
//! - [`text`]: numbers written as text.
//!
//! Every function states what it returns and changes, over the
//! mathematical views of the values involved.

use vstd::prelude::*;

pub mod crypto;
pub mod text;
pub mod tsp;
pub mod vid;

verus! {

/// Name of this crate, for linkage smoke tests.
pub fn name() -> (r: &'static str)
    ensures
        r@ == "stfx"@,
{
    "stfx"
}

} // verus!
