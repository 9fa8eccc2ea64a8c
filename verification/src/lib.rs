//! Verified session manager for an MLS-style end-to-end encrypted group
//! messaging protocol. The cryptographic engine (key schedule, ratchet tree,
//! wire codec) is an external collaborator reached through a narrow trusted
//! boundary; this crate owns and verifies the protocol-level state machine
//! layered above it: classification of inbound wire objects, commit
//! sequencing, the epoch counter, and the membership roster.
//!
//! The verified functions of this crate do not panic, and every wire input
//! they take is bounds-checked or refused with a typed error. The engine
//! itself assumes a key store holding only records it wrote: it decodes
//! stored values without a fallible path, so operations that read the store
//! of a configuration rehydrated from a tampered blob can abort inside the
//! engine, which this layer cannot intercept (see `engine::group_load` and
//! `engine::signature_keypair_read`).

use vstd::prelude::*;

pub mod config;
pub mod credential;
pub mod engine;
pub mod errors;
pub mod model;
pub mod session;
pub mod store_codec;

verus! {

/// A friendly greeting, for checking that the library is wired up.
pub fn greet(name: String) -> (r: String)
    ensures
        r@ == "Hello, "@ + name@ + "!"@,
{
    let mut s = String::from_str("Hello, ");
    s.append(name.as_str());
    s.append("!");
    s
}

} // verus!
