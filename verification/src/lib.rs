//! Core of a local music player: the playback queue state machine, the
//! catalog model it indexes into, the command routing between the kernel
//! and its peers, and the persisted form of the playback state.
//!
//! Everything here is verified. The surrounding process (file and device
//! I/O, threads, channels) lives outside this crate and calls in with
//! plain values.

pub mod codec;
pub mod collection;
pub mod device;
pub mod engine;
pub mod kernel;
pub mod laws;
pub mod restore;
pub mod rng;
pub mod rpc;
pub mod state;

use vstd::prelude::*;

verus! {

/// Flip a boolean in place.
pub fn flip(b: &mut bool)
    ensures
        *final(b) == !*old(b),
{
    *b = !*b;
}

} // verus!
