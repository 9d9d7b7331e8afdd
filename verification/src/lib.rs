//! An emulator for the Melo fantasy CPU: a 16-register, flag-driven 8-bit
//! processor with predicated execution, interpreting a 32-instruction
//! encoding against a byte-addressable 64KiB bus.

use vstd::prelude::*;

pub mod addressing;
pub mod isa;
pub mod laws;
pub mod memory;
pub mod mfcpu;

verus! {

/// Relies on rand::random: draws 16 bytes from the thread-local generator.
/// Nothing is promised of the result.
#[verifier::external_body]
pub(crate) fn random_bytes() -> [u8; 16] {
    rand::random()
}

} // verus!
