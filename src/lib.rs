//! Integers kept in a mutating XOR tree, so that no fixed memory cell tracks the value.
//!
//! An [`ObfuscatedInt`] holds its value as the XOR of the shares in a small
//! tree. Every write changes a different selection of cells, chosen by a
//! write counter and never by the value, which defeats scanners that look for
//! an address whose contents follow a known quantity.
use vstd::prelude::*;

pub mod custom_ops;
pub mod laws;
pub mod magic;
pub mod obfuscated;
pub mod ops;
pub mod raw;

pub use custom_ops::{CustomAssign, CustomInitialize};
pub use magic::MagicSource;
pub use obfuscated::{
    Ei128, Ei16, Ei32, Ei64, Ei8, Eisize, Eu128, Eu16, Eu32, Eu64, Eu8, Eusize, ObfuscatedInt,
    Oi128, Oi16, Oi32, Oi64, Oi8, Oisize, Ou128, Ou16, Ou32, Ou64, Ou8, Ousize, VariantNode,
};
pub use raw::RawValue;

verus! {

} // verus!
