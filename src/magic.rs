//! A cheap source of values that vary the layout of obfuscated integers.
use vstd::prelude::*;

use crate::raw::RawValue;

verus! {

/// A counter that steps by `d * (d + 1) * 6 + 1`, wrapping.
///
/// Where a step would leave the counter where it is, the counter takes
/// `entropy` instead, a value its owner derived from a memory address.
/// Not a cryptographic generator.
pub struct MagicSource<T> {
    pub state: T,
    pub entropy: T,
}

impl<T: RawValue> MagicSource<T> {
    /// The source after one draw.
    pub open spec fn after_draw(self) -> MagicSource<T> {
        let next = T::next_magic_of(self.state);
        MagicSource {
            state: if next == self.state {
                self.entropy
            } else {
                next
            },
            entropy: self.entropy,
        }
    }

    /// A source that starts from the fixed constant `T::magic()`.
    pub fn new(entropy: T) -> (r: MagicSource<T>)
        ensures
            r.state == T::magic_const(),
            r.entropy == entropy,
    {
        MagicSource { state: T::magic(), entropy }
    }

    /// A source that starts from `state`.
    pub fn from_state(state: T, entropy: T) -> (r: MagicSource<T>)
        ensures
            r.state == state,
            r.entropy == entropy,
    {
        MagicSource { state, entropy }
    }

    /// Returns the current value and steps the counter.
    pub fn draw(&mut self) -> (d: T)
        ensures
            d == old(self).state,
            *final(self) == old(self).after_draw(),
    {
        let d = self.state;
        let next = d.next_magic();
        if next.equals(d) {
            self.state = self.entropy;
        } else {
            self.state = next;
        }
        d
    }
}

} // verus!
