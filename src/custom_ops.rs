//! Assignment and initialisation through one trait call each, so that plain
//! values and obfuscated integers are written the same way.
use vstd::prelude::*;

use crate::magic::MagicSource;
use crate::obfuscated::ObfuscatedInt;
use crate::raw::RawValue;

verus! {

/// Assigning a value of type `Rhs` to a `Self`.
pub trait CustomAssign<Rhs>: Sized {
    /// `new` is what `self` becomes when `rhs` is assigned to it.
    spec fn assigned(self, rhs: Rhs, new: Self) -> bool;

    fn custom_assign(&mut self, rhs: Rhs)
        ensures
            <Self as CustomAssign<Rhs>>::assigned(*old(self), rhs, *final(self)),
    ;
}

/// Building a `Self` from a value of type `Rhs`.
pub trait CustomInitialize<Rhs>: Sized {
    /// `r` is what initialising from `rhs` builds.
    spec fn initialized(rhs: Rhs, r: Self) -> bool;

    fn custom_initialize(rhs: Rhs) -> (r: Self)
        ensures
            <Self as CustomInitialize<Rhs>>::initialized(rhs, r),
    ;
}

impl<T> CustomAssign<T> for T {
    open spec fn assigned(self, rhs: T, new: T) -> bool {
        new == rhs
    }

    fn custom_assign(&mut self, rhs: T) {
        *self = rhs;
    }
}

impl<'a, T: Copy> CustomAssign<&'a T> for T {
    open spec fn assigned(self, rhs: &'a T, new: T) -> bool {
        new == *rhs
    }

    fn custom_assign(&mut self, rhs: &'a T) {
        *self = *rhs;
    }
}

impl<'a, T: Copy> CustomAssign<&'a mut T> for T {
    open spec fn assigned(self, rhs: &'a mut T, new: T) -> bool {
        new == *rhs
    }

    fn custom_assign(&mut self, rhs: &'a mut T) {
        *self = *rhs;
    }
}

impl<T> CustomInitialize<T> for T {
    open spec fn initialized(rhs: T, r: T) -> bool {
        r == rhs
    }

    fn custom_initialize(rhs: T) -> (r: T) {
        rhs
    }
}

impl<'a, T: Copy> CustomInitialize<&'a T> for T {
    open spec fn initialized(rhs: &'a T, r: T) -> bool {
        r == *rhs
    }

    fn custom_initialize(rhs: &'a T) -> (r: T) {
        *rhs
    }
}

impl<'a, T: Copy> CustomInitialize<&'a mut T> for T {
    open spec fn initialized(rhs: &'a mut T, r: T) -> bool {
        r == *rhs
    }

    fn custom_initialize(rhs: &'a mut T) -> (r: T) {
        *rhs
    }
}

/// Assigning a plain value writes it through the write protocol.
impl<T: RawValue> CustomAssign<T> for ObfuscatedInt<T> {
    open spec fn assigned(self, rhs: T, new: ObfuscatedInt<T>) -> bool {
        self.is_write(new, rhs) && new@ == rhs
    }

    fn custom_assign(&mut self, rhs: T) {
        self.assign(rhs);
    }
}

/// Initialising from a value and a source builds a nested integer (`new`).
impl<'a, T: RawValue> CustomInitialize<(T, &'a mut MagicSource<T>)> for ObfuscatedInt<T> {
    open spec fn initialized(rhs: (T, &'a mut MagicSource<T>), r: ObfuscatedInt<T>) -> bool {
        r@ == rhs.0
    }

    fn custom_initialize(rhs: (T, &'a mut MagicSource<T>)) -> (r: ObfuscatedInt<T>) {
        let (v, src) = rhs;
        ObfuscatedInt::new(v, src)
    }
}

} // verus!
