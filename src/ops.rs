//! Arithmetic and comparison through `value` and `assign`.
use vstd::prelude::*;

use crate::obfuscated::ObfuscatedInt;
use crate::raw::RawValue;

verus! {

impl<'a, T: RawValue> std::ops::Add<T> for &'a ObfuscatedInt<T> {
    type Output = T;

    fn add(self, rhs: T) -> (r: T) {
        self.value().add_wrapping(rhs)
    }
}

impl<'a, T: RawValue> vstd::std_specs::ops::AddSpecImpl<T> for &'a ObfuscatedInt<T> {
    open spec fn obeys_add_spec() -> bool {
        true
    }

    open spec fn add_req(self, rhs: T) -> bool {
        true
    }

    open spec fn add_spec(self, rhs: T) -> T {
        T::wrap_add(self@, rhs)
    }
}

impl<T: RawValue> std::ops::AddAssign<T> for ObfuscatedInt<T> {
    fn add_assign(&mut self, rhs: T)
        ensures
            final(self)@ == T::wrap_add(old(self)@, rhs),
            old(self).is_write(*final(self), T::wrap_add(old(self)@, rhs)),
    {
        let v = self.value().add_wrapping(rhs);
        self.assign(v);
    }
}

/// How two plain values compare.
pub open spec fn order_of<T: RawValue>(a: T, b: T) -> Option<std::cmp::Ordering> {
    if T::less_of(a, b) {
        Some(std::cmp::Ordering::Less)
    } else if a == b {
        Some(std::cmp::Ordering::Equal)
    } else {
        Some(std::cmp::Ordering::Greater)
    }
}

/// Compares two plain values.
fn compare<T: RawValue>(a: T, b: T) -> (r: Option<std::cmp::Ordering>)
    ensures
        r == order_of(a, b),
{
    if a.less(b) {
        Some(std::cmp::Ordering::Less)
    } else if a.equals(b) {
        Some(std::cmp::Ordering::Equal)
    } else {
        Some(std::cmp::Ordering::Greater)
    }
}

impl<T: RawValue> PartialEq for ObfuscatedInt<T> {
    fn eq(&self, o: &ObfuscatedInt<T>) -> (r: bool) {
        self.value().equals(o.value())
    }
}

impl<T: RawValue> vstd::std_specs::cmp::PartialEqSpecImpl for ObfuscatedInt<T> {
    open spec fn obeys_eq_spec() -> bool {
        true
    }

    open spec fn eq_spec(&self, o: &ObfuscatedInt<T>) -> bool {
        self@ == o@
    }
}

impl<T: RawValue> PartialOrd for ObfuscatedInt<T> {
    fn partial_cmp(&self, o: &ObfuscatedInt<T>) -> (r: Option<std::cmp::Ordering>) {
        compare(self.value(), o.value())
    }
}

impl<T: RawValue> vstd::std_specs::cmp::PartialOrdSpecImpl for ObfuscatedInt<T> {
    open spec fn obeys_partial_cmp_spec() -> bool {
        true
    }

    open spec fn partial_cmp_spec(&self, o: &ObfuscatedInt<T>) -> Option<std::cmp::Ordering> {
        order_of(self@, o@)
    }
}

impl<T: RawValue> PartialEq<T> for ObfuscatedInt<T> {
    fn eq(&self, o: &T) -> (r: bool) {
        self.value().equals(*o)
    }
}

impl<T: RawValue> vstd::std_specs::cmp::PartialEqSpecImpl<T> for ObfuscatedInt<T> {
    open spec fn obeys_eq_spec() -> bool {
        true
    }

    open spec fn eq_spec(&self, o: &T) -> bool {
        self@ == *o
    }
}

impl<T: RawValue> PartialOrd<T> for ObfuscatedInt<T> {
    fn partial_cmp(&self, o: &T) -> (r: Option<std::cmp::Ordering>) {
        compare(self.value(), *o)
    }
}

impl<T: RawValue> vstd::std_specs::cmp::PartialOrdSpecImpl<T> for ObfuscatedInt<T> {
    open spec fn obeys_partial_cmp_spec() -> bool {
        true
    }

    open spec fn partial_cmp_spec(&self, o: &T) -> Option<std::cmp::Ordering> {
        order_of(self@, *o)
    }
}

} // verus!
