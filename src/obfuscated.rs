//! The obfuscated integer: a status word and a tree of XOR shares.
use vstd::prelude::*;

use crate::magic::MagicSource;
use crate::raw::RawValue;

verus! {

/// How the bits of a value are currently split: two shares, each a plain
/// value or a nested obfuscated integer (`S` a plain share, `C` a child).
#[derive(Debug)]
pub enum VariantNode<T> {
    SS(T, T),
    SC(T, ObfuscatedInt<T>),
    CS(ObfuscatedInt<T>, T),
    CC(ObfuscatedInt<T>, ObfuscatedInt<T>),
}

/// An integer stored as the XOR of the shares in `val`; `status` counts
/// writes and selects which cells the next write changes.
#[derive(Debug)]
pub struct ObfuscatedInt<T> {
    pub status: T,
    pub val: Box<VariantNode<T>>,
}

/// An obfuscated `i8`.
pub type Oi8 = ObfuscatedInt<i8>;

/// The node of an [`Oi8`].
pub type Ei8 = VariantNode<i8>;

/// An obfuscated `i16`.
pub type Oi16 = ObfuscatedInt<i16>;

/// The node of an [`Oi16`].
pub type Ei16 = VariantNode<i16>;

/// An obfuscated `i32`.
pub type Oi32 = ObfuscatedInt<i32>;

/// The node of an [`Oi32`].
pub type Ei32 = VariantNode<i32>;

/// An obfuscated `i64`.
pub type Oi64 = ObfuscatedInt<i64>;

/// The node of an [`Oi64`].
pub type Ei64 = VariantNode<i64>;

/// An obfuscated `i128`.
pub type Oi128 = ObfuscatedInt<i128>;

/// The node of an [`Oi128`].
pub type Ei128 = VariantNode<i128>;

/// An obfuscated `u8`.
pub type Ou8 = ObfuscatedInt<u8>;

/// The node of an [`Ou8`].
pub type Eu8 = VariantNode<u8>;

/// An obfuscated `u16`.
pub type Ou16 = ObfuscatedInt<u16>;

/// The node of an [`Ou16`].
pub type Eu16 = VariantNode<u16>;

/// An obfuscated `u32`.
pub type Ou32 = ObfuscatedInt<u32>;

/// The node of an [`Ou32`].
pub type Eu32 = VariantNode<u32>;

/// An obfuscated `u64`.
pub type Ou64 = ObfuscatedInt<u64>;

/// The node of an [`Ou64`].
pub type Eu64 = VariantNode<u64>;

/// An obfuscated `u128`.
pub type Ou128 = ObfuscatedInt<u128>;

/// The node of an [`Ou128`].
pub type Eu128 = VariantNode<u128>;

/// An obfuscated `isize`.
pub type Oisize = ObfuscatedInt<isize>;

/// The node of an [`Oisize`].
pub type Eisize = VariantNode<isize>;

/// An obfuscated `usize`.
pub type Ousize = ObfuscatedInt<usize>;

/// The node of an [`Ousize`].
pub type Eusize = VariantNode<usize>;

impl<T: RawValue> VariantNode<T> {
    /// The value the shares stand for: the XOR of the two.
    pub open spec fn fold(self) -> T
        decreases self,
    {
        match self {
            VariantNode::SS(a, b) => T::bit_xor(a, b),
            VariantNode::SC(a, c) => T::bit_xor(a, c.val.fold()),
            VariantNode::CS(c, b) => T::bit_xor(c.val.fold(), b),
            VariantNode::CC(c1, c2) => T::bit_xor(c1.val.fold(), c2.val.fold()),
        }
    }

    /// Recovers the value the shares stand for.
    pub fn value(&self) -> (r: T)
        ensures
            r == self.fold(),
        decreases self,
    {
        match self {
            VariantNode::SS(a, b) => a.xor(*b),
            VariantNode::SC(a, c) => a.xor(c.val.value()),
            VariantNode::CS(c, b) => c.val.value().xor(*b),
            VariantNode::CC(c1, c2) => c1.val.value().xor(c2.val.value()),
        }
    }
}

impl<T: RawValue> View for ObfuscatedInt<T> {
    type V = T;

    /// The logical value.
    open spec fn view(&self) -> T {
        self.val.fold()
    }
}

/// `x ^ y ^ y == x`.
proof fn lemma_xor_cancel<T: RawValue>(x: T, y: T)
    ensures
        T::bit_xor(T::bit_xor(x, y), y) == x,
        T::bit_xor(y, T::bit_xor(y, x)) == x,
        T::bit_xor(T::bit_xor(y, x), y) == x,
        T::bit_xor(y, T::bit_xor(x, y)) == x,
{
    T::lemma_xor(x, y, y);
    T::lemma_xor(y, x, y);
    T::lemma_xor(y, y, x);
    T::lemma_xor(x, y, x);
    T::lemma_xor(y, x, x);
}

/// XORing the first share with `x` XORs the value with `x`.
proof fn lemma_first_share<T: RawValue>(a: T, b: T, x: T)
    ensures
        T::bit_xor(T::bit_xor(a, x), b) == T::bit_xor(T::bit_xor(a, b), x),
{
    T::lemma_xor(a, x, b);
    T::lemma_xor(x, b, x);
    T::lemma_xor(a, b, x);
}

/// XORing the second share with `x` XORs the value with `x`.
proof fn lemma_second_share<T: RawValue>(a: T, b: T, x: T)
    ensures
        T::bit_xor(a, T::bit_xor(b, x)) == T::bit_xor(T::bit_xor(a, b), x),
{
    T::lemma_xor(a, b, x);
}

/// XORing the shares with `x` and `y` XORs the value with `x` and then `y`.
proof fn lemma_both_shares<T: RawValue>(a: T, b: T, x: T, y: T)
    ensures
        T::bit_xor(T::bit_xor(a, x), T::bit_xor(b, y)) == T::bit_xor(
            T::bit_xor(T::bit_xor(a, b), x),
            y,
        ),
{
    T::lemma_xor(T::bit_xor(a, x), b, y);
    lemma_first_share(a, b, x);
}

/// XORing `o` with `v ^ o` gives `v`.
proof fn lemma_delta<T: RawValue>(o: T, v: T)
    ensures
        T::bit_xor(o, T::bit_xor(v, o)) == v,
{
    T::lemma_xor(v, o, v);
    lemma_xor_cancel(v, o);
}

/// XORing `o` with `v ^ o ^ r` and then with `r` gives `v`.
proof fn lemma_reseed_delta<T: RawValue>(o: T, v: T, r: T)
    ensures
        T::bit_xor(T::bit_xor(o, T::bit_xor(T::bit_xor(v, o), r)), r) == v,
{
    T::lemma_xor(o, T::bit_xor(v, o), r);
    lemma_delta(o, v);
    lemma_xor_cancel(v, r);
}

/// A write of `v` leaves the value `v`.
pub proof fn lemma_write_value<T: RawValue>(x: ObfuscatedInt<T>, y: ObfuscatedInt<T>, v: T)
    requires
        x.is_write(y, v),
    ensures
        y@ == v,
    decreases x,
{
    let o = x@;
    let p = T::phase_of(x.status);
    let r = ObfuscatedInt::<T>::reseed_of(o);
    if p == 0 {
        let d = T::bit_xor(T::bit_xor(v, o), r);
        lemma_reseed_delta(o, v, r);
        match *x.val {
            VariantNode::SS(a, b) => {
                lemma_both_shares(a, b, d, r);
            },
            VariantNode::SC(a, c) => {
                let c2 = match *y.val {
                    VariantNode::SC(_, c2) => c2,
                    _ => c,
                };
                lemma_write_value(c, c2, T::bit_xor(r, c@));
                T::lemma_xor(r, c@, r);
                lemma_both_shares(a, c@, d, r);
            },
            VariantNode::CS(c, b) => {
                let c2 = match *y.val {
                    VariantNode::CS(c2, _) => c2,
                    _ => c,
                };
                lemma_write_value(c, c2, T::bit_xor(r, c@));
                T::lemma_xor(r, c@, r);
                lemma_both_shares(c@, b, r, d);
                lemma_first_share(o, r, d);
            },
            VariantNode::CC(c1, c2) => {
                let (e1, e2) = match *y.val {
                    VariantNode::CC(e1, e2) => (e1, e2),
                    _ => (c1, c2),
                };
                lemma_write_value(c1, e1, T::bit_xor(d, c1@));
                lemma_write_value(c2, e2, T::bit_xor(r, c2@));
                T::lemma_xor(d, c1@, d);
                T::lemma_xor(r, c2@, r);
                lemma_both_shares(c1@, c2@, d, r);
            },
        }
    } else {
        let d = T::bit_xor(v, o);
        lemma_delta(o, v);
        match *x.val {
            VariantNode::SS(a, b) => {
                lemma_first_share(a, b, d);
                lemma_second_share(a, b, d);
            },
            VariantNode::SC(a, c) => {
                lemma_first_share(a, c@, d);
                lemma_second_share(a, c@, d);
                if p >= 16 {
                    let c2 = match *y.val {
                        VariantNode::SC(_, c2) => c2,
                        _ => c,
                    };
                    lemma_write_value(c, c2, T::bit_xor(d, c@));
                    T::lemma_xor(d, c@, d);
                }
            },
            VariantNode::CS(c, b) => {
                lemma_first_share(c@, b, d);
                lemma_second_share(c@, b, d);
                if p < 16 {
                    let c2 = match *y.val {
                        VariantNode::CS(c2, _) => c2,
                        _ => c,
                    };
                    lemma_write_value(c, c2, T::bit_xor(d, c@));
                    T::lemma_xor(d, c@, d);
                }
            },
            VariantNode::CC(c1, c2) => {
                lemma_first_share(c1@, c2@, d);
                lemma_second_share(c1@, c2@, d);
                let (e1, e2) = match *y.val {
                    VariantNode::CC(e1, e2) => (e1, e2),
                    _ => (c1, c2),
                };
                if p < 16 {
                    lemma_write_value(c1, e1, T::bit_xor(d, c1@));
                    T::lemma_xor(d, c1@, d);
                } else {
                    lemma_write_value(c2, e2, T::bit_xor(d, c2@));
                    T::lemma_xor(d, c2@, d);
                }
            },
        }
    }
}

impl<T: RawValue> ObfuscatedInt<T> {
    /// The status a constructor gives: the drawn value, the constant and the value, XORed.
    pub open spec fn initial_status(m: T, v: T) -> T {
        T::bit_xor(T::bit_xor(m, T::magic_const()), v)
    }

    /// What `new_basic(v)` builds when the source yields `m`.
    pub open spec fn basic_of(v: T, m: T) -> ObfuscatedInt<T> {
        ObfuscatedInt {
            status: Self::initial_status(m, v),
            val: Box::new(VariantNode::SS(T::bit_xor(v, m), m)),
        }
    }

    /// What `new_sc(v, c)` builds when the source yields `m`.
    pub open spec fn sc_of(v: T, c: ObfuscatedInt<T>, m: T) -> ObfuscatedInt<T> {
        ObfuscatedInt {
            status: Self::initial_status(m, v),
            val: Box::new(VariantNode::SC(T::bit_xor(v, c@), c)),
        }
    }

    /// What `new_cs(v, c)` builds when the source yields `m`.
    pub open spec fn cs_of(v: T, c: ObfuscatedInt<T>, m: T) -> ObfuscatedInt<T> {
        ObfuscatedInt {
            status: Self::initial_status(m, v),
            val: Box::new(VariantNode::CS(c, T::bit_xor(v, c@))),
        }
    }

    /// A plain value and a tree: `new_basic(v)`.
    pub fn new_basic(v: T, src: &mut MagicSource<T>) -> (r: ObfuscatedInt<T>)
        ensures
            r == Self::basic_of(v, old(src).state),
            r@ == v,
            *final(src) == old(src).after_draw(),
    {
        let m = src.draw();
        proof {
            lemma_xor_cancel(v, m);
        }
        ObfuscatedInt {
            status: m.xor(T::magic()).xor(v),
            val: Box::new(VariantNode::SS(v.xor(m), m)),
        }
    }

    /// Wraps `c` as the second share, with a leaf first share that makes the value `v`.
    pub fn new_sc(v: T, c: ObfuscatedInt<T>, src: &mut MagicSource<T>) -> (r: ObfuscatedInt<T>)
        ensures
            r == Self::sc_of(v, c, old(src).state),
            r@ == v,
            *final(src) == old(src).after_draw(),
    {
        let m = src.draw();
        let leaf = v.xor(c.value());
        proof {
            lemma_xor_cancel(v, c@);
        }
        ObfuscatedInt { status: m.xor(T::magic()).xor(v), val: Box::new(VariantNode::SC(leaf, c)) }
    }

    /// Wraps `c` as the first share, with a leaf second share that makes the value `v`.
    pub fn new_cs(v: T, c: ObfuscatedInt<T>, src: &mut MagicSource<T>) -> (r: ObfuscatedInt<T>)
        ensures
            r == Self::cs_of(v, c, old(src).state),
            r@ == v,
            *final(src) == old(src).after_draw(),
    {
        let m = src.draw();
        let leaf = v.xor(c.value());
        proof {
            lemma_xor_cancel(v, c@);
        }
        ObfuscatedInt { status: m.xor(T::magic()).xor(v), val: Box::new(VariantNode::CS(c, leaf)) }
    }

    /// Two nested trees whose values XOR to `v`.
    ///
    /// With `s0` the source before the call and `s1`, `s2` the source after one and
    /// two draws, the result is `CC(basic(v ^ m, s1), basic(m, s2))` where `m` is
    /// what `s0` yields.
    pub fn new(v: T, src: &mut MagicSource<T>) -> (r: ObfuscatedInt<T>)
        ensures
            ({
                let s0 = *old(src);
                let s1 = s0.after_draw();
                let s2 = s1.after_draw();
                let m = s0.state;
                &&& r.status == Self::initial_status(m, v)
                &&& *r.val == VariantNode::CC(
                    Self::basic_of(T::bit_xor(v, m), s1.state),
                    Self::basic_of(m, s2.state),
                )
                &&& *final(src) == s2.after_draw()
            }),
            r@ == v,
    {
        let m = src.draw();
        let c1 = Self::new_basic(v.xor(m), src);
        let c2 = Self::new_basic(m, src);
        proof {
            lemma_xor_cancel(v, m);
        }
        ObfuscatedInt { status: m.xor(T::magic()).xor(v), val: Box::new(VariantNode::CC(c1, c2)) }
    }

    /// Three levels: `CC(cs(v ^ m, basic(m ^ v ^ K)), sc(m, basic(v ^ K)))`, where
    /// `K` is `T::magic()` and `m` the first value drawn.
    pub fn new_cssc(v: T, src: &mut MagicSource<T>) -> (r: ObfuscatedInt<T>)
        ensures
            ({
                let s0 = *old(src);
                let s1 = s0.after_draw();
                let s2 = s1.after_draw();
                let s3 = s2.after_draw();
                let s4 = s3.after_draw();
                let m = s0.state;
                let k = T::magic_const();
                &&& r.status == Self::initial_status(m, v)
                &&& *r.val == VariantNode::CC(
                    Self::cs_of(
                        T::bit_xor(v, m),
                        Self::basic_of(T::bit_xor(T::bit_xor(m, v), k), s1.state),
                        s2.state,
                    ),
                    Self::sc_of(m, Self::basic_of(T::bit_xor(v, k), s3.state), s4.state),
                )
                &&& *final(src) == s4.after_draw()
            }),
            r@ == v,
    {
        let m = src.draw();
        let k = T::magic();
        let b1 = Self::new_basic(m.xor(v).xor(k), src);
        let c1 = Self::new_cs(v.xor(m), b1, src);
        let b2 = Self::new_basic(v.xor(k), src);
        let c2 = Self::new_sc(m, b2, src);
        proof {
            lemma_xor_cancel(v, m);
        }
        ObfuscatedInt { status: m.xor(T::magic()).xor(v), val: Box::new(VariantNode::CC(c1, c2)) }
    }

    /// Builds an integer from a status and a node as they stand.
    pub fn from_raw(parts: (T, VariantNode<T>)) -> (r: ObfuscatedInt<T>)
        ensures
            r.status == parts.0,
            *r.val == parts.1,
    {
        ObfuscatedInt { status: parts.0, val: Box::new(parts.1) }
    }

    /// Takes an integer apart into its status and its node.
    pub fn into_raw(self) -> (r: (T, VariantNode<T>))
        ensures
            r.0 == self.status,
            r.1 == *self.val,
    {
        (self.status, *self.val)
    }

    /// The value a reseed write derives from the old value: `3511 + old * magic`.
    pub open spec fn reseed_of(x: T) -> T {
        T::wrap_add(T::seed_const(), T::wrap_mul(x, T::magic_const()))
    }

    /// The status after one write.
    pub open spec fn next_status(self) -> T {
        if T::phase_of(self.status) == 0 {
            T::wrap_add(
                T::wrap_add(self.status, T::round_down_of(Self::reseed_of(self@))),
                T::magic_const(),
            )
        } else {
            T::wrap_add(self.status, T::magic_const())
        }
    }

    /// `new` is what writing `v` into `self` leaves.
    ///
    /// At phase 0 (a reseed write), with `r` the reseed value and
    /// `d = v ^ old ^ r`: a leaf pair takes `d` and `r`; a leaf beside a child
    /// takes `d` while the child's value is XORed with `r`; two children have
    /// their values XORed with `d` and `r`. At any other phase, with
    /// `d = v ^ old`, only the first share (phase below 16) or only the second
    /// changes: a leaf is XORed with `d`, a child has its value XORed with `d`.
    pub open spec fn is_write(self, new: ObfuscatedInt<T>, v: T) -> bool
        decreases self,
    {
        let old_v = self@;
        let p = T::phase_of(self.status);
        &&& new.status == self.next_status()
        &&& if p == 0 {
            let r = Self::reseed_of(old_v);
            let d = T::bit_xor(T::bit_xor(v, old_v), r);
            match *self.val {
                VariantNode::SS(a, b) => match *new.val {
                    VariantNode::SS(a2, b2) => a2 == T::bit_xor(a, d) && b2 == T::bit_xor(b, r),
                    _ => false,
                },
                VariantNode::SC(a, c) => match *new.val {
                    VariantNode::SC(a2, c2) => a2 == T::bit_xor(a, d) && c.is_write(
                        c2,
                        T::bit_xor(r, c@),
                    ),
                    _ => false,
                },
                VariantNode::CS(c, b) => match *new.val {
                    VariantNode::CS(c2, b2) => b2 == T::bit_xor(b, d) && c.is_write(
                        c2,
                        T::bit_xor(r, c@),
                    ),
                    _ => false,
                },
                VariantNode::CC(c1, c2) => match *new.val {
                    VariantNode::CC(e1, e2) => c1.is_write(e1, T::bit_xor(d, c1@)) && c2.is_write(
                        e2,
                        T::bit_xor(r, c2@),
                    ),
                    _ => false,
                },
            }
        } else if p < 16 {
            let d = T::bit_xor(v, old_v);
            match *self.val {
                VariantNode::SS(a, b) => match *new.val {
                    VariantNode::SS(a2, b2) => a2 == T::bit_xor(a, d) && b2 == b,
                    _ => false,
                },
                VariantNode::SC(a, c) => match *new.val {
                    VariantNode::SC(a2, c2) => a2 == T::bit_xor(a, d) && c2 == c,
                    _ => false,
                },
                VariantNode::CS(c, b) => match *new.val {
                    VariantNode::CS(c2, b2) => c.is_write(c2, T::bit_xor(d, c@)) && b2 == b,
                    _ => false,
                },
                VariantNode::CC(c1, c2) => match *new.val {
                    VariantNode::CC(e1, e2) => c1.is_write(e1, T::bit_xor(d, c1@)) && e2 == c2,
                    _ => false,
                },
            }
        } else {
            let d = T::bit_xor(v, old_v);
            match *self.val {
                VariantNode::SS(a, b) => match *new.val {
                    VariantNode::SS(a2, b2) => a2 == a && b2 == T::bit_xor(b, d),
                    _ => false,
                },
                VariantNode::SC(a, c) => match *new.val {
                    VariantNode::SC(a2, c2) => a2 == a && c.is_write(c2, T::bit_xor(d, c@)),
                    _ => false,
                },
                VariantNode::CS(c, b) => match *new.val {
                    VariantNode::CS(c2, b2) => c2 == c && b2 == T::bit_xor(b, d),
                    _ => false,
                },
                VariantNode::CC(c1, c2) => match *new.val {
                    VariantNode::CC(e1, e2) => e1 == c1 && c2.is_write(e2, T::bit_xor(d, c2@)),
                    _ => false,
                },
            }
        }
    }

    /// Writes `v`: afterwards the value is `v`, and the cells that changed are
    /// those that the status selected.
    pub fn assign(&mut self, v: T)
        ensures
            old(self).is_write(*final(self), v),
            final(self)@ == v,
        decreases *old(self),
    {
        let old_v = self.value();
        let ghost before = *self;
        if self.status.phase() == 0 {
            let r = T::seed().add_wrapping(old_v.mul_wrapping(T::magic()));
            let d = v.xor(old_v).xor(r);
            match &mut *self.val {
                VariantNode::SS(a, b) => {
                    *a = a.xor(d);
                    *b = b.xor(r);
                },
                VariantNode::SC(a, c) => {
                    *a = a.xor(d);
                    let cv = c.value();
                    c.assign(r.xor(cv));
                },
                VariantNode::CS(c, b) => {
                    *b = b.xor(d);
                    let cv = c.value();
                    c.assign(r.xor(cv));
                },
                VariantNode::CC(c1, c2) => {
                    let cv1 = c1.value();
                    c1.assign(d.xor(cv1));
                    let cv2 = c2.value();
                    c2.assign(r.xor(cv2));
                },
            }
            self.status = self.status.add_wrapping(r.round_down());
        } else if self.status.phase() < 16 {
            let d = v.xor(old_v);
            match &mut *self.val {
                VariantNode::SS(a, _) => {
                    *a = a.xor(d);
                },
                VariantNode::SC(a, _) => {
                    *a = a.xor(d);
                },
                VariantNode::CS(c, _) => {
                    let cv = c.value();
                    c.assign(d.xor(cv));
                },
                VariantNode::CC(c, _) => {
                    let cv = c.value();
                    c.assign(d.xor(cv));
                },
            }
        } else {
            let d = v.xor(old_v);
            match &mut *self.val {
                VariantNode::SS(_, b) => {
                    *b = b.xor(d);
                },
                VariantNode::CS(_, b) => {
                    *b = b.xor(d);
                },
                VariantNode::SC(_, c) => {
                    let cv = c.value();
                    c.assign(d.xor(cv));
                },
                VariantNode::CC(_, c) => {
                    let cv = c.value();
                    c.assign(d.xor(cv));
                },
            }
        }
        self.status = self.status.add_wrapping(T::magic());
        proof {
            lemma_write_value(before, *self, v);
        }
    }

    /// Reads the logical value.
    pub fn value(&self) -> (r: T)
        ensures
            r == self@,
    {
        self.val.value()
    }
}

} // verus!
