//! What holds of writes over time: the layout never stays put, and the write
//! path cycles through every phase.
use vstd::prelude::*;

use crate::obfuscated::ObfuscatedInt;
use crate::raw::RawValue;

verus! {

/// A write always changes the status, moving its phase on by 19 modulo 32, so
/// the stored state after a write differs from the state before it, even when
/// the value written is the value that was read.
pub proof fn lemma_write_changes_layout<T: RawValue>(
    x: ObfuscatedInt<T>,
    y: ObfuscatedInt<T>,
    v: T,
)
    requires
        x.is_write(y, v),
    ensures
        T::phase_of(y.status) == (T::phase_of(x.status) + 19) % 32,
        y.status != x.status,
        y != x,
{
    let s = x.status;
    let r = ObfuscatedInt::<T>::reseed_of(x@);
    T::lemma_phase(s, r);
    T::lemma_phase(T::wrap_add(s, T::round_down_of(r)), r);
}

/// `xs` is a run of writes: each state is what writing `vs[i]` into `xs[i]` leaves.
pub open spec fn is_run<T: RawValue>(xs: Seq<ObfuscatedInt<T>>, vs: Seq<T>) -> bool {
    &&& xs.len() == vs.len() + 1
    &&& forall|i: int| 0 <= i < vs.len() ==> #[trigger] xs[i].is_write(xs[i + 1], vs[i])
}

/// After `i` writes the phase has moved on by `19 * i` modulo 32, whatever was written.
pub proof fn lemma_run_phase<T: RawValue>(xs: Seq<ObfuscatedInt<T>>, vs: Seq<T>, i: int)
    requires
        is_run(xs, vs),
        0 <= i <= vs.len(),
    ensures
        T::phase_of(xs[i].status) == (T::phase_of(xs[0].status) + 19 * i) % 32,
    decreases i,
{
    T::lemma_phase(xs[0].status, xs[0].status);
    if i > 0 {
        lemma_run_phase(xs, vs, i - 1);
        let j = i - 1;
        assert(xs[j].is_write(xs[j + 1], vs[j]));
        lemma_write_changes_layout(xs[j], xs[j + 1], vs[j]);
        let p0 = T::phase_of(xs[0].status);
        vstd::arithmetic::div_mod::lemma_add_mod_noop(p0 + 19 * (i - 1), 19, 32);
        vstd::arithmetic::div_mod::lemma_small_mod(19, 32);
    }
}

/// Among any 32 consecutive writes every phase occurs: one is a reseed write
/// (phase 0), and both the first share (phases below 16) and the second share
/// (phases from 16) are selected.
pub proof fn lemma_run_visits_every_phase<T: RawValue>(
    xs: Seq<ObfuscatedInt<T>>,
    vs: Seq<T>,
    q: int,
)
    requires
        is_run(xs, vs),
        vs.len() >= 32,
        0 <= q < 32,
    ensures
        exists|i: int| 0 <= i < 32 && T::phase_of(#[trigger] xs[i].status) == q,
{
    T::lemma_phase(xs[0].status, xs[0].status);
    let p0 = T::phase_of(xs[0].status);
    let pp = p0 as u32;
    let qq = q as u32;
    assert((pp + 19 * (((qq + 32 - pp) * 27) % 32)) % 32 == qq) by (bit_vector)
        requires
            pp < 32,
            qq < 32,
    ;
    let i = ((q + 32 - p0) * 27) % 32;
    lemma_run_phase(xs, vs, i);
    assert(T::phase_of(xs[i].status) == q);
}

} // verus!
