//! The fixed-width integers that an obfuscated integer can hold.
use vstd::prelude::*;

verus! {

/// A fixed-width integer with XOR and wrapping arithmetic.
///
/// The phase of a value is its low five bits. A write advances the status by
/// `magic()`, whose low five bits are 19, so the phase moves by 19 modulo 32.
pub trait RawValue: Copy + Sized {
    /// The status increment of every write, also the multiplier of reseed values:
    /// `7895123 | (7895123 << 60)`, truncated to the width.
    spec fn magic_const() -> Self;

    /// The additive seed of reseed values: 3511, truncated to the width.
    spec fn seed_const() -> Self;

    /// Bitwise XOR.
    spec fn bit_xor(a: Self, b: Self) -> Self;

    /// Addition modulo the width.
    spec fn wrap_add(a: Self, b: Self) -> Self;

    /// Multiplication modulo the width.
    spec fn wrap_mul(a: Self, b: Self) -> Self;

    /// One step of the shared counter: `d * (d + 1) * 6 + 1`, wrapping.
    spec fn next_magic_of(d: Self) -> Self;

    /// The integer order.
    spec fn less_of(a: Self, b: Self) -> bool;

    /// The low five bits of `a`, as a number in `0..32`.
    spec fn phase_of(a: Self) -> int;

    /// `a` with its low five bits cleared.
    spec fn round_down_of(a: Self) -> Self;

    fn magic() -> (r: Self)
        ensures
            r == Self::magic_const(),
    ;

    fn seed() -> (r: Self)
        ensures
            r == Self::seed_const(),
    ;

    fn equals(self, o: Self) -> (r: bool)
        ensures
            r == (self == o),
    ;

    fn less(self, o: Self) -> (r: bool)
        ensures
            r == Self::less_of(self, o),
    ;

    fn xor(self, o: Self) -> (r: Self)
        ensures
            r == Self::bit_xor(self, o),
    ;

    fn add_wrapping(self, o: Self) -> (r: Self)
        ensures
            r == Self::wrap_add(self, o),
    ;

    fn mul_wrapping(self, o: Self) -> (r: Self)
        ensures
            r == Self::wrap_mul(self, o),
    ;

    fn next_magic(self) -> (r: Self)
        ensures
            r == Self::next_magic_of(self),
    ;

    fn phase(self) -> (r: u8)
        ensures
            r as int == Self::phase_of(self),
    ;

    fn round_down(self) -> (r: Self)
        ensures
            r == Self::round_down_of(self),
    ;

    /// XOR is associative and commutative, and every value is its own inverse.
    proof fn lemma_xor(a: Self, b: Self, c: Self)
        ensures
            Self::bit_xor(Self::bit_xor(a, b), c) == Self::bit_xor(a, Self::bit_xor(b, c)),
            Self::bit_xor(a, b) == Self::bit_xor(b, a),
            Self::bit_xor(Self::bit_xor(a, b), b) == a,
    ;

    /// Adding `magic()` moves the phase by 19; adding a rounded-down value keeps it.
    proof fn lemma_phase(s: Self, r: Self)
        ensures
            0 <= Self::phase_of(s) < 32,
            Self::phase_of(Self::wrap_add(s, Self::magic_const())) == (Self::phase_of(s) + 19)
                % 32,
            Self::phase_of(Self::wrap_add(s, Self::round_down_of(r))) == Self::phase_of(s),
    ;
}

impl RawValue for u8 {
    open spec fn magic_const() -> u8 {
        0x53
    }

    open spec fn seed_const() -> u8 {
        183
    }

    open spec fn bit_xor(a: u8, b: u8) -> u8 {
        a ^ b
    }

    open spec fn wrap_add(a: u8, b: u8) -> u8 {
        vstd::wrapping::u8_specs::wrapping_add(a, b)
    }

    open spec fn wrap_mul(a: u8, b: u8) -> u8 {
        vstd::wrapping::u8_specs::wrapping_mul(a, b)
    }

    open spec fn next_magic_of(d: u8) -> u8 {
        Self::wrap_add(Self::wrap_mul(Self::wrap_mul(d, Self::wrap_add(d, 1)), 6), 1)
    }

    open spec fn less_of(a: u8, b: u8) -> bool {
        a < b
    }

    open spec fn phase_of(a: u8) -> int {
        (a & 31) as int
    }

    open spec fn round_down_of(a: u8) -> u8 {
        a & !31u8
    }

    fn magic() -> (r: u8) {
        0x53
    }

    fn seed() -> (r: u8) {
        183
    }

    fn equals(self, o: u8) -> (r: bool) {
        self == o
    }

    fn less(self, o: u8) -> (r: bool) {
        self < o
    }

    fn xor(self, o: u8) -> (r: u8) {
        self ^ o
    }

    fn add_wrapping(self, o: u8) -> (r: u8) {
        self.wrapping_add(o)
    }

    fn mul_wrapping(self, o: u8) -> (r: u8) {
        self.wrapping_mul(o)
    }

    fn next_magic(self) -> (r: u8) {
        self.wrapping_mul(self.wrapping_add(1)).wrapping_mul(6).wrapping_add(1)
    }

    fn phase(self) -> (r: u8) {
        proof {
            Self::lemma_phase(self, self);
        }
        (self & 31) as u8
    }

    fn round_down(self) -> (r: u8) {
        self & !31u8
    }

    proof fn lemma_xor(a: u8, b: u8, c: u8) {
        assert((a ^ b) ^ c == a ^ (b ^ c) && a ^ b == b ^ a && (a ^ b) ^ b == a) by (bit_vector);
    }

    proof fn lemma_phase(s: u8, r: u8) {
        let k = Self::magic_const();
        assert(0 <= (s & 31) < 32 && (vstd::wrapping::u8_specs::wrapping_add(s, k) & 31) == ((s & 31)
            + 19) % 32 && (vstd::wrapping::u8_specs::wrapping_add(s, r & !31u8) & 31) == s & 31)
            by (bit_vector)
            requires
                k == 0x53,
        ;
    }
}

impl RawValue for u16 {
    open spec fn magic_const() -> u16 {
        0x7853
    }

    open spec fn seed_const() -> u16 {
        3511
    }

    open spec fn bit_xor(a: u16, b: u16) -> u16 {
        a ^ b
    }

    open spec fn wrap_add(a: u16, b: u16) -> u16 {
        vstd::wrapping::u16_specs::wrapping_add(a, b)
    }

    open spec fn wrap_mul(a: u16, b: u16) -> u16 {
        vstd::wrapping::u16_specs::wrapping_mul(a, b)
    }

    open spec fn next_magic_of(d: u16) -> u16 {
        Self::wrap_add(Self::wrap_mul(Self::wrap_mul(d, Self::wrap_add(d, 1)), 6), 1)
    }

    open spec fn less_of(a: u16, b: u16) -> bool {
        a < b
    }

    open spec fn phase_of(a: u16) -> int {
        (a & 31) as int
    }

    open spec fn round_down_of(a: u16) -> u16 {
        a & !31u16
    }

    fn magic() -> (r: u16) {
        0x7853
    }

    fn seed() -> (r: u16) {
        3511
    }

    fn equals(self, o: u16) -> (r: bool) {
        self == o
    }

    fn less(self, o: u16) -> (r: bool) {
        self < o
    }

    fn xor(self, o: u16) -> (r: u16) {
        self ^ o
    }

    fn add_wrapping(self, o: u16) -> (r: u16) {
        self.wrapping_add(o)
    }

    fn mul_wrapping(self, o: u16) -> (r: u16) {
        self.wrapping_mul(o)
    }

    fn next_magic(self) -> (r: u16) {
        self.wrapping_mul(self.wrapping_add(1)).wrapping_mul(6).wrapping_add(1)
    }

    fn phase(self) -> (r: u8) {
        proof {
            Self::lemma_phase(self, self);
        }
        (self & 31) as u8
    }

    fn round_down(self) -> (r: u16) {
        self & !31u16
    }

    proof fn lemma_xor(a: u16, b: u16, c: u16) {
        assert((a ^ b) ^ c == a ^ (b ^ c) && a ^ b == b ^ a && (a ^ b) ^ b == a) by (bit_vector);
    }

    proof fn lemma_phase(s: u16, r: u16) {
        let k = Self::magic_const();
        assert(0 <= (s & 31) < 32 && (vstd::wrapping::u16_specs::wrapping_add(s, k) & 31) == ((s & 31)
            + 19) % 32 && (vstd::wrapping::u16_specs::wrapping_add(s, r & !31u16) & 31) == s & 31)
            by (bit_vector)
            requires
                k == 0x7853,
        ;
    }
}

impl RawValue for u32 {
    open spec fn magic_const() -> u32 {
        0x787853
    }

    open spec fn seed_const() -> u32 {
        3511
    }

    open spec fn bit_xor(a: u32, b: u32) -> u32 {
        a ^ b
    }

    open spec fn wrap_add(a: u32, b: u32) -> u32 {
        vstd::wrapping::u32_specs::wrapping_add(a, b)
    }

    open spec fn wrap_mul(a: u32, b: u32) -> u32 {
        vstd::wrapping::u32_specs::wrapping_mul(a, b)
    }

    open spec fn next_magic_of(d: u32) -> u32 {
        Self::wrap_add(Self::wrap_mul(Self::wrap_mul(d, Self::wrap_add(d, 1)), 6), 1)
    }

    open spec fn less_of(a: u32, b: u32) -> bool {
        a < b
    }

    open spec fn phase_of(a: u32) -> int {
        (a & 31) as int
    }

    open spec fn round_down_of(a: u32) -> u32 {
        a & !31u32
    }

    fn magic() -> (r: u32) {
        0x787853
    }

    fn seed() -> (r: u32) {
        3511
    }

    fn equals(self, o: u32) -> (r: bool) {
        self == o
    }

    fn less(self, o: u32) -> (r: bool) {
        self < o
    }

    fn xor(self, o: u32) -> (r: u32) {
        self ^ o
    }

    fn add_wrapping(self, o: u32) -> (r: u32) {
        self.wrapping_add(o)
    }

    fn mul_wrapping(self, o: u32) -> (r: u32) {
        self.wrapping_mul(o)
    }

    fn next_magic(self) -> (r: u32) {
        self.wrapping_mul(self.wrapping_add(1)).wrapping_mul(6).wrapping_add(1)
    }

    fn phase(self) -> (r: u8) {
        proof {
            Self::lemma_phase(self, self);
        }
        (self & 31) as u8
    }

    fn round_down(self) -> (r: u32) {
        self & !31u32
    }

    proof fn lemma_xor(a: u32, b: u32, c: u32) {
        assert((a ^ b) ^ c == a ^ (b ^ c) && a ^ b == b ^ a && (a ^ b) ^ b == a) by (bit_vector);
    }

    proof fn lemma_phase(s: u32, r: u32) {
        let k = Self::magic_const();
        assert(0 <= (s & 31) < 32 && (vstd::wrapping::u32_specs::wrapping_add(s, k) & 31) == ((s & 31)
            + 19) % 32 && (vstd::wrapping::u32_specs::wrapping_add(s, r & !31u32) & 31) == s & 31)
            by (bit_vector)
            requires
                k == 0x787853,
        ;
    }
}

impl RawValue for u64 {
    open spec fn magic_const() -> u64 {
        0x3000_0000_0078_7853
    }

    open spec fn seed_const() -> u64 {
        3511
    }

    open spec fn bit_xor(a: u64, b: u64) -> u64 {
        a ^ b
    }

    open spec fn wrap_add(a: u64, b: u64) -> u64 {
        vstd::wrapping::u64_specs::wrapping_add(a, b)
    }

    open spec fn wrap_mul(a: u64, b: u64) -> u64 {
        vstd::wrapping::u64_specs::wrapping_mul(a, b)
    }

    open spec fn next_magic_of(d: u64) -> u64 {
        Self::wrap_add(Self::wrap_mul(Self::wrap_mul(d, Self::wrap_add(d, 1)), 6), 1)
    }

    open spec fn less_of(a: u64, b: u64) -> bool {
        a < b
    }

    open spec fn phase_of(a: u64) -> int {
        (a & 31) as int
    }

    open spec fn round_down_of(a: u64) -> u64 {
        a & !31u64
    }

    fn magic() -> (r: u64) {
        0x3000_0000_0078_7853
    }

    fn seed() -> (r: u64) {
        3511
    }

    fn equals(self, o: u64) -> (r: bool) {
        self == o
    }

    fn less(self, o: u64) -> (r: bool) {
        self < o
    }

    fn xor(self, o: u64) -> (r: u64) {
        self ^ o
    }

    fn add_wrapping(self, o: u64) -> (r: u64) {
        self.wrapping_add(o)
    }

    fn mul_wrapping(self, o: u64) -> (r: u64) {
        self.wrapping_mul(o)
    }

    fn next_magic(self) -> (r: u64) {
        self.wrapping_mul(self.wrapping_add(1)).wrapping_mul(6).wrapping_add(1)
    }

    fn phase(self) -> (r: u8) {
        proof {
            Self::lemma_phase(self, self);
        }
        (self & 31) as u8
    }

    fn round_down(self) -> (r: u64) {
        self & !31u64
    }

    proof fn lemma_xor(a: u64, b: u64, c: u64) {
        assert((a ^ b) ^ c == a ^ (b ^ c) && a ^ b == b ^ a && (a ^ b) ^ b == a) by (bit_vector);
    }

    proof fn lemma_phase(s: u64, r: u64) {
        let k = Self::magic_const();
        assert(0 <= (s & 31) < 32 && (vstd::wrapping::u64_specs::wrapping_add(s, k) & 31) == ((s & 31)
            + 19) % 32 && (vstd::wrapping::u64_specs::wrapping_add(s, r & !31u64) & 31) == s & 31)
            by (bit_vector)
            requires
                k == 0x3000_0000_0078_7853,
        ;
    }
}

impl RawValue for u128 {
    open spec fn magic_const() -> u128 {
        0x78_7853_0000_0000_0078_7853
    }

    open spec fn seed_const() -> u128 {
        3511
    }

    open spec fn bit_xor(a: u128, b: u128) -> u128 {
        a ^ b
    }

    open spec fn wrap_add(a: u128, b: u128) -> u128 {
        vstd::wrapping::u128_specs::wrapping_add(a, b)
    }

    open spec fn wrap_mul(a: u128, b: u128) -> u128 {
        vstd::wrapping::u128_specs::wrapping_mul(a, b)
    }

    open spec fn next_magic_of(d: u128) -> u128 {
        Self::wrap_add(Self::wrap_mul(Self::wrap_mul(d, Self::wrap_add(d, 1)), 6), 1)
    }

    open spec fn less_of(a: u128, b: u128) -> bool {
        a < b
    }

    open spec fn phase_of(a: u128) -> int {
        (a & 31) as int
    }

    open spec fn round_down_of(a: u128) -> u128 {
        a & !31u128
    }

    fn magic() -> (r: u128) {
        0x78_7853_0000_0000_0078_7853
    }

    fn seed() -> (r: u128) {
        3511
    }

    fn equals(self, o: u128) -> (r: bool) {
        self == o
    }

    fn less(self, o: u128) -> (r: bool) {
        self < o
    }

    fn xor(self, o: u128) -> (r: u128) {
        self ^ o
    }

    fn add_wrapping(self, o: u128) -> (r: u128) {
        self.wrapping_add(o)
    }

    fn mul_wrapping(self, o: u128) -> (r: u128) {
        self.wrapping_mul(o)
    }

    fn next_magic(self) -> (r: u128) {
        self.wrapping_mul(self.wrapping_add(1)).wrapping_mul(6).wrapping_add(1)
    }

    fn phase(self) -> (r: u8) {
        proof {
            Self::lemma_phase(self, self);
        }
        (self & 31) as u8
    }

    fn round_down(self) -> (r: u128) {
        self & !31u128
    }

    proof fn lemma_xor(a: u128, b: u128, c: u128) {
        assert((a ^ b) ^ c == a ^ (b ^ c) && a ^ b == b ^ a && (a ^ b) ^ b == a) by (bit_vector);
    }

    proof fn lemma_phase(s: u128, r: u128) {
        let k = Self::magic_const();
        assert(0 <= (s & 31) < 32 && (vstd::wrapping::u128_specs::wrapping_add(s, k) & 31) == ((s & 31)
            + 19) % 32 && (vstd::wrapping::u128_specs::wrapping_add(s, r & !31u128) & 31) == s & 31)
            by (bit_vector)
            requires
                k == 0x78_7853_0000_0000_0078_7853,
        ;
    }
}

impl RawValue for i8 {
    open spec fn magic_const() -> i8 {
        0x53
    }

    open spec fn seed_const() -> i8 {
        -73i8
    }

    open spec fn bit_xor(a: i8, b: i8) -> i8 {
        a ^ b
    }

    open spec fn wrap_add(a: i8, b: i8) -> i8 {
        vstd::wrapping::i8_specs::wrapping_add(a, b)
    }

    open spec fn wrap_mul(a: i8, b: i8) -> i8 {
        vstd::wrapping::i8_specs::wrapping_mul(a, b)
    }

    open spec fn next_magic_of(d: i8) -> i8 {
        Self::wrap_add(Self::wrap_mul(Self::wrap_mul(d, Self::wrap_add(d, 1)), 6), 1)
    }

    open spec fn less_of(a: i8, b: i8) -> bool {
        a < b
    }

    open spec fn phase_of(a: i8) -> int {
        (a & 31) as int
    }

    open spec fn round_down_of(a: i8) -> i8 {
        a & !31i8
    }

    fn magic() -> (r: i8) {
        0x53
    }

    fn seed() -> (r: i8) {
        -73i8
    }

    fn equals(self, o: i8) -> (r: bool) {
        self == o
    }

    fn less(self, o: i8) -> (r: bool) {
        self < o
    }

    fn xor(self, o: i8) -> (r: i8) {
        self ^ o
    }

    fn add_wrapping(self, o: i8) -> (r: i8) {
        self.wrapping_add(o)
    }

    fn mul_wrapping(self, o: i8) -> (r: i8) {
        self.wrapping_mul(o)
    }

    fn next_magic(self) -> (r: i8) {
        self.wrapping_mul(self.wrapping_add(1)).wrapping_mul(6).wrapping_add(1)
    }

    fn phase(self) -> (r: u8) {
        proof {
            Self::lemma_phase(self, self);
        }
        (self & 31) as u8
    }

    fn round_down(self) -> (r: i8) {
        self & !31i8
    }

    proof fn lemma_xor(a: i8, b: i8, c: i8) {
        assert((a ^ b) ^ c == a ^ (b ^ c) && a ^ b == b ^ a && (a ^ b) ^ b == a) by (bit_vector);
    }

    proof fn lemma_phase(s: i8, r: i8) {
        let k = Self::magic_const();
        assert(0 <= (s & 31) < 32 && (vstd::wrapping::i8_specs::wrapping_add(s, k) & 31) == ((s & 31)
            + 19) % 32 && (vstd::wrapping::i8_specs::wrapping_add(s, r & !31i8) & 31) == s & 31)
            by (bit_vector)
            requires
                k == 0x53,
        ;
    }
}

impl RawValue for i16 {
    open spec fn magic_const() -> i16 {
        0x7853
    }

    open spec fn seed_const() -> i16 {
        3511
    }

    open spec fn bit_xor(a: i16, b: i16) -> i16 {
        a ^ b
    }

    open spec fn wrap_add(a: i16, b: i16) -> i16 {
        vstd::wrapping::i16_specs::wrapping_add(a, b)
    }

    open spec fn wrap_mul(a: i16, b: i16) -> i16 {
        vstd::wrapping::i16_specs::wrapping_mul(a, b)
    }

    open spec fn next_magic_of(d: i16) -> i16 {
        Self::wrap_add(Self::wrap_mul(Self::wrap_mul(d, Self::wrap_add(d, 1)), 6), 1)
    }

    open spec fn less_of(a: i16, b: i16) -> bool {
        a < b
    }

    open spec fn phase_of(a: i16) -> int {
        (a & 31) as int
    }

    open spec fn round_down_of(a: i16) -> i16 {
        a & !31i16
    }

    fn magic() -> (r: i16) {
        0x7853
    }

    fn seed() -> (r: i16) {
        3511
    }

    fn equals(self, o: i16) -> (r: bool) {
        self == o
    }

    fn less(self, o: i16) -> (r: bool) {
        self < o
    }

    fn xor(self, o: i16) -> (r: i16) {
        self ^ o
    }

    fn add_wrapping(self, o: i16) -> (r: i16) {
        self.wrapping_add(o)
    }

    fn mul_wrapping(self, o: i16) -> (r: i16) {
        self.wrapping_mul(o)
    }

    fn next_magic(self) -> (r: i16) {
        self.wrapping_mul(self.wrapping_add(1)).wrapping_mul(6).wrapping_add(1)
    }

    fn phase(self) -> (r: u8) {
        proof {
            Self::lemma_phase(self, self);
        }
        (self & 31) as u8
    }

    fn round_down(self) -> (r: i16) {
        self & !31i16
    }

    proof fn lemma_xor(a: i16, b: i16, c: i16) {
        assert((a ^ b) ^ c == a ^ (b ^ c) && a ^ b == b ^ a && (a ^ b) ^ b == a) by (bit_vector);
    }

    proof fn lemma_phase(s: i16, r: i16) {
        let k = Self::magic_const();
        assert(0 <= (s & 31) < 32 && (vstd::wrapping::i16_specs::wrapping_add(s, k) & 31) == ((s & 31)
            + 19) % 32 && (vstd::wrapping::i16_specs::wrapping_add(s, r & !31i16) & 31) == s & 31)
            by (bit_vector)
            requires
                k == 0x7853,
        ;
    }
}

impl RawValue for i32 {
    open spec fn magic_const() -> i32 {
        0x787853
    }

    open spec fn seed_const() -> i32 {
        3511
    }

    open spec fn bit_xor(a: i32, b: i32) -> i32 {
        a ^ b
    }

    open spec fn wrap_add(a: i32, b: i32) -> i32 {
        vstd::wrapping::i32_specs::wrapping_add(a, b)
    }

    open spec fn wrap_mul(a: i32, b: i32) -> i32 {
        vstd::wrapping::i32_specs::wrapping_mul(a, b)
    }

    open spec fn next_magic_of(d: i32) -> i32 {
        Self::wrap_add(Self::wrap_mul(Self::wrap_mul(d, Self::wrap_add(d, 1)), 6), 1)
    }

    open spec fn less_of(a: i32, b: i32) -> bool {
        a < b
    }

    open spec fn phase_of(a: i32) -> int {
        (a & 31) as int
    }

    open spec fn round_down_of(a: i32) -> i32 {
        a & !31i32
    }

    fn magic() -> (r: i32) {
        0x787853
    }

    fn seed() -> (r: i32) {
        3511
    }

    fn equals(self, o: i32) -> (r: bool) {
        self == o
    }

    fn less(self, o: i32) -> (r: bool) {
        self < o
    }

    fn xor(self, o: i32) -> (r: i32) {
        self ^ o
    }

    fn add_wrapping(self, o: i32) -> (r: i32) {
        self.wrapping_add(o)
    }

    fn mul_wrapping(self, o: i32) -> (r: i32) {
        self.wrapping_mul(o)
    }

    fn next_magic(self) -> (r: i32) {
        self.wrapping_mul(self.wrapping_add(1)).wrapping_mul(6).wrapping_add(1)
    }

    fn phase(self) -> (r: u8) {
        proof {
            Self::lemma_phase(self, self);
        }
        (self & 31) as u8
    }

    fn round_down(self) -> (r: i32) {
        self & !31i32
    }

    proof fn lemma_xor(a: i32, b: i32, c: i32) {
        assert((a ^ b) ^ c == a ^ (b ^ c) && a ^ b == b ^ a && (a ^ b) ^ b == a) by (bit_vector);
    }

    proof fn lemma_phase(s: i32, r: i32) {
        let k = Self::magic_const();
        assert(0 <= (s & 31) < 32 && (vstd::wrapping::i32_specs::wrapping_add(s, k) & 31) == ((s & 31)
            + 19) % 32 && (vstd::wrapping::i32_specs::wrapping_add(s, r & !31i32) & 31) == s & 31)
            by (bit_vector)
            requires
                k == 0x787853,
        ;
    }
}

impl RawValue for i64 {
    open spec fn magic_const() -> i64 {
        0x3000_0000_0078_7853
    }

    open spec fn seed_const() -> i64 {
        3511
    }

    open spec fn bit_xor(a: i64, b: i64) -> i64 {
        a ^ b
    }

    open spec fn wrap_add(a: i64, b: i64) -> i64 {
        vstd::wrapping::i64_specs::wrapping_add(a, b)
    }

    open spec fn wrap_mul(a: i64, b: i64) -> i64 {
        vstd::wrapping::i64_specs::wrapping_mul(a, b)
    }

    open spec fn next_magic_of(d: i64) -> i64 {
        Self::wrap_add(Self::wrap_mul(Self::wrap_mul(d, Self::wrap_add(d, 1)), 6), 1)
    }

    open spec fn less_of(a: i64, b: i64) -> bool {
        a < b
    }

    open spec fn phase_of(a: i64) -> int {
        (a & 31) as int
    }

    open spec fn round_down_of(a: i64) -> i64 {
        a & !31i64
    }

    fn magic() -> (r: i64) {
        0x3000_0000_0078_7853
    }

    fn seed() -> (r: i64) {
        3511
    }

    fn equals(self, o: i64) -> (r: bool) {
        self == o
    }

    fn less(self, o: i64) -> (r: bool) {
        self < o
    }

    fn xor(self, o: i64) -> (r: i64) {
        self ^ o
    }

    fn add_wrapping(self, o: i64) -> (r: i64) {
        self.wrapping_add(o)
    }

    fn mul_wrapping(self, o: i64) -> (r: i64) {
        self.wrapping_mul(o)
    }

    fn next_magic(self) -> (r: i64) {
        self.wrapping_mul(self.wrapping_add(1)).wrapping_mul(6).wrapping_add(1)
    }

    fn phase(self) -> (r: u8) {
        proof {
            Self::lemma_phase(self, self);
        }
        (self & 31) as u8
    }

    fn round_down(self) -> (r: i64) {
        self & !31i64
    }

    proof fn lemma_xor(a: i64, b: i64, c: i64) {
        assert((a ^ b) ^ c == a ^ (b ^ c) && a ^ b == b ^ a && (a ^ b) ^ b == a) by (bit_vector);
    }

    proof fn lemma_phase(s: i64, r: i64) {
        let k = Self::magic_const();
        assert(0 <= (s & 31) < 32 && (vstd::wrapping::i64_specs::wrapping_add(s, k) & 31) == ((s & 31)
            + 19) % 32 && (vstd::wrapping::i64_specs::wrapping_add(s, r & !31i64) & 31) == s & 31)
            by (bit_vector)
            requires
                k == 0x3000_0000_0078_7853,
        ;
    }
}

impl RawValue for i128 {
    open spec fn magic_const() -> i128 {
        0x78_7853_0000_0000_0078_7853
    }

    open spec fn seed_const() -> i128 {
        3511
    }

    open spec fn bit_xor(a: i128, b: i128) -> i128 {
        a ^ b
    }

    open spec fn wrap_add(a: i128, b: i128) -> i128 {
        vstd::wrapping::i128_specs::wrapping_add(a, b)
    }

    open spec fn wrap_mul(a: i128, b: i128) -> i128 {
        vstd::wrapping::i128_specs::wrapping_mul(a, b)
    }

    open spec fn next_magic_of(d: i128) -> i128 {
        Self::wrap_add(Self::wrap_mul(Self::wrap_mul(d, Self::wrap_add(d, 1)), 6), 1)
    }

    open spec fn less_of(a: i128, b: i128) -> bool {
        a < b
    }

    open spec fn phase_of(a: i128) -> int {
        (a & 31) as int
    }

    open spec fn round_down_of(a: i128) -> i128 {
        a & !31i128
    }

    fn magic() -> (r: i128) {
        0x78_7853_0000_0000_0078_7853
    }

    fn seed() -> (r: i128) {
        3511
    }

    fn equals(self, o: i128) -> (r: bool) {
        self == o
    }

    fn less(self, o: i128) -> (r: bool) {
        self < o
    }

    fn xor(self, o: i128) -> (r: i128) {
        self ^ o
    }

    fn add_wrapping(self, o: i128) -> (r: i128) {
        self.wrapping_add(o)
    }

    fn mul_wrapping(self, o: i128) -> (r: i128) {
        self.wrapping_mul(o)
    }

    fn next_magic(self) -> (r: i128) {
        self.wrapping_mul(self.wrapping_add(1)).wrapping_mul(6).wrapping_add(1)
    }

    fn phase(self) -> (r: u8) {
        proof {
            Self::lemma_phase(self, self);
        }
        (self & 31) as u8
    }

    fn round_down(self) -> (r: i128) {
        self & !31i128
    }

    proof fn lemma_xor(a: i128, b: i128, c: i128) {
        assert((a ^ b) ^ c == a ^ (b ^ c) && a ^ b == b ^ a && (a ^ b) ^ b == a) by (bit_vector);
    }

    proof fn lemma_phase(s: i128, r: i128) {
        let k = Self::magic_const();
        assert(0 <= (s & 31) < 32 && (vstd::wrapping::i128_specs::wrapping_add(s, k) & 31) == ((s & 31)
            + 19) % 32 && (vstd::wrapping::i128_specs::wrapping_add(s, r & !31i128) & 31) == s & 31)
            by (bit_vector)
            requires
                k == 0x78_7853_0000_0000_0078_7853,
        ;
    }
}

impl RawValue for usize {
    open spec fn magic_const() -> usize {
        (0x3000_0000_0078_7853u64 as usize)
    }

    open spec fn seed_const() -> usize {
        3511
    }

    open spec fn bit_xor(a: usize, b: usize) -> usize {
        a ^ b
    }

    open spec fn wrap_add(a: usize, b: usize) -> usize {
        (a + b) as usize
    }

    open spec fn wrap_mul(a: usize, b: usize) -> usize {
        (a * b) as usize
    }

    open spec fn next_magic_of(d: usize) -> usize {
        Self::wrap_add(Self::wrap_mul(Self::wrap_mul(d, Self::wrap_add(d, 1)), 6), 1)
    }

    open spec fn less_of(a: usize, b: usize) -> bool {
        a < b
    }

    open spec fn phase_of(a: usize) -> int {
        (a & 31) as int
    }

    open spec fn round_down_of(a: usize) -> usize {
        a & !31usize
    }

    fn magic() -> (r: usize) {
        (0x3000_0000_0078_7853u64 as usize)
    }

    fn seed() -> (r: usize) {
        3511
    }

    fn equals(self, o: usize) -> (r: bool) {
        self == o
    }

    fn less(self, o: usize) -> (r: bool) {
        self < o
    }

    fn xor(self, o: usize) -> (r: usize) {
        self ^ o
    }

    fn add_wrapping(self, o: usize) -> (r: usize) {
        #[verifier::truncate]
        ((self as u128 + o as u128) as usize)
    }

    fn mul_wrapping(self, o: usize) -> (r: usize) {
        proof {
            let (a, b) = (self as int, o as int);
            assert(a * b <= 0xffff_ffff_ffff_ffff * 0xffff_ffff_ffff_ffff) by (nonlinear_arith)
                requires
                    0 <= a <= 0xffff_ffff_ffff_ffff,
                    0 <= b <= 0xffff_ffff_ffff_ffff,
            ;
        }
        #[verifier::truncate]
        ((self as u128 * o as u128) as usize)
    }

    fn next_magic(self) -> (r: usize) {
        self.mul_wrapping(self.add_wrapping(1)).mul_wrapping(6).add_wrapping(1)
    }

    fn phase(self) -> (r: u8) {
        proof {
            Self::lemma_phase(self, self);
        }
        (self & 31) as u8
    }

    fn round_down(self) -> (r: usize) {
        self & !31usize
    }

    proof fn lemma_xor(a: usize, b: usize, c: usize) {
        assert((a ^ b) ^ c == a ^ (b ^ c) && a ^ b == b ^ a && (a ^ b) ^ b == a) by (bit_vector);
    }

    proof fn lemma_phase(s: usize, r: usize) {
        let k = Self::magic_const();
        assert(0 <= (s & 31) < 32 && (((s + k) as usize) & 31) == ((s & 31)
            + 19) % 32 && (((s + (r & !31usize)) as usize) & 31) == s & 31)
            by (bit_vector)
            requires
                k == (0x3000_0000_0078_7853u64 as usize),
        ;
    }
}

impl RawValue for isize {
    open spec fn magic_const() -> isize {
        (0x3000_0000_0078_7853u64 as isize)
    }

    open spec fn seed_const() -> isize {
        3511
    }

    open spec fn bit_xor(a: isize, b: isize) -> isize {
        a ^ b
    }

    open spec fn wrap_add(a: isize, b: isize) -> isize {
        (a + b) as isize
    }

    open spec fn wrap_mul(a: isize, b: isize) -> isize {
        (a * b) as isize
    }

    open spec fn next_magic_of(d: isize) -> isize {
        Self::wrap_add(Self::wrap_mul(Self::wrap_mul(d, Self::wrap_add(d, 1)), 6), 1)
    }

    open spec fn less_of(a: isize, b: isize) -> bool {
        a < b
    }

    open spec fn phase_of(a: isize) -> int {
        (a & 31) as int
    }

    open spec fn round_down_of(a: isize) -> isize {
        a & !31isize
    }

    fn magic() -> (r: isize) {
        (0x3000_0000_0078_7853u64 as isize)
    }

    fn seed() -> (r: isize) {
        3511
    }

    fn equals(self, o: isize) -> (r: bool) {
        self == o
    }

    fn less(self, o: isize) -> (r: bool) {
        self < o
    }

    fn xor(self, o: isize) -> (r: isize) {
        self ^ o
    }

    fn add_wrapping(self, o: isize) -> (r: isize) {
        #[verifier::truncate]
        ((self as i128 + o as i128) as isize)
    }

    fn mul_wrapping(self, o: isize) -> (r: isize) {
        proof {
            let (a, b) = (self as int, o as int);
            let m = 0x8000_0000_0000_0000int;
            assert(-m * m <= a * b <= m * m) by (nonlinear_arith)
                requires
                    -m <= a <= m,
                    -m <= b <= m,
            ;
        }
        #[verifier::truncate]
        ((self as i128 * o as i128) as isize)
    }

    fn next_magic(self) -> (r: isize) {
        self.mul_wrapping(self.add_wrapping(1)).mul_wrapping(6).add_wrapping(1)
    }

    fn phase(self) -> (r: u8) {
        proof {
            Self::lemma_phase(self, self);
        }
        (self & 31) as u8
    }

    fn round_down(self) -> (r: isize) {
        self & !31isize
    }

    proof fn lemma_xor(a: isize, b: isize, c: isize) {
        assert((a ^ b) ^ c == a ^ (b ^ c) && a ^ b == b ^ a && (a ^ b) ^ b == a) by (bit_vector);
    }

    proof fn lemma_phase(s: isize, r: isize) {
        let k = Self::magic_const();
        assert(0 <= (s & 31) < 32 && (((s + k) as isize) & 31) == ((s & 31)
            + 19) % 32 && (((s + (r & !31isize)) as isize) & 31) == s & 31)
            by (bit_vector)
            requires
                k == (0x3000_0000_0078_7853u64 as isize),
        ;
    }
}


} // verus!
