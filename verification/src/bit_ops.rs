use vstd::prelude::*;

verus! {

/// Single-bit queries and updates on unsigned integers.
///
/// Bit `n` is the bit of weight `2^n`; `n` must be smaller than the width
/// of the type (a larger shift would overflow).
pub trait BitOps: Sized {
    /// Number of bits of the type.
    spec fn width() -> nat;

    /// Whether bit `n` of `self` is set.
    spec fn is_set(self, n: nat) -> bool;

    fn bit(self, bit: u8) -> (r: bool)
        requires
            (bit as nat) < Self::width(),
        ensures
            r == self.is_set(bit as nat),
    ;

    fn reset_bit(self, bit: u8) -> (r: Self)
        requires
            (bit as nat) < Self::width(),
        ensures
            !r.is_set(bit as nat),
            forall|i: nat| i < Self::width() && i != bit ==> r.is_set(i) == self.is_set(i),
    ;

    fn set_bit(self, bit: u8) -> (r: Self)
        requires
            (bit as nat) < Self::width(),
        ensures
            r.is_set(bit as nat),
            forall|i: nat| i < Self::width() && i != bit ==> r.is_set(i) == self.is_set(i),
    ;
}

/// Bit `n` of a byte.
pub open spec fn u8_bit(x: u8, n: nat) -> bool {
    (x >> n) & 1u8 == 1u8
}

/// Bit `n` of a 16-bit word.
pub open spec fn u16_bit(x: u16, n: nat) -> bool {
    (x >> n) & 1u16 == 1u16
}

pub proof fn lemma_u8_reset(x: u8, b: u8, i: u8)
    requires
        b < 8,
        i < 8,
    ensures
        !u8_bit(x & !(1u8 << b), b as nat),
        i != b ==> u8_bit(x & !(1u8 << b), i as nat) == u8_bit(x, i as nat),
{
    assert(((x & !(1u8 << b)) >> b) & 1u8 != 1u8 && (i != b ==> ((((x & !(1u8 << b)) >> i) & 1u8 == 1u8) == (((x >> i) & 1u8) == 1u8)))) by (bit_vector)
        requires
            b < 8,
            i < 8,
    ;
}

pub proof fn lemma_u8_set(x: u8, b: u8, i: u8)
    requires
        b < 8,
        i < 8,
    ensures
        u8_bit(x | (1u8 << b), b as nat),
        i != b ==> u8_bit(x | (1u8 << b), i as nat) == u8_bit(x, i as nat),
{
    assert(((x | (1u8 << b)) >> b) & 1u8 == 1u8 && (i != b ==> ((((x | (1u8 << b)) >> i) & 1u8 == 1u8) == (((x >> i) & 1u8) == 1u8)))) by (bit_vector)
        requires
            b < 8,
            i < 8,
    ;
}

proof fn lemma_u16_reset(x: u16, b: u16, i: u16)
    requires
        b < 16,
        i < 16,
    ensures
        !u16_bit(x & !(1u16 << b), b as nat),
        i != b ==> u16_bit(x & !(1u16 << b), i as nat) == u16_bit(x, i as nat),
{
    assert(((x & !(1u16 << b)) >> b) & 1u16 != 1u16 && (i != b ==> ((((x & !(1u16 << b)) >> i) & 1u16 == 1u16) == (((x >> i) & 1u16) == 1u16)))) by (bit_vector)
        requires
            b < 16,
            i < 16,
    ;
}

proof fn lemma_u16_set(x: u16, b: u16, i: u16)
    requires
        b < 16,
        i < 16,
    ensures
        u16_bit(x | (1u16 << b), b as nat),
        i != b ==> u16_bit(x | (1u16 << b), i as nat) == u16_bit(x, i as nat),
{
    assert(((x | (1u16 << b)) >> b) & 1u16 == 1u16 && (i != b ==> ((((x | (1u16 << b)) >> i) & 1u16 == 1u16) == (((x >> i) & 1u16) == 1u16)))) by (bit_vector)
        requires
            b < 16,
            i < 16,
    ;
}

impl BitOps for u8 {
    open spec fn width() -> nat {
        8
    }

    open spec fn is_set(self, n: nat) -> bool {
        u8_bit(self, n)
    }

    fn bit(self, bit: u8) -> (r: bool) {
        let x = self;
        assert(((x >> bit) & 1u8 != 0u8) == ((x >> bit) & 1u8 == 1u8)) by (bit_vector);
        (self >> bit) & 1 != 0
    }

    fn reset_bit(self, bit: u8) -> (r: u8) {
        proof {
            assert forall|i: nat| i < 8 && i != bit implies u8_bit(self & !(1u8 << bit), i)
                == u8_bit(self, i) by {
                lemma_u8_reset(self, bit, i as u8);
            }
            lemma_u8_reset(self, bit, 0);
        }
        self & !(1u8 << bit)
    }

    fn set_bit(self, bit: u8) -> (r: u8) {
        proof {
            assert forall|i: nat| i < 8 && i != bit implies u8_bit(self | (1u8 << bit), i)
                == u8_bit(self, i) by {
                lemma_u8_set(self, bit, i as u8);
            }
            lemma_u8_set(self, bit, 0);
        }
        self | (1u8 << bit)
    }
}

impl BitOps for u16 {
    open spec fn width() -> nat {
        16
    }

    open spec fn is_set(self, n: nat) -> bool {
        u16_bit(self, n)
    }

    fn bit(self, bit: u8) -> (r: bool) {
        let x = self;
        let b = bit as u16;
        assert(((x >> b) & 1u16 != 0u16) == ((x >> b) & 1u16 == 1u16)) by (bit_vector);
        (self >> bit) & 1 != 0
    }

    fn reset_bit(self, bit: u8) -> (r: u16) {
        proof {
            assert forall|i: nat| i < 16 && i != bit implies u16_bit(self & !(1u16 << bit), i)
                == u16_bit(self, i) by {
                lemma_u16_reset(self, bit as u16, i as u16);
            }
            lemma_u16_reset(self, bit as u16, 0);
        }
        self & !(1u16 << bit)
    }

    fn set_bit(self, bit: u8) -> (r: u16) {
        proof {
            assert forall|i: nat| i < 16 && i != bit implies u16_bit(self | (1u16 << bit), i)
                == u16_bit(self, i) by {
                lemma_u16_set(self, bit as u16, i as u16);
            }
            lemma_u16_set(self, bit as u16, 0);
        }
        self | (1u16 << bit)
    }
}

/// Reading a single bit of a byte (the older, byte-only interface).
pub trait Bit: Sized {
    spec fn is_bit_set(self, n: nat) -> bool;

    fn bit(self, n: u8) -> (r: bool)
        requires
            n < 8,
        ensures
            r == self.is_bit_set(n as nat),
    ;
}

impl Bit for u8 {
    open spec fn is_bit_set(self, n: nat) -> bool {
        u8_bit(self, n)
    }

    fn bit(self, n: u8) -> (r: bool) {
        let x = self;
        assert(((x >> n) & 1u8 != 0u8) == ((x >> n) & 1u8 == 1u8)) by (bit_vector);
        (self >> n) & 0b1 != 0
    }
}

} // verus!
