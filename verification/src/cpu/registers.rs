use vstd::prelude::*;

verus! {

/// One of the four condition flags held in the upper nibble of register F.
#[derive(Copy, Clone, Debug, PartialEq, Eq, Structural)]
pub enum Flag {
    /// Zero flag (bit 7)
    Z,
    /// Subtract flag (bit 6)
    N,
    /// Half carry flag (bit 5)
    H,
    /// Carry flag (bit 4)
    C,
}

impl Flag {
    pub open spec fn mask(self) -> u8 {
        match self {
            Flag::Z => 0b1000_0000u8,
            Flag::N => 0b0100_0000u8,
            Flag::H => 0b0010_0000u8,
            Flag::C => 0b0001_0000u8,
        }
    }

    pub fn mask_of(self) -> (r: u8)
        ensures
            r == self.mask(),
    {
        match self {
            Flag::Z => 0b1000_0000u8,
            Flag::N => 0b0100_0000u8,
            Flag::H => 0b0010_0000u8,
            Flag::C => 0b0001_0000u8,
        }
    }
}

/// The flag register F. Any byte can be stored (POP AF writes it whole),
/// the flags themselves live in the upper nibble.
#[derive(Copy, Clone, Debug, PartialEq, Eq, Structural)]
pub struct Flags(pub u8);

proof fn lemma_flag_update(f: u8, m: u8, g: u8)
    requires
        m == 0x80 || m == 0x40 || m == 0x20 || m == 0x10,
        g == 0x80 || g == 0x40 || g == 0x20 || g == 0x10,
    ensures
        (f | m) & m != 0,
        (f & !m) & m == 0,
        ((f ^ m) & m != 0) == (f & m == 0),
        g != m ==> (((f | m) & g != 0) == (f & g != 0)),
        g != m ==> (((f & !m) & g != 0) == (f & g != 0)),
        g != m ==> (((f ^ m) & g != 0) == (f & g != 0)),
        (f | m) & 0x0f == f & 0x0f,
        (f & !m) & 0x0f == f & 0x0f,
        (f ^ m) & 0x0f == f & 0x0f,
{
    assert({
        &&& (f | m) & m != 0
        &&& (f & !m) & m == 0
        &&& ((f ^ m) & m != 0) == (f & m == 0)
        &&& g != m ==> (((f | m) & g != 0) == (f & g != 0))
        &&& g != m ==> (((f & !m) & g != 0) == (f & g != 0))
        &&& g != m ==> (((f ^ m) & g != 0) == (f & g != 0))
        &&& (f | m) & 0x0f == f & 0x0f
        &&& (f & !m) & 0x0f == f & 0x0f
        &&& (f ^ m) & 0x0f == f & 0x0f
    }) by (bit_vector)
        requires
            m == 0x80 || m == 0x40 || m == 0x20 || m == 0x10,
            g == 0x80 || g == 0x40 || g == 0x20 || g == 0x10,
    ;
}

impl Flags {
    /// Whether `flag` is set.
    pub open spec fn get(self, flag: Flag) -> bool {
        self.0 & flag.mask() != 0
    }

    /// The lower nibble of F, which holds no flag.
    pub open spec fn low(self) -> u8 {
        self.0 & 0x0f
    }

    /// `self` and `other` agree on every flag but `flag`, and on the lower nibble.
    pub open spec fn same_except(self, other: Flags, flag: Flag) -> bool {
        &&& forall|g: Flag| g != flag ==> #[trigger] self.get(g) == other.get(g)
        &&& self.low() == other.low()
    }

    pub fn new() -> (r: Flags)
        ensures
            r.0 == 0,
    {
        Flags(0)
    }

    pub fn bits(&self) -> (r: u8)
        ensures
            r == self.0,
    {
        self.0
    }

    pub fn contains(&self, flag: Flag) -> (r: bool)
        ensures
            r == self.get(flag),
    {
        self.0 & flag.mask_of() != 0
    }

    pub fn set(&mut self, flag: Flag, value: bool)
        ensures
            final(self).get(flag) == value,
            final(self).same_except(*old(self), flag),
    {
        if value {
            self.insert(flag);
        } else {
            self.remove(flag);
        }
    }

    pub fn insert(&mut self, flag: Flag)
        ensures
            final(self).get(flag),
            final(self).same_except(*old(self), flag),
    {
        let m = flag.mask_of();
        let f = self.0;
        proof {
            assert forall|g: Flag| g != flag implies ((f | m) & #[trigger] g.mask() != 0) == (f
                & g.mask() != 0) by {
                lemma_flag_update(f, m, g.mask());
            }
            lemma_flag_update(f, m, m);
        }
        self.0 = f | m;
    }

    pub fn remove(&mut self, flag: Flag)
        ensures
            !final(self).get(flag),
            final(self).same_except(*old(self), flag),
    {
        let m = flag.mask_of();
        let f = self.0;
        proof {
            assert forall|g: Flag| g != flag implies ((f & !m) & #[trigger] g.mask() != 0) == (f
                & g.mask() != 0) by {
                lemma_flag_update(f, m, g.mask());
            }
            lemma_flag_update(f, m, m);
        }
        self.0 = f & !m;
    }

    pub fn toggle(&mut self, flag: Flag)
        ensures
            final(self).get(flag) == !old(self).get(flag),
            final(self).same_except(*old(self), flag),
    {
        let m = flag.mask_of();
        let f = self.0;
        proof {
            assert forall|g: Flag| g != flag implies ((f ^ m) & #[trigger] g.mask() != 0) == (f
                & g.mask() != 0) by {
                lemma_flag_update(f, m, g.mask());
            }
            lemma_flag_update(f, m, m);
        }
        self.0 = f ^ m;
    }
}

/// 8-bit registers. F is reached through the flags.
#[derive(Copy, Clone, Debug, PartialEq, Eq, Structural)]
pub enum R8 {
    A,
    B,
    C,
    D,
    E,
    H,
    L,
}

/// 16-bit registers: the pairs AF, BC, DE, HL (high byte first) and SP, PC.
#[derive(Copy, Clone, Debug, PartialEq, Eq, Structural)]
pub enum R16 {
    AF,
    BC,
    DE,
    HL,
    SP,
    PC,
}

/// The register file of the CPU.
#[derive(Copy, Clone, Debug, PartialEq, Eq, Structural)]
pub struct Registers {
    pub a: u8,
    pub f: Flags,
    pub b: u8,
    pub c: u8,
    pub d: u8,
    pub e: u8,
    pub h: u8,
    pub l: u8,
    pub sp: u16,
    pub pc: u16,
}

/// A 16-bit word made of a high and a low byte.
pub open spec fn word(hi: u8, lo: u8) -> u16 {
    (hi as nat * 256 + lo as nat) as u16
}

pub open spec fn hi_byte(v: u16) -> u8 {
    (v / 256) as u8
}

pub open spec fn lo_byte(v: u16) -> u8 {
    (v % 256) as u8
}

pub fn split_word(v: u16) -> (r: (u8, u8))
    ensures
        r.0 == hi_byte(v),
        r.1 == lo_byte(v),
        word(r.0, r.1) == v,
{
    assert(v >> 8u16 == v / 256 && v & 0xffu16 == v % 256) by (bit_vector);
    ((v >> 8) as u8, (v & 0xff) as u8)
}

pub fn make_word(hi: u8, lo: u8) -> (r: u16)
    ensures
        r == word(hi, lo),
{
    (hi as u16) * 256 + (lo as u16)
}

impl Registers {
    pub open spec fn get8(self, r: R8) -> u8 {
        match r {
            R8::A => self.a,
            R8::B => self.b,
            R8::C => self.c,
            R8::D => self.d,
            R8::E => self.e,
            R8::H => self.h,
            R8::L => self.l,
        }
    }

    pub open spec fn with8(self, r: R8, v: u8) -> Registers {
        match r {
            R8::A => Registers { a: v, ..self },
            R8::B => Registers { b: v, ..self },
            R8::C => Registers { c: v, ..self },
            R8::D => Registers { d: v, ..self },
            R8::E => Registers { e: v, ..self },
            R8::H => Registers { h: v, ..self },
            R8::L => Registers { l: v, ..self },
        }
    }

    pub open spec fn get16(self, rr: R16) -> u16 {
        match rr {
            R16::AF => word(self.a, self.f.0),
            R16::BC => word(self.b, self.c),
            R16::DE => word(self.d, self.e),
            R16::HL => word(self.h, self.l),
            R16::SP => self.sp,
            R16::PC => self.pc,
        }
    }

    pub open spec fn with16(self, rr: R16, v: u16) -> Registers {
        match rr {
            R16::AF => Registers { a: hi_byte(v), f: Flags(lo_byte(v)), ..self },
            R16::BC => Registers { b: hi_byte(v), c: lo_byte(v), ..self },
            R16::DE => Registers { d: hi_byte(v), e: lo_byte(v), ..self },
            R16::HL => Registers { h: hi_byte(v), l: lo_byte(v), ..self },
            R16::SP => Registers { sp: v, ..self },
            R16::PC => Registers { pc: v, ..self },
        }
    }

    /// The register file with every register cleared.
    pub open spec fn all_zero() -> Registers {
        Registers { a: 0, f: Flags(0), b: 0, c: 0, d: 0, e: 0, h: 0, l: 0, sp: 0, pc: 0 }
    }

    /// All registers are zero at power-on.
    pub fn new() -> (r: Registers)
        ensures
            r == Registers::all_zero(),
            forall|x: R16| #[trigger] r.get16(x) == 0,
            forall|x: R8| #[trigger] r.get8(x) == 0,
    {
        Registers { a: 0, f: Flags(0), b: 0, c: 0, d: 0, e: 0, h: 0, l: 0, sp: 0, pc: 0 }
    }

    pub fn r8(&self, r: R8) -> (v: u8)
        ensures
            v == self.get8(r),
    {
        match r {
            R8::A => self.a,
            R8::B => self.b,
            R8::C => self.c,
            R8::D => self.d,
            R8::E => self.e,
            R8::H => self.h,
            R8::L => self.l,
        }
    }

    pub fn set_r8(&mut self, r: R8, v: u8)
        ensures
            *final(self) == old(self).with8(r, v),
    {
        match r {
            R8::A => self.a = v,
            R8::B => self.b = v,
            R8::C => self.c = v,
            R8::D => self.d = v,
            R8::E => self.e = v,
            R8::H => self.h = v,
            R8::L => self.l = v,
        }
    }

    pub fn r16(&self, rr: R16) -> (v: u16)
        ensures
            v == self.get16(rr),
    {
        match rr {
            R16::AF => make_word(self.a, self.f.0),
            R16::BC => make_word(self.b, self.c),
            R16::DE => make_word(self.d, self.e),
            R16::HL => make_word(self.h, self.l),
            R16::SP => self.sp,
            R16::PC => self.pc,
        }
    }

    pub fn set_r16(&mut self, rr: R16, v: u16)
        ensures
            *final(self) == old(self).with16(rr, v),
            final(self).get16(rr) == v,
    {
        let (hi, lo) = split_word(v);
        match rr {
            R16::AF => {
                self.a = hi;
                self.f = Flags(lo);
            },
            R16::BC => {
                self.b = hi;
                self.c = lo;
            },
            R16::DE => {
                self.d = hi;
                self.e = lo;
            },
            R16::HL => {
                self.h = hi;
                self.l = lo;
            },
            R16::SP => self.sp = v,
            R16::PC => self.pc = v,
        }
    }

    pub fn flags(&self) -> (r: &Flags)
        ensures
            *r == self.f,
    {
        &self.f
    }

    pub fn hl(&self) -> (v: u16)
        ensures
            v == self.get16(R16::HL),
    {
        make_word(self.h, self.l)
    }

    pub fn set_hl(&mut self, v: u16)
        ensures
            *final(self) == old(self).with16(R16::HL, v),
    {
        self.set_r16(R16::HL, v);
    }

    pub fn sp(&self) -> (v: u16)
        ensures
            v == self.sp,
    {
        self.sp
    }

    pub fn pc(&self) -> (v: u16)
        ensures
            v == self.pc,
    {
        self.pc
    }
}

/// Writing a register pair and reading it back gives the written word, and
/// the pair always reads as its high register followed by its low register.
pub proof fn law_register_pair_roundtrip(regs: Registers, rr: R16, v: u16)
    ensures
        regs.with16(rr, v).get16(rr) == v,
        regs.get16(R16::BC) == word(regs.get8(R8::B), regs.get8(R8::C)),
        regs.get16(R16::DE) == word(regs.get8(R8::D), regs.get8(R8::E)),
        regs.get16(R16::HL) == word(regs.get8(R8::H), regs.get8(R8::L)),
        regs.get16(R16::AF) == word(regs.get8(R8::A), regs.f.0),
{
}

} // verus!
