use vstd::prelude::*;

verus! {

/// The five interrupt sources, by priority (VBlank first). Their bit in
/// IF and IE is given by `mask`.
#[derive(Copy, Clone, Debug, PartialEq, Eq, Structural)]
pub enum Interrupt {
    VBlank,
    LcdStat,
    Timer,
    Serial,
    Joypad,
}

impl Interrupt {
    pub open spec fn mask(self) -> u8 {
        match self {
            Interrupt::VBlank => 0b0000_0001u8,
            Interrupt::LcdStat => 0b0000_0010u8,
            Interrupt::Timer => 0b0000_0100u8,
            Interrupt::Serial => 0b0000_1000u8,
            Interrupt::Joypad => 0b0001_0000u8,
        }
    }

    pub fn bit_mask(self) -> (r: u8)
        ensures
            r == self.mask(),
    {
        match self {
            Interrupt::VBlank => 0b0000_0001u8,
            Interrupt::LcdStat => 0b0000_0010u8,
            Interrupt::Timer => 0b0000_0100u8,
            Interrupt::Serial => 0b0000_1000u8,
            Interrupt::Joypad => 0b0001_0000u8,
        }
    }

    /// The address of the interrupt handler.
    pub open spec fn handler(self) -> u16 {
        match self {
            Interrupt::VBlank => 0x40u16,
            Interrupt::LcdStat => 0x48u16,
            Interrupt::Timer => 0x50u16,
            Interrupt::Serial => 0x58u16,
            Interrupt::Joypad => 0x60u16,
        }
    }
}

/// The interrupt request (IF, 0xFF0F) and interrupt enable (IE, 0xFFFF) registers.
#[derive(Copy, Clone, Debug, PartialEq, Eq, Structural)]
pub struct InterruptSystem {
    pub if_reg: u8,
    pub ie_reg: u8,
}

/// The interrupt of highest priority whose bit is set in `pending`.
pub open spec fn highest_priority(pending: u8) -> Option<Interrupt> {
    if pending & 0x01 != 0 {
        Some(Interrupt::VBlank)
    } else if pending & 0x02 != 0 {
        Some(Interrupt::LcdStat)
    } else if pending & 0x04 != 0 {
        Some(Interrupt::Timer)
    } else if pending & 0x08 != 0 {
        Some(Interrupt::Serial)
    } else if pending & 0x10 != 0 {
        Some(Interrupt::Joypad)
    } else {
        None
    }
}

impl InterruptSystem {
    /// Interrupts that are both requested and enabled.
    pub open spec fn pending(self) -> u8 {
        self.if_reg & self.ie_reg & 0x1f
    }

    pub open spec fn scheduled(self, ir: Interrupt) -> InterruptSystem {
        InterruptSystem { if_reg: self.if_reg | ir.mask(), ..self }
    }

    pub fn new() -> (r: InterruptSystem)
        ensures
            r.if_reg == 0,
            r.ie_reg == 0,
    {
        InterruptSystem { if_reg: 0, ie_reg: 0 }
    }

    pub fn read_if(&self) -> (r: u8)
        ensures
            r == self.if_reg,
    {
        self.if_reg
    }

    pub fn write_if(&mut self, val: u8)
        ensures
            *final(self) == (InterruptSystem { if_reg: val, ..*old(self) }),
    {
        self.if_reg = val;
    }

    pub fn read_ie(&self) -> (r: u8)
        ensures
            r == self.ie_reg,
    {
        self.ie_reg
    }

    pub fn write_ie(&mut self, val: u8)
        ensures
            *final(self) == (InterruptSystem { ie_reg: val, ..*old(self) }),
    {
        self.ie_reg = val;
    }

    /// Requests `ir` by setting its bit in IF.
    pub fn schedule_interrupt(&mut self, ir: Interrupt)
        ensures
            *final(self) == old(self).scheduled(ir),
    {
        self.if_reg = self.if_reg | ir.bit_mask();
    }

    /// The requested and enabled interrupt of highest priority, if any.
    pub fn query_interrupt_request(&self) -> (r: Option<Interrupt>)
        ensures
            r == highest_priority(self.pending()),
            r is None <==> self.pending() == 0,
    {
        let f = self.if_reg;
        let e = self.ie_reg;
        let pending = f & e & 0x1f;
        assert(pending == 0 <==> (pending & 0x01 == 0 && pending & 0x02 == 0 && pending & 0x04 == 0
            && pending & 0x08 == 0 && pending & 0x10 == 0)) by (bit_vector)
            requires
                pending == f & e & 0x1f,
        ;
        if pending & 0x01 != 0 {
            Some(Interrupt::VBlank)
        } else if pending & 0x02 != 0 {
            Some(Interrupt::LcdStat)
        } else if pending & 0x04 != 0 {
            Some(Interrupt::Timer)
        } else if pending & 0x08 != 0 {
            Some(Interrupt::Serial)
        } else if pending & 0x10 != 0 {
            Some(Interrupt::Joypad)
        } else {
            None
        }
    }
}

/// A requested interrupt is only reported when it is enabled, and the one
/// reported is requested, enabled, and of highest priority among those.
pub proof fn law_interrupt_priority(irs: InterruptSystem)
    ensures
        highest_priority(irs.pending()) matches Some(ir) ==> (irs.if_reg & ir.mask() != 0
            && irs.ie_reg & ir.mask() != 0),
        irs.ie_reg == 0 ==> highest_priority(irs.pending()) is None,
        irs.pending() & 1 != 0 ==> highest_priority(irs.pending()) == Some(Interrupt::VBlank),
        highest_priority(irs.pending()) is None <==> irs.pending() == 0,
{
    let f = irs.if_reg;
    let e = irs.ie_reg;
    assert(forall|m: u8|
        (m == 1 || m == 2 || m == 4 || m == 8 || m == 16) ==> (((f & e & 0x1f) & m != 0) ==> (f & m
            != 0 && e & m != 0))) by (bit_vector);
    assert((e == 0 ==> f & e & 0x1f == 0) && ((f & e & 0x1f) == 0 <==> ((f & e & 0x1f) & 0x01 == 0
        && (f & e & 0x1f) & 0x02 == 0 && (f & e & 0x1f) & 0x04 == 0 && (f & e & 0x1f) & 0x08 == 0
        && (f & e & 0x1f) & 0x10 == 0))) by (bit_vector);
    assert((0u8 & 1u8) == 0 && (0u8 & 2u8) == 0 && (0u8 & 4u8) == 0 && (0u8 & 8u8) == 0 && (0u8
        & 16u8) == 0) by (bit_vector);
}

} // verus!
