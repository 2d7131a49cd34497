use vstd::prelude::*;
use crate::address::TimerReg;
use crate::interrupt_system::{Interrupt, InterruptSystem};
use crate::bit_ops::{BitOps, u8_bit};

verus! {

/// The writable bits of TAC.
pub const TAC_WRITE_MASK: u8 = 0b111;

/// Which bit of DIV drives TIMA: TIMA is increased on each falling edge of it.
#[derive(Copy, Clone, Debug, PartialEq, Eq, Structural)]
pub enum TimaFrequency {
    F00,
    F01,
    F10,
    F11,
}

impl TimaFrequency {
    pub open spec fn mask(self) -> u16 {
        match self {
            TimaFrequency::F00 => 0b10_0000_0000u16,
            TimaFrequency::F01 => 0b00_0000_1000u16,
            TimaFrequency::F10 => 0b00_0010_0000u16,
            TimaFrequency::F11 => 0b00_1000_0000u16,
        }
    }

    pub fn div_mask(self) -> (r: u16)
        ensures
            r == self.mask(),
    {
        match self {
            TimaFrequency::F00 => 0b10_0000_0000u16,
            TimaFrequency::F01 => 0b00_0000_1000u16,
            TimaFrequency::F10 => 0b00_0010_0000u16,
            TimaFrequency::F11 => 0b00_1000_0000u16,
        }
    }

    /// The frequency selected by the lower two bits of a TAC value.
    pub open spec fn of_tac(val: u8) -> TimaFrequency {
        if val % 4 == 0 {
            TimaFrequency::F00
        } else if val % 4 == 1 {
            TimaFrequency::F01
        } else if val % 4 == 2 {
            TimaFrequency::F10
        } else {
            TimaFrequency::F11
        }
    }
}

#[derive(Copy, Clone, Debug, PartialEq, Eq, Structural)]
pub enum TimaReloadState {
    NotReloading,
    /// TIMA overflowed in the previous cycle; it is reloaded in the next one
    /// from TMA, or with the value written to TIMA meanwhile.
    InReload(Option<u8>),
    /// TIMA was reloaded in the previous cycle.
    RightAfterReload,
}

/// The timer (DIV, TIMA, TMA and TAC).
pub struct Timer {
    pub div_reg: u16,
    pub tima_reg: u8,
    pub tma_reg: u8,
    pub tac_reg: u8,
    pub tima_freq: TimaFrequency,
    /// 0 when off, 0xffff when on
    pub tima_enabled: u16,
    pub tima_reload_state: TimaReloadState,
}

/// A falling edge of the bits of `mask` between `old` and `new`.
pub open spec fn falling_edge(old: u16, new: u16, mask: u16) -> bool {
    old & mask > new & mask
}

impl Timer {
    /// The divider moves in steps of 4 clocks, TAC's upper five bits read as
    /// set, and the frequency and enable mask follow TAC's lower three bits.
    pub open spec fn wf(self) -> bool {
        &&& self.div_reg % 4 == 0
        &&& self.tac_reg & 0xf8 == 0xf8
        &&& self.tima_freq == TimaFrequency::of_tac(self.tac_reg)
        &&& self.tima_enabled == if u8_bit(self.tac_reg, 2) { 0xffffu16 } else { 0u16 }
    }

    /// TIMA increased by one; on overflow it is 0 and a reload follows.
    pub open spec fn incremented(self) -> (Timer, bool) {
        if self.tima_reg == 255 {
            (Timer { tima_reg: 0, ..self }, true)
        } else {
            (Timer { tima_reg: (self.tima_reg + 1) as u8, ..self }, false)
        }
    }

    /// TIMA increased on a falling edge of the selected DIV bit.
    pub open spec fn updated(self, old_div: u16, new_div: u16) -> Timer {
        if falling_edge(old_div, new_div, (self.tima_freq.mask() & self.tima_enabled) as u16) {
            let (t, overflow) = self.incremented();
            if overflow {
                Timer { tima_reload_state: TimaReloadState::InReload(None), ..t }
            } else {
                t
            }
        } else {
            self
        }
    }

    /// The timer and the interrupt registers after one machine cycle: DIV
    /// advances by 4 clocks, a pending reload completes (requesting the
    /// timer interrupt), and TIMA counts on a falling edge of its DIV bit.
    pub open spec fn after_mcycle(self, ir: InterruptSystem) -> (Timer, InterruptSystem) {
        let new_div = ((self.div_reg + 4) % 0x10000) as u16;
        let (t, ir2) = match self.tima_reload_state {
            TimaReloadState::InReload(new_tima) => (
                Timer {
                    div_reg: new_div,
                    tima_reg: match new_tima {
                        Some(v) => v,
                        None => self.tma_reg,
                    },
                    tima_reload_state: TimaReloadState::RightAfterReload,
                    ..self
                },
                ir.scheduled(Interrupt::Timer),
            ),
            _ => (
                Timer {
                    div_reg: new_div,
                    tima_reload_state: TimaReloadState::NotReloading,
                    ..self
                },
                ir,
            ),
        };
        (t.updated(self.div_reg, new_div), ir2)
    }

    /// The value a read of `reg` returns.
    pub open spec fn reg_value(self, reg: TimerReg) -> u8 {
        match reg {
            TimerReg::DIV => (self.div_reg / 256) as u8,
            TimerReg::TIMA => self.tima_reg,
            TimerReg::TMA => self.tma_reg,
            TimerReg::TAC => self.tac_reg,
        }
    }

    /// Writing TAC: a change of the selected bit or of the enable bit can
    /// itself produce a falling edge and increase TIMA.
    pub open spec fn after_tac_write(self, ir: InterruptSystem, val: u8) -> (Timer, InterruptSystem) {
        let new_freq = TimaFrequency::of_tac(val);
        let enable = u8_bit(val, 2);
        let edge = if enable {
            self.div_reg & self.tima_freq.mask() == 0 && self.div_reg & new_freq.mask() != 0
        } else {
            u8_bit(self.tac_reg, 2) && self.div_reg & self.tima_freq.mask() != 0
        };
        let (t, overflow) = if edge {
            self.incremented()
        } else {
            (self, false)
        };
        (
            Timer {
                tima_enabled: if enable { 0xffff } else { 0 },
                tima_freq: new_freq,
                tac_reg: (self.tac_reg & !TAC_WRITE_MASK) | (val & TAC_WRITE_MASK),
                ..t
            },
            if overflow { ir.scheduled(Interrupt::Timer) } else { ir },
        )
    }

    /// The timer and interrupt registers after the CPU writes `val` to `reg`.
    pub open spec fn after_write(self, ir: InterruptSystem, reg: TimerReg, val: u8) -> (Timer, InterruptSystem) {
        match reg {
            TimerReg::DIV => {
                let t = if self.div_reg & self.tima_freq.mask() != 0 {
                    let (t, overflow) = self.incremented();
                    if overflow {
                        Timer { tima_reload_state: TimaReloadState::InReload(None), ..t }
                    } else {
                        t
                    }
                } else {
                    self
                };
                (Timer { div_reg: 0, ..t }, ir)
            },
            TimerReg::TIMA => (
                match self.tima_reload_state {
                    TimaReloadState::RightAfterReload => Timer { tima_reg: self.tma_reg, ..self },
                    TimaReloadState::InReload(_) => Timer {
                        tima_reg: val,
                        tima_reload_state: TimaReloadState::InReload(Some(val)),
                        ..self
                    },
                    TimaReloadState::NotReloading => Timer { tima_reg: val, ..self },
                },
                ir,
            ),
            TimerReg::TMA => (
                match self.tima_reload_state {
                    TimaReloadState::RightAfterReload => Timer { tma_reg: val, tima_reg: val, ..self },
                    _ => Timer { tma_reg: val, ..self },
                },
                ir,
            ),
            TimerReg::TAC => self.after_tac_write(ir, val),
        }
    }

    /// The timer at power-on: counters cleared, TAC reading 0xF8 (timer off).
    pub open spec fn powered_on(self) -> bool {
        &&& self.div_reg == 0
        &&& self.tima_reg == 0
        &&& self.tma_reg == 0
        &&& self.tac_reg == 0b1111_1000
        &&& self.tima_freq == TimaFrequency::F00
        &&& self.tima_enabled == 0
        &&& self.tima_reload_state == TimaReloadState::NotReloading
    }

    pub fn new() -> (r: Timer)
        ensures
            r.powered_on(),
            r.div_reg == 0,
            r.tima_reg == 0,
            r.tma_reg == 0,
            r.tac_reg == 0b1111_1000,
            r.tima_freq == TimaFrequency::F00,
            r.tima_enabled == 0,
            r.tima_reload_state == TimaReloadState::NotReloading,
            r.wf(),
    {
        assert(!7u8 == 0xf8u8 && (0xf8u8 & 0xf8u8) == 0xf8u8 && (0xf8u8 >> 2u8) & 1u8 == 0u8) by (bit_vector);
        Timer {
            div_reg: 0,
            tima_reg: 0,
            tma_reg: 0,
            tac_reg: !TAC_WRITE_MASK,
            tima_freq: TimaFrequency::F00,
            tima_enabled: 0,
            tima_reload_state: TimaReloadState::NotReloading,
        }
    }

    pub fn advance_mcycle(&mut self, ir_system: &mut InterruptSystem)
        ensures
            (*final(self), *final(ir_system)) == old(self).after_mcycle(*old(ir_system)),
            old(self).wf() ==> final(self).wf(),
    {
        let old_div = self.div_reg;
        self.div_reg = self.div_reg.wrapping_add(4);

        if let TimaReloadState::InReload(new_tima) = self.tima_reload_state {
            self.tima_reg = match new_tima {
                Some(v) => v,
                None => self.tma_reg,
            };
            ir_system.schedule_interrupt(Interrupt::Timer);
            self.tima_reload_state = TimaReloadState::RightAfterReload;
        } else {
            self.tima_reload_state = TimaReloadState::NotReloading;
        }

        let new_div = self.div_reg;
        self.update_tima(old_div, new_div);
    }

    pub fn read_reg(&self, reg: TimerReg) -> (r: u8)
        ensures
            r == self.reg_value(reg),
    {
        match reg {
            TimerReg::DIV => {
                let d = self.div_reg;
                assert((d >> 8u16) as u8 == (d / 256) as u8) by (bit_vector);
                (d >> 8) as u8
            },
            TimerReg::TIMA => self.tima_reg,
            TimerReg::TMA => self.tma_reg,
            TimerReg::TAC => self.tac_reg,
        }
    }

    pub fn write_reg(&mut self, ir_system: &mut InterruptSystem, reg: TimerReg, val: u8)
        ensures
            (*final(self), *final(ir_system)) == old(self).after_write(*old(ir_system), reg, val),
            old(self).wf() ==> final(self).wf(),
    {
        proof {
            lemma_write_keeps_wf(*self, *ir_system, reg, val);
        }
        match reg {
            TimerReg::DIV => {
                if self.div_reg & self.tima_freq.div_mask() != 0 {
                    if self.incr_tima() {
                        self.tima_reload_state = TimaReloadState::InReload(None);
                    }
                }
                self.div_reg = 0;
            },
            TimerReg::TIMA => {
                if let TimaReloadState::RightAfterReload = self.tima_reload_state {
                    self.tima_reg = self.tma_reg;
                } else {
                    self.tima_reg = val;
                    if let TimaReloadState::InReload(_) = self.tima_reload_state {
                        self.tima_reload_state = TimaReloadState::InReload(Some(val));
                    }
                }
            },
            TimerReg::TMA => {
                self.tma_reg = val;
                if let TimaReloadState::RightAfterReload = self.tima_reload_state {
                    self.tima_reg = val;
                }
            },
            TimerReg::TAC => self.write_tac(ir_system, val),
        }
    }

    fn update_tima(&mut self, old_div: u16, new_div: u16)
        ensures
            *final(self) == old(self).updated(old_div, new_div),
    {
        let freq_mask = self.tima_freq.div_mask() & self.tima_enabled;
        if old_div & freq_mask > new_div & freq_mask {
            if self.incr_tima() {
                self.tima_reload_state = TimaReloadState::InReload(None);
            }
        }
    }

    /// Returns true if TIMA overflowed
    fn incr_tima(&mut self) -> (r: bool)
        ensures
            (*final(self), r) == old(self).incremented(),
    {
        if self.tima_reg < 255 {
            self.tima_reg = self.tima_reg + 1;
            false
        } else {
            self.tima_reg = 0;
            true
        }
    }

    fn write_tac(&mut self, ir_system: &mut InterruptSystem, val: u8)
        ensures
            (*final(self), *final(ir_system)) == old(self).after_tac_write(*old(ir_system), val),
    {
        assert(val & 0b11u8 == val % 4) by (bit_vector);
        let new_freq = match val & 0b11 {
            0b00 => TimaFrequency::F00,
            0b01 => TimaFrequency::F01,
            0b10 => TimaFrequency::F10,
            _ => TimaFrequency::F11,
        };

        if val.bit(2) {
            self.tima_enabled = 0xffff;
            if self.div_reg & self.tima_freq.div_mask() == 0 && self.div_reg & new_freq.div_mask()
                != 0 {
                if self.incr_tima() {
                    ir_system.schedule_interrupt(Interrupt::Timer);
                }
            }
        } else {
            self.tima_enabled = 0x0000;
            if self.tac_reg.bit(2) && self.div_reg & self.tima_freq.div_mask() != 0 {
                if self.incr_tima() {
                    ir_system.schedule_interrupt(Interrupt::Timer);
                }
            }
        }

        self.tima_freq = new_freq;
        self.tac_reg = (self.tac_reg & (!TAC_WRITE_MASK)) | (val & TAC_WRITE_MASK);
    }
}

/// The bits of TAC after a write of `val`.
proof fn lemma_tac_bits(tac: u8, val: u8)
    ensures
        ({
            let new = (tac & !TAC_WRITE_MASK) | (val & TAC_WRITE_MASK);
            &&& new % 4 == val % 4
            &&& u8_bit(new, 2) == u8_bit(val, 2)
            &&& (tac & 0xf8 == 0xf8 ==> new & 0xf8 == 0xf8 && new == 0xf8 | (val & 0x07))
        }),
{
    let new = (tac & !7u8) | (val & 7u8);
    assert(new % 4 == val % 4 && ((new >> 2u8) & 1u8 == 1u8) == ((val >> 2u8) & 1u8 == 1u8)
        && (tac & 0xf8 == 0xf8 ==> new & 0xf8 == 0xf8 && new == 0xf8 | (val & 0x07))) by (bit_vector)
        requires
            new == (tac & !7u8) | (val & 7u8),
    ;
    assert(u8_bit(new, 2) == ((new >> 2u8) & 1u8 == 1u8));
    assert(u8_bit(val, 2) == ((val >> 2u8) & 1u8 == 1u8));
}

/// Every write keeps the timer's invariant.
proof fn lemma_write_keeps_wf(t: Timer, ir: InterruptSystem, reg: TimerReg, val: u8)
    ensures
        t.wf() ==> t.after_write(ir, reg, val).0.wf(),
{
    lemma_tac_bits(t.tac_reg, val);
}

/// Of TAC only the three lowest bits can be written: reading TAC after a
/// write gives the written bits under the upper bits, which read as set.
pub proof fn law_tac_write_mask(t: Timer, ir: InterruptSystem, val: u8)
    requires
        t.wf(),
    ensures
        t.after_write(ir, TimerReg::TAC, val).0.reg_value(TimerReg::TAC) == 0xf8 | (val & 0x07),
        t.after_write(ir, TimerReg::TAC, val).0.wf(),
{
    lemma_tac_bits(t.tac_reg, val);
}

/// Writing DIV resets the divider: a read of DIV right after gives 0.
pub proof fn law_div_write_resets(t: Timer, ir: InterruptSystem, val: u8)
    ensures
        t.after_write(ir, TimerReg::DIV, val).0.reg_value(TimerReg::DIV) == 0,
{
}

/// The timer and interrupt registers after `k` machine cycles in which no
/// timer register is written.
pub open spec fn timer_after(t: Timer, ir: InterruptSystem, k: nat) -> (Timer, InterruptSystem)
    decreases k,
{
    if k == 0 {
        (t, ir)
    } else {
        let (t1, ir1) = t.after_mcycle(ir);
        timer_after(t1, ir1, (k - 1) as nat)
    }
}

/// DIV counts machine cycles: `k` cycles later (no timer register written)
/// the divider is `4 k` further on, wrapping at 65536, and DIV reads its
/// upper byte. From power-on (divider 0) DIV reads `(4 k mod 65536) >> 8`.
pub proof fn law_div_counts(t: Timer, ir: InterruptSystem, k: nat)
    ensures
        timer_after(t, ir, k).0.div_reg == (t.div_reg + 4 * k) % 0x10000,
        timer_after(t, ir, k).0.reg_value(TimerReg::DIV) == ((t.div_reg + 4 * k) % 0x10000) / 256,
        t.div_reg == 0 ==> timer_after(t, ir, k).0.reg_value(TimerReg::DIV) == ((4 * k) % 0x10000) / 256,
    decreases k,
{
    if k > 0 {
        let (t1, ir1) = t.after_mcycle(ir);
        assert(t1.div_reg == (t.div_reg + 4) % 0x10000);
        law_div_counts(t1, ir1, (k - 1) as nat);
        vstd::arithmetic::div_mod::lemma_add_mod_noop(t.div_reg + 4, 4 * (k - 1), 0x10000);
        vstd::arithmetic::div_mod::lemma_add_mod_noop(t.div_reg + 4, 4 * (k - 1), 0x10000);
        vstd::arithmetic::div_mod::lemma_mod_twice(t.div_reg + 4, 0x10000);
        vstd::arithmetic::div_mod::lemma_add_mod_noop((t.div_reg + 4) % 0x10000, 4 * (k - 1), 0x10000);
    }
}

/// No two machine cycles in a row both see a falling edge of the DIV bit
/// that drives TIMA.
proof fn lemma_no_double_edge(d: u16, m: u16)
    requires
        m == 0 || m == 0b1000 || m == 0b10_0000 || m == 0b1000_0000 || m == 0b10_0000_0000,
    ensures
        !(falling_edge(d, ((d + 4) % 0x10000) as u16, m) && falling_edge(
            ((d + 4) % 0x10000) as u16,
            ((d + 8) % 0x10000) as u16,
            m,
        )),
{
    let d1 = ((d + 4) % 0x10000) as u16;
    let d2 = ((d + 8) % 0x10000) as u16;
    assert(!(d & m > d1 & m && d1 & m > d2 & m)) by (bit_vector)
        requires
            m == 0 || m == 0b1000 || m == 0b10_0000 || m == 0b1000_0000 || m == 0b10_0000_0000,
            d1 == ((d + 4) % 0x10000) as u16,
            d2 == ((d + 8) % 0x10000) as u16,
    ;
}

/// TIMA is reloaded one machine cycle after it overflows: in the cycle that
/// overflows it, TIMA reads 0 and no interrupt is requested; in the next
/// cycle TIMA takes TMA and the timer interrupt is requested.
pub proof fn law_tima_reload_delay(t: Timer, ir: InterruptSystem)
    requires
        t.wf(),
        !(t.tima_reload_state is InReload),
        t.tima_reg == 255,
        falling_edge(t.div_reg, ((t.div_reg + 4) % 0x10000) as u16, (t.tima_freq.mask() & t.tima_enabled) as u16),
    ensures
        ({
            let (t1, ir1) = t.after_mcycle(ir);
            let (t2, ir2) = t1.after_mcycle(ir1);
            &&& t1.tima_reg == 0
            &&& t1.tima_reload_state == TimaReloadState::InReload(None)
            &&& ir1 == ir
            &&& t2.tima_reg == t.tma_reg
            &&& t2.tima_reload_state == TimaReloadState::RightAfterReload
            &&& ir2 == ir.scheduled(Interrupt::Timer)
        }),
{
    let m = (t.tima_freq.mask() & t.tima_enabled) as u16;
    let f = t.tima_freq.mask();
    assert(f & 0xffffu16 == f && f & 0u16 == 0) by (bit_vector);
    lemma_no_double_edge(t.div_reg, m);
}

/// A stopped timer with no reload pending keeps TIMA through any number of
/// machine cycles.
proof fn lemma_stopped_timer_keeps_tima(t: Timer, ir: InterruptSystem, k: nat)
    requires
        t.tima_enabled == 0,
        !(t.tima_reload_state is InReload),
    ensures
        timer_after(t, ir, k).0.tima_reg == t.tima_reg,
        timer_after(t, ir, k).0.tima_enabled == 0,
    decreases k,
{
    if k > 0 {
        let (t1, ir1) = t.after_mcycle(ir);
        let m = (t.tima_freq.mask() & t.tima_enabled) as u16;
        let f = t.tima_freq.mask();
        assert(f & 0u16 == 0u16) by (bit_vector);
        assert(!falling_edge(t.div_reg, ((t.div_reg + 4) % 0x10000) as u16, m)) by {
            let a = t.div_reg;
            let b = ((t.div_reg + 4) % 0x10000) as u16;
            assert(a & 0u16 == 0u16 && b & 0u16 == 0u16) by (bit_vector);
        }
        assert(t1.tima_reg == t.tima_reg && t1.tima_enabled == 0 && !(t1.tima_reload_state is InReload));
        lemma_stopped_timer_keeps_tima(t1, ir1, (k - 1) as nat);
    }
}

/// Turning a running timer off while its DIV bit is set counts TIMA once
/// (the falling edge of the enable), requesting the timer interrupt if TIMA
/// overflows; TAC then reads the written bits under 0xF8, and TIMA stays as
/// it is through any number of machine cycles until the timer is turned on.
pub proof fn law_tac_disable_counts(t: Timer, ir: InterruptSystem, val: u8, k: nat)
    requires
        t.wf(),
        u8_bit(t.tac_reg, 2),
        t.div_reg & t.tima_freq.mask() != 0,
        !(t.tima_reload_state is InReload),
        !u8_bit(val, 2),
    ensures
        ({
            let (t1, ir1) = t.after_write(ir, TimerReg::TAC, val);
            &&& t1.reg_value(TimerReg::TIMA) == (t.tima_reg + 1) % 256
            &&& ir1 == if t.tima_reg == 255 { ir.scheduled(Interrupt::Timer) } else { ir }
            &&& t1.reg_value(TimerReg::TAC) == 0xf8 | (val & 0x07)
            &&& timer_after(t1, ir1, k).0.reg_value(TimerReg::TIMA) == t1.tima_reg
        }),
{
    lemma_tac_bits(t.tac_reg, val);
    let (t1, ir1) = t.after_write(ir, TimerReg::TAC, val);
    lemma_stopped_timer_keeps_tima(t1, ir1, k);
}

/// Machine cycles between two increments of TIMA for the frequency that the
/// lower two bits of TAC select: 4096 Hz, 262144 Hz, 65536 Hz and 16384 Hz
/// of a 1048576 Hz machine clock.
pub open spec fn tima_period(tac: u8) -> int {
    if tac % 4 == 0 {
        256
    } else if tac % 4 == 1 {
        4
    } else if tac % 4 == 2 {
        16
    } else {
        64
    }
}

/// The bit of the divider whose falling edge drives TIMA falls in a cycle
/// exactly when the divider reaches a multiple of 4 clocks per cycle times
/// the period.
proof fn lemma_edge_period(d: u16, m: u16)
    requires
        d % 4 == 0,
        m == 0b1000 || m == 0b10_0000 || m == 0b1000_0000 || m == 0b10_0000_0000,
    ensures
        falling_edge(d, ((d + 4) % 0x10000) as u16, m) == ((d + 4) % (2 * m as int) == 0),
{
    let d2 = ((d + 4) % 0x10000) as u16;
    assert((d & m > d2 & m) == (d2 % ((2 * m) as u16) == 0)) by (bit_vector)
        requires
            d % 4 == 0,
            m == 0b1000 || m == 0b10_0000 || m == 0b1000_0000 || m == 0b10_0000_0000,
            d2 == ((d + 4) % 0x10000) as u16,
    ;
    assert(((2 * m) as u16) as int == 2 * m as int);
    if m == 0b1000 {
        assert(d2 % 16 == (d + 4) % 16);
    } else if m == 0b10_0000 {
        assert(d2 % 64 == (d + 4) % 64);
    } else if m == 0b1000_0000 {
        assert(d2 % 256 == (d + 4) % 256);
    } else {
        assert(d2 % 1024 == (d + 4) % 1024);
    }
}

/// TIMA counts at the rate TAC selects: with the timer on, a machine cycle
/// increases TIMA exactly when the divider reaches a multiple of its period
/// (in clocks, 4 per cycle), so once every `tima_period` cycles; with the
/// timer off it never does.
pub proof fn law_tima_rate(t: Timer, ir: InterruptSystem)
    requires
        t.wf(),
        !(t.tima_reload_state is InReload),
        t.tima_reg < 255,
    ensures
        t.after_mcycle(ir).0.tima_reg == if u8_bit(t.tac_reg, 2) && (t.div_reg + 4) % (4 * tima_period(t.tac_reg)) == 0 {
            t.tima_reg + 1
        } else {
            t.tima_reg as int
        },
{
    let f = t.tima_freq.mask();
    assert(f & 0xffffu16 == f && f & 0u16 == 0u16) by (bit_vector);
    if u8_bit(t.tac_reg, 2) {
        lemma_edge_period(t.div_reg, f);
    } else {
        let d = t.div_reg;
        let d2 = ((t.div_reg + 4) % 0x10000) as u16;
        assert(d & 0u16 == 0u16 && d2 & 0u16 == 0u16) by (bit_vector);
    }
}

} // verus!
