use vstd::prelude::*;
use super::CPU;
use super::registers::{Flag, Flags, R8, R16, Registers};
use crate::bit_ops::{BitOps, u8_bit, lemma_u8_reset, lemma_u8_set};

verus! {

/// `f` holds the four condition flags given, and the lower nibble of `old`.
pub open spec fn znhc(f: Flags, old: Flags, z: bool, n: bool, h: bool, c: bool) -> bool {
    &&& f.get(Flag::Z) == z
    &&& f.get(Flag::N) == n
    &&& f.get(Flag::H) == h
    &&& f.get(Flag::C) == c
    &&& f.low() == old.low()
}

/// Sets all four condition flags at once; the lower nibble of F is kept.
pub fn set_znhc(f: &mut Flags, z: bool, n: bool, h: bool, c: bool)
    ensures
        znhc(*final(f), *old(f), z, n, h, c),
{
    f.set(Flag::Z, z);
    f.set(Flag::N, n);
    f.set(Flag::H, h);
    f.set(Flag::C, c);
}

/// Sets Z, N and H; C and the lower nibble of F are kept.
fn set_znh(f: &mut Flags, z: bool, n: bool, h: bool)
    ensures
        final(f).get(Flag::Z) == z,
        final(f).get(Flag::N) == n,
        final(f).get(Flag::H) == h,
        final(f).get(Flag::C) == old(f).get(Flag::C),
        final(f).low() == old(f).low(),
{
    f.set(Flag::Z, z);
    f.set(Flag::N, n);
    f.set(Flag::H, h);
}

/// The carry flag as a number.
pub open spec fn carry_val(f: Flags) -> int {
    if f.get(Flag::C) {
        1
    } else {
        0
    }
}

/// Rotating a byte left by one: bit 7 moves to bit 0.
pub open spec fn rotl8(x: u8) -> u8 {
    ((x as nat * 2) % 256 + x as nat / 128) as u8
}

/// Rotating a byte right by one: bit 0 moves to bit 7.
pub open spec fn rotr8(x: u8) -> u8 {
    (x as nat / 2 + (x as nat % 2) * 128) as u8
}

/// Shifts, rotations and masks of a byte in terms of arithmetic.
pub proof fn lemma_byte_ops(x: u8)
    ensures
        (x << 1u8) | (x >> 7u8) == ((x as u16 * 2) % 256 + x as u16 / 128) as u8,
        (x >> 1u8) | (x << 7u8) == (x as u16 / 2 + (x as u16 % 2) * 128) as u8,
        ((x >> 7u8) & 1u8 != 0u8) == (x >= 128),
        (x & 1u8 != 0u8) == (x % 2 == 1),
        x & 0x0fu8 == x % 16,
        x << 1u8 == ((x as u16 * 2) % 256) as u8,
        x >> 1u8 == x / 2,
        (x >> 1u8) | (x & 0x80u8) == (x / 2 + (if x >= 128 { 128u8 } else { 0u8 })) as u8,
        (x >> 4u8) + (x << 4u8) == ((x % 16) * 16 + x / 16) as u8,
        !x == 255u8 - x,
{
    assert({
        &&& (x << 1u8) | (x >> 7u8) == ((x as u16 * 2) % 256 + x as u16 / 128) as u8
        &&& (x >> 1u8) | (x << 7u8) == (x as u16 / 2 + (x as u16 % 2) * 128) as u8
        &&& ((x >> 7u8) & 1u8 != 0u8) == (x >= 128)
        &&& (x & 1u8 != 0u8) == (x % 2 == 1)
        &&& x & 0x0fu8 == x % 16
        &&& x << 1u8 == ((x as u16 * 2) % 256) as u8
        &&& x >> 1u8 == x / 2
        &&& (x >> 1u8) | (x & 0x80u8) == (x / 2 + (if x >= 128 { 128u8 } else { 0u8 })) as u8
        &&& (x >> 4u8) + (x << 4u8) == ((x % 16) * 16 + x / 16) as u8
        &&& !x == 255u8 - x
    }) by (bit_vector);
}

fn rotate_left_1(x: u8) -> (r: u8)
    ensures
        r == rotl8(x),
{
    proof {
        lemma_byte_ops(x);
    }
    (x << 1u8) | (x >> 7u8)
}

fn rotate_right_1(x: u8) -> (r: u8)
    ensures
        r == rotr8(x),
{
    proof {
        lemma_byte_ops(x);
    }
    (x >> 1u8) | (x << 7u8)
}

pub fn bit7(x: u8) -> (r: bool)
    ensures
        r == (x >= 128),
{
    proof {
        lemma_byte_ops(x);
    }
    (x >> 7u8) & 1 != 0
}

fn bit0(x: u8) -> (r: bool)
    ensures
        r == (x % 2 == 1),
{
    proof {
        lemma_byte_ops(x);
    }
    x & 1 != 0
}

fn low_nibble(x: u8) -> (r: u8)
    ensures
        r == x % 16,
{
    proof {
        lemma_byte_ops(x);
    }
    x & 0x0f
}

pub open spec fn add8_post(c0: CPU, v: u8, c1: CPU) -> bool {
    &&& c1.reg.a == (c0.reg.a + v) % 256
    &&& c1.reg.f.get(Flag::Z) == ((c0.reg.a + v) % 256 == 0)
    &&& !c1.reg.f.get(Flag::N)
    &&& c1.reg.f.get(Flag::H) == (c0.reg.a % 16 + v % 16 > 15)
    &&& c1.reg.f.get(Flag::C) == (c0.reg.a + v > 255)
    &&& c1.reg.f.low() == c0.reg.f.low()
    &&& c1.same_but_af(c0)
}

/// ADD A, v
pub fn add8_value(cpu: &mut CPU, v: u8)
    ensures
        add8_post(*old(cpu), v, *final(cpu)),
{
    let a = cpu.reg.a;
    let new = a.wrapping_add(v);
    let carry = a as u16 + v as u16 > 255;
    cpu.reg.a = new;
    let h = low_nibble(a) + low_nibble(v) > 0x0f;
    set_znhc(&mut cpu.reg.f, new == 0, false, h, carry);
}

pub open spec fn adc8_post(c0: CPU, v: u8, c1: CPU) -> bool {
    &&& ({
        let a = c0.reg.a;
        let c = carry_val(c0.reg.f);
        &&& c1.reg.a == (a + v + c) % 256
        &&& c1.reg.f.get(Flag::Z) == ((a + v + c) % 256 == 0)
        &&& c1.reg.f.get(Flag::H) == (a % 16 + v % 16 + c > 15)
        &&& c1.reg.f.get(Flag::C) == (a + v + c > 255)
    })
    &&& !c1.reg.f.get(Flag::N)
    &&& c1.reg.f.low() == c0.reg.f.low()
    &&& c1.same_but_af(c0)
}

/// ADC A, v: A := A + v + carry.
pub fn adc8_value(cpu: &mut CPU, v: u8)
    ensures
        adc8_post(*old(cpu), v, *final(cpu)),
{
    let a = cpu.reg.a;
    let c: u8 = if cpu.reg.f.contains(Flag::C) { 1 } else { 0 };
    let sum: u16 = a as u16 + v as u16 + c as u16;
    let new = (sum % 256) as u8;
    let h = low_nibble(a) + low_nibble(v) + c > 0x0f;
    cpu.reg.a = new;
    set_znhc(&mut cpu.reg.f, new == 0, false, h, sum > 255);
}

pub open spec fn cp8_post(c0: CPU, v: u8, c1: CPU, r: u8) -> bool {
    &&& r == (c0.reg.a - v) % 256
    &&& c1.reg.a == c0.reg.a
    &&& c1.reg.f.get(Flag::Z) == (c0.reg.a == v)
    &&& c1.reg.f.get(Flag::N)
    &&& c1.reg.f.get(Flag::H) == (c0.reg.a % 16 < v % 16)
    &&& c1.reg.f.get(Flag::C) == (c0.reg.a < v)
    &&& c1.reg.f.low() == c0.reg.f.low()
    &&& c1.same_but_af(c0)
}

/// CP v: the flags of A - v; returns A - v (mod 256) and leaves A as it is.
pub fn cp8_value(cpu: &mut CPU, v: u8) -> (r: u8)
    ensures
        cp8_post(*old(cpu), v, *final(cpu), r),
{
    let old = cpu.reg.a;
    let new = old.wrapping_sub(v);
    let carry = old < v;
    set_znhc(&mut cpu.reg.f, new == 0, true, low_nibble(old) < low_nibble(v), carry);
    new
}

pub open spec fn sub8_post(c0: CPU, v: u8, c1: CPU) -> bool {
    &&& c1.reg.a == (c0.reg.a - v) % 256
    &&& c1.reg.f.get(Flag::Z) == (c0.reg.a == v)
    &&& c1.reg.f.get(Flag::N)
    &&& c1.reg.f.get(Flag::H) == (c0.reg.a % 16 < v % 16)
    &&& c1.reg.f.get(Flag::C) == (c0.reg.a < v)
    &&& c1.reg.f.low() == c0.reg.f.low()
    &&& c1.same_but_af(c0)
}

/// SUB v: A := A - v, with the flags of CP v.
pub fn sub8_value(cpu: &mut CPU, v: u8)
    ensures
        sub8_post(*old(cpu), v, *final(cpu)),
{
    let r = cp8_value(cpu, v);
    cpu.reg.a = r;
}

pub open spec fn sbc8_post(c0: CPU, v: u8, c1: CPU) -> bool {
    &&& ({
        let diff = c0.reg.a - v - carry_val(c0.reg.f);
        &&& c1.reg.a == diff % 256
        &&& c1.reg.f.get(Flag::Z) == (diff % 256 == 0)
        &&& c1.reg.f.get(Flag::N)
        &&& c1.reg.f.get(Flag::H) == (c0.reg.a % 16 < v % 16 + carry_val(c0.reg.f))
        &&& c1.reg.f.get(Flag::C) == (diff < 0)
    })
    &&& c1.reg.f.low() == c0.reg.f.low()
    &&& c1.same_but_af(c0)
}

/// SBC A, v: A := A - v - carry.
pub fn sbc8_value(cpu: &mut CPU, v: u8)
    ensures
        sbc8_post(*old(cpu), v, *final(cpu)),
{
    let a = cpu.reg.a;
    let c: u8 = if cpu.reg.f.contains(Flag::C) { 1 } else { 0 };
    let new: i16 = a as i16 - v as i16 - c as i16;
    let byte = ((new + 256) % 256) as u8;
    cpu.reg.a = byte;
    set_znhc(&mut cpu.reg.f, byte == 0, true, low_nibble(a) < low_nibble(v) + c, new < 0);
}


pub open spec fn and8_post(c0: CPU, v: u8, c1: CPU) -> bool {
    &&& c1.reg.a == c0.reg.a & v
    &&& c1.reg.f.get(Flag::Z) == (c0.reg.a & v == 0)
    &&& !c1.reg.f.get(Flag::N)
    &&& c1.reg.f.get(Flag::H)
    &&& !c1.reg.f.get(Flag::C)
    &&& c1.reg.f.low() == c0.reg.f.low()
    &&& c1.same_but_af(c0)
}

/// AND v
pub fn and8_value(cpu: &mut CPU, v: u8)
    ensures
        and8_post(*old(cpu), v, *final(cpu)),
{
    let new = cpu.reg.a & v;
    cpu.reg.a = new;
    set_znhc(&mut cpu.reg.f, new == 0, false, true, false);
}

pub open spec fn xor8_post(c0: CPU, v: u8, c1: CPU) -> bool {
    &&& c1.reg.a == c0.reg.a ^ v
    &&& c1.reg.f.get(Flag::Z) == (c0.reg.a ^ v == 0)
    &&& !c1.reg.f.get(Flag::N)
    &&& !c1.reg.f.get(Flag::H)
    &&& !c1.reg.f.get(Flag::C)
    &&& c1.reg.f.low() == c0.reg.f.low()
    &&& c1.same_but_af(c0)
}

/// XOR v
pub fn xor8_value(cpu: &mut CPU, v: u8)
    ensures
        xor8_post(*old(cpu), v, *final(cpu)),
{
    let new = cpu.reg.a ^ v;
    cpu.reg.a = new;
    set_znhc(&mut cpu.reg.f, new == 0, false, false, false);
}

pub open spec fn or8_post(c0: CPU, v: u8, c1: CPU) -> bool {
    &&& c1.reg.a == c0.reg.a | v
    &&& c1.reg.f.get(Flag::Z) == (c0.reg.a | v == 0)
    &&& !c1.reg.f.get(Flag::N)
    &&& !c1.reg.f.get(Flag::H)
    &&& !c1.reg.f.get(Flag::C)
    &&& c1.reg.f.low() == c0.reg.f.low()
    &&& c1.same_but_af(c0)
}

/// OR v
pub fn or8_value(cpu: &mut CPU, v: u8)
    ensures
        or8_post(*old(cpu), v, *final(cpu)),
{
    let new = cpu.reg.a | v;
    cpu.reg.a = new;
    set_znhc(&mut cpu.reg.f, new == 0, false, false, false);
}

pub open spec fn inc8_post(c0: CPU, v: u8, c1: CPU, r: u8) -> bool {
    &&& r == (v + 1) % 256
    &&& c1.reg.f.get(Flag::Z) == (r == 0)
    &&& !c1.reg.f.get(Flag::N)
    &&& c1.reg.f.get(Flag::H) == (v % 16 == 15)
    &&& c1.reg.f.get(Flag::C) == c0.reg.f.get(Flag::C)
    &&& c1.reg.f.low() == c0.reg.f.low()
    &&& c1.same_but_f(c0)
}

/// INC of an 8-bit operand whose value is `v`: returns the value to write
/// back and sets Z, N, H (C is kept).
pub fn inc8_value(cpu: &mut CPU, v: u8) -> (r: u8)
    ensures
        inc8_post(*old(cpu), v, *final(cpu), r),
{
    let new = v.wrapping_add(1);
    set_znh(&mut cpu.reg.f, new == 0, false, low_nibble(v) == 0x0f);
    new
}

pub open spec fn dec8_post(c0: CPU, v: u8, c1: CPU, r: u8) -> bool {
    &&& r == (v - 1) % 256
    &&& c1.reg.f.get(Flag::Z) == (r == 0)
    &&& c1.reg.f.get(Flag::N)
    &&& c1.reg.f.get(Flag::H) == (r % 16 == 15)
    &&& c1.reg.f.get(Flag::C) == c0.reg.f.get(Flag::C)
    &&& c1.reg.f.low() == c0.reg.f.low()
    &&& c1.same_but_f(c0)
}

/// DEC of an 8-bit operand whose value is `v`: returns the value to write
/// back and sets Z, N, H (C is kept).
pub fn dec8_value(cpu: &mut CPU, v: u8) -> (r: u8)
    ensures
        dec8_post(*old(cpu), v, *final(cpu), r),
{
    let new = v.wrapping_sub(1);
    set_znh(&mut cpu.reg.f, new == 0, true, low_nibble(new) == 0x0f);
    new
}

pub open spec fn rlc_post(c0: CPU, v: u8, c1: CPU, r: u8) -> bool {
    &&& r == rotl8(v)
    &&& c1.reg.f.get(Flag::Z) == (v == 0)
    &&& !c1.reg.f.get(Flag::N)
    &&& !c1.reg.f.get(Flag::H)
    &&& c1.reg.f.get(Flag::C) == (v >= 128)
    &&& c1.reg.f.low() == c0.reg.f.low()
    &&& c1.same_but_f(c0)
}

/// RLC of an operand whose value is `v` (Z reflects the old value).
pub fn rlc_value(cpu: &mut CPU, v: u8) -> (r: u8)
    ensures
        rlc_post(*old(cpu), v, *final(cpu), r),
{
    let new = rotate_left_1(v);
    set_znhc(&mut cpu.reg.f, v == 0, false, false, bit7(v));
    new
}

pub open spec fn rrc_post(c0: CPU, v: u8, c1: CPU, r: u8) -> bool {
    &&& r == rotr8(v)
    &&& c1.reg.f.get(Flag::Z) == (v == 0)
    &&& !c1.reg.f.get(Flag::N)
    &&& !c1.reg.f.get(Flag::H)
    &&& c1.reg.f.get(Flag::C) == (v % 2 == 1)
    &&& c1.reg.f.low() == c0.reg.f.low()
    &&& c1.same_but_f(c0)
}

/// RRC of an operand whose value is `v` (Z reflects the old value).
pub fn rrc_value(cpu: &mut CPU, v: u8) -> (r: u8)
    ensures
        rrc_post(*old(cpu), v, *final(cpu), r),
{
    let new = rotate_right_1(v);
    set_znhc(&mut cpu.reg.f, v == 0, false, false, bit0(v));
    new
}

fn shl1(v: u8) -> (r: u8)
    ensures
        r == (v * 2) % 256,
{
    proof {
        lemma_byte_ops(v);
    }
    v << 1u8
}

fn shr1(v: u8) -> (r: u8)
    ensures
        r == v / 2,
{
    proof {
        lemma_byte_ops(v);
    }
    v >> 1u8
}

pub open spec fn rl_post(c0: CPU, v: u8, c1: CPU, r: u8) -> bool {
    &&& r == (v * 2) % 256 + carry_val(c0.reg.f)
    &&& c1.reg.f.get(Flag::Z) == (r == 0)
    &&& !c1.reg.f.get(Flag::N)
    &&& !c1.reg.f.get(Flag::H)
    &&& c1.reg.f.get(Flag::C) == (v >= 128)
    &&& c1.reg.f.low() == c0.reg.f.low()
    &&& c1.same_but_f(c0)
}

/// RL of an operand whose value is `v`: rotate left through the carry.
pub fn rl_value(cpu: &mut CPU, v: u8) -> (r: u8)
    ensures
        rl_post(*old(cpu), v, *final(cpu), r),
{
    let c: u8 = if cpu.reg.f.contains(Flag::C) { 1 } else { 0 };
    let new = shl1(v) + c;
    set_znhc(&mut cpu.reg.f, new == 0, false, false, bit7(v));
    new
}

pub open spec fn rr_post(c0: CPU, v: u8, c1: CPU, r: u8) -> bool {
    &&& r == v / 2 + 128 * carry_val(c0.reg.f)
    &&& c1.reg.f.get(Flag::Z) == (r == 0)
    &&& !c1.reg.f.get(Flag::N)
    &&& !c1.reg.f.get(Flag::H)
    &&& c1.reg.f.get(Flag::C) == (v % 2 == 1)
    &&& c1.reg.f.low() == c0.reg.f.low()
    &&& c1.same_but_f(c0)
}

/// RR of an operand whose value is `v`: rotate right through the carry.
pub fn rr_value(cpu: &mut CPU, v: u8) -> (r: u8)
    ensures
        rr_post(*old(cpu), v, *final(cpu), r),
{
    let c: u8 = if cpu.reg.f.contains(Flag::C) { 0b_1000_0000 } else { 0 };
    let new = shr1(v) + c;
    set_znhc(&mut cpu.reg.f, new == 0, false, false, bit0(v));
    new
}

pub open spec fn sla_post(c0: CPU, v: u8, c1: CPU, r: u8) -> bool {
    &&& r == (v * 2) % 256
    &&& c1.reg.f.get(Flag::Z) == (r == 0)
    &&& !c1.reg.f.get(Flag::N)
    &&& !c1.reg.f.get(Flag::H)
    &&& c1.reg.f.get(Flag::C) == (v >= 128)
    &&& c1.reg.f.low() == c0.reg.f.low()
    &&& c1.same_but_f(c0)
}

/// SLA of an operand whose value is `v`.
pub fn sla_value(cpu: &mut CPU, v: u8) -> (r: u8)
    ensures
        sla_post(*old(cpu), v, *final(cpu), r),
{
    let new = shl1(v);
    set_znhc(&mut cpu.reg.f, new == 0, false, false, bit7(v));
    new
}

pub open spec fn sra_post(c0: CPU, v: u8, c1: CPU, r: u8) -> bool {
    &&& r == v / 2 + (if v >= 128 { 128int } else { 0 })
    &&& c1.reg.f.get(Flag::Z) == (r == 0)
    &&& !c1.reg.f.get(Flag::N)
    &&& !c1.reg.f.get(Flag::H)
    &&& c1.reg.f.get(Flag::C) == (v % 2 == 1)
    &&& c1.reg.f.low() == c0.reg.f.low()
    &&& c1.same_but_f(c0)
}

/// SRA of an operand whose value is `v`: bit 7 is kept.
pub fn sra_value(cpu: &mut CPU, v: u8) -> (r: u8)
    ensures
        sra_post(*old(cpu), v, *final(cpu), r),
{
    proof {
        lemma_byte_ops(v);
    }
    let new = (v >> 1u8) | (v & 0b_1000_0000u8);
    set_znhc(&mut cpu.reg.f, new == 0, false, false, bit0(v));
    new
}

pub open spec fn swap_post(c0: CPU, v: u8, c1: CPU, r: u8) -> bool {
    &&& r == (v % 16) * 16 + v / 16
    &&& c1.reg.f.get(Flag::Z) == (v == 0)
    &&& !c1.reg.f.get(Flag::N)
    &&& !c1.reg.f.get(Flag::H)
    &&& !c1.reg.f.get(Flag::C)
    &&& c1.reg.f.low() == c0.reg.f.low()
    &&& c1.same_but_f(c0)
}

/// SWAP of an operand whose value is `v`: exchanges its nibbles.
pub fn swap_value(cpu: &mut CPU, v: u8) -> (r: u8)
    ensures
        swap_post(*old(cpu), v, *final(cpu), r),
{
    proof {
        lemma_byte_ops(v);
    }
    let new = (v >> 4u8) + (v << 4u8);
    set_znhc(&mut cpu.reg.f, v == 0, false, false, false);
    new
}

pub open spec fn srl_post(c0: CPU, v: u8, c1: CPU, r: u8) -> bool {
    &&& r == v / 2
    &&& c1.reg.f.get(Flag::Z) == (r == 0)
    &&& !c1.reg.f.get(Flag::N)
    &&& !c1.reg.f.get(Flag::H)
    &&& c1.reg.f.get(Flag::C) == (v % 2 == 1)
    &&& c1.reg.f.low() == c0.reg.f.low()
    &&& c1.same_but_f(c0)
}

/// SRL of an operand whose value is `v`.
pub fn srl_value(cpu: &mut CPU, v: u8) -> (r: u8)
    ensures
        srl_post(*old(cpu), v, *final(cpu), r),
{
    let new = shr1(v);
    set_znhc(&mut cpu.reg.f, new == 0, false, false, bit0(v));
    new
}

pub open spec fn bit_post(c0: CPU, n: u8, v: u8, c1: CPU) -> bool {
    &&& c1.reg.f.get(Flag::Z) == !u8_bit(v, n as nat)
    &&& !c1.reg.f.get(Flag::N)
    &&& c1.reg.f.get(Flag::H)
    &&& c1.reg.f.get(Flag::C) == c0.reg.f.get(Flag::C)
    &&& c1.reg.f.low() == c0.reg.f.low()
    &&& c1.same_but_f(c0)
}

/// BIT n, v: Z is set when bit `n` of `v` is clear; H is set, C kept.
pub fn bit_value(cpu: &mut CPU, n: u8, v: u8)
    requires
        n < 8,
    ensures
        bit_post(*old(cpu), n, v, *final(cpu)),
{
    let bit_set = v.bit(n);
    set_znh(&mut cpu.reg.f, !bit_set, false, true);
}

/// RES n, v: the value with bit `n` cleared.
pub fn res_value(n: u8, v: u8) -> (r: u8)
    requires
        n < 8,
    ensures
        r == v & !(1u8 << n),
        !u8_bit(r, n as nat),
        forall|i: nat| i < 8 && i != n ==> u8_bit(r, i) == u8_bit(v, i),
{
    proof {
        assert forall|i: nat| i < 8 && i != n implies u8_bit(v & !(1u8 << n), i) == u8_bit(v, i) by {
            lemma_u8_reset(v, n, i as u8);
        }
        lemma_u8_reset(v, n, 0);
    }
    v & !(1u8 << n)
}

/// SET n, v: the value with bit `n` set.
pub fn set_value(n: u8, v: u8) -> (r: u8)
    requires
        n < 8,
    ensures
        r == v | (1u8 << n),
        u8_bit(r, n as nat),
        forall|i: nat| i < 8 && i != n ==> u8_bit(r, i) == u8_bit(v, i),
{
    proof {
        assert forall|i: nat| i < 8 && i != n implies u8_bit(v | (1u8 << n), i) == u8_bit(v, i) by {
            lemma_u8_set(v, n, i as u8);
        }
        lemma_u8_set(v, n, 0);
    }
    v | (1u8 << n)
}

pub open spec fn rlca_post(c0: CPU, c1: CPU) -> bool {
    &&& c1.reg.a == rotl8(c0.reg.a)
    &&& !c1.reg.f.get(Flag::Z)
    &&& !c1.reg.f.get(Flag::N)
    &&& !c1.reg.f.get(Flag::H)
    &&& c1.reg.f.get(Flag::C) == (c0.reg.a >= 128)
    &&& c1.reg.f.low() == c0.reg.f.low()
    &&& c1.same_but_af(c0)
}

/// RLCA: rotates A left; Z, N, H are cleared.
pub fn rlca(cpu: &mut CPU)
    ensures
        rlca_post(*old(cpu), *final(cpu)),
{
    let old = cpu.reg.a;
    cpu.reg.a = rotate_left_1(old);
    set_znhc(&mut cpu.reg.f, false, false, false, bit7(old));
}

pub open spec fn rrca_post(c0: CPU, c1: CPU) -> bool {
    &&& c1.reg.a == rotr8(c0.reg.a)
    &&& !c1.reg.f.get(Flag::Z)
    &&& !c1.reg.f.get(Flag::N)
    &&& !c1.reg.f.get(Flag::H)
    &&& c1.reg.f.get(Flag::C) == (c0.reg.a % 2 == 1)
    &&& c1.reg.f.low() == c0.reg.f.low()
    &&& c1.same_but_af(c0)
}

/// RRCA: rotates A right; Z, N, H are cleared.
pub fn rrca(cpu: &mut CPU)
    ensures
        rrca_post(*old(cpu), *final(cpu)),
{
    let old = cpu.reg.a;
    cpu.reg.a = rotate_right_1(old);
    set_znhc(&mut cpu.reg.f, false, false, false, bit0(old));
}

pub open spec fn rla_post(c0: CPU, c1: CPU) -> bool {
    &&& c1.reg.a == (c0.reg.a * 2) % 256 + carry_val(c0.reg.f)
    &&& !c1.reg.f.get(Flag::Z)
    &&& !c1.reg.f.get(Flag::N)
    &&& !c1.reg.f.get(Flag::H)
    &&& c1.reg.f.get(Flag::C) == (c0.reg.a >= 128)
    &&& c1.reg.f.low() == c0.reg.f.low()
    &&& c1.same_but_af(c0)
}

/// RLA: rotates A left through the carry; Z, N, H are cleared.
pub fn rla(cpu: &mut CPU)
    ensures
        rla_post(*old(cpu), *final(cpu)),
{
    let old = cpu.reg.a;
    let c: u8 = if cpu.reg.f.contains(Flag::C) { 1 } else { 0 };
    cpu.reg.a = shl1(old) + c;
    set_znhc(&mut cpu.reg.f, false, false, false, bit7(old));
}

pub open spec fn rra_post(c0: CPU, c1: CPU) -> bool {
    &&& c1.reg.a == c0.reg.a / 2 + 128 * carry_val(c0.reg.f)
    &&& !c1.reg.f.get(Flag::Z)
    &&& !c1.reg.f.get(Flag::N)
    &&& !c1.reg.f.get(Flag::H)
    &&& c1.reg.f.get(Flag::C) == (c0.reg.a % 2 == 1)
    &&& c1.reg.f.low() == c0.reg.f.low()
    &&& c1.same_but_af(c0)
}

/// RRA: rotates A right through the carry; Z, N, H are cleared.
pub fn rra(cpu: &mut CPU)
    ensures
        rra_post(*old(cpu), *final(cpu)),
{
    let old = cpu.reg.a;
    let c: u8 = if cpu.reg.f.contains(Flag::C) { 0b_1000_0000 } else { 0 };
    cpu.reg.a = shr1(old) + c;
    set_znhc(&mut cpu.reg.f, false, false, false, bit0(old));
}

pub open spec fn cpl_post(c0: CPU, c1: CPU) -> bool {
    &&& c1.reg.a == 255 - c0.reg.a
    &&& c1.reg.f == c0.reg.f
    &&& c1.same_but_af(c0)
}

/// CPL: complements A; the flags are left as they are.
pub fn cpl(cpu: &mut CPU)
    ensures
        cpl_post(*old(cpu), *final(cpu)),
{
    let a = cpu.reg.a;
    proof {
        lemma_byte_ops(a);
    }
    cpu.reg.a = !a;
}

pub open spec fn scf_post(c0: CPU, c1: CPU) -> bool {
    &&& c1.reg.f.get(Flag::Z) == c0.reg.f.get(Flag::Z)
    &&& !c1.reg.f.get(Flag::N)
    &&& !c1.reg.f.get(Flag::H)
    &&& c1.reg.f.get(Flag::C)
    &&& c1.reg.f.low() == c0.reg.f.low()
    &&& c1.same_but_f(c0)
}

/// SCF: sets the carry, clears N and H.
pub fn scf(cpu: &mut CPU)
    ensures
        scf_post(*old(cpu), *final(cpu)),
{
    let z = cpu.reg.f.contains(Flag::Z);
    set_znhc(&mut cpu.reg.f, z, false, false, true);
}

pub open spec fn ccf_post(c0: CPU, c1: CPU) -> bool {
    &&& c1.reg.f.get(Flag::C) == !c0.reg.f.get(Flag::C)
    &&& c1.reg.f.same_except(c0.reg.f, Flag::C)
    &&& c1.same_but_f(c0)
}

/// CCF: complements the carry; the other flags are left as they are.
pub fn ccf(cpu: &mut CPU)
    ensures
        ccf_post(*old(cpu), *final(cpu)),
{
    cpu.reg.f.toggle(Flag::C);
}

/// The value of A after DAA, following the adjustment rules of the
/// instruction: after an addition (`n` clear) add 0x60 on carry or when A
/// exceeds 0x99, then 0x06 on half carry or when the low nibble exceeds 9;
/// after a subtraction subtract 0x60 on carry and 0x06 on half carry.
pub open spec fn daa_value(a: u8, n: bool, h: bool, c: bool) -> u8 {
    if !n {
        let hi: u8 = if c || a > 0x99 { ((a + 0x60) % 256) as u8 } else { a };
        if h || hi % 16 > 9 { ((hi + 0x06) % 256) as u8 } else { hi }
    } else {
        let hi: u8 = if c { ((a - 0x60) % 256) as u8 } else { a };
        if h { ((hi - 0x06) % 256) as u8 } else { hi }
    }
}

fn daa_add(a: u8, h: bool, c: bool) -> (r: (u8, bool))
    ensures
        r.0 == daa_value(a, false, h, c),
        r.1 == (c || a > 0x99),
{
    let mut new = a;
    let mut c_out = c;
    if c || new > 0x99 {
        new = new.wrapping_add(0x60);
        c_out = true;
    }
    if h || low_nibble(new) > 0x09 {
        new = new.wrapping_add(0x6);
    }
    (new, c_out)
}

fn daa_sub(a: u8, h: bool, c: bool) -> (r: u8)
    ensures
        r == daa_value(a, true, h, c),
{
    let mut new = a;
    if c {
        new = new.wrapping_sub(0x60);
    }
    if h {
        new = new.wrapping_sub(0x6);
    }
    new
}

pub open spec fn daa_post(c0: CPU, c1: CPU) -> bool {
    &&& c1.reg.a == daa_value(
        c0.reg.a,
        c0.reg.f.get(Flag::N),
        c0.reg.f.get(Flag::H),
        c0.reg.f.get(Flag::C),
    )
    &&& c1.reg.f.get(Flag::Z) == (c1.reg.a == 0)
    &&& c1.reg.f.get(Flag::N) == c0.reg.f.get(Flag::N)
    &&& !c1.reg.f.get(Flag::H)
    &&& c1.reg.f.get(Flag::C) == (c0.reg.f.get(Flag::C) || (!c0.reg.f.get(
        Flag::N,
    ) && c0.reg.a > 0x99))
    &&& c1.reg.f.low() == c0.reg.f.low()
    &&& c1.same_but_af(c0)
}

/// DAA: decimal adjustment of A after a BCD addition or subtraction.
pub fn daa(cpu: &mut CPU)
    ensures
        daa_post(*old(cpu), *final(cpu)),
{
    let n = cpu.reg.f.contains(Flag::N);
    let h = cpu.reg.f.contains(Flag::H);
    let c = cpu.reg.f.contains(Flag::C);
    let (new, c_out) = if !n {
        daa_add(cpu.reg.a, h, c)
    } else {
        (daa_sub(cpu.reg.a, h, c), c)
    };
    cpu.reg.a = new;
    set_znhc(&mut cpu.reg.f, new == 0, n, false, c_out);
}

/// CP sets the flags SUB sets for the same A and operand, and leaves A
/// alone, where SUB stores the difference.
pub proof fn law_cp_is_sub_without_store(c0: CPU, v: u8, c1: CPU, r: u8, c2: CPU)
    requires
        cp8_post(c0, v, c1, r),
        sub8_post(c0, v, c2),
    ensures
        c1.reg.a == c0.reg.a,
        c2.reg.a == r,
        c1.reg.f.get(Flag::Z) == c2.reg.f.get(Flag::Z),
        c1.reg.f.get(Flag::N) && c2.reg.f.get(Flag::N),
        c1.reg.f.get(Flag::H) == c2.reg.f.get(Flag::H),
        c1.reg.f.get(Flag::C) == c2.reg.f.get(Flag::C),
        c1.reg.f.low() == c2.reg.f.low(),
        c1 == (CPU { reg: Registers { a: c1.reg.a, f: c1.reg.f, ..c2.reg }, ..c2 }),
{
}

/// Whether both nibbles of `b` are decimal digits.
pub open spec fn is_bcd(b: u8) -> bool {
    b / 16 <= 9 && b % 16 <= 9
}

/// The number 0..99 a BCD byte stands for.
pub open spec fn bcd_value(b: u8) -> int {
    (b / 16) as int * 10 + (b % 16) as int
}

/// A byte made of the nibbles `h` and `l`.
proof fn lemma_nibbles(r: u8, h: int, l: int)
    requires
        r == 16 * h + l,
        0 <= l < 16,
        0 <= h < 16,
    ensures
        r / 16 == h,
        r % 16 == l,
{
}

/// DAA after SUB of BCD bytes gives the BCD difference (mod 100).
#[verifier::spinoff_prover]
proof fn lemma_daa_sub(x: u8, y: u8)
    requires
        is_bcd(x),
        is_bcd(y),
    ensures
        ({
            let r = daa_value(((x - y) % 256) as u8, true, x % 16 < y % 16, x < y);
            &&& is_bcd(r)
            &&& bcd_value(r) == (bcd_value(x) - bcd_value(y) + 100) % 100
            &&& (x < y) == (bcd_value(x) < bcd_value(y))
        }),
{
    let xa: int = (x / 16) as int;
    let xb: int = (x % 16) as int;
    let ya: int = (y / 16) as int;
    let yb: int = (y % 16) as int;
    assert(x == 16 * xa + xb && y == 16 * ya + yb);
    let raw = ((x - y) % 256) as u8;
    let r = daa_value(raw, true, x % 16 < y % 16, x < y);
    if xb >= yb && xa >= ya {
        assert(raw == x - y);
        assert(r == raw);
        lemma_nibbles(r, xa - ya, xb - yb);
    } else if xb < yb && xa > ya {
        assert(raw == x - y);
        assert(r == raw - 6);
        lemma_nibbles(r, xa - ya - 1, 10 + xb - yb);
    } else if xb >= yb {
        assert(raw == x - y + 256);
        assert(r == raw - 0x60);
        lemma_nibbles(r, 10 + xa - ya, xb - yb);
    } else {
        assert(raw == x - y + 256);
        assert(r == raw - 0x66);
        lemma_nibbles(r, 9 + xa - ya, 10 + xb - yb);
    }
}

/// The DAA result after ADD of BCD bytes, for a digit sum `lo` of the low
/// nibbles and `hi` of the high ones.
#[verifier::spinoff_prover]
#[verifier::rlimit(40)]
proof fn lemma_daa_add_case(x: u8, y: u8, hi: int, lo: int)
    requires
        is_bcd(x),
        is_bcd(y),
        hi == (x / 16) as int + (y / 16) as int,
        lo == (x % 16) as int + (y % 16) as int,
    ensures
        ({
            let s = ((x + y) % 256) as u8;
            let r = daa_value(s, false, x % 16 + y % 16 > 15, x + y > 255);
            &&& r == if lo <= 9 {
                if hi <= 9 { 16 * hi + lo } else { 16 * (hi - 10) + lo }
            } else {
                if hi <= 8 { 16 * (hi + 1) + lo - 10 } else { 16 * (hi - 9) + lo - 10 }
            }
            &&& ((x + y > 255) || s > 0x99) == (hi * 10 + lo >= 100)
        }),
{
    let s = ((x + y) % 256) as u8;
    assert(x + y == 16 * hi + lo);
    if x + y > 255 {
        assert(s == x + y - 256);
    } else {
        assert(s == x + y);
    }
    if lo <= 9 {
        lemma_nibbles(s, hi % 16, lo);
    } else if lo <= 15 {
        lemma_nibbles(s, hi % 16, lo);
    } else {
        lemma_nibbles(s, (hi + 1) % 16, lo - 16);
    }
    let h0: u8 = if x + y > 255 || s > 0x99 { ((s + 0x60) % 256) as u8 } else { s };
    if lo <= 9 {
        if hi <= 9 {
            assert(h0 == s);
        } else {
            assert(h0 == 16 * (hi - 10) + lo);
        }
        lemma_nibbles(h0, (h0 / 16) as int, lo);
    } else if lo <= 15 {
        if hi <= 8 {
            assert(h0 == s);
        } else {
            assert(h0 == 16 * (hi - 10) + lo || h0 == 16 * (hi + 6) + lo);
        }
        lemma_nibbles(h0, (h0 / 16) as int, lo);
    } else {
        if hi <= 8 {
            assert(h0 == s);
        } else {
            assert(h0 == (16 * (hi + 1) + lo - 16 + 0x60) % 256);
        }
    }
}

/// DAA after ADD of BCD bytes gives the BCD sum (mod 100).
proof fn lemma_daa_add(x: u8, y: u8)
    requires
        is_bcd(x),
        is_bcd(y),
    ensures
        ({
            let s = ((x + y) % 256) as u8;
            let r = daa_value(s, false, x % 16 + y % 16 > 15, x + y > 255);
            &&& is_bcd(r)
            &&& bcd_value(r) == (bcd_value(x) + bcd_value(y)) % 100
            &&& ((x + y > 255) || s > 0x99) == (bcd_value(x) + bcd_value(y) >= 100)
        }),
{
    let hi: int = (x / 16) as int + (y / 16) as int;
    let lo: int = (x % 16) as int + (y % 16) as int;
    lemma_daa_add_case(x, y, hi, lo);
    let s = ((x + y) % 256) as u8;
    let r = daa_value(s, false, x % 16 + y % 16 > 15, x + y > 255);
    if lo <= 9 {
        if hi <= 9 {
            lemma_nibbles(r, hi, lo);
        } else {
            lemma_nibbles(r, hi - 10, lo);
        }
    } else {
        if hi <= 8 {
            lemma_nibbles(r, hi + 1, lo - 10);
        } else {
            lemma_nibbles(r, hi - 9, lo - 10);
        }
    }
}

/// BCD arithmetic: for BCD `x` and `y`, `ADD y` (from A = `x`) followed by
/// DAA leaves the BCD encoding of `x + y` mod 100 in A, with C set when the
/// sum reaches 100; `SUB y` followed by DAA leaves the BCD encoding of
/// `x - y` mod 100, with C set when `y` is larger.
pub proof fn law_daa_decimal(c0: CPU, y: u8, c1: CPU, c2: CPU, sub: bool)
    requires
        is_bcd(c0.reg.a),
        is_bcd(y),
        if sub { sub8_post(c0, y, c1) } else { add8_post(c0, y, c1) },
        daa_post(c1, c2),
    ensures
        is_bcd(c2.reg.a),
        sub ==> bcd_value(c2.reg.a) == (bcd_value(c0.reg.a) - bcd_value(y) + 100) % 100,
        sub ==> c2.reg.f.get(Flag::C) == (bcd_value(c0.reg.a) < bcd_value(y)),
        !sub ==> bcd_value(c2.reg.a) == (bcd_value(c0.reg.a) + bcd_value(y)) % 100,
        !sub ==> c2.reg.f.get(Flag::C) == (bcd_value(c0.reg.a) + bcd_value(y) >= 100),
{
    if sub {
        lemma_daa_sub(c0.reg.a, y);
    } else {
        lemma_daa_add(c0.reg.a, y);
    }
}

} // verus!
