use vstd::prelude::*;

use crate::bits::flag;
use crate::bits::with_flag;
use crate::cpu::addr_mode::word;
use crate::cpu::CpuQueryItem;
use crate::cpu_bus::CpuBusQueryItem;

verus! {

/// A byte read as a signed number in two's complement.
pub open spec fn spec_signed(v: u8) -> int {
    if v >= 0x80 {
        v - 0x100
    } else {
        v as int
    }
}

/// Each of the eight flags of the status register reads back as it was
/// last written, and a write to one flag leaves the seven others.
pub proof fn lemma_status_flags(v: u8, mask: u8, on: bool, other: u8)
    requires
        mask == 0x01 || mask == 0x02 || mask == 0x04 || mask == 0x08 || mask == 0x10 || mask
            == 0x20 || mask == 0x40 || mask == 0x80,
        other == 0x01 || other == 0x02 || other == 0x04 || other == 0x08 || other == 0x10 || other
            == 0x20 || other == 0x40 || other == 0x80,
    ensures
        flag(with_flag(v, mask, on), mask) == on,
        other != mask ==> flag(with_flag(v, mask, on), other) == flag(v, other),
{
    assert((v | mask) & mask != 0 && (v & !mask) & mask == 0 && (other != mask ==> (v | mask)
        & other == v & other && (v & !mask) & other == v & other)) by (bit_vector)
        requires
            mask == 0x01 || mask == 0x02 || mask == 0x04 || mask == 0x08 || mask == 0x10 || mask
                == 0x20 || mask == 0x40 || mask == 0x80,
            other == 0x01 || other == 0x02 || other == 0x04 || other == 0x08 || other == 0x10
                || other == 0x20 || other == 0x40 || other == 0x80,
    ;
}

/// The overflow rule of the adder is the overflow of signed addition: the
/// rule holds exactly where the first operand and the second agree in sign
/// and the result does not.
pub proof fn lemma_overflow_rule(a: u8, m: u8, r: u8)
    ensures
        ((a ^ r) & !(a ^ m) & 0x80 != 0) == ((a >= 0x80) == (m >= 0x80) && (a >= 0x80) != (r
            >= 0x80)),
        (r & 0x80 != 0) == (r >= 0x80),
{
    assert(((a ^ r) & !(a ^ m) & 0x80 != 0) == ((a >= 0x80) == (m >= 0x80) && (a >= 0x80) != (r
        >= 0x80)) && (r & 0x80 != 0) == (r >= 0x80)) by (bit_vector);
}

/// Adding with carry agrees with arithmetic in two's complement, for
/// every accumulator, operand and carry: the result is the sum modulo 256,
/// carry is set exactly where the unsigned sum does not fit in a byte,
/// overflow exactly where the signed sum does not fit in a signed byte, zero
/// exactly where the result is zero, and negative exactly where the result
/// as a signed number is below zero.
pub proof fn lemma_add_reference(s: CpuQueryItem, m: u8)
    ensures
        ({
            let c: int = if s.cpu.status.carry() {
                1
            } else {
                0
            };
            let t = s.spec_add(m).cpu;
            let signed = spec_signed(s.cpu.a) + spec_signed(m) + c;
            &&& t.a == (s.cpu.a + m + c) % 256
            &&& t.status.carry() == (s.cpu.a + m + c > 255)
            &&& t.status.overflow() == (signed < -128 || signed > 127)
            &&& t.status.zero() == (t.a == 0)
            &&& t.status.negative() == (spec_signed(t.a) < 0)
            &&& t.status.no_interrupt() == s.cpu.status.no_interrupt()
            &&& t.status.decimal() == s.cpu.status.decimal()
        }),
{
    let a = s.cpu.a;
    let c: int = if s.cpu.status.carry() {
        1
    } else {
        0
    };
    let sum = a + m + c;
    let r = (sum % 256) as u8;
    let v = (a ^ r) & !(a ^ m) & 0x80 != 0;
    let st0 = s.cpu.status.0;
    let st1 = with_flag(st0, 0x01, sum > 255);
    let st2 = with_flag(st1, 0x02, r == 0);
    let st3 = with_flag(st2, 0x80, r & 0x80 != 0);
    let st4 = with_flag(st3, 0x40, v);
    assert(s.spec_add(m).cpu.status.0 == st4);
    lemma_overflow_rule(a, m, r);
    lemma_status_flags(st3, 0x40, v, 0x01);
    lemma_status_flags(st3, 0x40, v, 0x02);
    lemma_status_flags(st3, 0x40, v, 0x04);
    lemma_status_flags(st3, 0x40, v, 0x08);
    lemma_status_flags(st3, 0x40, v, 0x80);
    lemma_status_flags(st2, 0x80, r & 0x80 != 0, 0x01);
    lemma_status_flags(st2, 0x80, r & 0x80 != 0, 0x02);
    lemma_status_flags(st2, 0x80, r & 0x80 != 0, 0x04);
    lemma_status_flags(st2, 0x80, r & 0x80 != 0, 0x08);
    lemma_status_flags(st1, 0x02, r == 0, 0x01);
    lemma_status_flags(st1, 0x02, r == 0, 0x04);
    lemma_status_flags(st1, 0x02, r == 0, 0x08);
    lemma_status_flags(st0, 0x01, sum > 255, 0x04);
    lemma_status_flags(st0, 0x01, sum > 255, 0x08);
}

/// Subtracting with borrow is adding the operand with all bits turned,
/// and agrees with subtraction in two's complement: with the borrow `b`,
/// which is one where carry is clear, the result is the difference modulo
/// 256, carry is set exactly where the unsigned difference is not below
/// zero, and overflow exactly where the signed difference does not fit in a
/// signed byte.
pub proof fn lemma_subtract_reference(s: CpuQueryItem, m: u8)
    ensures
        ({
            let b: int = if s.cpu.status.carry() {
                0
            } else {
                1
            };
            let t = s.spec_add(m ^ 0xFF).cpu;
            let signed = spec_signed(s.cpu.a) - spec_signed(m) - b;
            &&& t.a == (s.cpu.a - m - b) % 256
            &&& t.status.carry() == (s.cpu.a - m - b >= 0)
            &&& t.status.overflow() == (signed < -128 || signed > 127)
        }),
{
    let n = m ^ 0xFF;
    assert(n == 255 - m) by (bit_vector)
        requires
            n == m ^ 0xFF,
    ;
    lemma_add_reference(s, n);
}

/// A pointer that ends in 0xFF has the start of its page at the pointer
/// with the low byte cleared.
pub proof fn lemma_page_start(ptr: u16)
    requires
        ptr % 0x100 == 0xFF,
    ensures
        ptr - 0xFF == ptr & 0xFF00,
{
    assert(ptr % 0x100 == 0xFF ==> ptr - 0xFF == ptr & 0xFF00) by (bit_vector);
}

/// An indirect jump through a pointer that ends in 0xFF takes the low byte
/// of its target at the pointer and the high byte at the start of the
/// pointer's page, not in the next page.
pub proof fn lemma_indirect_page_bug(s: CpuQueryItem)
    requires
        s.spec_operand_word().1 % 0x100 == 0xFF,
    ensures
        ({
            let (s1, ptr) = s.spec_operand_word();
            let (s2, hi) = s1.spec_bus_read(ptr & 0xFF00);
            let (s3, lo) = s2.spec_bus_read(ptr);
            &&& s.spec_ind() == (s3, (Some(word(lo, hi)), false))
            &&& s.spec_ind().0.spec_jmp(s.spec_ind().1.0).cpu.pc == word(lo, hi)
        }),
{
    lemma_page_start(s.spec_operand_word().1);
}

/// The byte in work RAM that a stack pointer stands for.
pub open spec fn spec_stack_slot(bus: CpuBusQueryItem, sp: u8) -> u8 {
    bus.wram.spec_read((0x100 + sp) as u16)
}

/// A byte that was pushed is the byte that is pulled next, and the stack
/// pointer is then where it was; the push moves the stack pointer one down,
/// from 0x00 to 0xFF, and the pull one up, from 0xFF to 0x00.
pub proof fn lemma_push_pull(s: CpuQueryItem, x: u8)
    ensures
        s.spec_stack_push(x).spec_stack_pull().1 == x,
        s.spec_stack_push(x).spec_stack_pull().0.cpu.sp == s.cpu.sp,
        s.spec_stack_push(x).cpu.sp == (if s.cpu.sp == 0 {
            0xFFu8
        } else {
            (s.cpu.sp - 1) as u8
        }),
        s.spec_stack_pull().0.cpu.sp == (if s.cpu.sp == 0xFF {
            0u8
        } else {
            (s.cpu.sp + 1) as u8
        }),
        spec_stack_slot(s.spec_stack_push(x).bus, s.cpu.sp) == x,
{
    reveal(CpuQueryItem::spec_bus_read);
    reveal(CpuQueryItem::spec_bus_write);
    reveal(CpuBusQueryItem::spec_cpu_read);
    reveal(CpuBusQueryItem::spec_cpu_write);
    let at = (0x100 + s.cpu.sp) as u16;
    crate::ram::lemma_ram_write_read::<0x800>(s.bus.wram.data, at, x, at);
}

} // verus!
