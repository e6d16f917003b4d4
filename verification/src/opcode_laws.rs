use vstd::prelude::*;
use crate::cpu::CpuView;
use crate::exec::dispatch::{dispatch_spec, execute_spec};
use crate::instruction::{is_undocumented, mnemonic_text, with_operand, Instruction};
use crate::exec::adc::{adc_alu, bit7, carry_set, decimal_mode};
use crate::exec::sbc::sbc_alu;
use crate::exec::ExecResult;
use crate::exec::utils::{bcd_encodable, bcd_encoding, bcd_value, bcd_wrapped};
use crate::flags::{cleared, raised, raised_if, replaced, with_sign_and_zero};
use crate::cpu::{push_spec, RegisterName};
use crate::decoder::opcode_spec;
use crate::operand::{addr_step, effective_addr, read_step, write_step, Operand, OperandError};

verus! {

/// What running `i` leaves (once its base cycles are charged), where it runs
/// at all
pub open spec fn ran(s: CpuView, i: Instruction) -> (CpuView, ExecResult) {
    execute_spec(s, i)->0
}

/// True when `s2` is what a conditional branch by `offset` leaves of `s`
/// (base cycles included), taken or not: only the program counter and the
/// clock move. A taken branch lands at the program counter plus the offset,
/// wrapping at 16 bits, and costs one more cycle, two when it lands on
/// another page.
pub open spec fn branched(s: CpuView, offset: i8, taken: bool, s2: CpuView) -> bool {
    let target = (s.pc + offset) % 0x1_0000;
    let extra: int = if !taken {
        0
    } else if s.pc / 256 == target / 256 {
        1
    } else {
        2
    };
    &&& s2.pc == (if taken { target } else { s.pc as int })
    &&& s2.cycles == s.cycles + (if s.suspended { 0 } else { 2 + extra })
    &&& s2.a == s.a && s2.x == s.x && s2.y == s.y && s2.sp == s.sp && s2.p == s.p
    &&& s2.mem == s.mem && s2.suspended == s.suspended && s2.bcd_enabled == s.bcd_enabled
}

/// Each conditional branch tests its flag with its polarity: BCC and BCS
/// CARRY (bit 0), BNE and BEQ ZERO (bit 1), BVC and BVS OVERFLOW (bit 6), BPL
/// and BMI SIGN (bit 7); the first of each pair branches when the bit is
/// clear, the second when it is set.
#[verifier::spinoff_prover]
pub proof fn law_branches_test_their_flags(s: CpuView, o: i8)
    ensures
        dispatch_spec(s, Instruction::BCC(Operand::Offset(o))) matches Some((s2, r)) && r is Ok
            && branched(s, o, s.p & 0x01 == 0, s2),
        dispatch_spec(s, Instruction::BCS(Operand::Offset(o))) matches Some((s2, r)) && r is Ok
            && branched(s, o, s.p & 0x01 != 0, s2),
        dispatch_spec(s, Instruction::BNE(Operand::Offset(o))) matches Some((s2, r)) && r is Ok
            && branched(s, o, s.p & 0x02 == 0, s2),
        dispatch_spec(s, Instruction::BEQ(Operand::Offset(o))) matches Some((s2, r)) && r is Ok
            && branched(s, o, s.p & 0x02 != 0, s2),
        dispatch_spec(s, Instruction::BVC(Operand::Offset(o))) matches Some((s2, r)) && r is Ok
            && branched(s, o, s.p & 0x40 == 0, s2),
        dispatch_spec(s, Instruction::BVS(Operand::Offset(o))) matches Some((s2, r)) && r is Ok
            && branched(s, o, s.p & 0x40 != 0, s2),
        dispatch_spec(s, Instruction::BPL(Operand::Offset(o))) matches Some((s2, r)) && r is Ok
            && branched(s, o, s.p & 0x80 == 0, s2),
        dispatch_spec(s, Instruction::BMI(Operand::Offset(o))) matches Some((s2, r)) && r is Ok
            && branched(s, o, s.p & 0x80 != 0, s2),
{
    let p = s.p;
    assert((p & 0x01 == 0x01) == (p & 0x01 != 0) && (p & 0x02 == 0x02) == (p & 0x02 != 0) && (p
        & 0x40 == 0x40) == (p & 0x40 != 0) && (p & 0x80 == 0x80) == (p & 0x80 != 0)) by (bit_vector);
}

/// 1 when CARRY (bit 0) is set in `p`, 0 otherwise
pub open spec fn carry_in(p: u8) -> int {
    if p & 0x01 != 0 {
        1
    } else {
        0
    }
}

/// True when ZERO (bit 1) of `p` tells whether `v` is zero and SIGN (bit 7)
/// whether `v` is at least 0x80
pub open spec fn describes(p: u8, v: u8) -> bool {
    (p & 0x02 != 0) == (v == 0) && (p & 0x80 != 0) == (v >= 0x80)
}

/// True when both nibbles of `v` are decimal digits
pub open spec fn is_decimal_byte(v: u8) -> bool {
    v / 16 <= 9 && v % 16 <= 9
}

/// The number from 0 to 99 that a byte of two decimal digits stands for
pub open spec fn decimal_of(v: u8) -> int {
    (v / 16) * 10 + v % 16
}

/// ADC adds the operand and the carry to A. In decimal mode (decimal mode
/// available and BCD set), for operands of decimal digits, A becomes the
/// decimal digits of the sum modulo 100 and CARRY tells whether the sum
/// passed 99; in binary mode A becomes the sum modulo 256 and CARRY tells
/// whether it passed 255, and OVERFLOW whether bit 7 of A changed. Either way
/// ZERO and SIGN describe the new A.
#[verifier::spinoff_prover]
pub proof fn law_adc_adds_with_carry(s: CpuView, op: Operand)
    requires
        read_step(s, op).1 is Ok,
    ensures
        ({
            let m = read_step(s, op).1->Ok_0;
            let c = carry_in(s.p);
            let decimal = s.bcd_enabled && s.p & 0x08 != 0;
            &&& decimal && is_decimal_byte(s.a) && is_decimal_byte(m) ==> (execute_spec(s, Instruction::ADC(op)) matches Some((s2, r))
                && r is Ok && is_decimal_byte(s2.a) && decimal_of(s2.a) == (decimal_of(s.a)
                + decimal_of(m) + c) % 100 && (s2.p & 0x01 != 0) == (decimal_of(s.a) + decimal_of(m)
                + c > 99) && describes(s2.p, s2.a))
            &&& !decimal ==> (execute_spec(s, Instruction::ADC(op)) matches Some((s2, r)) && r is Ok && s2.a == (s.a + m + c)
                % 256 && (s2.p & 0x01 != 0) == (s.a + m + c > 255) && describes(s2.p, s2.a)
                && (s2.p & 0x40 != 0) == ((s.a >= 0x80) != (s2.a >= 0x80)))
        }),
{
    let s1 = read_step(s, op).0;
    let m = read_step(s, op).1->Ok_0;
    assert(s1.p == s.p && s1.a == s.a && s1.bcd_enabled == s.bcd_enabled);
    if s.bcd_enabled && s.p & 0x08 != 0 {
        if is_decimal_byte(s.a) && is_decimal_byte(m) {
            lemma_adc_decimal(s1, m);
        }
    } else {
        lemma_adc_binary(s1, m);
    }
}

#[verifier::spinoff_prover]
proof fn lemma_flag_bits(p: u8)
    ensures
        (p & 0b0000_0001 == 0b0000_0001) == (p & 0x01 != 0),
        (p & 0b0000_1000 == 0b0000_1000) == (p & 0x08 != 0),
{
    assert((p & 0b0000_0001 == 0b0000_0001) == (p & 0x01 != 0) && (p & 0b0000_1000 == 0b0000_1000)
        == (p & 0x08 != 0)) by (bit_vector);
}

/// ADC in decimal mode on bytes of decimal digits
#[verifier::spinoff_prover]
proof fn lemma_adc_decimal(s: CpuView, n: u8)
    requires
        s.bcd_enabled && s.p & 0x08 != 0,
        is_decimal_byte(s.a),
        is_decimal_byte(n),
    ensures
        adc_alu(s, n) matches Some(s2) && is_decimal_byte(s2.a) && decimal_of(s2.a) == (decimal_of(s.a)
            + decimal_of(n) + carry_in(s.p)) % 100 && (s2.p & 0x01 != 0) == (decimal_of(s.a)
            + decimal_of(n) + carry_in(s.p) > 99) && describes(s2.p, s2.a),
{
    lemma_flag_bits(s.p);
    assert(decimal_mode(s));
    let c = carry_in(s.p);
    let da = decimal_of(s.a);
    let dn = decimal_of(n);
    assert(bcd_value(s.a as int) == da);
    assert(bcd_value(n as int) == dn);
    let v = da + dn + c;
    assert(0 <= v <= 199);
    let w = v % 100;
    assert(bcd_wrapped(v) == w);
    lemma_two_digits(w);
    let t = bcd_encoding(v);
    let a2 = (t % 256) as u8;
    let p2 = raised_if(raised_if(s.p, 0b0000_0001, v > 99), 0b0100_0000, bit7(s.a as int) != bit7(t));
    assert(adc_alu(s, n) == Some(s.with_a(a2).with_p(with_sign_and_zero(p2, a2))));
    lemma_carry_then_overflow_then_sign_and_zero(s.p);
    assert(a2 / 16 == w / 10 && a2 % 16 == w % 10);
}

/// The byte of the two decimal digits of `w`, read as hexadecimal digits
proof fn lemma_two_digits(w: int)
    requires
        0 <= w < 100,
    ensures
        0 <= 16 * (w / 10) + w % 10 < 256,
        (16 * (w / 10) + w % 10) / 16 == w / 10,
        (16 * (w / 10) + w % 10) % 16 == w % 10,
        (16 * (w / 10) + w % 10) % 256 == 16 * (w / 10) + w % 10,
{
    let q = w / 10;
    let r = w % 10;
    assert(0 <= q <= 9 && 0 <= r <= 9);
    assert((16 * q + r) / 16 == q && (16 * q + r) % 16 == r) by (nonlinear_arith)
        requires
            0 <= q <= 9,
            0 <= r <= 9,
    ;
}

/// ADC in binary mode
#[verifier::spinoff_prover]
proof fn lemma_adc_binary(s: CpuView, n: u8)
    requires
        !(s.bcd_enabled && s.p & 0x08 != 0),
    ensures
        adc_alu(s, n) matches Some(s2) && s2.a == (s.a + n + carry_in(s.p)) % 256 && (s2.p & 0x01
            != 0) == (s.a + n + carry_in(s.p) > 255) && describes(s2.p, s2.a) && (s2.p & 0x40 != 0)
            == ((s.a >= 0x80) != (s2.a >= 0x80)),
{
    lemma_flag_bits(s.p);
    assert(!decimal_mode(s));
    let t = s.a + n + carry_in(s.p);
    assert(bit7(s.a as int) == (if s.a >= 0x80 { 1int } else { 0 }));
    assert(bit7(t) == (if t % 256 >= 0x80 { 1int } else { 0 }));
    lemma_carry_then_overflow_then_sign_and_zero(s.p);
}

/// Raising or clearing CARRY, then OVERFLOW, then describing a value leaves
/// CARRY as it was raised or cleared, and ZERO and SIGN describing the value
#[verifier::spinoff_prover]
proof fn lemma_carry_then_overflow_then_sign_and_zero(p: u8)
    ensures
        forall|c: bool, o: bool, v: u8|
            #![trigger with_sign_and_zero(raised_if(raised_if(p, 0x01, c), 0x40, o), v)]
            {
                let q = with_sign_and_zero(raised_if(raised_if(p, 0x01, c), 0x40, o), v);
                &&& (q & 0x01 != 0) == c
                &&& (q & 0x40 != 0) == o
                &&& (q & 0x02 != 0) == (v == 0)
                &&& (q & 0x80 != 0) == (v >= 0x80)
            },
{
    assert forall|c: bool, o: bool, v: u8|
        #![trigger with_sign_and_zero(raised_if(raised_if(p, 0x01, c), 0x40, o), v)]
        {
            let q = with_sign_and_zero(raised_if(raised_if(p, 0x01, c), 0x40, o), v);
            &&& (q & 0x01 != 0) == c
            &&& (q & 0x40 != 0) == o
            &&& (q & 0x02 != 0) == (v == 0)
            &&& (q & 0x80 != 0) == (v >= 0x80)
        } by {
        let p1 = raised_if(p, 0x01, c);
        assert((p1 & 0x01 != 0) == c) by (bit_vector)
            requires
                p1 == if c {
                    (p | 0x01) | 0x20
                } else {
                    (p & !0x01u8) | 0x20
                },
        ;
        let p2 = raised_if(p1, 0x40, o);
        assert((p2 & 0x01) == (p1 & 0x01) && (p2 & 0x40 != 0) == o) by (bit_vector)
            requires
                p2 == if o {
                    (p1 | 0x40) | 0x20
                } else {
                    (p1 & !0x40u8) | 0x20
                },
        ;
        crate::laws::law_sign_and_zero_describe_the_value(p2, v);
        let q = with_sign_and_zero(p2, v);
        assert((q & 0x01) == (p2 & 0x01) && (q & 0x40) == (p2 & 0x40)) by (bit_vector)
            requires
                q & 0x5D == p2 & 0x5D,
        ;
        assert((q & 0x02 == 0x02) == (q & 0x02 != 0) && (q & 0x80 == 0x80) == (q & 0x80 != 0))
            by (bit_vector);
    }
}

/// The little-endian word whose low byte is at `lo` and high byte at `hi`
pub open spec fn word_at(s: CpuView, lo: int, hi: int) -> int {
    s.mem[lo as u64] + 256 * s.mem[hi as u64]
}

/// True when memory answers at both addresses
pub open spec fn mapped2(s: CpuView, lo: int, hi: int) -> bool {
    s.mem.contains_key(lo as u64) && s.mem.contains_key(hi as u64)
}

/// True when taking the address of an operand gives `e` in state `s`,
/// charging one cycle (unless the clock is suspended) exactly when `cross`
/// holds, and changing nothing else
pub open spec fn addressed(s: CpuView, op: Operand, e: int, cross: bool) -> bool {
    &&& addr_step(s, op).1 == Ok::<u16, OperandError>(e as u16)
    &&& 0 <= e < 0x1_0000
    &&& addr_step(s, op).0 == CpuView {
        cycles: if cross && !s.suspended {
            s.cycles + 1
        } else {
            s.cycles
        },
        ..s
    }
}

/// The addressing modes of the processor:
/// - absolute `a` is `a`;
/// - `a` indexed by X or Y is `a` plus the register, wrapping within the zero
///   page when `a` lies there and at 16 bits otherwise, with a cycle more when
///   the sum leaves the page of `a`;
/// - indirect `a` is the word at `a`, its high byte read from the same page;
/// - `(z,X)` is the word at zero-page `z + X`, both bytes read in the zero page;
/// - `(z),Y` is the word `p` at zero-page `z` plus Y, wrapping at 16 bits, with
///   a cycle more when `p + Y` leaves the page of `p`.
pub open spec fn addressing_rule(s: CpuView, op: Operand) -> bool {
    match op {
        Operand::Absolute(a) => addressed(s, op, a as int, false),
        Operand::Indexed(a, r) => {
            let i: int = if r == RegisterName::X {
                s.x as int
            } else {
                s.y as int
            };
            let e = if a < 0x100 {
                (a + i) % 0x100
            } else {
                (a + i) % 0x1_0000
            };
            (r == RegisterName::X || r == RegisterName::Y) ==> addressed(s, op, e, a / 256 != e / 256)
        },
        Operand::Indirect(a) => {
            let hi = (a / 256) * 256 + (a + 1) % 256;
            mapped2(s, a as int, hi) ==> addressed(s, op, word_at(s, a as int, hi), false)
        },
        Operand::PreIndexedIndirect(z) => {
            let lo = (z + s.x) % 0x100;
            let hi = (z + s.x + 1) % 0x100;
            mapped2(s, lo, hi) ==> addressed(s, op, word_at(s, lo, hi), false)
        },
        Operand::PostIndexedIndirect(z) => {
            let p = word_at(s, z as int, (z + 1) % 0x100);
            mapped2(s, z as int, (z + 1) % 0x100) ==> addressed(
                s,
                op,
                (p + s.y) % 0x1_0000,
                p / 256 != (p + s.y) / 256,
            )
        },
        _ => true,
    }
}

/// Every operand is addressed as `addressing_rule` describes
#[verifier::spinoff_prover]
pub proof fn law_addressing_modes(s: CpuView, op: Operand)
    ensures
        addressing_rule(s, op),
{
    match op {
        Operand::Indexed(a, r) => {
            if r == RegisterName::X || r == RegisterName::Y {
                assert(effective_addr(s, op) is Ok);
            }
        },
        Operand::PreIndexedIndirect(z) => {
            let ptr = (z + s.x) % 0x100;
            assert((ptr + 1) % 0x100 == (z + s.x + 1) % 0x100);
        },
        Operand::PostIndexedIndirect(z) => {
            if mapped2(s, z as int, (z + 1) % 0x100) {
                let p = word_at(s, z as int, (z + 1) % 0x100);
                let lo = s.mem[z as u64];
                let hi = s.mem[((z + 1) % 0x100) as u64];
                assert(((lo + 256 * hi) as u16) == p);
                let fin = p + s.y;
                assert((p / 256 != fin / 256) == (p / 256 != (p + s.y) / 256));
            }
        },
        _ => {},
    }
}

/// True when `s2` is `s1` with A replaced by `v` and the status register
/// replaced by one where ZERO and SIGN describe `v` and the flags of `kept`
/// are as in `s1`
pub open spec fn a_became(s1: CpuView, s2: CpuView, v: u8, kept: u8) -> bool {
    &&& s2 == CpuView { a: v, p: s2.p, ..s1 }
    &&& describes(s2.p, v)
    &&& s2.p & kept == s1.p & kept
}

/// Making ZERO and SIGN describe `v` does what `describes` says and keeps the
/// flags of 0x5D (CARRY, INTERRUPT, BCD, BREAK, OVERFLOW)
#[verifier::spinoff_prover]
proof fn lemma_describes(bits: u8, v: u8)
    ensures
        describes(with_sign_and_zero(bits, v), v),
        with_sign_and_zero(bits, v) & 0x5D == bits & 0x5D,
{
    crate::laws::law_sign_and_zero_describe_the_value(bits, v);
    let q = with_sign_and_zero(bits, v);
    assert((q & 0x02 == 0x02) == (q & 0x02 != 0) && (q & 0x80 == 0x80) == (q & 0x80 != 0))
        by (bit_vector);
}

/// The logic instructions combine A with the operand M bit by bit (ORA: A | M,
/// AND: A & M, EOR: A ^ M), whatever the flags were before: ZERO and SIGN
/// then describe the new A, and the other flags stay; AND with its carry
/// variant (ANC) also copies bit 7 of the result to CARRY.
#[verifier::spinoff_prover]
pub proof fn law_logic_combines_bits(s: CpuView, op: Operand)
    requires
        read_step(s, op).1 is Ok,
    ensures
        ({
            let s1 = read_step(s, op).0;
            let m = read_step(s, op).1->Ok_0;
            &&& execute_spec(s, Instruction::ORA(op)) is Some && ran(s, Instruction::ORA(op)).1 is Ok && a_became(s1, ran(s, Instruction::ORA(op)).0, s.a | m, 0x5D)
            &&& execute_spec(s, Instruction::EOR(op)) is Some && ran(s, Instruction::EOR(op)).1 is Ok && a_became(s1, ran(s, Instruction::EOR(op)).0, s.a ^ m, 0x5D)
            &&& execute_spec(s, Instruction::AND(op)) is Some && ran(s, Instruction::AND(op)).1 is Ok && a_became(s1, ran(s, Instruction::AND(op)).0, s.a & m, 0x5D)
            &&& execute_spec(s, Instruction::ANC(op)) is Some && ran(s, Instruction::ANC(op)).1 is Ok && a_became(s1, ran(s, Instruction::ANC(op)).0, s.a & m, 0x5C)
            &&& (ran(s, Instruction::ANC(op)).0.p & 0x01 != 0) == (s.a & m >= 0x80)
        }),
{
    let s1 = read_step(s, op).0;
    let m = read_step(s, op).1->Ok_0;
    assert(s1.a == s.a);
    lemma_describes(s1.p, s1.a | m);
    lemma_describes(s1.p, s1.a ^ m);
    let v = s1.a & m;
    lemma_describes(s1.p, v);
    let q = with_sign_and_zero(s1.p, v);
    let q2 = raised_if(q, 0b0000_0001, v & 0x80 != 0);
    assert(v & 0x80 != 0 <==> v >= 0x80) by (bit_vector);
    assert(q2 & 0x5C == q & 0x5C && (q2 & 0x01 != 0) == (v & 0x80 != 0) && (q2 & 0x02) == (q & 0x02)
        && (q2 & 0x80) == (q & 0x80)) by (bit_vector)
        requires
            q2 == if v & 0x80 != 0 {
                (q | 0x01) | 0x20
            } else {
                (q & !0x01u8) | 0x20
            },
    ;
    let p1 = s1.p;
    assert(q & 0x5C == p1 & 0x5C) by (bit_vector)
        requires
            q & 0x5D == p1 & 0x5D,
    ;
}

/// LDA, LDX and LDY put the operand in their register; ZERO and SIGN then
/// describe it, and the other flags stay.
#[verifier::spinoff_prover]
pub proof fn law_loads_take_the_operand(s: CpuView, op: Operand)
    requires
        read_step(s, op).1 is Ok,
    ensures
        ({
            let s1 = read_step(s, op).0;
            let m = read_step(s, op).1->Ok_0;
            &&& execute_spec(s, Instruction::LDA(op)) is Some && execute_spec(s, Instruction::LDX(op)) is Some
                && execute_spec(s, Instruction::LDY(op)) is Some
            &&& ran(s, Instruction::LDA(op)).1 is Ok && a_became(
                s1,
                ran(s, Instruction::LDA(op)).0,
                m,
                0x5D,
            )
            &&& ran(s, Instruction::LDX(op)).1 is Ok && ran(s, Instruction::LDX(op)).0 == CpuView {
                x: m,
                p: ran(s, Instruction::LDX(op)).0.p,
                ..s1
            } && describes(ran(s, Instruction::LDX(op)).0.p, m)
            &&& ran(s, Instruction::LDY(op)).1 is Ok && ran(s, Instruction::LDY(op)).0 == CpuView {
                y: m,
                p: ran(s, Instruction::LDY(op)).0.p,
                ..s1
            } && describes(ran(s, Instruction::LDY(op)).0.p, m)
        }),
{
    let s1 = read_step(s, op).0;
    let m = read_step(s, op).1->Ok_0;
    lemma_describes(s1.p, m);
}

/// The number that stands for a text of three characters (-1 for any other
/// text), so that texts compare as numbers
pub open spec fn text_code(t: Seq<char>) -> int {
    if t.len() == 3 {
        name3(t[0], t[1], t[2])
    } else {
        -1
    }
}

/// The number for the three characters `a`, `b`, `c`
pub open spec fn name3(a: char, b: char, c: char) -> int {
    (a as int) * 0x1_0000 + (b as int) * 0x100 + c as int
}

/// The documented instruction that an assembler reads from a mnemonic (with
/// an accumulator operand standing for whatever operand it takes), as the
/// processor's documentation names them
pub open spec fn instruction_named(t: Seq<char>) -> Option<Instruction> {
    let k = text_code(t);
    if k < 0 {
        None
    } else if k == name3('A', 'D', 'C') {
        Some(Instruction::ADC(Operand::Accumulator))
    } else if k == name3('A', 'H', 'X') {
        Some(Instruction::AHX(Operand::Accumulator))
    } else if k == name3('A', 'N', 'D') {
        Some(Instruction::AND(Operand::Accumulator))
    } else if k == name3('A', 'S', 'L') {
        Some(Instruction::ASL(Operand::Accumulator))
    } else if k == name3('B', 'C', 'C') {
        Some(Instruction::BCC(Operand::Accumulator))
    } else if k == name3('B', 'C', 'S') {
        Some(Instruction::BCS(Operand::Accumulator))
    } else if k == name3('B', 'E', 'Q') {
        Some(Instruction::BEQ(Operand::Accumulator))
    } else if k == name3('B', 'I', 'T') {
        Some(Instruction::BIT(Operand::Accumulator))
    } else if k == name3('B', 'M', 'I') {
        Some(Instruction::BMI(Operand::Accumulator))
    } else if k == name3('B', 'N', 'E') {
        Some(Instruction::BNE(Operand::Accumulator))
    } else if k == name3('B', 'P', 'L') {
        Some(Instruction::BPL(Operand::Accumulator))
    } else if k == name3('B', 'V', 'C') {
        Some(Instruction::BVC(Operand::Accumulator))
    } else if k == name3('B', 'V', 'S') {
        Some(Instruction::BVS(Operand::Accumulator))
    } else if k == name3('C', 'M', 'P') {
        Some(Instruction::CMP(Operand::Accumulator))
    } else if k == name3('C', 'P', 'X') {
        Some(Instruction::CPX(Operand::Accumulator))
    } else if k == name3('C', 'P', 'Y') {
        Some(Instruction::CPY(Operand::Accumulator))
    } else if k == name3('D', 'E', 'C') {
        Some(Instruction::DEC(Operand::Accumulator))
    } else if k == name3('E', 'O', 'R') {
        Some(Instruction::EOR(Operand::Accumulator))
    } else if k == name3('I', 'N', 'C') {
        Some(Instruction::INC(Operand::Accumulator))
    } else if k == name3('J', 'M', 'P') {
        Some(Instruction::JMP(Operand::Accumulator))
    } else if k == name3('J', 'S', 'R') {
        Some(Instruction::JSR(Operand::Accumulator))
    } else if k == name3('L', 'A', 'S') {
        Some(Instruction::LAS(Operand::Accumulator))
    } else if k == name3('L', 'D', 'A') {
        Some(Instruction::LDA(Operand::Accumulator))
    } else if k == name3('L', 'D', 'X') {
        Some(Instruction::LDX(Operand::Accumulator))
    } else if k == name3('L', 'D', 'Y') {
        Some(Instruction::LDY(Operand::Accumulator))
    } else if k == name3('L', 'S', 'R') {
        Some(Instruction::LSR(Operand::Accumulator))
    } else if k == name3('O', 'R', 'A') {
        Some(Instruction::ORA(Operand::Accumulator))
    } else if k == name3('R', 'O', 'L') {
        Some(Instruction::ROL(Operand::Accumulator))
    } else if k == name3('R', 'O', 'R') {
        Some(Instruction::ROR(Operand::Accumulator))
    } else if k == name3('S', 'B', 'C') {
        Some(Instruction::SBC(Operand::Accumulator))
    } else if k == name3('S', 'H', 'Y') {
        Some(Instruction::SHY(Operand::Accumulator))
    } else if k == name3('S', 'H', 'X') {
        Some(Instruction::SHX(Operand::Accumulator))
    } else if k == name3('S', 'T', 'A') {
        Some(Instruction::STA(Operand::Accumulator))
    } else if k == name3('S', 'T', 'X') {
        Some(Instruction::STX(Operand::Accumulator))
    } else if k == name3('S', 'T', 'Y') {
        Some(Instruction::STY(Operand::Accumulator))
    } else if k == name3('T', 'A', 'S') {
        Some(Instruction::TAS(Operand::Accumulator))
    } else if k == name3('X', 'A', 'A') {
        Some(Instruction::XAA(Operand::Accumulator))
    } else if k == name3('B', 'R', 'K') {
        Some(Instruction::BRK)
    } else if k == name3('C', 'L', 'C') {
        Some(Instruction::CLC)
    } else if k == name3('C', 'L', 'D') {
        Some(Instruction::CLD)
    } else if k == name3('C', 'L', 'I') {
        Some(Instruction::CLI)
    } else if k == name3('C', 'L', 'V') {
        Some(Instruction::CLV)
    } else if k == name3('D', 'E', 'X') {
        Some(Instruction::DEX)
    } else if k == name3('D', 'E', 'Y') {
        Some(Instruction::DEY)
    } else if k == name3('H', 'L', 'T') {
        Some(Instruction::HLT)
    } else if k == name3('I', 'N', 'X') {
        Some(Instruction::INX)
    } else if k == name3('I', 'N', 'Y') {
        Some(Instruction::INY)
    } else if k == name3('N', 'O', 'P') {
        Some(Instruction::NOP)
    } else if k == name3('P', 'H', 'A') {
        Some(Instruction::PHA)
    } else if k == name3('P', 'H', 'P') {
        Some(Instruction::PHP)
    } else if k == name3('P', 'L', 'A') {
        Some(Instruction::PLA)
    } else if k == name3('P', 'L', 'P') {
        Some(Instruction::PLP)
    } else if k == name3('R', 'T', 'I') {
        Some(Instruction::RTI)
    } else if k == name3('R', 'T', 'S') {
        Some(Instruction::RTS)
    } else if k == name3('S', 'E', 'C') {
        Some(Instruction::SEC)
    } else if k == name3('S', 'E', 'D') {
        Some(Instruction::SED)
    } else if k == name3('S', 'E', 'I') {
        Some(Instruction::SEI)
    } else if k == name3('T', 'A', 'X') {
        Some(Instruction::TAX)
    } else if k == name3('T', 'A', 'Y') {
        Some(Instruction::TAY)
    } else if k == name3('T', 'S', 'X') {
        Some(Instruction::TSX)
    } else if k == name3('T', 'X', 'A') {
        Some(Instruction::TXA)
    } else if k == name3('T', 'X', 'S') {
        Some(Instruction::TXS)
    } else if k == name3('T', 'Y', 'A') {
        Some(Instruction::TYA)
    } else {
        None
    }
}

/// The instruction with any operand it takes replaced by the accumulator: what
/// is left once the operand is forgotten
pub open spec fn kind_of(i: Instruction) -> Instruction {
    with_operand(i, Operand::Accumulator)
}

/// Every documented instruction is written with its own documented mnemonic:
/// reading its mnemonic back gives the instruction again (its operand aside).
#[verifier::spinoff_prover]
#[verifier::rlimit(100)]
pub proof fn law_mnemonics_name_their_instructions(i: Instruction)
    requires
        !is_undocumented(i),
    ensures
        instruction_named(mnemonic_text(i)) == Some(kind_of(i)),
{
    match i {
        Instruction::ADC(_) => {
            reveal_strlit("ADC");
        },
        Instruction::AHX(_) => {
            reveal_strlit("AHX");
        },
        Instruction::ALR(_) => {},
        Instruction::AND(_) => {
            reveal_strlit("AND");
        },
        Instruction::ANC(_) => {},
        Instruction::ASL(_) => {
            reveal_strlit("ASL");
        },
        Instruction::ARR(_) => {},
        Instruction::AXS(_) => {},
        Instruction::BCC(_) => {
            reveal_strlit("BCC");
        },
        Instruction::BCS(_) => {
            reveal_strlit("BCS");
        },
        Instruction::BEQ(_) => {
            reveal_strlit("BEQ");
        },
        Instruction::BIT(_) => {
            reveal_strlit("BIT");
        },
        Instruction::BMI(_) => {
            reveal_strlit("BMI");
        },
        Instruction::BNE(_) => {
            reveal_strlit("BNE");
        },
        Instruction::BPL(_) => {
            reveal_strlit("BPL");
        },
        Instruction::BVC(_) => {
            reveal_strlit("BVC");
        },
        Instruction::BVS(_) => {
            reveal_strlit("BVS");
        },
        Instruction::CMP(_) => {
            reveal_strlit("CMP");
        },
        Instruction::CPX(_) => {
            reveal_strlit("CPX");
        },
        Instruction::CPY(_) => {
            reveal_strlit("CPY");
        },
        Instruction::DCP(_) => {},
        Instruction::DEC(_) => {
            reveal_strlit("DEC");
        },
        Instruction::EOR(_) => {
            reveal_strlit("EOR");
        },
        Instruction::IGN(_) => {},
        Instruction::INC(_) => {
            reveal_strlit("INC");
        },
        Instruction::ISB(_) => {},
        Instruction::JMP(_) => {
            reveal_strlit("JMP");
        },
        Instruction::JSR(_) => {
            reveal_strlit("JSR");
        },
        Instruction::LAS(_) => {
            reveal_strlit("LAS");
        },
        Instruction::LAX(_) => {},
        Instruction::LDA(_) => {
            reveal_strlit("LDA");
        },
        Instruction::LDX(_) => {
            reveal_strlit("LDX");
        },
        Instruction::LDY(_) => {
            reveal_strlit("LDY");
        },
        Instruction::LSR(_) => {
            reveal_strlit("LSR");
        },
        Instruction::ORA(_) => {
            reveal_strlit("ORA");
        },
        Instruction::RLA(_) => {},
        Instruction::ROL(_) => {
            reveal_strlit("ROL");
        },
        Instruction::ROR(_) => {
            reveal_strlit("ROR");
        },
        Instruction::RRA(_) => {},
        Instruction::SAX(_) => {},
        Instruction::SBC(_) => {
            reveal_strlit("SBC");
        },
        Instruction::SBCX(_) => {},
        Instruction::SHY(_) => {
            reveal_strlit("SHY");
        },
        Instruction::SHX(_) => {
            reveal_strlit("SHX");
        },
        Instruction::SKB(_) => {},
        Instruction::SLO(_) => {},
        Instruction::SRE(_) => {},
        Instruction::STA(_) => {
            reveal_strlit("STA");
        },
        Instruction::STX(_) => {
            reveal_strlit("STX");
        },
        Instruction::STY(_) => {
            reveal_strlit("STY");
        },
        Instruction::TAS(_) => {
            reveal_strlit("TAS");
        },
        Instruction::XAA(_) => {
            reveal_strlit("XAA");
        },
        Instruction::BRK => {
            reveal_strlit("BRK");
        },
        Instruction::CLC => {
            reveal_strlit("CLC");
        },
        Instruction::CLD => {
            reveal_strlit("CLD");
        },
        Instruction::CLI => {
            reveal_strlit("CLI");
        },
        Instruction::CLV => {
            reveal_strlit("CLV");
        },
        Instruction::DEX => {
            reveal_strlit("DEX");
        },
        Instruction::DEY => {
            reveal_strlit("DEY");
        },
        Instruction::HLT => {
            reveal_strlit("HLT");
        },
        Instruction::INX => {
            reveal_strlit("INX");
        },
        Instruction::INY => {
            reveal_strlit("INY");
        },
        Instruction::NOP => {
            reveal_strlit("NOP");
        },
        Instruction::NOPX => {},
        Instruction::PHA => {
            reveal_strlit("PHA");
        },
        Instruction::PHP => {
            reveal_strlit("PHP");
        },
        Instruction::PLA => {
            reveal_strlit("PLA");
        },
        Instruction::PLP => {
            reveal_strlit("PLP");
        },
        Instruction::RTI => {
            reveal_strlit("RTI");
        },
        Instruction::RTS => {
            reveal_strlit("RTS");
        },
        Instruction::SEC => {
            reveal_strlit("SEC");
        },
        Instruction::SED => {
            reveal_strlit("SED");
        },
        Instruction::SEI => {
            reveal_strlit("SEI");
        },
        Instruction::TAX => {
            reveal_strlit("TAX");
        },
        Instruction::TAY => {
            reveal_strlit("TAY");
        },
        Instruction::TSX => {
            reveal_strlit("TSX");
        },
        Instruction::TXA => {
            reveal_strlit("TXA");
        },
        Instruction::TXS => {
            reveal_strlit("TXS");
        },
        Instruction::TYA => {
            reveal_strlit("TYA");
        },
    }
}

/// Two documented instructions with the same mnemonic are the same
/// instruction, whatever their operands.
pub proof fn law_mnemonics_tell_instructions_apart(i: Instruction, j: Instruction)
    requires
        !is_undocumented(i),
        !is_undocumented(j),
        mnemonic_text(i) == mnemonic_text(j),
    ensures
        kind_of(i) == kind_of(j),
{
    law_mnemonics_name_their_instructions(i);
    law_mnemonics_name_their_instructions(j);
}

/// Raising or clearing the flags of `sel` (not the reserved bit) makes them
/// read as `c` and keeps every other flag
#[verifier::spinoff_prover]
proof fn lemma_raise(p: u8, sel: u8, c: bool)
    requires
        sel == 0x01 || sel == 0x02 || sel == 0x04 || sel == 0x08 || sel == 0x40 || sel == 0x80,
    ensures
        (raised_if(p, sel, c) & sel != 0) == c,
        raised_if(p, sel, c) & !(sel | 0x20) == p & !(sel | 0x20),
        raised_if(p, sel, c) & 0x20 == 0x20,
{
    let q = raised_if(p, sel, c);
    assert(sel != 0 && sel & 0x20 == 0) by (bit_vector)
        requires
            sel == 0x01 || sel == 0x02 || sel == 0x04 || sel == 0x08 || sel == 0x40 || sel == 0x80,
    ;
    assert((q & sel != 0) == c && q & !(sel | 0x20) == p & !(sel | 0x20) && q & 0x20 == 0x20)
        by (bit_vector)
        requires
            sel != 0,
            sel & 0x20 == 0,
            q == if c {
                (p | sel) | 0x20
            } else {
                (p & !sel) | 0x20
            },
    ;
}

/// CMP, CPX and CPY compare A, X or Y with the operand M: CARRY tells whether
/// the register is at least M, ZERO whether they are equal, SIGN takes bit 7
/// of their difference modulo 256; nothing else changes.
#[verifier::spinoff_prover]
pub proof fn law_compares(s: CpuView, op: Operand)
    requires
        read_step(s, op).1 is Ok,
    ensures
        ({
            let s1 = read_step(s, op).0;
            let m = read_step(s, op).1->Ok_0;
            &&& compared(s1, ran(s, Instruction::CMP(op)), s.a, m)
            &&& compared(s1, ran(s, Instruction::CPX(op)), s.x, m)
            &&& compared(s1, ran(s, Instruction::CPY(op)), s.y, m)
            &&& execute_spec(s, Instruction::CMP(op)) is Some
            &&& execute_spec(s, Instruction::CPX(op)) is Some
            &&& execute_spec(s, Instruction::CPY(op)) is Some
        }),
{
    let s1 = read_step(s, op).0;
    let m = read_step(s, op).1->Ok_0;
    assert(s1.a == s.a && s1.x == s.x && s1.y == s.y);
    lemma_compare(s1, s.a, m);
    lemma_compare(s1, s.x, m);
    lemma_compare(s1, s.y, m);
}

#[verifier::spinoff_prover]
proof fn lemma_compare(s1: CpuView, r: u8, m: u8)
    ensures
        compared(
            s1,
            (
                s1.with_p(with_sign_and_zero(raised_if(s1.p, 0b0000_0001, r - m >= 0), ((r - m) % 256) as u8)),
                Ok::<(), crate::exec::ExecError>(()),
            ),
            r,
            m,
        ),
{
    let p0 = s1.p;
    let p1 = raised_if(p0, 0b0000_0001, r - m >= 0);
    lemma_raise(p0, 1, r - m >= 0);
    let v = ((r - m) % 256) as u8;
    lemma_describes(p1, v);
    let q = with_sign_and_zero(p1, v);
    assert(q & 0x01 == p1 & 0x01 && q & 0x5C == p0 & 0x5C) by (bit_vector)
        requires
            q & 0x5D == p1 & 0x5D,
            p1 & !(0x01u8 | 0x20) == p0 & !(0x01u8 | 0x20),
    ;
    assert(((q & 0x01) != 0) == ((p1 & 0x01) != 0));
    assert((v == 0) == (r == m));
}

/// True when `after` is `s1` (the state once M was read) with only the
/// status register changed as a comparison of `r` with `m` changes it
pub open spec fn compared(s1: CpuView, after: (CpuView, ExecResult), r: u8, m: u8) -> bool {
    let s2 = after.0;
    &&& after.1 is Ok
    &&& s2 == CpuView { p: s2.p, ..s1 }
    &&& (s2.p & 0x01 != 0) == (r >= m)
    &&& (s2.p & 0x02 != 0) == (r == m)
    &&& (s2.p & 0x80 != 0) == ((r - m) % 256 >= 0x80)
    &&& s2.p & 0x5C == s1.p & 0x5C
}

/// True when running gave `expected` (the status register aside), without
/// error, with ZERO and SIGN describing `v` and the flags of 0x5D as in `s`
pub open spec fn moved(s: CpuView, after: (CpuView, ExecResult), expected: CpuView, v: u8) -> bool {
    &&& after.1 is Ok
    &&& after.0 == CpuView { p: after.0.p, ..expected }
    &&& describes(after.0.p, v)
    &&& after.0.p & 0x5D == s.p & 0x5D
}

/// INX, INY, DEX and DEY count their register up or down by one, wrapping
/// around; the transfers TAX, TAY, TXA, TYA and TSX copy one register to
/// another; each then makes ZERO and SIGN describe the new value. TXS copies X
/// to the stack pointer and changes no flag. Nothing else changes.
#[verifier::spinoff_prover]
pub proof fn law_register_steps(s: CpuView)
    ensures
        moved(s, ran(s, Instruction::INX), CpuView { x: ((s.x + 1) % 256) as u8, ..s }, ((s.x + 1) % 256) as u8),
        moved(s, ran(s, Instruction::INY), CpuView { y: ((s.y + 1) % 256) as u8, ..s }, ((s.y + 1) % 256) as u8),
        moved(s, ran(s, Instruction::DEX), CpuView { x: ((s.x + 255) % 256) as u8, ..s }, ((s.x + 255) % 256) as u8),
        moved(s, ran(s, Instruction::DEY), CpuView { y: ((s.y + 255) % 256) as u8, ..s }, ((s.y + 255) % 256) as u8),
        moved(s, ran(s, Instruction::TAX), CpuView { x: s.a, ..s }, s.a),
        moved(s, ran(s, Instruction::TAY), CpuView { y: s.a, ..s }, s.a),
        moved(s, ran(s, Instruction::TXA), CpuView { a: s.x, ..s }, s.x),
        moved(s, ran(s, Instruction::TYA), CpuView { a: s.y, ..s }, s.y),
        moved(s, ran(s, Instruction::TSX), CpuView { x: s.sp, ..s }, s.sp),
        ran(s, Instruction::TXS) == (CpuView { sp: s.x, ..s }, Ok::<(), crate::exec::ExecError>(())),
        execute_spec(s, Instruction::INX) is Some && execute_spec(s, Instruction::INY) is Some
            && execute_spec(s, Instruction::DEX) is Some && execute_spec(s, Instruction::DEY) is Some
            && execute_spec(s, Instruction::TAX) is Some && execute_spec(s, Instruction::TAY) is Some
            && execute_spec(s, Instruction::TXA) is Some && execute_spec(s, Instruction::TYA) is Some
            && execute_spec(s, Instruction::TSX) is Some && execute_spec(s, Instruction::TXS) is Some,
{
    lemma_describes(s.p, ((s.x + 1) % 256) as u8);
    lemma_describes(s.p, ((s.y + 1) % 256) as u8);
    lemma_describes(s.p, ((s.x + 255) % 256) as u8);
    lemma_describes(s.p, ((s.y + 255) % 256) as u8);
    lemma_describes(s.p, s.a);
    lemma_describes(s.p, s.x);
    lemma_describes(s.p, s.y);
    lemma_describes(s.p, s.sp);
}

/// True when running changed nothing but the status register, where the
/// flag `bit` reads as `set` and every other flag is as it was
pub open spec fn flag_made(s: CpuView, after: (CpuView, ExecResult), bit: u8, set: bool) -> bool {
    &&& after.1 is Ok
    &&& after.0 == CpuView { p: after.0.p, ..s }
    &&& (after.0.p & bit != 0) == set
    &&& after.0.p & !(bit | 0x20) == s.p & !(bit | 0x20)
}

/// CLC, CLD, CLI and CLV clear CARRY, BCD, INTERRUPT and OVERFLOW; SEC, SED
/// and SEI set CARRY, BCD and INTERRUPT; nothing else changes.
#[verifier::spinoff_prover]
pub proof fn law_flag_instructions(s: CpuView)
    ensures
        flag_made(s, ran(s, Instruction::CLC), 0x01, false),
        flag_made(s, ran(s, Instruction::CLD), 0x08, false),
        flag_made(s, ran(s, Instruction::CLI), 0x04, false),
        flag_made(s, ran(s, Instruction::CLV), 0x40, false),
        flag_made(s, ran(s, Instruction::SEC), 0x01, true),
        flag_made(s, ran(s, Instruction::SED), 0x08, true),
        flag_made(s, ran(s, Instruction::SEI), 0x04, true),
        ran(s, Instruction::NOP) == (s, Ok::<(), crate::exec::ExecError>(())),
{
    lemma_raise(s.p, 0x01, false);
    lemma_raise(s.p, 0x08, false);
    lemma_raise(s.p, 0x04, false);
    lemma_raise(s.p, 0x40, false);
    lemma_raise(s.p, 0x01, true);
    lemma_raise(s.p, 0x08, true);
    lemma_raise(s.p, 0x04, true);
    assert(raised_if(s.p, 0x01, false) == cleared(s.p, 0x01));
    assert(raised_if(s.p, 0x01, true) == raised(s.p, 0x01));
}

/// SBC subtracts the operand and the borrow (the complement of CARRY) from A.
/// In binary mode A becomes the difference modulo 256, CARRY tells whether
/// it is not negative, and OVERFLOW whether the result differs in sign from A
/// while A differs in sign from the operand. In decimal mode, for operands of decimal digits whose
/// difference is at least -99, A becomes the decimal digits of the difference
/// modulo 100 and CARRY is set. Either way ZERO and SIGN describe the new A.
#[verifier::spinoff_prover]
pub proof fn law_sbc_subtracts_with_borrow(s: CpuView, op: Operand)
    requires
        read_step(s, op).1 is Ok,
    ensures
        ({
            let m = read_step(s, op).1->Ok_0;
            let b = 1 - carry_in(s.p);
            let decimal = s.bcd_enabled && s.p & 0x08 != 0;
            &&& decimal && is_decimal_byte(s.a) && is_decimal_byte(m) && decimal_of(s.a) - decimal_of(m)
                - b >= -99 ==> (execute_spec(s, Instruction::SBC(op)) matches Some((s2, r)) && r is Ok
                && is_decimal_byte(s2.a) && decimal_of(s2.a) == (decimal_of(s.a) - decimal_of(m) - b)
                % 100 && s2.p & 0x01 != 0 && describes(s2.p, s2.a))
            &&& !decimal ==> (execute_spec(s, Instruction::SBC(op)) matches Some((s2, r)) && r is Ok
                && s2.a == (s.a - m - b) % 256 && (s2.p & 0x01 != 0) == (s.a - m - b >= 0)
                && describes(s2.p, s2.a) && (s2.p & 0x40 != 0) == ((s.a >= 0x80) != (s2.a >= 0x80)
                && (s.a >= 0x80) != (m >= 0x80)))
        }),
{
    let s1 = read_step(s, op).0;
    let m = read_step(s, op).1->Ok_0;
    assert(s1.p == s.p && s1.a == s.a && s1.bcd_enabled == s.bcd_enabled);
    if s.bcd_enabled && s.p & 0x08 != 0 {
        if is_decimal_byte(s.a) && is_decimal_byte(m) && decimal_of(s.a) - decimal_of(m) - (1
            - carry_in(s.p)) >= -99 {
            lemma_sbc_decimal(s1, m);
        }
    } else {
        lemma_sbc_binary(s1, m);
    }
}

#[verifier::spinoff_prover]
proof fn lemma_sbc_decimal(s: CpuView, n: u8)
    requires
        s.bcd_enabled && s.p & 0x08 != 0,
        is_decimal_byte(s.a),
        is_decimal_byte(n),
        decimal_of(s.a) - decimal_of(n) - (1 - carry_in(s.p)) >= -99,
    ensures
        sbc_alu(s, n) matches Some(s2) && is_decimal_byte(s2.a) && decimal_of(s2.a) == (decimal_of(s.a)
            - decimal_of(n) - (1 - carry_in(s.p))) % 100 && s2.p & 0x01 != 0 && describes(s2.p, s2.a),
{
    lemma_flag_bits(s.p);
    assert(decimal_mode(s));
    let b = 1 - carry_in(s.p);
    assert(bcd_value(s.a as int) == decimal_of(s.a));
    assert(bcd_value(n as int) == decimal_of(n));
    let v = decimal_of(s.a) - decimal_of(n) - b;
    assert(-99 <= v <= 99);
    let w = v % 100;
    lemma_decimal_difference(v);
    let t = bcd_encoding(v);
    let a2 = (t % 256) as u8;
    let p1 = raised_if(s.p, 0b0100_0000, v > 99 || v < 0);
    let p2 = raised_if(p1, 0b0000_0001, t >= 0);
    assert(sbc_alu(s, n) == Some(s.with_a(a2).with_p(with_sign_and_zero(p2, a2)))) by {
        assert(carry_set(s.p) == (carry_in(s.p) == 1));
        assert(bcd_value(s.a as int) - bcd_value(n as int) - b == v);
    }
    lemma_raise(p1, 0x01, true);
    lemma_describes(p2, a2);
    let q = with_sign_and_zero(p2, a2);
    assert(q & 0x01 == p2 & 0x01) by (bit_vector)
        requires
            q & 0x5D == p2 & 0x5D,
    ;
    assert(a2 / 16 == w / 10 && a2 % 16 == w % 10);
}

/// The decimal encoding of a difference from -99 to 99
#[verifier::spinoff_prover]
proof fn lemma_decimal_difference(v: int)
    requires
        -99 <= v <= 99,
    ensures
        bcd_encodable(v),
        bcd_wrapped(v) == v % 100,
        0 <= bcd_encoding(v) < 256,
        bcd_encoding(v) / 16 == (v % 100) / 10,
        bcd_encoding(v) % 16 == (v % 100) % 10,
        bcd_encoding(v) % 256 == bcd_encoding(v),
{
    let w = v % 100;
    if v < 0 {
        assert(v + 100 == w);
    }
    lemma_two_digits(w);
}

#[verifier::spinoff_prover]
proof fn lemma_sbc_binary(s: CpuView, n: u8)
    requires
        !(s.bcd_enabled && s.p & 0x08 != 0),
    ensures
        sbc_alu(s, n) matches Some(s2) && s2.a == (s.a - n - (1 - carry_in(s.p))) % 256 && (s2.p & 0x01
            != 0) == (s.a - n - (1 - carry_in(s.p)) >= 0) && describes(s2.p, s2.a) && (s2.p & 0x40 != 0)
            == ((s.a >= 0x80) != (s2.a >= 0x80) && (s.a >= 0x80) != (n >= 0x80)),
{
    lemma_flag_bits(s.p);
    assert(!decimal_mode(s));
    let b = 1 - carry_in(s.p);
    let t = s.a - n - b;
    let r = (t % 256) as u8;
    let p1 = raised_if(s.p, 0b0000_0001, t >= 0);
    let p2 = raised_if(p1, 0b0100_0000, (s.a ^ r) & 0x80 != 0 && (s.a ^ n) & 0x80 == 0x80);
    assert(sbc_alu(s, n) == Some(s.with_a(r).with_p(with_sign_and_zero(p2, r))));
    let a = s.a;
    assert(((a ^ r) & 0x80 != 0 && (a ^ n) & 0x80 == 0x80) == ((a >= 0x80) != (r >= 0x80) && (a >= 0x80)
        != (n >= 0x80))) by (bit_vector);
    lemma_carry_then_overflow_then_sign_and_zero(s.p);
}

/// STA, STX and STY write A, X or Y to the operand's address, whatever it is,
/// and change nothing else (not even the clock, which a store does not charge
/// for crossing a page).
#[verifier::spinoff_prover]
pub proof fn law_stores_write_their_register(s: CpuView, op: Operand)
    requires
        effective_addr(s, op) is Ok,
        s.mem.contains_key((effective_addr(s, op)->Ok_0).0 as u64),
    ensures
        ({
            let e = (effective_addr(s, op)->Ok_0).0 as u64;
            &&& execute_spec(s, Instruction::STA(op)) is Some
            &&& ran(s, Instruction::STA(op)) == (CpuView { mem: s.mem.insert(e, s.a), ..s }, Ok::<(), crate::exec::ExecError>(()))
            &&& ran(s, Instruction::STX(op)) == (CpuView { mem: s.mem.insert(e, s.x), ..s }, Ok::<(), crate::exec::ExecError>(()))
            &&& ran(s, Instruction::STY(op)) == (CpuView { mem: s.mem.insert(e, s.y), ..s }, Ok::<(), crate::exec::ExecError>(()))
        }),
{
    let s0 = s.with_suspended(true);
    assert(effective_addr(s0, op) == effective_addr(s, op));
    let e = (effective_addr(s, op)->Ok_0).0;
    crate::laws::lemma_suspended_access(s0, op, e, s.a);
    crate::laws::lemma_suspended_access(s0, op, e, s.x);
    crate::laws::lemma_suspended_access(s0, op, e, s.y);
}

/// JMP to an absolute address goes there; JMP through an indirect address
/// goes to the word stored there, its high byte read from the same page.
/// Nothing but the program counter changes.
#[verifier::spinoff_prover]
pub proof fn law_jumps(s: CpuView, a: u16)
    ensures
        execute_spec(s, Instruction::JMP(Operand::Absolute(a))) is Some,
        ran(s, Instruction::JMP(Operand::Absolute(a))) == (CpuView { pc: a, ..s }, Ok::<(), crate::exec::ExecError>(())),
        mapped2(s, a as int, (a / 256) * 256 + (a + 1) % 256) ==> ran(s, Instruction::JMP(Operand::Indirect(a)))
            == (CpuView { pc: word_at(s, a as int, (a / 256) * 256 + (a + 1) % 256) as u16, ..s }, Ok::<(), crate::exec::ExecError>(())),
{
    assert(effective_addr(s, Operand::Absolute(a)) == Ok::<(u16, bool), OperandError>((a, false)));
    let hi = (a / 256) * 256 + (a + 1) % 256;
    if mapped2(s, a as int, hi) {
        let w = word_at(s, a as int, hi);
        assert(0 <= w < 0x1_0000);
        assert(effective_addr(s, Operand::Indirect(a)) == Ok::<(u16, bool), OperandError>((w as u16, false)));
    }
}

/// BIT tests A against the operand M: ZERO tells whether A & M is zero, SIGN
/// takes bit 7 of M and OVERFLOW bit 6; A, the other flags and everything
/// else stay as they were once M was read.
#[verifier::spinoff_prover]
pub proof fn law_bit_test(s: CpuView, op: Operand)
    requires
        read_step(s, op).1 is Ok,
    ensures
        ({
            let s1 = read_step(s, op).0;
            let m = read_step(s, op).1->Ok_0;
            let s2 = ran(s, Instruction::BIT(op)).0;
            &&& execute_spec(s, Instruction::BIT(op)) is Some
            &&& ran(s, Instruction::BIT(op)).1 is Ok
            &&& s2 == CpuView { p: s2.p, ..s1 }
            &&& (s2.p & 0x02 != 0) == (s.a & m == 0)
            &&& (s2.p & 0x80 != 0) == (m >= 0x80)
            &&& (s2.p & 0x40 != 0) == (m & 0x40 != 0)
            &&& s2.p & 0x1D == s.p & 0x1D
        }),
{
    let s1 = read_step(s, op).0;
    let m = read_step(s, op).1->Ok_0;
    let p0 = s1.p;
    let p1 = raised_if(p0, 0x80, m & 0x80 != 0);
    let p2 = raised_if(p1, 0x40, m & 0x40 != 0);
    let p3 = raised_if(p2, 0x02, s1.a & m == 0);
    lemma_raise(p0, 0x80, m & 0x80 != 0);
    lemma_raise(p1, 0x40, m & 0x40 != 0);
    lemma_raise(p2, 0x02, s1.a & m == 0);
    assert(m & 0x80 != 0 <==> m >= 0x80) by (bit_vector);
    assert(p3 & 0x80 == p1 & 0x80 && p3 & 0x40 == p2 & 0x40 && p3 & 0x1D == p0 & 0x1D) by (bit_vector)
        requires
            p1 & !(0x80u8 | 0x20) == p0 & !(0x80u8 | 0x20),
            p2 & !(0x40u8 | 0x20) == p1 & !(0x40u8 | 0x20),
            p3 & !(0x02u8 | 0x20) == p2 & !(0x02u8 | 0x20),
    ;
    assert((p3 & 0x80 != 0) == (p1 & 0x80 != 0));
    assert((p3 & 0x40 != 0) == (p2 & 0x40 != 0));
}

/// INC and DEC add or take one from the byte at the operand's address,
/// wrapping around; ZERO and SIGN describe the new byte, and nothing else
/// changes (the clock included). An operand indexed by the status register is
/// left out: the flags that INC and DEC change would move its address.
#[verifier::spinoff_prover]
pub proof fn law_inc_dec_memory(s: CpuView, op: Operand)
    requires
        effective_addr(s, op) is Ok,
        s.mem.contains_key((effective_addr(s, op)->Ok_0).0 as u64),
        !(op matches Operand::Indexed(_, r) && r == RegisterName::P),
    ensures
        ({
            let e = (effective_addr(s, op)->Ok_0).0 as u64;
            let v = s.mem[e];
            &&& execute_spec(s, Instruction::INC(op)) is Some
            &&& execute_spec(s, Instruction::DEC(op)) is Some
            &&& moved(s, ran(s, Instruction::INC(op)), CpuView { mem: s.mem.insert(e, ((v + 1) % 256) as u8), ..s }, ((v + 1) % 256) as u8)
            &&& moved(s, ran(s, Instruction::DEC(op)), CpuView { mem: s.mem.insert(e, ((v + 255) % 256) as u8), ..s }, ((v + 255) % 256) as u8)
        }),
{
    let s0 = s.with_suspended(true);
    assert(effective_addr(s0, op) == effective_addr(s, op));
    let e = (effective_addr(s, op)->Ok_0).0;
    let v = s.mem[e as u64];
    let up = ((v + 1) % 256) as u8;
    let down = ((v + 255) % 256) as u8;
    crate::laws::lemma_suspended_access(s0, op, e, up);
    let pu = with_sign_and_zero(s0.p, up);
    let pd = with_sign_and_zero(s0.p, down);
    assert(effective_addr(s0.with_p(pu), op) == effective_addr(s, op));
    assert(effective_addr(s0.with_p(pd), op) == effective_addr(s, op));
    crate::laws::lemma_suspended_access(s0.with_p(pu), op, e, up);
    crate::laws::lemma_suspended_access(s0.with_p(pd), op, e, down);
    lemma_describes(s.p, up);
    lemma_describes(s.p, down);
}

/// PHA and PHP write A, or the status register with BREAK set, at the stack
/// slot 0x100 + SP and move SP down by one; nothing else changes.
#[verifier::spinoff_prover]
pub proof fn law_pushes(s: CpuView)
    requires
        s.sp != 0,
        s.mem.contains_key((0x100 + s.sp) as u64),
    ensures
        execute_spec(s, Instruction::PHA) == Some((CpuView { mem: s.mem.insert((0x100 + s.sp) as u64, s.a), sp: (s.sp - 1) as u8, ..s }, Ok::<(), crate::exec::ExecError>(()))),
        execute_spec(s, Instruction::PHP) == Some((CpuView { mem: s.mem.insert((0x100 + s.sp) as u64, s.p | 0x10), sp: (s.sp - 1) as u8, ..s }, Ok::<(), crate::exec::ExecError>(()))),
{
    let p = s.p;
    assert(0b0001_0000 | p == p | 0x10) by (bit_vector);
}

/// PLA and PLP move SP up by one and read the stack slot 0x100 + SP: PLA into
/// A, with ZERO and SIGN describing it and the other flags kept; PLP into the
/// status register, with BREAK cleared and the reserved bit set. Nothing else
/// changes.
#[verifier::spinoff_prover]
pub proof fn law_pulls(s: CpuView)
    requires
        s.sp != 255,
        s.mem.contains_key((0x100 + s.sp + 1) as u64),
    ensures
        ({
            let v = s.mem[(0x100 + s.sp + 1) as u64];
            let s2 = ran(s, Instruction::PLP).0;
            &&& execute_spec(s, Instruction::PLA) is Some
            &&& execute_spec(s, Instruction::PLP) is Some
            &&& moved(s, ran(s, Instruction::PLA), CpuView { a: v, sp: (s.sp + 1) as u8, ..s }, v)
            &&& ran(s, Instruction::PLP).1 is Ok
            &&& s2 == CpuView { p: s2.p, sp: (s.sp + 1) as u8, ..s }
            &&& s2.p & 0xCF == v & 0xCF
            &&& s2.p & 0x30 == 0x20
        }),
{
    let v = s.mem[(0x100 + s.sp + 1) as u64];
    lemma_describes(s.p, v);
    let q = cleared(replaced(v), 0b0001_0000);
    assert(q & 0xCF == v & 0xCF && q & 0x30 == 0x20) by (bit_vector)
        requires
            q == (((v | 0x20) & !0x10u8) | 0x20),
    ;
}

/// The shifts and rotations of A: LSR halves A, CARRY taking the bit that
/// falls off, ZERO telling whether the result is zero and SIGN cleared; ROL
/// doubles A and adds the old CARRY, ROR halves A and puts the old CARRY in
/// bit 7, CARRY taking the bit that falls off and ZERO and SIGN describing the
/// result; ASL doubles A and raises (never clears) CARRY when bit 7 fell off,
/// SIGN when the result has bit 7 and ZERO when it is zero. The other flags
/// stay, and nothing else changes.
#[verifier::spinoff_prover]
pub proof fn law_accumulator_shifts(s: CpuView)
    ensures
        ({
            let a = s.a;
            let c = carry_in(s.p);
            let lsr = ran(s, Instruction::LSR(Operand::Accumulator));
            let rol = ran(s, Instruction::ROL(Operand::Accumulator));
            let ror = ran(s, Instruction::ROR(Operand::Accumulator));
            let asl = ran(s, Instruction::ASL(Operand::Accumulator));
            &&& execute_spec(s, Instruction::LSR(Operand::Accumulator)) is Some
            &&& execute_spec(s, Instruction::ROL(Operand::Accumulator)) is Some
            &&& execute_spec(s, Instruction::ROR(Operand::Accumulator)) is Some
            &&& execute_spec(s, Instruction::ASL(Operand::Accumulator)) is Some
            &&& shifted(s, lsr, (a / 2) as u8, a % 2 == 1)
            &&& (lsr.0.p & 0x02 != 0) == (a / 2 == 0) && lsr.0.p & 0x80 == 0
            &&& shifted(s, rol, ((2 * a + c) % 256) as u8, a >= 0x80) && describes(rol.0.p, rol.0.a)
            &&& shifted(s, ror, (a / 2 + 128 * c) as u8, a % 2 == 1) && describes(ror.0.p, ror.0.a)
            &&& asl.1 is Ok && asl.0 == CpuView { a: ((2 * a) % 256) as u8, p: asl.0.p, ..s }
            &&& (asl.0.p & 0x01 != 0) == (a >= 0x80 || s.p & 0x01 != 0)
            &&& (asl.0.p & 0x80 != 0) == ((2 * a) % 256 >= 0x80 || s.p & 0x80 != 0)
            &&& (asl.0.p & 0x02 != 0) == ((2 * a) % 256 == 0 || s.p & 0x02 != 0)
            &&& asl.0.p & 0x5C == s.p & 0x5C
        }),
{
    let a = s.a;
    let p = s.p;
    lemma_flag_bits(p);
    // LSR
    let n1 = (a >> 1u8) & 0x7F;
    assert(n1 == a / 2 && ((a & 0x01 != 0) == (a % 2 == 1))) by (bit_vector)
        requires
            n1 == (a >> 1u8) & 0x7F,
    ;
    let q0 = cleared(p, 0b1000_0000);
    let q1 = raised_if(q0, 0b0000_0001, a & 0x01 != 0);
    let q2 = raised_if(q1, 0b0000_0010, n1 == 0);
    lemma_raise(p, 0x80, false);
    lemma_raise(q0, 0x01, a & 0x01 != 0);
    lemma_raise(q1, 0x02, n1 == 0);
    assert(q2 & 0x5C == p & 0x5C && q2 & 0x80 == 0 && q2 & 0x01 == q1 & 0x01) by (bit_vector)
        requires
            q0 & !(0x80u8 | 0x20) == p & !(0x80u8 | 0x20),
            q0 & 0x80 == 0,
            q1 & !(0x01u8 | 0x20) == q0 & !(0x01u8 | 0x20),
            q2 & !(0x02u8 | 0x20) == q1 & !(0x02u8 | 0x20),
    ;
    assert(q0 & 0x80 == 0) by {
        assert(raised_if(p, 0x80, false) == q0);
        assert((q0 & 0x80 != 0) == false);
    }
    // ROL and ROR
    let cb: u8 = if p & 1 == 1 { 0x01 } else { 0x00 };
    let cr: u8 = if p & 1 == 1 { 0x80 } else { 0x00 };
    let bl = (a << 1u8) | cb;
    let br = (a >> 1u8) | cr;
    assert(bl == (2 * a + cb) % 256 && br == a / 2 + cr && ((a & 0x80 != 0) == (a >= 0x80))) by (bit_vector)
        requires
            cb == 0 || cb == 1,
            cr == 0 || cr == 0x80,
            bl == (a << 1u8) | cb,
            br == (a >> 1u8) | cr,
    ;
    assert((p & 1 == 1) == (p & 0x01 != 0));
    lemma_rotate_flags(p, bl, a & 0x80 != 0);
    lemma_rotate_flags(p, br, a & 0x01 != 0);
    // ASL
    let b = (a << 1u8) & 0xFE;
    assert(b == (2 * a) % 256) by (bit_vector)
        requires
            b == (a << 1u8) & 0xFE,
    ;
    lemma_asl_flags(p, a, b);
}

/// True when `after` is `s` with A replaced by `v`, CARRY reading as `carry`,
/// the flags of 0x5C kept and nothing else changed
pub open spec fn shifted(s: CpuView, after: (CpuView, ExecResult), v: u8, carry: bool) -> bool {
    &&& after.1 is Ok
    &&& after.0 == CpuView { a: v, p: after.0.p, ..s }
    &&& (after.0.p & 0x01 != 0) == carry
    &&& after.0.p & 0x5C == s.p & 0x5C
}

#[verifier::spinoff_prover]
proof fn lemma_rotate_flags(p: u8, b: u8, t: bool)
    ensures
        ({
            let q = raised_if(with_sign_and_zero(p, b), 0b0000_0001, t);
            &&& (q & 0x01 != 0) == t
            &&& describes(q, b)
            &&& q & 0x5C == p & 0x5C
        }),
{
    lemma_describes(p, b);
    let w = with_sign_and_zero(p, b);
    let q = raised_if(w, 0b0000_0001, t);
    lemma_raise(w, 0x01, t);
    assert(q & 0x5C == p & 0x5C && (q & 0x02 != 0) == (w & 0x02 != 0) && (q & 0x80 != 0) == (w & 0x80
        != 0)) by (bit_vector)
        requires
            w & 0x5D == p & 0x5D,
            q & !(0x01u8 | 0x20) == w & !(0x01u8 | 0x20),
    ;
}

#[verifier::spinoff_prover]
proof fn lemma_asl_flags(p: u8, a: u8, b: u8)
    requires
        b == (2 * a) % 256,
    ensures
        ({
            let p1 = if a & 0x80 != 0 { raised(p, 0b0000_0001) } else { p };
            let p2 = if b & 0x80 != 0 { raised(p1, 0b1000_0000) } else { p1 };
            let p3 = if b == 0 { raised(p2, 0b0000_0010) } else { p2 };
            &&& (p3 & 0x01 != 0) == (a >= 0x80 || p & 0x01 != 0)
            &&& (p3 & 0x80 != 0) == (b >= 0x80 || p & 0x80 != 0)
            &&& (p3 & 0x02 != 0) == (b == 0 || p & 0x02 != 0)
            &&& p3 & 0x5C == p & 0x5C
        }),
{
    assert((a & 0x80 != 0) == (a >= 0x80) && (b & 0x80 != 0) == (b >= 0x80)) by (bit_vector);
    let p1 = if a & 0x80 != 0 { raised(p, 0b0000_0001) } else { p };
    let p2 = if b & 0x80 != 0 { raised(p1, 0b1000_0000) } else { p1 };
    let p3 = if b == 0 { raised(p2, 0b0000_0010) } else { p2 };
    let c1 = a & 0x80 != 0;
    let c2 = b & 0x80 != 0;
    let c3 = b == 0;
    assert((p3 & 0x01 != 0) == (c1 || p & 0x01 != 0) && (p3 & 0x80 != 0) == (c2 || p & 0x80 != 0)
        && (p3 & 0x02 != 0) == (c3 || p & 0x02 != 0) && p3 & 0x5C == p & 0x5C) by (bit_vector)
        requires
            p1 == if c1 { (p | 0x01) | 0x20 } else { p },
            p2 == if c2 { (p1 | 0x80) | 0x20 } else { p1 },
            p3 == if c3 { (p2 | 0x02) | 0x20 } else { p2 },
    ;
}

/// The operand that the addressing-mode bits `bbb` of an opcode of the group
/// whose low bits are 01 select, with the instruction's length
pub open spec fn group_one_operand(bbb: int, b1: u8, w: u16) -> (Operand, int) {
    if bbb == 0 {
        (Operand::PreIndexedIndirect(b1), 2)
    } else if bbb == 1 {
        (Operand::Absolute(b1 as u16), 2)
    } else if bbb == 2 {
        (Operand::Immediate(b1), 2)
    } else if bbb == 3 {
        (Operand::Absolute(w), 3)
    } else if bbb == 4 {
        (Operand::PostIndexedIndirect(b1), 2)
    } else if bbb == 5 {
        (Operand::Indexed(b1 as u16, RegisterName::X), 2)
    } else if bbb == 6 {
        (Operand::Indexed(w, RegisterName::Y), 3)
    } else {
        (Operand::Indexed(w, RegisterName::X), 3)
    }
}

/// The instruction that the operation bits `aaa` of an opcode of the group
/// whose low bits are 01 select
pub open spec fn group_one_instruction(aaa: int, op: Operand) -> Instruction {
    if aaa == 0 {
        Instruction::ORA(op)
    } else if aaa == 1 {
        Instruction::AND(op)
    } else if aaa == 2 {
        Instruction::EOR(op)
    } else if aaa == 3 {
        Instruction::ADC(op)
    } else if aaa == 4 {
        Instruction::STA(op)
    } else if aaa == 5 {
        Instruction::LDA(op)
    } else if aaa == 6 {
        Instruction::CMP(op)
    } else {
        Instruction::SBC(op)
    }
}

/// The operand that the bits `bbb` select in the group whose low bits are 10
/// (`ld_st` for STX and LDX, which index by Y), with the length; `None` for
/// the modes the group lacks
pub open spec fn group_two_operand(bbb: int, b1: u8, w: u16, ld_st: bool) -> Option<(Operand, int)> {
    let r = if ld_st {
        RegisterName::Y
    } else {
        RegisterName::X
    };
    if bbb == 0 {
        Some((Operand::Immediate(b1), 2))
    } else if bbb == 1 {
        Some((Operand::Absolute(b1 as u16), 2))
    } else if bbb == 2 {
        Some((Operand::Accumulator, 1))
    } else if bbb == 3 {
        Some((Operand::Absolute(w), 3))
    } else if bbb == 5 {
        Some((Operand::Indexed(b1 as u16, r), 2))
    } else if bbb == 7 {
        Some((Operand::Indexed(w, r), 3))
    } else {
        None
    }
}

/// The instruction that the bits `aaa` select in the group whose low bits are 10
pub open spec fn group_two_instruction(aaa: int, op: Operand) -> Instruction {
    if aaa == 0 {
        Instruction::ASL(op)
    } else if aaa == 1 {
        Instruction::ROL(op)
    } else if aaa == 2 {
        Instruction::LSR(op)
    } else if aaa == 3 {
        Instruction::ROR(op)
    } else if aaa == 4 {
        Instruction::STX(op)
    } else if aaa == 5 {
        Instruction::LDX(op)
    } else if aaa == 6 {
        Instruction::DEC(op)
    } else {
        Instruction::INC(op)
    }
}

/// True when the group whose low bits are 10 has the operation `aaa` with the
/// mode `bbb`
pub open spec fn group_two_has(aaa: int, bbb: int) -> bool {
    if bbb == 0 {
        aaa == 5
    } else if bbb == 2 {
        aaa < 4
    } else if bbb == 7 {
        aaa != 4
    } else {
        bbb == 1 || bbb == 3 || bbb == 5
    }
}

/// The branch that an opcode `xxy10000` is: `xx` picks the flag (SIGN,
/// OVERFLOW, CARRY, ZERO) and `y` whether the branch is taken on a set flag
pub open spec fn branch_named(xx: int, y: int, op: Operand) -> Instruction {
    if xx == 0 {
        if y == 0 { Instruction::BPL(op) } else { Instruction::BMI(op) }
    } else if xx == 1 {
        if y == 0 { Instruction::BVC(op) } else { Instruction::BVS(op) }
    } else if xx == 2 {
        if y == 0 { Instruction::BCC(op) } else { Instruction::BCS(op) }
    } else {
        if y == 0 { Instruction::BNE(op) } else { Instruction::BEQ(op) }
    }
}

/// The instruction of the group whose low bits are 00 (BIT, JMP, JMP
/// indirect, STY, LDY, CPY, CPX by `aaa` from 1 to 7) with the mode `bbb`,
/// and its length; `None` for the combinations the group lacks
pub open spec fn group_zero(aaa: int, bbb: int, b1: u8, w: u16) -> Option<(Instruction, int)> {
    let op_len: Option<(Operand, int)> = if bbb == 0 && aaa >= 5 {
        Some((Operand::Immediate(b1), 2))
    } else if bbb == 1 && (aaa == 1 || aaa >= 4) {
        Some((Operand::Absolute(b1 as u16), 2))
    } else if bbb == 3 && aaa >= 1 {
        Some((if aaa == 3 { Operand::Indirect(w) } else { Operand::Absolute(w) }, 3))
    } else if bbb == 5 && (aaa == 4 || aaa == 5) {
        Some((Operand::Indexed(b1 as u16, RegisterName::X), 2))
    } else if bbb == 7 && aaa == 5 {
        Some((Operand::Indexed(w, RegisterName::X), 3))
    } else {
        None
    };
    match op_len {
        None => None,
        Some((op, len)) => Some((
            if aaa == 1 {
                Instruction::BIT(op)
            } else if aaa == 2 || aaa == 3 {
                Instruction::JMP(op)
            } else if aaa == 4 {
                Instruction::STY(op)
            } else if aaa == 5 {
                Instruction::LDY(op)
            } else if aaa == 6 {
                Instruction::CPY(op)
            } else {
                Instruction::CPX(op)
            },
            len,
        )),
    }
}

/// The one-byte instructions of the columns 0x08, 0x18, 0x0A and 0x1A of the
/// opcode table, by their operation bits `aaa`, and BRK, RTI and RTS of
/// column 0x00 (with JSR, three bytes); `None` elsewhere
pub open spec fn single_byte_column(aaa: int, low: int, w: u16) -> Option<(Instruction, int)> {
    if low == 0x08 {
        Some((
            if aaa == 0 { Instruction::PHP } else if aaa == 1 { Instruction::PLP } else if aaa == 2 {
                Instruction::PHA
            } else if aaa == 3 { Instruction::PLA } else if aaa == 4 { Instruction::DEY } else if aaa == 5 {
                Instruction::TAY
            } else if aaa == 6 { Instruction::INY } else { Instruction::INX },
            1,
        ))
    } else if low == 0x18 {
        Some((
            if aaa == 0 { Instruction::CLC } else if aaa == 1 { Instruction::SEC } else if aaa == 2 {
                Instruction::CLI
            } else if aaa == 3 { Instruction::SEI } else if aaa == 4 { Instruction::TYA } else if aaa == 5 {
                Instruction::CLV
            } else if aaa == 6 { Instruction::CLD } else { Instruction::SED },
            1,
        ))
    } else if low == 0x0A && aaa >= 4 {
        Some((
            if aaa == 4 { Instruction::TXA } else if aaa == 5 { Instruction::TAX } else if aaa == 6 {
                Instruction::DEX
            } else { Instruction::NOP },
            1,
        ))
    } else if low == 0x1A && (aaa == 4 || aaa == 5) {
        Some((if aaa == 4 { Instruction::TXS } else { Instruction::TSX }, 1))
    } else if low == 0x00 && aaa <= 3 {
        if aaa == 0 {
            Some((Instruction::BRK, 1))
        } else if aaa == 1 {
            Some((Instruction::JSR(Operand::Absolute(w)), 3))
        } else if aaa == 2 {
            Some((Instruction::RTI, 1))
        } else {
            Some((Instruction::RTS, 1))
        }
    } else {
        None
    }
}

/// The instruction that the processor's documentation gives for `opcode`
/// from the regular layout of its bits `aaabbbcc`, with the bytes that follow
/// (`b1`, and the word `w`); `None` outside that layout
pub open spec fn documented_encoding(opcode: u8, b1: u8, w: u16) -> Option<(Instruction, int)> {
    let aaa = opcode / 32;
    let bbb = (opcode / 4) % 8;
    let cc = opcode % 4;
    if single_byte_column(aaa as int, (opcode % 32) as int, w) is Some {
        single_byte_column(aaa as int, (opcode % 32) as int, w)
    } else if opcode % 32 == 0x10 {
        Some((branch_named((opcode / 64) as int, ((opcode / 32) % 2) as int, Operand::Offset(b1 as i8)), 2))
    } else if cc == 1 && opcode != 0x89 {
        let (op, len) = group_one_operand(bbb as int, b1, w);
        Some((group_one_instruction(aaa as int, op), len))
    } else if cc == 0 && group_zero(aaa as int, bbb as int, b1, w) is Some {
        group_zero(aaa as int, bbb as int, b1, w)
    } else if cc == 2 && group_two_has(aaa as int, bbb as int) {
        let (op, len) = group_two_operand(bbb as int, b1, w, aaa == 4 || aaa == 5)->0;
        Some((group_two_instruction(aaa as int, op), len))
    } else {
        None
    }
}

/// The decoder follows the regular layout of the opcodes: every opcode whose
/// bits fall in the documented groups (ORA AND EOR ADC STA LDA CMP SBC by
/// mode; ASL ROL LSR ROR STX LDX DEC INC by mode; BIT JMP STY LDY CPY CPX by
/// mode; the eight branches; the one-byte columns and BRK, JSR, RTI, RTS) decodes
/// to the instruction, operand and length that the layout gives.
#[verifier::spinoff_prover]
#[verifier::rlimit(100)]
pub proof fn law_decoding_follows_the_opcode_layout(opcode: u8, b1: u8, w: u16)
    requires
        documented_encoding(opcode, b1, w) is Some,
    ensures
        opcode_spec(opcode, b1, w) == documented_encoding(opcode, b1, w),
{
    if opcode == 0x00 {
    } else if opcode == 0x08 {
    } else if opcode == 0x18 {
    } else if opcode == 0x20 {
    } else if opcode == 0x28 {
    } else if opcode == 0x38 {
    } else if opcode == 0x40 {
    } else if opcode == 0x48 {
    } else if opcode == 0x58 {
    } else if opcode == 0x60 {
    } else if opcode == 0x68 {
    } else if opcode == 0x78 {
    } else if opcode == 0x88 {
    } else if opcode == 0x8A {
    } else if opcode == 0x98 {
    } else if opcode == 0x9A {
    } else if opcode == 0xA8 {
    } else if opcode == 0xAA {
    } else if opcode == 0xB8 {
    } else if opcode == 0xBA {
    } else if opcode == 0xC8 {
    } else if opcode == 0xCA {
    } else if opcode == 0xD8 {
    } else if opcode == 0xE8 {
    } else if opcode == 0xEA {
    } else if opcode == 0xF8 {
    } else if opcode == 0x24 {
    } else if opcode == 0x2C {
    } else if opcode == 0x4C {
    } else if opcode == 0x6C {
    } else if opcode == 0x84 {
    } else if opcode == 0x8C {
    } else if opcode == 0x94 {
    } else if opcode == 0xA0 {
    } else if opcode == 0xA4 {
    } else if opcode == 0xAC {
    } else if opcode == 0xB4 {
    } else if opcode == 0xBC {
    } else if opcode == 0xC0 {
    } else if opcode == 0xC4 {
    } else if opcode == 0xCC {
    } else if opcode == 0xE0 {
    } else if opcode == 0xE4 {
    } else if opcode == 0xEC {
    } else if opcode == 0x01 {
    } else if opcode == 0x05 {
    } else if opcode == 0x06 {
    } else if opcode == 0x09 {
    } else if opcode == 0x0A {
    } else if opcode == 0x0D {
    } else if opcode == 0x0E {
    } else if opcode == 0x10 {
    } else if opcode == 0x11 {
    } else if opcode == 0x15 {
    } else if opcode == 0x16 {
    } else if opcode == 0x19 {
    } else if opcode == 0x1D {
    } else if opcode == 0x1E {
    } else if opcode == 0x21 {
    } else if opcode == 0x25 {
    } else if opcode == 0x26 {
    } else if opcode == 0x29 {
    } else if opcode == 0x2A {
    } else if opcode == 0x2D {
    } else if opcode == 0x2E {
    } else if opcode == 0x30 {
    } else if opcode == 0x31 {
    } else if opcode == 0x35 {
    } else if opcode == 0x36 {
    } else if opcode == 0x39 {
    } else if opcode == 0x3D {
    } else if opcode == 0x3E {
    } else if opcode == 0x41 {
    } else if opcode == 0x45 {
    } else if opcode == 0x46 {
    } else if opcode == 0x49 {
    } else if opcode == 0x4A {
    } else if opcode == 0x4D {
    } else if opcode == 0x4E {
    } else if opcode == 0x50 {
    } else if opcode == 0x51 {
    } else if opcode == 0x55 {
    } else if opcode == 0x56 {
    } else if opcode == 0x59 {
    } else if opcode == 0x5D {
    } else if opcode == 0x5E {
    } else if opcode == 0x61 {
    } else if opcode == 0x65 {
    } else if opcode == 0x66 {
    } else if opcode == 0x69 {
    } else if opcode == 0x6A {
    } else if opcode == 0x6D {
    } else if opcode == 0x6E {
    } else if opcode == 0x70 {
    } else if opcode == 0x71 {
    } else if opcode == 0x75 {
    } else if opcode == 0x76 {
    } else if opcode == 0x79 {
    } else if opcode == 0x7D {
    } else if opcode == 0x7E {
    } else if opcode == 0x81 {
    } else if opcode == 0x85 {
    } else if opcode == 0x86 {
    } else if opcode == 0x8D {
    } else if opcode == 0x8E {
    } else if opcode == 0x90 {
    } else if opcode == 0x91 {
    } else if opcode == 0x95 {
    } else if opcode == 0x96 {
    } else if opcode == 0x99 {
    } else if opcode == 0x9D {
    } else if opcode == 0xA1 {
    } else if opcode == 0xA2 {
    } else if opcode == 0xA5 {
    } else if opcode == 0xA6 {
    } else if opcode == 0xA9 {
    } else if opcode == 0xAD {
    } else if opcode == 0xAE {
    } else if opcode == 0xB0 {
    } else if opcode == 0xB1 {
    } else if opcode == 0xB5 {
    } else if opcode == 0xB6 {
    } else if opcode == 0xB9 {
    } else if opcode == 0xBD {
    } else if opcode == 0xBE {
    } else if opcode == 0xC1 {
    } else if opcode == 0xC5 {
    } else if opcode == 0xC6 {
    } else if opcode == 0xC9 {
    } else if opcode == 0xCD {
    } else if opcode == 0xCE {
    } else if opcode == 0xD0 {
    } else if opcode == 0xD1 {
    } else if opcode == 0xD5 {
    } else if opcode == 0xD6 {
    } else if opcode == 0xD9 {
    } else if opcode == 0xDD {
    } else if opcode == 0xDE {
    } else if opcode == 0xE1 {
    } else if opcode == 0xE5 {
    } else if opcode == 0xE6 {
    } else if opcode == 0xE9 {
    } else if opcode == 0xED {
    } else if opcode == 0xEE {
    } else if opcode == 0xF0 {
    } else if opcode == 0xF1 {
    } else if opcode == 0xF5 {
    } else if opcode == 0xF6 {
    } else if opcode == 0xF9 {
    } else if opcode == 0xFD {
    } else if opcode == 0xFE {
    }
}

/// JSR to an absolute address pushes the address of its own last byte (the
/// program counter minus one), high byte at 0x100 + SP and low byte below it,
/// moves SP down by two and jumps. Nothing else changes.
#[verifier::spinoff_prover]
pub proof fn law_jsr_pushes_and_jumps(s: CpuView, a: u16)
    requires
        s.pc != 0,
        s.sp >= 2,
        s.mem.contains_key((0x100 + s.sp) as u64),
        s.mem.contains_key((0x100 + s.sp - 1) as u64),
    ensures
        execute_spec(s, Instruction::JSR(Operand::Absolute(a))) == Some((
            CpuView {
                pc: a,
                sp: (s.sp - 2) as u8,
                mem: s.mem.insert((0x100 + s.sp) as u64, ((s.pc - 1) / 256) as u8).insert(
                    (0x100 + s.sp - 1) as u64,
                    ((s.pc - 1) % 256) as u8,
                ),
                ..s
            },
            Ok::<(), crate::exec::ExecError>(()),
        )),
{
    let s0 = s.with_suspended(true);
    assert(effective_addr(s0, Operand::Absolute(a)) == Ok::<(u16, bool), OperandError>((a, false)));
    let pc = s0.pc - 1;
    let hi = (pc / 256) as u8;
    let lo = (pc % 256) as u8;
    let m1 = s.mem.insert((0x100 + s.sp) as u64, hi);
    let s2 = CpuView { mem: m1, sp: (s.sp - 1) as u8, ..s0 };
    assert(push_spec(s0, hi) == Some((s2, Ok::<(), crate::mem::MemoryError>(()))));
    assert(m1.contains_key((0x100 + s.sp - 1) as u64));
    let s3 = CpuView { mem: m1.insert((0x100 + s.sp - 1) as u64, lo), sp: (s.sp - 2) as u8, ..s0 };
    assert(push_spec(s2, lo) == Some((s3, Ok::<(), crate::mem::MemoryError>(()))));
}

/// RTS pulls an address, low byte first from 0x100 + SP + 1, moves SP up by
/// two and resumes right after that address. Nothing else changes.
#[verifier::spinoff_prover]
pub proof fn law_rts_pulls_and_returns(s: CpuView)
    requires
        s.sp <= 253,
        s.mem.contains_key((0x100 + s.sp + 1) as u64),
        s.mem.contains_key((0x100 + s.sp + 2) as u64),
    ensures
        execute_spec(s, Instruction::RTS) == Some((
            CpuView {
                pc: ((word_at(s, 0x100 + s.sp + 1, 0x100 + s.sp + 2) + 1) % 0x1_0000) as u16,
                sp: (s.sp + 2) as u8,
                ..s
            },
            Ok::<(), crate::exec::ExecError>(()),
        )),
{
}

/// BRK pushes the program counter plus one (high byte first) and the status
/// register with BREAK set, moves SP down by three and jumps to the word at
/// the interrupt vector 0xFFFE. The status register itself is left as it was.
#[verifier::spinoff_prover]
pub proof fn law_brk_pushes_and_jumps_through_the_vector(s: CpuView)
    requires
        s.sp >= 3,
        s.mem.contains_key((0x100 + s.sp) as u64),
        s.mem.contains_key((0x100 + s.sp - 1) as u64),
        s.mem.contains_key((0x100 + s.sp - 2) as u64),
        s.mem.contains_key(0xFFFE),
        s.mem.contains_key(0xFFFF),
    ensures
        ({
            let ret = (s.pc + 1) % 0x1_0000;
            let m = s.mem.insert((0x100 + s.sp) as u64, (ret / 256) as u8).insert(
                (0x100 + s.sp - 1) as u64,
                (ret % 256) as u8,
            ).insert((0x100 + s.sp - 2) as u64, s.p | 0x10);
            execute_spec(s, Instruction::BRK) == Some((
                CpuView { pc: word_at(s, 0xFFFE, 0xFFFF) as u16, sp: (s.sp - 3) as u8, mem: m, ..s },
                Ok::<(), crate::exec::ExecError>(()),
            ))
        }),
{
    let s1 = s.with_pc(s.pc + 1);
    let ret = s1.pc;
    assert(ret == (s.pc + 1) % 0x1_0000);
    let hi = (ret / 256) as u8;
    let lo = (ret % 256) as u8;
    let m1 = s.mem.insert((0x100 + s.sp) as u64, hi);
    let s2 = CpuView { mem: m1, sp: (s.sp - 1) as u8, ..s1 };
    assert(push_spec(s1, hi) == Some((s2, Ok::<(), crate::mem::MemoryError>(()))));
    let m2 = m1.insert((0x100 + s.sp - 1) as u64, lo);
    let s3 = CpuView { mem: m2, sp: (s.sp - 2) as u8, ..s1 };
    assert(push_spec(s2, lo) == Some((s3, Ok::<(), crate::mem::MemoryError>(()))));
    let pv = s.p | 0x10;
    let p0 = s.p;
    assert(p0 | 0b0001_0000 == p0 | 0x10) by (bit_vector);
    let m3 = m2.insert((0x100 + s.sp - 2) as u64, pv);
    let s4 = CpuView { mem: m3, sp: (s.sp - 3) as u8, ..s1 };
    assert(push_spec(s3, pv) == Some((s4, Ok::<(), crate::mem::MemoryError>(()))));
    assert(m3[0xFFFE] == s.mem[0xFFFE] && m3[0xFFFF] == s.mem[0xFFFF]);
    let w = word_at(s, 0xFFFE, 0xFFFF);
    assert(0 <= w < 0x1_0000);
    assert(crate::mem::cell_read_le_u16(m3, 0xFFFE) == Ok::<u16, crate::mem::MemoryError>(w as u16));
}

/// RTI pulls the status register (its reserved bit set), then the program
/// counter, low byte first, and moves SP up by three.
#[verifier::spinoff_prover]
pub proof fn law_rti_pulls_flags_and_address(s: CpuView)
    requires
        s.sp <= 252,
        s.mem.contains_key((0x100 + s.sp + 1) as u64),
        s.mem.contains_key((0x100 + s.sp + 2) as u64),
        s.mem.contains_key((0x100 + s.sp + 3) as u64),
    ensures
        execute_spec(s, Instruction::RTI) == Some((
            CpuView {
                p: s.mem[(0x100 + s.sp + 1) as u64] | 0x20,
                pc: word_at(s, 0x100 + s.sp + 2, 0x100 + s.sp + 3) as u16,
                sp: (s.sp + 3) as u8,
                ..s
            },
            Ok::<(), crate::exec::ExecError>(()),
        )),
{
    let w = word_at(s, 0x100 + s.sp + 2, 0x100 + s.sp + 3);
    assert(0 <= w < 0x1_0000);
}

/// True when shifting the byte at `e` (running `on_mem`) does to that byte and
/// to the status register what the same shift of A (running `on_a` where A
/// holds the byte) does to A and to the status register, and nothing else
pub open spec fn same_as_on_a(s: CpuView, e: u64, on_mem: (CpuView, ExecResult), on_a: (CpuView, ExecResult)) -> bool {
    &&& on_mem.1 is Ok
    &&& on_a.1 is Ok
    &&& on_mem.0 == CpuView { mem: s.mem.insert(e, on_a.0.a), p: on_a.0.p, ..s }
}

/// ASL, LSR, ROL and ROR on a byte in memory do to it and to the flags what
/// they do to A (see `law_accumulator_shifts`), and change nothing else, the
/// clock included. An operand indexed by the status register is left out.
#[verifier::spinoff_prover]
pub proof fn law_memory_shifts_act_as_on_a(s: CpuView, op: Operand)
    requires
        effective_addr(s, op) is Ok,
        s.mem.contains_key((effective_addr(s, op)->Ok_0).0 as u64),
        !(op matches Operand::Indexed(_, r) && r == RegisterName::P),
    ensures
        ({
            let e = (effective_addr(s, op)->Ok_0).0 as u64;
            let sa = CpuView { a: s.mem[e], ..s };
            &&& execute_spec(s, Instruction::ASL(op)) is Some
            &&& execute_spec(s, Instruction::LSR(op)) is Some
            &&& execute_spec(s, Instruction::ROL(op)) is Some
            &&& execute_spec(s, Instruction::ROR(op)) is Some
            &&& same_as_on_a(s, e, ran(s, Instruction::ASL(op)), ran(sa, Instruction::ASL(Operand::Accumulator)))
            &&& same_as_on_a(s, e, ran(s, Instruction::LSR(op)), ran(sa, Instruction::LSR(Operand::Accumulator)))
            &&& same_as_on_a(s, e, ran(s, Instruction::ROL(op)), ran(sa, Instruction::ROL(Operand::Accumulator)))
            &&& same_as_on_a(s, e, ran(s, Instruction::ROR(op)), ran(sa, Instruction::ROR(Operand::Accumulator)))
        }),
{
    let s0 = s.with_suspended(true);
    assert(effective_addr(s0, op) == effective_addr(s, op));
    let e = (effective_addr(s, op)->Ok_0).0;
    let v = s.mem[e as u64];
    let p = s.p;
    // ASL writes with CARRY raised when bit 7 falls off
    let pa = if v & 0x80 != 0 { raised(p, 0b0000_0001) } else { p };
    lemma_write_with_flags(s0, op, e, pa, (v << 1u8) & 0xFE);
    // LSR writes with SIGN cleared, CARRY and ZERO set from the byte
    let m = (v >> 1u8) & 0x7F;
    let pl = raised_if(raised_if(cleared(p, 0b1000_0000), 0b0000_0001, v & 0x01 != 0), 0b0000_0010, m == 0);
    lemma_write_with_flags(s0, op, e, pl, m);
    // ROL and ROR write before they touch the flags
    let cb: u8 = if p & 1 == 1 { 0x01 } else { 0x00 };
    let cr: u8 = if p & 1 == 1 { 0x80 } else { 0x00 };
    lemma_write_with_flags(s0, op, e, p, (v << 1u8) | cb);
    lemma_write_with_flags(s0, op, e, p, (v >> 1u8) | cr);
    crate::laws::lemma_suspended_access(s0, op, e, v);
}

/// With the clock suspended and any status register, an operand whose address
/// does not rest on that register is written at its address `e`
#[verifier::spinoff_prover]
proof fn lemma_write_with_flags(s0: CpuView, op: Operand, e: u16, p: u8, val: u8)
    requires
        s0.suspended,
        effective_addr(s0, op) matches Ok((a, _)) && a == e,
        s0.mem.contains_key(e as u64),
        !(op matches Operand::Indexed(_, r) && r == RegisterName::P),
    ensures
        write_step(s0.with_p(p), op, val) == (s0.with_p(p).with_mem(s0.mem.insert(e as u64, val)), Ok::<(), OperandError>(())),
        read_step(s0.with_p(p), op) == (s0.with_p(p), Ok::<u8, OperandError>(s0.mem[e as u64])),
{
    assert(effective_addr(s0.with_p(p), op) == effective_addr(s0, op));
    crate::laws::lemma_suspended_access(s0.with_p(p), op, e, val);
}

/// LAX loads the operand into both A and X, ZERO and SIGN describing it and
/// the other flags kept; SAX writes A & X to the operand's address, changing
/// nothing else but the clock.
#[verifier::spinoff_prover]
pub proof fn law_lax_and_sax(s: CpuView, op: Operand)
    ensures
        read_step(s, op).1 is Ok ==> ({
            let s1 = read_step(s, op).0;
            let m = read_step(s, op).1->Ok_0;
            &&& execute_spec(s, Instruction::LAX(op)) is Some
            &&& moved(s, ran(s, Instruction::LAX(op)), CpuView { a: m, x: m, ..s1 }, m)
        }),
        (effective_addr(s, op) is Ok && s.mem.contains_key((effective_addr(s, op)->Ok_0).0 as u64)) ==> ({
            let e = (effective_addr(s, op)->Ok_0).0 as u64;
            let s2 = ran(s, Instruction::SAX(op)).0;
            &&& execute_spec(s, Instruction::SAX(op)) is Some
            &&& ran(s, Instruction::SAX(op)).1 is Ok
            &&& s2 == CpuView { mem: s.mem.insert(e, s.a & s.x), cycles: s2.cycles, ..s }
        }),
{
    if read_step(s, op).1 is Ok {
        let s1 = read_step(s, op).0;
        let m = read_step(s, op).1->Ok_0;
        assert(s1.p == s.p);
        lemma_describes(s.p, m);
        let q = with_sign_and_zero(s.p, m);
        lemma_describes(q, m);
        assert(with_sign_and_zero(q, m) & 0x5D == s.p & 0x5D);
    }
}

} // verus!
