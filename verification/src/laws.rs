use vstd::prelude::*;
use crate::cpu::{pull_spec, push_spec, reg_value, stack_addr, CpuView, RegisterName};
use crate::decoder::decode_spec;
use crate::exec::compare::compare_spec;
use crate::exec::dec::{dec_mem_spec, dec_reg_spec};
use crate::exec::inc::{inc_mem_spec, inc_reg_spec};
use crate::exec::jsr::jsr_spec;
use crate::exec::pull::pull_exec_spec;
use crate::exec::push::push_exec_spec;
use crate::exec::brk::brk_spec;
use crate::exec::ret::{rti_spec, rts_spec};
use crate::exec::rotate::rotate_spec;
use crate::exec::utils::{bcd_encoding, bcd_value};
use crate::flags::{cleared, raised, raised_if, replaced, with_sign_and_zero};
use crate::instruction::{cycles_spec, is_undocumented, operand_of, with_operand, Instruction};
use crate::mem::{cell_read, cell_read_le_u16, cell_write, cell_write_le_u16, MemoryError};
use crate::operand::{effective_addr, pointer_read, read_step, write_step, Operand, OperandError};

verus! {

/// Setting flags makes every one of them read as set.
pub proof fn law_set_flags_read_as_set(bits: u8, flags: u8)
    ensures
        raised(bits, flags) & flags == flags,
{
    assert(((bits | flags) | 0x20) & flags == flags) by (bit_vector);
}

/// Clearing flags other than the reserved bit makes none of them read as set.
pub proof fn law_cleared_flags_read_as_clear(bits: u8, flags: u8)
    requires
        flags & 0x20 == 0,
    ensures
        cleared(bits, flags) & flags == 0,
{
    assert(flags & 0x20 == 0 ==> ((bits & !flags) | 0x20) & flags == 0) by (bit_vector);
}

/// Whatever is written to the status register, its reserved bit reads as set.
pub proof fn law_reserved_bit_always_reads_as_set(bits: u8, flags: u8, condition: bool, val: u8)
    ensures
        replaced(bits) & 0x20 == 0x20,
        raised(bits, flags) & 0x20 == 0x20,
        cleared(bits, flags) & 0x20 == 0x20,
        raised_if(bits, flags, condition) & 0x20 == 0x20,
        with_sign_and_zero(bits, val) & 0x20 == 0x20,
{
    assert(forall|b: u8| #![trigger b | 0x20] (b | 0x20) & 0x20 == 0x20) by (bit_vector);
}

/// After flags are set on a condition, they read as set exactly when the
/// condition holds (for flags other than the reserved bit).
pub proof fn law_set_if_reads_back_its_condition(bits: u8, flags: u8, condition: bool)
    requires
        flags & 0x20 == 0,
        flags != 0,
    ensures
        (raised_if(bits, flags, condition) & flags == flags) == condition,
{
    law_set_flags_read_as_set(bits, flags);
    law_cleared_flags_read_as_clear(bits, flags);
}

/// After `set_sign_and_zero(val)`, ZERO reads as set exactly when `val` is
/// zero, SIGN exactly when bit 7 of `val` is set, and the other flags are
/// left as they were.
pub proof fn law_sign_and_zero_describe_the_value(bits: u8, val: u8)
    ensures
        (with_sign_and_zero(bits, val) & 0x02 == 0x02) == (val == 0),
        (with_sign_and_zero(bits, val) & 0x80 == 0x80) == (val >= 0x80),
        with_sign_and_zero(bits, val) & 0x5D == bits & 0x5D,
{
    let z = val == 0;
    let n = val & 0x80 != 0;
    assert(val & 0x80 != 0 <==> val >= 0x80) by (bit_vector);
    let p1 = raised_if(bits, 0x02, z);
    assert(p1 & 0x5D == bits & 0x5D && (p1 & 0x02 == 0x02) == z) by (bit_vector)
        requires
            p1 == if z {
                (bits | 0x02) | 0x20
            } else {
                (bits & !0x02u8) | 0x20
            },
    ;
    let p2 = raised_if(p1, 0x80, n);
    assert(p2 & 0x5D == p1 & 0x5D && (p2 & 0x02) == (p1 & 0x02) && (p2 & 0x80 == 0x80) == n)
        by (bit_vector)
        requires
            p2 == if n {
                (p1 | 0x80) | 0x20
            } else {
                (p1 & !0x80u8) | 0x20
            },
    ;
}

/// A read of memory gives back what a successful write stored there, and the
/// write changes no other address; a failed write changes nothing and names
/// the address.
pub proof fn law_memory_read_after_write(cells: Map<u64, u8>, addr: u64, val: u8, other: u64)
    ensures
        cell_write(cells, addr, val).1 is Ok ==> cell_read(cell_write(cells, addr, val).0, addr)
            == Ok::<u8, MemoryError>(val),
        other != addr ==> cell_read(cell_write(cells, addr, val).0, other) == cell_read(
            cells,
            other,
        ),
        cell_write(cells, addr, val).1 is Err ==> cell_write(cells, addr, val) == (
            cells,
            Err::<(), MemoryError>(MemoryError::UnmappedAddress(addr)),
        ),
{
}

/// A little-endian read of two bytes gives back the word that a successful
/// little-endian write stored there.
pub proof fn law_memory_word_read_after_write(cells: Map<u64, u8>, addr: u64, val: u16)
    requires
        addr < u64::MAX,
        cell_write_le_u16(cells, addr, val).1 is Ok,
    ensures
        cell_read_le_u16(cell_write_le_u16(cells, addr, val).0, addr) == Ok::<u16, MemoryError>(val),
{
    let c1 = cells.insert(addr, (val % 256) as u8);
    let c2 = c1.insert((addr + 1) as u64, (val / 256) as u8);
    assert(cell_write_le_u16(cells, addr, val).0 == c2);
    assert(c2[addr] == (val % 256) as u8);
    assert(c2[(addr + 1) as u64] == (val / 256) as u8);
}

/// A pull gives back the value that the push just before it stored, and
/// puts the stack pointer back where it was.
pub proof fn law_pull_returns_what_push_stored(s: CpuView, val: u8)
    requires
        push_spec(s, val) matches Some((_, r)) && r is Ok,
    ensures
        pull_spec((push_spec(s, val)->0).0) == Some((
            s.with_mem(s.mem.insert(stack_addr(s.sp as int), val)),
            Ok::<u8, MemoryError>(val),
        )),
{
    let s1 = (push_spec(s, val)->0).0;
    assert(s1.sp + 1 == s.sp);
    assert(s1.mem == s.mem.insert(stack_addr(s.sp as int), val));
    let (s2, r) = pull_spec(s1)->0;
    assert(s2 =~= s.with_mem(s.mem.insert(stack_addr(s.sp as int), val)));
}

/// PLA after PHA gives A back and puts the stack pointer back where it was.
pub proof fn law_pla_undoes_pha(s: CpuView)
    requires
        push_exec_spec(s, RegisterName::A) matches Some((_, r)) && r is Ok,
    ensures
        pull_exec_spec((push_exec_spec(s, RegisterName::A)->0).0, RegisterName::A) matches Some((s2, r2))
            && r2 is Ok && s2.a == s.a && s2.sp == s.sp,
{
    law_pull_returns_what_push_stored(s, s.a);
}

/// PLP after PHP gives the status register back with BREAK cleared, and puts
/// the stack pointer back where it was.
pub proof fn law_plp_undoes_php(s: CpuView)
    requires
        push_exec_spec(s, RegisterName::P) matches Some((_, r)) && r is Ok,
    ensures
        pull_exec_spec((push_exec_spec(s, RegisterName::P)->0).0, RegisterName::P) matches Some((s2, r2))
            && r2 is Ok && s2.p == cleared(s.p, 0x10) && s2.sp == s.sp,
{
    let p = s.p;
    law_pull_returns_what_push_stored(s, 0x10 | p);
    assert(((((0x10 | p) | 0x20) & !0x10u8) | 0x20) == ((p & !0x10u8) | 0x20)) by (bit_vector);
}

/// RTS after JSR to an absolute address comes back to the address right
/// after the JSR, with the stack pointer where it was.
pub proof fn law_rts_returns_after_jsr(s: CpuView, target: u16)
    requires
        jsr_spec(s, Operand::Absolute(target)) matches Some((_, r)) && r is Ok,
    ensures
        rts_spec((jsr_spec(s, Operand::Absolute(target))->0).0) matches Some((s2, r2)) && r2 is Ok
            && s2.pc == s.pc && s2.sp == s.sp,
{
    let sus = s.with_suspended(true);
    let pc = sus.pc - 1;
    let hi = (pc / 256) as u8;
    let lo = (pc % 256) as u8;
    let s2 = (push_spec(sus, hi)->0).0;
    law_pull_returns_what_push_stored(sus, hi);
    law_pull_returns_what_push_stored(s2, lo);
    let s3 = (push_spec(s2, lo)->0).0;
    let s4 = s3.with_pc(target as int).with_suspended(s.suspended);
    assert((jsr_spec(s, Operand::Absolute(target))->0).0 == s4);
    // The two pulls read the low byte, then the high byte
    let t1 = pull_spec(s4)->0;
    assert(t1.1 == Ok::<u8, MemoryError>(lo));
    let t2 = pull_spec(t1.0)->0;
    assert(t1.0.mem == s3.mem);
    assert(s3.mem[stack_addr(s.sp as int)] == hi) by {
        assert(s2.mem[stack_addr(s.sp as int)] == hi);
        assert(stack_addr(s2.sp as int) != stack_addr(s.sp as int));
    }
    assert(t2.1 == Ok::<u8, MemoryError>(hi));
    assert(hi * 256 + lo + 1 == sus.pc);
}

/// RTI after a successful BRK comes back one byte past where the program
/// counter stood at BRK (past its padding byte), with the stack pointer where
/// it was and the status register as BRK pushed it (BREAK set).
pub proof fn law_rti_returns_from_brk(s: CpuView)
    requires
        brk_spec(s) matches Some((_, r)) && r is Ok,
    ensures
        rti_spec((brk_spec(s)->0).0) matches Some((s2, r2)) && r2 is Ok && s2.pc == (s.pc + 1)
            % 0x1_0000 && s2.sp == s.sp && s2.p == replaced(s.p | 0x10),
{
    let s1 = s.with_pc(s.pc + 1);
    let pc = s1.pc;
    let hi = (pc / 256) as u8;
    let lo = (pc % 256) as u8;
    let s2 = (push_spec(s1, hi)->0).0;
    let s3 = (push_spec(s2, lo)->0).0;
    let pv = s3.p | 0x10;
    let s4 = (push_spec(s3, pv)->0).0;
    law_pull_returns_what_push_stored(s3, pv);
    let v = cell_read_le_u16(s4.mem, 0xFFFE)->Ok_0;
    let s5 = s4.with_pc(v as int);
    assert((brk_spec(s)->0).0 == s5);
    // The three pulls read the status register, then the low and the high byte
    let t1 = pull_spec(s5)->0;
    assert(t1.1 == Ok::<u8, MemoryError>(pv));
    let t2 = pull_spec(t1.0)->0;
    assert(s4.mem[stack_addr(s2.sp as int)] == lo) by {
        assert(s3.mem[stack_addr(s2.sp as int)] == lo);
        assert(stack_addr(s3.sp as int) != stack_addr(s2.sp as int));
    }
    assert(t2.1 == Ok::<u8, MemoryError>(lo));
    let t3 = pull_spec(t2.0)->0;
    assert(s4.mem[stack_addr(s.sp as int)] == hi) by {
        assert(s2.mem[stack_addr(s.sp as int)] == hi);
        assert(stack_addr(s2.sp as int) != stack_addr(s.sp as int));
        assert(stack_addr(s3.sp as int) != stack_addr(s.sp as int));
    }
    assert(t3.1 == Ok::<u8, MemoryError>(hi));
    assert(hi * 256 + lo == pc);
}

/// True when finding the address of `op` in state `s` reads the byte at `a`
pub open spec fn address_reads_cell(s: CpuView, op: Operand, a: int) -> bool {
    match op {
        Operand::Indirect(addr) => a == addr || a == (addr / 256) * 256 + (addr + 1) % 256,
        Operand::PreIndexedIndirect(addr) => a == (addr + s.x) % 0x100 || a == ((addr + s.x) % 0x100
            + 1) % 0x100,
        Operand::PostIndexedIndirect(addr) => a == addr || a == (addr + 1) % 0x100,
        _ => false,
    }
}

/// Reading an operand gives back the value that a successful write to it
/// stored, unless the write overwrote one of the bytes from which the
/// operand's address is found.
pub proof fn law_operand_read_after_write(s: CpuView, op: Operand, val: u8)
    requires
        write_step(s, op, val).1 is Ok,
        effective_addr(s, op) matches Ok((ea, _)) ==> !address_reads_cell(s, op, ea as int),
    ensures
        read_step(write_step(s, op, val).0, op).1 == Ok::<u8, OperandError>(val),
{
    let s2 = write_step(s, op, val).0;
    match op {
        Operand::Accumulator => {},
        _ => {
            let (ea, oops) = effective_addr(s, op)->Ok_0;
            assert(s2.mem == s.mem.insert(ea as u64, val));
            assert(s2.x == s.x && s2.y == s.y && s2.a == s.a);
            assert(effective_addr(s2, op) == effective_addr(s, op));
        },
    }
}

/// With the clock suspended, reading or writing a memory operand whose
/// address is `ea` touches the byte at `ea` and nothing else
pub proof fn lemma_suspended_access(u: CpuView, op: Operand, ea: u16, val: u8)
    requires
        u.suspended,
        effective_addr(u, op) matches Ok((e, _)) && e == ea,
        u.mem.contains_key(ea as u64),
    ensures
        read_step(u, op) == (u, Ok::<u8, OperandError>(u.mem[ea as u64])),
        write_step(u, op, val) == (u.with_mem(u.mem.insert(ea as u64, val)), Ok::<(), OperandError>(())),
{
}

/// A write to `ea` leaves what a read of any other address gives
proof fn lemma_cell_kept(m: Map<u64, u8>, ea: u64, val: u8, a: u64)
    requires
        a != ea,
    ensures
        cell_read(m.insert(ea, val), a) == cell_read(m, a),
{
}

/// Finding an operand's address gives the same result after a write to a
/// byte that finding it does not read
pub proof fn lemma_address_survives_write(s: CpuView, t: CpuView, op: Operand, ea: u16, val: u8)
    requires
        effective_addr(s, op) matches Ok((e, _)) && e == ea,
        !address_reads_cell(s, op, ea as int),
        t.x == s.x,
        t.y == s.y,
        op matches Operand::Indexed(_, r) ==> reg_value(t, r) == reg_value(s, r),
        t.mem == s.mem.insert(ea as u64, val),
    ensures
        effective_addr(t, op) == effective_addr(s, op),
{
    match op {
        Operand::Indirect(addr) => {
            let high = (addr / 256) * 256 + (addr + 1) % 256;
            lemma_cell_kept(s.mem, ea as u64, val, addr as u64);
            lemma_cell_kept(s.mem, ea as u64, val, high as u64);
            assert(pointer_read(t.mem, addr as int, high) == pointer_read(s.mem, addr as int, high));
        },
        Operand::PreIndexedIndirect(addr) => {
            let ptr = (addr + s.x) % 0x100;
            lemma_cell_kept(s.mem, ea as u64, val, ptr as u64);
            lemma_cell_kept(s.mem, ea as u64, val, ((ptr + 1) % 0x100) as u64);
            assert(pointer_read(t.mem, ptr, (ptr + 1) % 0x100) == pointer_read(
                s.mem,
                ptr,
                (ptr + 1) % 0x100,
            ));
        },
        Operand::PostIndexedIndirect(addr) => {
            lemma_cell_kept(s.mem, ea as u64, val, addr as u64);
            lemma_cell_kept(s.mem, ea as u64, val, ((addr + 1) % 0x100) as u64);
            assert(pointer_read(t.mem, addr as int, (addr + 1) % 0x100) == pointer_read(
                s.mem,
                addr as int,
                (addr + 1) % 0x100,
            ));
        },
        _ => {},
    }
}

/// DEC after INC on an operand gives back A and the memory as they were,
/// unless INC overwrote one of the bytes from which the operand's address is
/// found, or the operand is indexed by the status register, which INC changes.
#[verifier::spinoff_prover]
#[verifier::rlimit(40)]
pub proof fn law_dec_undoes_inc(s: CpuView, op: Operand)
    requires
        inc_mem_spec(s, op).1 is Ok,
        !(op matches Operand::Indexed(_, r) && r == RegisterName::P),
        effective_addr(s, op) matches Ok((ea, _)) ==> !address_reads_cell(s, op, ea as int),
    ensures
        dec_mem_spec(inc_mem_spec(s, op).0, op) matches (s2, r2) && r2 is Ok && s2.mem == s.mem
            && s2.a == s.a,
{
    let s0 = s.with_suspended(true);
    let s1 = inc_mem_spec(s, op).0;
    let t0 = s1.with_suspended(true);
    assert(effective_addr(s0, op) == effective_addr(s, op));
    match op {
        Operand::Accumulator => {},
        _ => {
            let (ea, oops) = effective_addr(s, op)->Ok_0;
            assert(s.mem.contains_key(ea as u64));
            let v = s.mem[ea as u64];
            let up = ((v + 1) % 256) as u8;
            lemma_suspended_access(s0, op, ea, up);
            let p1 = with_sign_and_zero(s0.p, up);
            lemma_suspended_access(s0.with_p(p1), op, ea, up);
            assert(t0 == s0.with_p(p1).with_mem(s.mem.insert(ea as u64, up)));
            lemma_address_survives_write(s, t0, op, ea, up);
            let down = ((up + 255) % 256) as u8;
            assert(down == v);
            lemma_suspended_access(t0, op, ea, down);
            let p2 = with_sign_and_zero(t0.p, down);
            lemma_suspended_access(t0.with_p(p2), op, ea, down);
            assert(s.mem.insert(ea as u64, up).insert(ea as u64, down) =~= s.mem);
        },
    }
}

/// ROR of the accumulator undoes ROL of the accumulator: A and CARRY come back.
pub proof fn law_ror_undoes_rol(s: CpuView)
    ensures
        rotate_spec(rotate_spec(s, Operand::Accumulator, true).0, Operand::Accumulator, false).0.a
            == s.a,
        rotate_spec(rotate_spec(s, Operand::Accumulator, true).0, Operand::Accumulator, false).0.p
            & 1 == s.p & 1,
{
    let n = s.a;
    let p0 = s.p;
    let c = p0 & 1 == 1;
    let cb: u8 = if c {
        1
    } else {
        0
    };
    let b = (n << 1u8) | cb;
    let t = n & 0x80;
    let p1 = raised_if(with_sign_and_zero(s.p, b), 1, t != 0);
    assert(1u8 & 0x20u8 == 0 && 1u8 != 0) by (bit_vector);
    law_reserved_bit_always_reads_as_set(s.p, 1, t != 0, b);
    law_set_if_reads_back_its_condition(with_sign_and_zero(s.p, b), 1, t != 0);
    assert(p1 & 1 == 1 <==> t != 0) by (bit_vector)
        requires
            (p1 & 1 == 1) == (t != 0),
    ;
    let cb2: u8 = if t != 0 {
        0x80
    } else {
        0
    };
    let b2 = (b >> 1u8) | cb2;
    assert(b2 == n) by (bit_vector)
        requires
            b == (n << 1u8) | cb,
            cb == 0 || cb == 1,
            t == n & 0x80,
            cb2 == if t != 0 {
                0x80u8
            } else {
                0u8
            },
            b2 == (b >> 1u8) | cb2,
    ;
    let p2 = raised_if(with_sign_and_zero(p1, b2), 1, b & 1 != 0);
    law_set_if_reads_back_its_condition(with_sign_and_zero(p1, b2), 1, b & 1 != 0);
    assert((b & 1 != 0) == c) by (bit_vector)
        requires
            b == (n << 1u8) | cb,
            cb == if c {
                1u8
            } else {
                0u8
            },
    ;
    assert(p2 & 1 == p0 & 1) by (bit_vector)
        requires
            (p2 & 1 == 1) == (p0 & 1 == 1),
    ;
}

/// DEX after INX (and DEY after INY) gives the register back.
pub proof fn law_decrement_undoes_increment(s: CpuView, r: RegisterName)
    requires
        r == RegisterName::X || r == RegisterName::Y,
    ensures
        dec_reg_spec(inc_reg_spec(s, r), r).x == s.x,
        dec_reg_spec(inc_reg_spec(s, r), r).y == s.y,
{
}

/// A comparison sets CARRY exactly when the register is at least the
/// operand, and ZERO exactly when they are equal.
pub proof fn law_compare_sets_carry_and_zero(s: CpuView, r: RegisterName, m: u8)
    requires
        r == RegisterName::A || r == RegisterName::X || r == RegisterName::Y,
    ensures
        compare_spec(s, r, Operand::Immediate(m)).1 is Ok,
        (compare_spec(s, r, Operand::Immediate(m)).0.p & 1 == 1) == (crate::cpu::reg_value(s, r) >= m),
        (compare_spec(s, r, Operand::Immediate(m)).0.p & 2 == 2) == (crate::cpu::reg_value(s, r) == m),
{
    let t = crate::cpu::reg_value(s, r) - m;
    let p1 = raised_if(s.p, 1, t >= 0);
    assert(1u8 & 0x20u8 == 0 && 1u8 != 0) by (bit_vector);
    law_set_if_reads_back_its_condition(s.p, 1, t >= 0);
    let low = (t % 256) as u8;
    let w = with_sign_and_zero(p1, low);
    law_sign_and_zero_describe_the_value(p1, low);
    assert((p1 & 1 == 1) == (w & 1 == 1)) by (bit_vector)
        requires
            p1 & 0x5D == w & 0x5D,
    ;
}

/// A binary-coded decimal byte reads back as the number it encodes, for
/// every number from 0 to 99; and every such byte whose nibbles are decimal
/// digits is the encoding of the number it reads as.
pub proof fn law_bcd_round_trip(n: int, b: u8)
    ensures
        0 <= n <= 99 ==> bcd_value(bcd_encoding(n)) == n,
        (b / 16 <= 9 && b % 16 <= 9) ==> bcd_encoding(bcd_value(b as int)) == b,
{
}

/// Every instruction has a base cycle count between 2 and 8, where it has one.
pub proof fn law_base_cycles_are_between_two_and_eight(i: Instruction)
    ensures
        cycles_spec(i) matches Some(c) ==> 2 <= c <= 8,
{
}

/// Every instruction the decoder produces is a documented one with a base
/// cycle count, and takes at most three bytes.
#[verifier::rlimit(50)]
pub proof fn law_decoded_instructions_are_documented_and_timed(bytes: Seq<u8>)
    ensures
        decode_spec(bytes) matches Ok((i, n)) ==> cycles_spec(i) is Some && !is_undocumented(i)
            && 0 <= n <= 3,
{
}

/// The zero-page form of an instruction never takes more base cycles than
/// its absolute form, whether plain or indexed by X or Y, where both forms
/// have a count.
pub proof fn law_zero_page_costs_no_more(i: Instruction, a: u16, b: u16, r: RegisterName)
    requires
        operand_of(i) is Some,
        a < 0x0100 <= b,
        r == RegisterName::X || r == RegisterName::Y,
    ensures
        cycles_spec(with_operand(i, Operand::Absolute(a))) is Some && cycles_spec(
            with_operand(i, Operand::Absolute(b)),
        ) is Some ==> cycles_spec(with_operand(i, Operand::Absolute(a)))->0 <= cycles_spec(
            with_operand(i, Operand::Absolute(b)),
        )->0,
        cycles_spec(with_operand(i, Operand::Indexed(a, r))) is Some && cycles_spec(
            with_operand(i, Operand::Indexed(b, r)),
        ) is Some ==> cycles_spec(with_operand(i, Operand::Indexed(a, r)))->0 <= cycles_spec(
            with_operand(i, Operand::Indexed(b, r)),
        )->0,
{
    // One case for each instruction that takes an operand
    match i {
        Instruction::ADC(_) => {},
        Instruction::AHX(_) => {},
        Instruction::ALR(_) => {},
        Instruction::AND(_) => {},
        Instruction::ANC(_) => {},
        Instruction::ASL(_) => {},
        Instruction::ARR(_) => {},
        Instruction::AXS(_) => {},
        Instruction::BCC(_) => {},
        Instruction::BCS(_) => {},
        Instruction::BEQ(_) => {},
        Instruction::BIT(_) => {},
        Instruction::BMI(_) => {},
        Instruction::BNE(_) => {},
        Instruction::BPL(_) => {},
        Instruction::BVC(_) => {},
        Instruction::BVS(_) => {},
        Instruction::CMP(_) => {},
        Instruction::CPX(_) => {},
        Instruction::CPY(_) => {},
        Instruction::DCP(_) => {},
        Instruction::DEC(_) => {},
        Instruction::EOR(_) => {},
        Instruction::IGN(_) => {},
        Instruction::INC(_) => {},
        Instruction::ISB(_) => {},
        Instruction::JMP(_) => {},
        Instruction::JSR(_) => {},
        Instruction::LAS(_) => {},
        Instruction::LAX(_) => {},
        Instruction::LDA(_) => {},
        Instruction::LDX(_) => {},
        Instruction::LDY(_) => {},
        Instruction::LSR(_) => {},
        Instruction::ORA(_) => {},
        Instruction::RLA(_) => {},
        Instruction::ROL(_) => {},
        Instruction::ROR(_) => {},
        Instruction::RRA(_) => {},
        Instruction::SAX(_) => {},
        Instruction::SBC(_) => {},
        Instruction::SBCX(_) => {},
        Instruction::SHY(_) => {},
        Instruction::SHX(_) => {},
        Instruction::SKB(_) => {},
        Instruction::SLO(_) => {},
        Instruction::SRE(_) => {},
        Instruction::STA(_) => {},
        Instruction::STX(_) => {},
        Instruction::STY(_) => {},
        Instruction::TAS(_) => {},
        Instruction::XAA(_) => {},
        _ => {},
    }
}

} // verus!
