//! Properties of the instruction set that hold in every state.

use vstd::prelude::*;
use crate::cpu::{wrap16, wrap8, AddressingMode, CpuError, CpuState};
use crate::decode::{decode_spec, Mnemonic};
use crate::flags::{
    flag, lemma_with_flag, lemma_with_nz, lemma_with_nz_same_signs, lemma_with_nz_twice, with_flag,
    with_nz,
    C_CARRY, N_NEGATIVE, Z_ZERO,
};
use crate::semantics::{
    accepts, advanced, compare_flags, dec_at, execute, flag_write, inc_at, operand, pulled,
    pulled_s, push, step_result,
};

verus! {

/// Runs `m` in `mode` after `r`, unless `r` already failed.
pub open spec fn and_then(r: Result<CpuState, CpuError>, m: Mnemonic, mode: AddressingMode) -> Result<
    CpuState,
    CpuError,
> {
    match r {
        Ok(c) => execute(c, m, mode),
        Err(e) => Err(e),
    }
}

/// Every instruction keeps the memory at 65,536 bytes. (The registers keep their widths by
/// their types: 8 bits, 16 for PC.)
pub proof fn lemma_execute_keeps_memory_size(c: CpuState, m: Mnemonic, mode: AddressingMode)
    requires
        c.wf(),
    ensures
        execute(c, m, mode) matches Ok(d) ==> d.wf(),
{
}

/// Every step keeps the memory at 65,536 bytes.
pub proof fn lemma_step_keeps_memory_size(c: CpuState)
    requires
        c.wf(),
    ensures
        step_result(c) matches Ok(d) ==> d.wf(),
{
    let op = c.read(c.pc);
    let fetched = CpuState { pc: wrap16(c.pc + 1), ..c };
    if let Some((m, mode)) = decode_spec(op) {
        lemma_execute_keeps_memory_size(fetched, m, mode);
    }
}

/// A flag instruction writes its one status bit and nothing else.
proof fn lemma_flag_instruction(c: CpuState, m: Mnemonic)
    requires
        m is Clc || m is Sec || m is Cld || m is Sed || m is Cli || m is Sei,
    ensures
        execute(c, m, AddressingMode::Implied) == Ok::<CpuState, CpuError>(
            CpuState { p: with_flag(c.p, flag_write(m).0, flag_write(m).1), ..c },
        ),
{
    assert(advanced(c, AddressingMode::Implied) == c);
}

/// Clearing a status bit with CLC, CLD or CLI and then setting it with the matching SEC,
/// SED or SEI: the bit reads 0 after the clear and 1 after the set, and no other bit of P,
/// nor any register or memory, changes.
pub proof fn lemma_clear_then_set_flag(c: CpuState, clear: Mnemonic, set: Mnemonic)
    requires
        (clear is Clc && set is Sec) || (clear is Cld && set is Sed) || (clear is Cli && set is Sei),
    ensures
        execute(c, clear, AddressingMode::Implied) matches Ok(c1) && !flag(c1.p, flag_write(set).0)
            && (execute(c1, set, AddressingMode::Implied) matches Ok(c2) && flag(
            c2.p,
            flag_write(set).0,
        ) && c2.p & !flag_write(set).0 == c.p & !flag_write(set).0 && c2 == (CpuState {
            p: c2.p,
            ..c
        })),
{
    let bit = flag_write(set).0;
    let c1 = CpuState { p: with_flag(c.p, bit, false), ..c };
    lemma_flag_instruction(c, clear);
    lemma_flag_instruction(c1, set);
    lemma_with_flag(c.p, bit, false, bit);
    lemma_with_flag(c1.p, bit, true, bit);
}

/// Pushing a byte and pulling it again gives the byte and S back.
proof fn lemma_pull_after_push(c: CpuState, v: u8)
    requires
        c.wf(),
    ensures
        pulled(push(c, v)) == v,
        pulled_s(push(c, v)) == c.s,
{
    assert(wrap8(wrap8(c.s - 1) + 1) == c.s);
}

/// PHA and PHP push their register; PLA and PLP pull into theirs.
proof fn lemma_stack_instructions(c: CpuState)
    ensures
        execute(c, Mnemonic::Pha, AddressingMode::Implied) == Ok::<CpuState, CpuError>(push(c, c.a)),
        execute(c, Mnemonic::Php, AddressingMode::Implied) == Ok::<CpuState, CpuError>(push(c, c.p)),
        execute(c, Mnemonic::Pla, AddressingMode::Implied) matches Ok(d) && d.a == pulled(c) && d.s
            == pulled_s(c),
        execute(c, Mnemonic::Plp, AddressingMode::Implied) matches Ok(d) && d.p == pulled(c) && d.s
            == pulled_s(c),
{
    assert(advanced(c, AddressingMode::Implied) == c);
}

/// PHA then PLA gives A and S back; PHP then PLP gives P and S back.
pub proof fn lemma_push_pull_round_trip(c: CpuState)
    requires
        c.wf(),
    ensures
        and_then(execute(c, Mnemonic::Pha, AddressingMode::Implied), Mnemonic::Pla, AddressingMode::Implied)
            matches Ok(d) && d.a == c.a && d.s == c.s,
        and_then(execute(c, Mnemonic::Php, AddressingMode::Implied), Mnemonic::Plp, AddressingMode::Implied)
            matches Ok(d) && d.p == c.p && d.s == c.s,
{
    lemma_stack_instructions(c);
    lemma_stack_instructions(push(c, c.a));
    lemma_stack_instructions(push(c, c.p));
    lemma_pull_after_push(c, c.a);
    lemma_pull_after_push(c, c.p);
}

/// The register a transfer writes.
pub open spec fn transfer_destination(m: Mnemonic, d: CpuState) -> u8 {
    match m {
        Mnemonic::Tax | Mnemonic::Tsx => d.x,
        Mnemonic::Tay => d.y,
        Mnemonic::Txs => d.s,
        _ => d.a,
    }
}

/// After TAX, TAY, TSX, TXA or TYA, N is bit 7 of the destination and Z tells whether the
/// destination is zero; TXS leaves P as it was.
pub proof fn lemma_transfer_nz(c: CpuState, m: Mnemonic)
    requires
        m is Tax || m is Tay || m is Tsx || m is Txa || m is Tya || m is Txs,
    ensures
        execute(c, m, AddressingMode::Implied) matches Ok(d) && (m is Txs ==> d.p == c.p) && (!(
        m is Txs) ==> flag(d.p, N_NEGATIVE) == (transfer_destination(m, d) & 0x80 != 0) && flag(
            d.p,
            Z_ZERO,
        ) == (transfer_destination(m, d) == 0)),
{
    let d = execute(c, m, AddressingMode::Implied)->Ok_0;
    lemma_with_nz(c.p, transfer_destination(m, d), C_CARRY);
}

/// On A, LSR then ASL gives A back when bit 0 was clear, and ASL then LSR gives A back when
/// bit 7 was clear.
pub proof fn lemma_shift_round_trip(c: CpuState)
    ensures
        c.a & 1 == 0 ==> (and_then(
            execute(c, Mnemonic::Lsr, AddressingMode::Accumulator),
            Mnemonic::Asl,
            AddressingMode::Accumulator,
        ) matches Ok(d) && d.a == c.a),
        c.a & 0x80 == 0 ==> (and_then(
            execute(c, Mnemonic::Asl, AddressingMode::Accumulator),
            Mnemonic::Lsr,
            AddressingMode::Accumulator,
        ) matches Ok(d) && d.a == c.a),
{
    let a = c.a;
    assert(a & 1 == 0 ==> (a >> 1u8) << 1u8 == a) by (bit_vector);
    assert(a & 0x80 == 0 ==> (a << 1u8) >> 1u8 == a) by (bit_vector);
}

/// `n` ROLs of A in a row.
pub open spec fn rol_accumulator_times(c: CpuState, n: nat) -> Result<CpuState, CpuError>
    decreases n,
{
    if n == 0 {
        Ok(c)
    } else {
        and_then(
            rol_accumulator_times(c, (n - 1) as nat),
            Mnemonic::Rol,
            AddressingMode::Accumulator,
        )
    }
}

/// The 8-bit result of rotating `a` left with carry-in `c`.
pub open spec fn rol_bits(a: u8, c: bool) -> u8 {
    (a << 1u8) | (if c {
        1u8
    } else {
        0u8
    })
}

/// One ROL of A: A is rotated left through C.
proof fn lemma_rol_once(c: CpuState)
    ensures
        execute(c, Mnemonic::Rol, AddressingMode::Accumulator) matches Ok(d) && d.a == rol_bits(
            c.a,
            flag(c.p, C_CARRY),
        ) && flag(d.p, C_CARRY) == (c.a & 0x80 != 0),
{
    let d = execute(c, Mnemonic::Rol, AddressingMode::Accumulator)->Ok_0;
    lemma_with_flag(with_nz(c.p, d.a), C_CARRY, c.a & 0x80 != 0, C_CARRY);
}

/// Nine ROLs of A turn the 9-bit value (C, A) once round: A and C are as they were.
pub proof fn lemma_rol_nine_times(c: CpuState)
    ensures
        rol_accumulator_times(c, 9) matches Ok(d) && d.a == c.a && flag(d.p, C_CARRY) == flag(
            c.p,
            C_CARRY,
        ),
{
    reveal_with_fuel(rol_accumulator_times, 10);
    let s0 = c;
    lemma_rol_once(s0);
    let s1 = execute(s0, Mnemonic::Rol, AddressingMode::Accumulator)->Ok_0;
    lemma_rol_once(s1);
    let s2 = execute(s1, Mnemonic::Rol, AddressingMode::Accumulator)->Ok_0;
    lemma_rol_once(s2);
    let s3 = execute(s2, Mnemonic::Rol, AddressingMode::Accumulator)->Ok_0;
    lemma_rol_once(s3);
    let s4 = execute(s3, Mnemonic::Rol, AddressingMode::Accumulator)->Ok_0;
    lemma_rol_once(s4);
    let s5 = execute(s4, Mnemonic::Rol, AddressingMode::Accumulator)->Ok_0;
    lemma_rol_once(s5);
    let s6 = execute(s5, Mnemonic::Rol, AddressingMode::Accumulator)->Ok_0;
    lemma_rol_once(s6);
    let s7 = execute(s6, Mnemonic::Rol, AddressingMode::Accumulator)->Ok_0;
    lemma_rol_once(s7);
    let s8 = execute(s7, Mnemonic::Rol, AddressingMode::Accumulator)->Ok_0;
    lemma_rol_once(s8);
    let s9 = execute(s8, Mnemonic::Rol, AddressingMode::Accumulator)->Ok_0;
    let (a0, a1, a2, a3, a4, a5, a6, a7, a8, a9) = (
        s0.a,
        s1.a,
        s2.a,
        s3.a,
        s4.a,
        s5.a,
        s6.a,
        s7.a,
        s8.a,
        s9.a,
    );
    let c0 = flag(s0.p, C_CARRY);
    let c9 = flag(s9.p, C_CARRY);
    assert(a9 == a0 && c9 == c0) by (bit_vector)
        requires
            a1 == rol_bits(a0, c0),
            a2 == rol_bits(a1, a0 & 0x80 != 0),
            a3 == rol_bits(a2, a1 & 0x80 != 0),
            a4 == rol_bits(a3, a2 & 0x80 != 0),
            a5 == rol_bits(a4, a3 & 0x80 != 0),
            a6 == rol_bits(a5, a4 & 0x80 != 0),
            a7 == rol_bits(a6, a5 & 0x80 != 0),
            a8 == rol_bits(a7, a6 & 0x80 != 0),
            a9 == rol_bits(a8, a7 & 0x80 != 0),
            c9 == (a8 & 0x80 != 0),
    ;
}

/// With A and C both clear, eight ROLs of A leave (C, A) as it was. (With C set they do
/// not: the carry ends in bit 7 of A.)
pub proof fn lemma_rol_eight_times_from_zero(c: CpuState)
    requires
        c.a == 0,
        !flag(c.p, C_CARRY),
    ensures
        rol_accumulator_times(c, 8) matches Ok(d) && d.a == 0 && !flag(d.p, C_CARRY),
{
    reveal_with_fuel(rol_accumulator_times, 9);
    assert(rol_bits(0, false) == 0) by (bit_vector);
    assert(0u8 & 0x80 == 0) by (bit_vector);
    let s0 = c;
    lemma_rol_once(s0);
    let s1 = execute(s0, Mnemonic::Rol, AddressingMode::Accumulator)->Ok_0;
    lemma_rol_once(s1);
    let s2 = execute(s1, Mnemonic::Rol, AddressingMode::Accumulator)->Ok_0;
    lemma_rol_once(s2);
    let s3 = execute(s2, Mnemonic::Rol, AddressingMode::Accumulator)->Ok_0;
    lemma_rol_once(s3);
    let s4 = execute(s3, Mnemonic::Rol, AddressingMode::Accumulator)->Ok_0;
    lemma_rol_once(s4);
    let s5 = execute(s4, Mnemonic::Rol, AddressingMode::Accumulator)->Ok_0;
    lemma_rol_once(s5);
    let s6 = execute(s5, Mnemonic::Rol, AddressingMode::Accumulator)->Ok_0;
    lemma_rol_once(s6);
    let s7 = execute(s6, Mnemonic::Rol, AddressingMode::Accumulator)->Ok_0;
    lemma_rol_once(s7);
}

/// The register CMP, CPX or CPY compares.
pub open spec fn compared_register(m: Mnemonic, c: CpuState) -> u8 {
    match m {
        Mnemonic::Cpx => c.x,
        Mnemonic::Cpy => c.y,
        _ => c.a,
    }
}

/// A compare writes P alone, with the flags of `compare_flags`.
proof fn lemma_compare_instruction(c: CpuState, m: Mnemonic, mode: AddressingMode)
    requires
        m is Cmp || m is Cpx || m is Cpy,
        accepts(m, mode),
    ensures
        execute(c, m, mode) == Ok::<CpuState, CpuError>(
            CpuState {
                p: compare_flags(c.p, compared_register(m, c), operand(c, mode)),
                ..advanced(c, mode)
            },
        ),
{
}

/// CMP, CPX and CPY set C exactly when the register is at least the operand and Z exactly
/// when the two are equal; registers and memory are unchanged.
pub proof fn lemma_compare(c: CpuState, m: Mnemonic, mode: AddressingMode)
    requires
        m is Cmp || m is Cpx || m is Cpy,
        accepts(m, mode),
    ensures
        execute(c, m, mode) matches Ok(d) && flag(d.p, C_CARRY) == (compared_register(m, c)
            >= operand(c, mode)) && flag(d.p, Z_ZERO) == (compared_register(m, c) == operand(
            c,
            mode,
        )) && d.a == c.a && d.x == c.x && d.y == c.y && d.s == c.s && d.memory == c.memory,
{
    let reg = compared_register(m, c);
    let k = operand(c, mode);
    let diff = wrap8(reg - k);
    assert(flag(compare_flags(c.p, reg, k), C_CARRY) == (reg >= k) && flag(
        compare_flags(c.p, reg, k),
        Z_ZERO,
    ) == (reg == k)) by {
        assert((diff == 0) == (reg == k));
        lemma_with_nz(c.p, diff, C_CARRY);
        lemma_with_flag(with_nz(c.p, diff), C_CARRY, reg >= k, C_CARRY);
        lemma_with_flag(with_nz(c.p, diff), C_CARRY, reg >= k, Z_ZERO);
    }
    lemma_compare_instruction(c, m, mode);
}

/// INC then DEC of one cell gives the memory back, and P ends as the N/Z update of the
/// restored value leaves it.
pub proof fn lemma_inc_dec_inverse(c: CpuState, addr: u16)
    requires
        c.wf(),
    ensures
        dec_at(inc_at(c, addr), addr) == (CpuState { p: with_nz(c.p, c.read(addr)), ..c }),
{
    let v = c.read(addr);
    let up = wrap8(v + 1);
    lemma_with_nz_twice(c.p, up, v);
    assert(c.memory.update(addr as int, up).update(addr as int, v) =~= c.memory);
}

/// INC then DEC of one cell leaves P as DEC alone would, unless the cell held 0x00, 0x01 or
/// 0x80 (there DEC alone gives another N or Z).
pub proof fn lemma_inc_dec_flags_as_dec_alone(c: CpuState, addr: u16)
    requires
        c.wf(),
        c.read(addr) != 0,
        c.read(addr) != 1,
        c.read(addr) != 0x80,
    ensures
        dec_at(inc_at(c, addr), addr).p == dec_at(c, addr).p,
{
    let v = c.read(addr);
    let w = wrap8(v - 1);
    lemma_inc_dec_inverse(c, addr);
    assert(w + 1 == v);
    assert((v & 0x80 != 0) == (w & 0x80 != 0)) by (bit_vector)
        requires
            w + 1 == v,
            v != 0x80u8,
    ;
    lemma_with_nz_same_signs(c.p, v, w);
}

} // verus!
