//! What each instruction does, stated as functions on `CpuState`.
//!
//! `execute` is the meaning of one instruction whose opcode has already been fetched
//! (PC points at its first operand byte); `step_result` adds the fetch and the decode.

use vstd::prelude::*;
use crate::cpu::{
    effective_address, operand_bytes, stack_addr, word, wrap16, wrap8, AddressingMode, CpuError,
    CpuState,
};
use crate::decode::{decode_spec, Mnemonic};
use crate::flags::{
    flag, with_flag, with_nz, C_CARRY, D_DECIMAL, I_INTERRUPT_DISABLE, N_NEGATIVE, V_OVERFLOW,
    Z_ZERO,
};

verus! {

/// The eight memory modes of the arithmetic and logic group.
pub open spec fn is_alu_mode(mode: AddressingMode) -> bool {
    mode is Immediate || mode is Absolute || mode is AbsoluteX || mode is AbsoluteY
        || mode is ZeroPage || mode is ZeroPageX || mode is ZeroPageXIndirect
        || mode is ZeroPageIndirectY
}

/// The modes of the read-modify-write group (shifts, rotates, INC, DEC), accumulator aside.
pub open spec fn is_rmw_mode(mode: AddressingMode) -> bool {
    mode is Absolute || mode is AbsoluteX || mode is ZeroPage || mode is ZeroPageX
}

/// Whether the handler of `m` takes `mode`.
pub open spec fn accepts(m: Mnemonic, mode: AddressingMode) -> bool {
    match m {
        Mnemonic::Lda | Mnemonic::And | Mnemonic::Eor | Mnemonic::Ora | Mnemonic::Adc
        | Mnemonic::Sbc | Mnemonic::Cmp => is_alu_mode(mode),
        Mnemonic::Sta => is_alu_mode(mode) && !(mode is Immediate),
        Mnemonic::Ldx => mode is Immediate || mode is Absolute || mode is AbsoluteY
            || mode is ZeroPage || mode is ZeroPageY,
        Mnemonic::Ldy => mode is Immediate || mode is Absolute || mode is AbsoluteX
            || mode is ZeroPage || mode is ZeroPageX,
        Mnemonic::Stx => mode is Absolute || mode is ZeroPage || mode is ZeroPageY,
        Mnemonic::Sty => mode is Absolute || mode is ZeroPage || mode is ZeroPageX,
        Mnemonic::Asl | Mnemonic::Lsr | Mnemonic::Rol | Mnemonic::Ror => mode is Accumulator
            || is_rmw_mode(mode),
        Mnemonic::Inc | Mnemonic::Dec => is_rmw_mode(mode),
        Mnemonic::Bit => mode is Absolute || mode is ZeroPage,
        Mnemonic::Cpx | Mnemonic::Cpy => mode is Immediate || mode is Absolute || mode is ZeroPage,
        Mnemonic::Jmp => mode is Absolute || mode is AbsoluteIndirect,
        Mnemonic::Jsr => mode is Absolute,
        Mnemonic::Bcc | Mnemonic::Bcs | Mnemonic::Beq | Mnemonic::Bmi | Mnemonic::Bne
        | Mnemonic::Bpl | Mnemonic::Bvc | Mnemonic::Bvs => mode is Relative,
        Mnemonic::Nop => true,
        _ => mode is Implied,
    }
}

/// The operand byte: A in accumulator mode, else the byte at the effective address.
pub open spec fn operand(c: CpuState, mode: AddressingMode) -> u8 {
    if mode is Accumulator {
        c.a
    } else {
        c.read(effective_address(c, mode))
    }
}

/// The state with PC moved past the operand bytes of `mode`.
pub open spec fn advanced(c: CpuState, mode: AddressingMode) -> CpuState {
    CpuState { pc: wrap16(c.pc + operand_bytes(mode)), ..c }
}

/// 1 when C is set, else 0.
pub open spec fn carry_in(p: u8) -> int {
    if flag(p, C_CARRY) {
        1
    } else {
        0
    }
}

/// Signed overflow of `a + v` giving `r`: both inputs share a sign that `r` lacks.
pub open spec fn add_overflows(a: u8, v: u8, r: u8) -> bool {
    (!(a ^ v) & (a ^ r)) & 0x80 != 0
}

/// ADC in binary mode: `A + v + C`; N, Z from the result, V from signed overflow, C from
/// the ninth bit.
pub open spec fn add_with_carry(c: CpuState, v: u8) -> CpuState {
    let sum = c.a + v + carry_in(c.p);
    let r = wrap8(sum);
    CpuState {
        a: r,
        p: with_flag(
            with_flag(with_nz(c.p, r), V_OVERFLOW, add_overflows(c.a, v, r)),
            C_CARRY,
            sum > 255,
        ),
        ..c
    }
}

/// A compare of `reg` with `v`: N, Z from `reg - v` (8 bits), C when `reg >= v`.
pub open spec fn compare_flags(p: u8, reg: u8, v: u8) -> u8 {
    with_flag(with_nz(p, wrap8(reg - v)), C_CARRY, reg >= v)
}

/// BIT: Z from `A & v`, V from bit 6 of `v`, N from bit 7 of `v`.
pub open spec fn bit_flags(p: u8, a: u8, v: u8) -> u8 {
    with_flag(
        with_flag(with_flag(p, Z_ZERO, a & v == 0), V_OVERFLOW, v & 0x40 != 0),
        N_NEGATIVE,
        v & 0x80 != 0,
    )
}

/// The result of a shift or rotate of `v`, with `carry` the C flag before it.
pub open spec fn shifted(m: Mnemonic, v: u8, carry: bool) -> u8 {
    match m {
        Mnemonic::Asl => v << 1u8,
        Mnemonic::Lsr => v >> 1u8,
        Mnemonic::Rol => (v << 1u8) | (if carry { 1u8 } else { 0u8 }),
        _ => (v >> 1u8) | (if carry { 0x80u8 } else { 0u8 }),
    }
}

/// The bit a shift or rotate moves into C: bit 7 going left, bit 0 going right.
pub open spec fn shifted_out(m: Mnemonic, v: u8) -> bool {
    if m is Asl || m is Rol {
        v & 0x80 != 0
    } else {
        v & 1 != 0
    }
}

/// Pushes `v`: it is written at `0x0100 + S`, then S goes down by one.
pub open spec fn push(c: CpuState, v: u8) -> CpuState {
    CpuState { s: wrap8(c.s - 1), ..c.write(stack_addr(c.s), v) }
}

/// S after a pull: up by one.
pub open spec fn pulled_s(c: CpuState) -> u8 {
    wrap8(c.s + 1)
}

/// The byte a pull reads: the one at `0x0100 + S` once S has gone up.
pub open spec fn pulled(c: CpuState) -> u8 {
    c.read(stack_addr(pulled_s(c)))
}

/// The state after a pull (only S changes).
pub open spec fn after_pull(c: CpuState) -> CpuState {
    CpuState { s: pulled_s(c), ..c }
}

/// INC on the cell at `addr`: it goes up by one (8-bit wrap); N, Z from the new value.
pub open spec fn inc_at(c: CpuState, addr: u16) -> CpuState {
    let r = wrap8(c.read(addr) + 1);
    CpuState { p: with_nz(c.p, r), ..c.write(addr, r) }
}

/// DEC on the cell at `addr`: it goes down by one (8-bit wrap); N, Z from the new value.
pub open spec fn dec_at(c: CpuState, addr: u16) -> CpuState {
    let r = wrap8(c.read(addr) - 1);
    CpuState { p: with_nz(c.p, r), ..c.write(addr, r) }
}

/// Whether the branch `m` is taken under status `p`.
pub open spec fn branch_taken(m: Mnemonic, p: u8) -> bool {
    match m {
        Mnemonic::Bcc => !flag(p, C_CARRY),
        Mnemonic::Bcs => flag(p, C_CARRY),
        Mnemonic::Beq => flag(p, Z_ZERO),
        Mnemonic::Bne => !flag(p, Z_ZERO),
        Mnemonic::Bmi => flag(p, N_NEGATIVE),
        Mnemonic::Bpl => !flag(p, N_NEGATIVE),
        Mnemonic::Bvc => !flag(p, V_OVERFLOW),
        _ => flag(p, V_OVERFLOW),
    }
}

/// The status bit that a flag instruction writes, and the value written.
pub open spec fn flag_write(m: Mnemonic) -> (u8, bool) {
    match m {
        Mnemonic::Clc => (C_CARRY, false),
        Mnemonic::Sec => (C_CARRY, true),
        Mnemonic::Cld => (D_DECIMAL, false),
        Mnemonic::Sed => (D_DECIMAL, true),
        Mnemonic::Cli => (I_INTERRUPT_DISABLE, false),
        Mnemonic::Sei => (I_INTERRUPT_DISABLE, true),
        _ => (V_OVERFLOW, false),
    }
}

/// The effect of `m` in `mode` on `c`, for a mode that `m` takes and no failure.
pub open spec fn perform(c: CpuState, m: Mnemonic, mode: AddressingMode) -> CpuState {
    let ea = effective_address(c, mode);
    let v = operand(c, mode);
    let next = advanced(c, mode);
    match m {
        Mnemonic::Lda => CpuState { a: v, p: with_nz(c.p, v), ..next },
        Mnemonic::Ldx => CpuState { x: v, p: with_nz(c.p, v), ..next },
        Mnemonic::Ldy => CpuState { y: v, p: with_nz(c.p, v), ..next },
        Mnemonic::Sta => next.write(ea, c.a),
        Mnemonic::Stx => next.write(ea, c.x),
        Mnemonic::Sty => next.write(ea, c.y),
        Mnemonic::Tax => CpuState { x: c.a, p: with_nz(c.p, c.a), ..next },
        Mnemonic::Tay => CpuState { y: c.a, p: with_nz(c.p, c.a), ..next },
        Mnemonic::Tsx => CpuState { x: c.s, p: with_nz(c.p, c.s), ..next },
        Mnemonic::Txa => CpuState { a: c.x, p: with_nz(c.p, c.x), ..next },
        Mnemonic::Txs => CpuState { s: c.x, ..next },
        Mnemonic::Tya => CpuState { a: c.y, p: with_nz(c.p, c.y), ..next },
        Mnemonic::Pha => push(next, c.a),
        Mnemonic::Php => push(next, c.p),
        Mnemonic::Pla => CpuState { a: pulled(c), p: with_nz(c.p, pulled(c)), ..after_pull(next) },
        Mnemonic::Plp => CpuState { p: pulled(c), ..after_pull(next) },
        Mnemonic::Asl | Mnemonic::Lsr | Mnemonic::Rol | Mnemonic::Ror => {
            let r = shifted(m, v, flag(c.p, C_CARRY));
            let p = with_flag(with_nz(c.p, r), C_CARRY, shifted_out(m, v));
            if mode is Accumulator {
                CpuState { a: r, p, ..next }
            } else {
                CpuState { p, ..next.write(ea, r) }
            }
        },
        Mnemonic::And => CpuState { a: c.a & v, p: with_nz(c.p, c.a & v), ..next },
        Mnemonic::Eor => CpuState { a: c.a ^ v, p: with_nz(c.p, c.a ^ v), ..next },
        Mnemonic::Ora => CpuState { a: c.a | v, p: with_nz(c.p, c.a | v), ..next },
        Mnemonic::Bit => CpuState { p: bit_flags(c.p, c.a, v), ..next },
        Mnemonic::Adc => add_with_carry(next, v),
        Mnemonic::Sbc => add_with_carry(next, v ^ 0xff),
        Mnemonic::Cmp => CpuState { p: compare_flags(c.p, c.a, v), ..next },
        Mnemonic::Cpx => CpuState { p: compare_flags(c.p, c.x, v), ..next },
        Mnemonic::Cpy => CpuState { p: compare_flags(c.p, c.y, v), ..next },
        Mnemonic::Inc => inc_at(next, ea),
        Mnemonic::Dec => dec_at(next, ea),
        Mnemonic::Inx => CpuState { x: wrap8(c.x + 1), p: with_nz(c.p, wrap8(c.x + 1)), ..next },
        Mnemonic::Iny => CpuState { y: wrap8(c.y + 1), p: with_nz(c.p, wrap8(c.y + 1)), ..next },
        Mnemonic::Dex => CpuState { x: wrap8(c.x - 1), p: with_nz(c.p, wrap8(c.x - 1)), ..next },
        Mnemonic::Dey => CpuState { y: wrap8(c.y - 1), p: with_nz(c.p, wrap8(c.y - 1)), ..next },
        Mnemonic::Jmp => CpuState { pc: ea, ..c },
        Mnemonic::Jsr => {
            let ret = wrap16(c.pc + 1);
            let pushed = push(push(c, (ret / 256) as u8), (ret % 256) as u8);
            CpuState { pc: ea, ..pushed }
        },
        Mnemonic::Rts => {
            let lo = pulled(c);
            let c1 = after_pull(c);
            let hi = pulled(c1);
            CpuState { pc: wrap16(word(lo, hi) + 1), ..after_pull(c1) }
        },
        Mnemonic::Rti => {
            let p = pulled(c);
            let c1 = after_pull(c);
            let lo = pulled(c1);
            let c2 = after_pull(c1);
            let hi = pulled(c2);
            CpuState { p, pc: wrap16(word(lo, hi) + 1), ..after_pull(c2) }
        },
        Mnemonic::Bcc | Mnemonic::Bcs | Mnemonic::Beq | Mnemonic::Bmi | Mnemonic::Bne
        | Mnemonic::Bpl | Mnemonic::Bvc | Mnemonic::Bvs => if branch_taken(m, c.p) {
            CpuState { pc: ea, ..c }
        } else {
            next
        },
        Mnemonic::Clc | Mnemonic::Sec | Mnemonic::Cld | Mnemonic::Sed | Mnemonic::Cli
        | Mnemonic::Sei | Mnemonic::Clv => CpuState {
            p: with_flag(c.p, flag_write(m).0, flag_write(m).1),
            ..next
        },
        Mnemonic::Nop | Mnemonic::Brk => c,
    }
}

/// One instruction: ADC and SBC fail in decimal mode whatever the mode; otherwise a mode
/// the handler does not take fails, then BRK fails, and else the instruction is performed.
pub open spec fn execute(c: CpuState, m: Mnemonic, mode: AddressingMode) -> Result<
    CpuState,
    CpuError,
> {
    if (m is Adc || m is Sbc) && flag(c.p, D_DECIMAL) {
        Err(CpuError::DecimalModeNotSupported)
    } else if !accepts(m, mode) {
        Err(CpuError::BadAddressingMode)
    } else if m is Brk {
        Err(CpuError::UnsupportedInstruction)
    } else {
        Ok(perform(c, m, mode))
    }
}

/// A handler's contract: on success the new state is what `execute` gives; on failure the
/// error is the one `execute` gives and nothing changed.
pub open spec fn outcome(
    before: CpuState,
    m: Mnemonic,
    mode: AddressingMode,
    r: Result<(), CpuError>,
    after: CpuState,
) -> bool {
    match execute(before, m, mode) {
        Ok(s) => r is Ok && after == s,
        Err(e) => r == Err::<(), CpuError>(e) && after == before,
    }
}

/// `step`'s contract: on success the new state is what `step_result` gives; on failure the
/// error is the one `step_result` gives and nothing changed.
pub open spec fn step_outcome(before: CpuState, r: Result<(), CpuError>, after: CpuState) -> bool {
    match step_result(before) {
        Ok(s) => r is Ok && after == s,
        Err(e) => r == Err::<(), CpuError>(e) && after == before,
    }
}

/// One step: fetch the opcode at PC, move PC past it, decode, execute.
pub open spec fn step_result(c: CpuState) -> Result<CpuState, CpuError> {
    let op = c.read(c.pc);
    match decode_spec(op) {
        None => Err(CpuError::UnknownOpcode(op)),
        Some((m, mode)) => execute(CpuState { pc: wrap16(c.pc + 1), ..c }, m, mode),
    }
}

} // verus!
