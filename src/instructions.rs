//! The instruction handlers, one per mnemonic, and the step dispatcher.
//!
//! Every handler takes the processor with PC at the first operand byte and the addressing
//! mode from the decode table. Its contract is `outcome`: on success the processor is in
//! the state `execute` describes, on failure it is untouched and the error is returned.

use vstd::prelude::*;
use crate::cpu::{
    addressing_mode_pc_advance, is_memory_mode, word, wrap16, wrap8, AddressingMode, Cpu, CpuError,
    CpuState,
};
use crate::decode::{decode, Mnemonic};
use crate::semantics::{
    accepts, add_with_carry, advanced, after_pull, branch_taken, compare_flags, operand, outcome,
    pulled, push, step_outcome,
};

verus! {

/// Whether the handler of `m` takes `mode`.
pub fn takes_mode(m: Mnemonic, mode: AddressingMode) -> (r: bool)
    ensures
        r == accepts(m, mode),
{
    let alu = matches!(
        mode,
        AddressingMode::Immediate | AddressingMode::Absolute | AddressingMode::AbsoluteX
            | AddressingMode::AbsoluteY | AddressingMode::ZeroPage | AddressingMode::ZeroPageX
            | AddressingMode::ZeroPageXIndirect | AddressingMode::ZeroPageIndirectY
    );
    let rmw = matches!(
        mode,
        AddressingMode::Absolute | AddressingMode::AbsoluteX | AddressingMode::ZeroPage
            | AddressingMode::ZeroPageX
    );
    match m {
        Mnemonic::Lda | Mnemonic::And | Mnemonic::Eor | Mnemonic::Ora | Mnemonic::Adc
        | Mnemonic::Sbc | Mnemonic::Cmp => alu,
        Mnemonic::Sta => alu && !matches!(mode, AddressingMode::Immediate),
        Mnemonic::Ldx => matches!(
            mode,
            AddressingMode::Immediate | AddressingMode::Absolute | AddressingMode::AbsoluteY
                | AddressingMode::ZeroPage | AddressingMode::ZeroPageY
        ),
        Mnemonic::Ldy => matches!(
            mode,
            AddressingMode::Immediate | AddressingMode::Absolute | AddressingMode::AbsoluteX
                | AddressingMode::ZeroPage | AddressingMode::ZeroPageX
        ),
        Mnemonic::Stx => matches!(
            mode,
            AddressingMode::Absolute | AddressingMode::ZeroPage | AddressingMode::ZeroPageY
        ),
        Mnemonic::Sty => matches!(
            mode,
            AddressingMode::Absolute | AddressingMode::ZeroPage | AddressingMode::ZeroPageX
        ),
        Mnemonic::Asl | Mnemonic::Lsr | Mnemonic::Rol | Mnemonic::Ror => rmw || matches!(
            mode,
            AddressingMode::Accumulator
        ),
        Mnemonic::Inc | Mnemonic::Dec => rmw,
        Mnemonic::Bit => matches!(mode, AddressingMode::Absolute | AddressingMode::ZeroPage),
        Mnemonic::Cpx | Mnemonic::Cpy => matches!(
            mode,
            AddressingMode::Immediate | AddressingMode::Absolute | AddressingMode::ZeroPage
        ),
        Mnemonic::Jmp => matches!(
            mode,
            AddressingMode::Absolute | AddressingMode::AbsoluteIndirect
        ),
        Mnemonic::Jsr => matches!(mode, AddressingMode::Absolute),
        Mnemonic::Bcc | Mnemonic::Bcs | Mnemonic::Beq | Mnemonic::Bmi | Mnemonic::Bne
        | Mnemonic::Bpl | Mnemonic::Bvc | Mnemonic::Bvs => matches!(
            mode,
            AddressingMode::Relative
        ),
        Mnemonic::Nop => true,
        _ => matches!(mode, AddressingMode::Implied),
    }
}

/// `v + 1` modulo 256.
fn inc8(v: u8) -> (r: u8)
    ensures
        r == wrap8(v + 1),
{
    v.wrapping_add(1)
}

/// `v - 1` modulo 256.
fn dec8(v: u8) -> (r: u8)
    ensures
        r == wrap8(v - 1),
{
    v.wrapping_sub(1)
}

/// `v + 1` modulo 65536.
fn inc16(v: u16) -> (r: u16)
    ensures
        r == wrap16(v + 1),
{
    v.wrapping_add(1)
}

/// The little-endian word of `lo`, `hi`.
fn word_of(lo: u8, hi: u8) -> (r: u16)
    ensures
        r == word(lo, hi),
{
    (hi as u16) * 256 + lo as u16
}

/// The high byte of `v`.
fn high_byte(v: u16) -> (r: u8)
    ensures
        r == (v / 256) as u8,
{
    (v / 256) as u8
}

/// The low byte of `v`.
fn low_byte(v: u16) -> (r: u8)
    ensures
        r == (v % 256) as u8,
{
    (v % 256) as u8
}

/// The operand byte of the current instruction.
fn operand_value(cpu: &Cpu, mode: AddressingMode) -> (r: u8)
    requires
        is_memory_mode(mode) || mode is Accumulator,
    ensures
        r == operand(cpu@, mode),
{
    if matches!(mode, AddressingMode::Accumulator) {
        cpu.a
    } else {
        cpu.read(cpu.operand_address(mode))
    }
}

/// Moves PC past the operand bytes of `mode`.
fn advance_pc(cpu: &mut Cpu, mode: AddressingMode)
    ensures
        final(cpu)@ == advanced(old(cpu)@, mode),
{
    cpu.pc = cpu.pc.wrapping_add(addressing_mode_pc_advance(mode));
}

/// Writes `v` at `0x0100 + S`, then decrements S.
fn push_byte(cpu: &mut Cpu, v: u8)
    ensures
        final(cpu)@ == push(old(cpu)@, v),
{
    cpu.memory[0x100 + cpu.s as usize] = v;
    cpu.s = dec8(cpu.s);
}

/// Increments S, then reads the byte at `0x0100 + S`.
fn pull_byte(cpu: &mut Cpu) -> (r: u8)
    ensures
        r == pulled(old(cpu)@),
        final(cpu)@ == after_pull(old(cpu)@),
{
    cpu.s = inc8(cpu.s);
    cpu.memory[0x100 + cpu.s as usize]
}

/// A = A + v + C, with N, Z, V, C.
fn add_to_accumulator(cpu: &mut Cpu, v: u8)
    ensures
        final(cpu)@ == add_with_carry(old(cpu)@, v),
{
    let carry: u16 = if cpu.is_carry() {
        1
    } else {
        0
    };
    let sum: u16 = cpu.a as u16 + v as u16 + carry;
    let a = cpu.a;
    let r = (sum % 256) as u8;
    cpu.a = r;
    cpu.update_nz(r);
    cpu.update_overflow((!(a ^ v) & (a ^ r)) & 0x80 != 0);
    cpu.update_carry(sum > 255);
}

/// The flags of a compare of `reg` with `v`.
fn compare_with(cpu: &mut Cpu, reg: u8, v: u8)
    ensures
        final(cpu)@ == (CpuState { p: compare_flags(old(cpu).p, reg, v), ..old(cpu)@ }),
{
    cpu.update_nz(reg.wrapping_sub(v));
    cpu.update_carry(reg >= v);
}

//
// load and store
//

/// LDA: A ← operand; N, Z.
pub fn lda(cpu: &mut Cpu, mode: AddressingMode) -> (r: Result<(), CpuError>)
    ensures
        outcome(old(cpu)@, Mnemonic::Lda, mode, r, final(cpu)@),
{
    if !takes_mode(Mnemonic::Lda, mode) {
        return Err(CpuError::BadAddressingMode);
    }
    let v = operand_value(cpu, mode);
    cpu.a = v;
    cpu.update_nz(v);
    advance_pc(cpu, mode);
    Ok(())
}

/// LDX: X ← operand; N, Z.
pub fn ldx(cpu: &mut Cpu, mode: AddressingMode) -> (r: Result<(), CpuError>)
    ensures
        outcome(old(cpu)@, Mnemonic::Ldx, mode, r, final(cpu)@),
{
    if !takes_mode(Mnemonic::Ldx, mode) {
        return Err(CpuError::BadAddressingMode);
    }
    let v = operand_value(cpu, mode);
    cpu.x = v;
    cpu.update_nz(v);
    advance_pc(cpu, mode);
    Ok(())
}

/// LDY: Y ← operand; N, Z.
pub fn ldy(cpu: &mut Cpu, mode: AddressingMode) -> (r: Result<(), CpuError>)
    ensures
        outcome(old(cpu)@, Mnemonic::Ldy, mode, r, final(cpu)@),
{
    if !takes_mode(Mnemonic::Ldy, mode) {
        return Err(CpuError::BadAddressingMode);
    }
    let v = operand_value(cpu, mode);
    cpu.y = v;
    cpu.update_nz(v);
    advance_pc(cpu, mode);
    Ok(())
}

/// STA: memory ← A; no flags.
pub fn sta(cpu: &mut Cpu, mode: AddressingMode) -> (r: Result<(), CpuError>)
    ensures
        outcome(old(cpu)@, Mnemonic::Sta, mode, r, final(cpu)@),
{
    if !takes_mode(Mnemonic::Sta, mode) {
        return Err(CpuError::BadAddressingMode);
    }
    let ea = cpu.operand_address(mode);
    cpu.memory[ea as usize] = cpu.a;
    advance_pc(cpu, mode);
    Ok(())
}

/// STX: memory ← X; no flags.
pub fn stx(cpu: &mut Cpu, mode: AddressingMode) -> (r: Result<(), CpuError>)
    ensures
        outcome(old(cpu)@, Mnemonic::Stx, mode, r, final(cpu)@),
{
    if !takes_mode(Mnemonic::Stx, mode) {
        return Err(CpuError::BadAddressingMode);
    }
    let ea = cpu.operand_address(mode);
    cpu.memory[ea as usize] = cpu.x;
    advance_pc(cpu, mode);
    Ok(())
}

/// STY: memory ← Y; no flags.
pub fn sty(cpu: &mut Cpu, mode: AddressingMode) -> (r: Result<(), CpuError>)
    ensures
        outcome(old(cpu)@, Mnemonic::Sty, mode, r, final(cpu)@),
{
    if !takes_mode(Mnemonic::Sty, mode) {
        return Err(CpuError::BadAddressingMode);
    }
    let ea = cpu.operand_address(mode);
    cpu.memory[ea as usize] = cpu.y;
    advance_pc(cpu, mode);
    Ok(())
}

//
// transfers
//

/// TAX: X ← A; N, Z.
pub fn tax(cpu: &mut Cpu, mode: AddressingMode) -> (r: Result<(), CpuError>)
    ensures
        outcome(old(cpu)@, Mnemonic::Tax, mode, r, final(cpu)@),
{
    if !takes_mode(Mnemonic::Tax, mode) {
        return Err(CpuError::BadAddressingMode);
    }
    cpu.x = cpu.a;
    cpu.update_nz(cpu.x);
    advance_pc(cpu, mode);
    Ok(())
}

/// TAY: Y ← A; N, Z.
pub fn tay(cpu: &mut Cpu, mode: AddressingMode) -> (r: Result<(), CpuError>)
    ensures
        outcome(old(cpu)@, Mnemonic::Tay, mode, r, final(cpu)@),
{
    if !takes_mode(Mnemonic::Tay, mode) {
        return Err(CpuError::BadAddressingMode);
    }
    cpu.y = cpu.a;
    cpu.update_nz(cpu.y);
    advance_pc(cpu, mode);
    Ok(())
}

/// TSX: X ← S; N, Z.
pub fn tsx(cpu: &mut Cpu, mode: AddressingMode) -> (r: Result<(), CpuError>)
    ensures
        outcome(old(cpu)@, Mnemonic::Tsx, mode, r, final(cpu)@),
{
    if !takes_mode(Mnemonic::Tsx, mode) {
        return Err(CpuError::BadAddressingMode);
    }
    cpu.x = cpu.s;
    cpu.update_nz(cpu.x);
    advance_pc(cpu, mode);
    Ok(())
}

/// TXA: A ← X; N, Z.
pub fn txa(cpu: &mut Cpu, mode: AddressingMode) -> (r: Result<(), CpuError>)
    ensures
        outcome(old(cpu)@, Mnemonic::Txa, mode, r, final(cpu)@),
{
    if !takes_mode(Mnemonic::Txa, mode) {
        return Err(CpuError::BadAddressingMode);
    }
    cpu.a = cpu.x;
    cpu.update_nz(cpu.a);
    advance_pc(cpu, mode);
    Ok(())
}

/// TYA: A ← Y; N, Z.
pub fn tya(cpu: &mut Cpu, mode: AddressingMode) -> (r: Result<(), CpuError>)
    ensures
        outcome(old(cpu)@, Mnemonic::Tya, mode, r, final(cpu)@),
{
    if !takes_mode(Mnemonic::Tya, mode) {
        return Err(CpuError::BadAddressingMode);
    }
    cpu.a = cpu.y;
    cpu.update_nz(cpu.a);
    advance_pc(cpu, mode);
    Ok(())
}

/// TXS: S ← X; no flags.
pub fn txs(cpu: &mut Cpu, mode: AddressingMode) -> (r: Result<(), CpuError>)
    ensures
        outcome(old(cpu)@, Mnemonic::Txs, mode, r, final(cpu)@),
{
    if !takes_mode(Mnemonic::Txs, mode) {
        return Err(CpuError::BadAddressingMode);
    }
    cpu.s = cpu.x;
    advance_pc(cpu, mode);
    Ok(())
}

//
// stack
//

/// PHA: push A.
pub fn pha(cpu: &mut Cpu, mode: AddressingMode) -> (r: Result<(), CpuError>)
    ensures
        outcome(old(cpu)@, Mnemonic::Pha, mode, r, final(cpu)@),
{
    if !takes_mode(Mnemonic::Pha, mode) {
        return Err(CpuError::BadAddressingMode);
    }
    let a = cpu.a;
    push_byte(cpu, a);
    advance_pc(cpu, mode);
    Ok(())
}

/// PHP: push P.
pub fn php(cpu: &mut Cpu, mode: AddressingMode) -> (r: Result<(), CpuError>)
    ensures
        outcome(old(cpu)@, Mnemonic::Php, mode, r, final(cpu)@),
{
    if !takes_mode(Mnemonic::Php, mode) {
        return Err(CpuError::BadAddressingMode);
    }
    let p = cpu.p;
    push_byte(cpu, p);
    advance_pc(cpu, mode);
    Ok(())
}

/// PLA: pull A; N, Z.
pub fn pla(cpu: &mut Cpu, mode: AddressingMode) -> (r: Result<(), CpuError>)
    ensures
        outcome(old(cpu)@, Mnemonic::Pla, mode, r, final(cpu)@),
{
    if !takes_mode(Mnemonic::Pla, mode) {
        return Err(CpuError::BadAddressingMode);
    }
    let v = pull_byte(cpu);
    cpu.a = v;
    cpu.update_nz(v);
    advance_pc(cpu, mode);
    Ok(())
}

/// PLP: pull P.
pub fn plp(cpu: &mut Cpu, mode: AddressingMode) -> (r: Result<(), CpuError>)
    ensures
        outcome(old(cpu)@, Mnemonic::Plp, mode, r, final(cpu)@),
{
    if !takes_mode(Mnemonic::Plp, mode) {
        return Err(CpuError::BadAddressingMode);
    }
    cpu.p = pull_byte(cpu);
    advance_pc(cpu, mode);
    Ok(())
}

//
// shifts and rotates
//

/// The common body of ASL, LSR, ROL and ROR: shift the operand, set N, Z from the result
/// and C from the bit shifted out, write the result back.
fn shift(cpu: &mut Cpu, m: Mnemonic, mode: AddressingMode) -> (r: Result<(), CpuError>)
    requires
        m is Asl || m is Lsr || m is Rol || m is Ror,
    ensures
        outcome(old(cpu)@, m, mode, r, final(cpu)@),
{
    if !takes_mode(m, mode) {
        return Err(CpuError::BadAddressingMode);
    }
    let carry = cpu.is_carry();
    let v = operand_value(cpu, mode);
    let (res, out) = match m {
        Mnemonic::Asl => (v << 1u8, v & 0x80 != 0),
        Mnemonic::Lsr => (v >> 1u8, v & 1 != 0),
        Mnemonic::Rol => ((v << 1u8) | (if carry { 1u8 } else { 0u8 }), v & 0x80 != 0),
        _ => ((v >> 1u8) | (if carry { 0x80u8 } else { 0u8 }), v & 1 != 0),
    };
    if matches!(mode, AddressingMode::Accumulator) {
        cpu.a = res;
    } else {
        let ea = cpu.operand_address(mode);
        cpu.memory[ea as usize] = res;
    }
    cpu.update_nz(res);
    cpu.update_carry(out);
    advance_pc(cpu, mode);
    Ok(())
}

/// ASL: C ← bit 7, operand ← operand << 1; N, Z.
pub fn asl(cpu: &mut Cpu, mode: AddressingMode) -> (r: Result<(), CpuError>)
    ensures
        outcome(old(cpu)@, Mnemonic::Asl, mode, r, final(cpu)@),
{
    shift(cpu, Mnemonic::Asl, mode)
}

/// LSR: C ← bit 0, operand ← operand >> 1; N (cleared), Z.
pub fn lsr(cpu: &mut Cpu, mode: AddressingMode) -> (r: Result<(), CpuError>)
    ensures
        outcome(old(cpu)@, Mnemonic::Lsr, mode, r, final(cpu)@),
{
    shift(cpu, Mnemonic::Lsr, mode)
}

/// ROL: C ← bit 7, operand ← (operand << 1) | old C; N, Z.
pub fn rol(cpu: &mut Cpu, mode: AddressingMode) -> (r: Result<(), CpuError>)
    ensures
        outcome(old(cpu)@, Mnemonic::Rol, mode, r, final(cpu)@),
{
    shift(cpu, Mnemonic::Rol, mode)
}

/// ROR: C ← bit 0, operand ← (operand >> 1) | old C << 7; N, Z.
pub fn ror(cpu: &mut Cpu, mode: AddressingMode) -> (r: Result<(), CpuError>)
    ensures
        outcome(old(cpu)@, Mnemonic::Ror, mode, r, final(cpu)@),
{
    shift(cpu, Mnemonic::Ror, mode)
}

//
// logic
//

/// AND: A ← A & operand; N, Z.
pub fn and(cpu: &mut Cpu, mode: AddressingMode) -> (r: Result<(), CpuError>)
    ensures
        outcome(old(cpu)@, Mnemonic::And, mode, r, final(cpu)@),
{
    if !takes_mode(Mnemonic::And, mode) {
        return Err(CpuError::BadAddressingMode);
    }
    let v = operand_value(cpu, mode);
    cpu.a = cpu.a & v;
    cpu.update_nz(cpu.a);
    advance_pc(cpu, mode);
    Ok(())
}

/// EOR: A ← A ^ operand; N, Z.
pub fn eor(cpu: &mut Cpu, mode: AddressingMode) -> (r: Result<(), CpuError>)
    ensures
        outcome(old(cpu)@, Mnemonic::Eor, mode, r, final(cpu)@),
{
    if !takes_mode(Mnemonic::Eor, mode) {
        return Err(CpuError::BadAddressingMode);
    }
    let v = operand_value(cpu, mode);
    cpu.a = cpu.a ^ v;
    cpu.update_nz(cpu.a);
    advance_pc(cpu, mode);
    Ok(())
}

/// ORA: A ← A | operand; N, Z.
pub fn ora(cpu: &mut Cpu, mode: AddressingMode) -> (r: Result<(), CpuError>)
    ensures
        outcome(old(cpu)@, Mnemonic::Ora, mode, r, final(cpu)@),
{
    if !takes_mode(Mnemonic::Ora, mode) {
        return Err(CpuError::BadAddressingMode);
    }
    let v = operand_value(cpu, mode);
    cpu.a = cpu.a | v;
    cpu.update_nz(cpu.a);
    advance_pc(cpu, mode);
    Ok(())
}

/// BIT: Z from A & operand, V from bit 6 and N from bit 7 of the operand; A unchanged.
pub fn bit(cpu: &mut Cpu, mode: AddressingMode) -> (r: Result<(), CpuError>)
    ensures
        outcome(old(cpu)@, Mnemonic::Bit, mode, r, final(cpu)@),
{
    if !takes_mode(Mnemonic::Bit, mode) {
        return Err(CpuError::BadAddressingMode);
    }
    let v = operand_value(cpu, mode);
    cpu.update_zero(cpu.a & v == 0);
    cpu.update_overflow(v & 0x40 != 0);
    cpu.update_negative(v & 0x80 != 0);
    advance_pc(cpu, mode);
    Ok(())
}

//
// arithmetic
//

/// ADC: A ← A + operand + C (binary mode only); N, Z, V, C.
pub fn adc(cpu: &mut Cpu, mode: AddressingMode) -> (r: Result<(), CpuError>)
    ensures
        outcome(old(cpu)@, Mnemonic::Adc, mode, r, final(cpu)@),
{
    if cpu.is_decimal() {
        return Err(CpuError::DecimalModeNotSupported);
    }
    if !takes_mode(Mnemonic::Adc, mode) {
        return Err(CpuError::BadAddressingMode);
    }
    let v = operand_value(cpu, mode);
    add_to_accumulator(cpu, v);
    advance_pc(cpu, mode);
    Ok(())
}

/// SBC: A ← A - operand - (1 - C), that is ADC of the operand's complement (binary mode
/// only); N, Z, V, C.
pub fn sbc(cpu: &mut Cpu, mode: AddressingMode) -> (r: Result<(), CpuError>)
    ensures
        outcome(old(cpu)@, Mnemonic::Sbc, mode, r, final(cpu)@),
{
    if cpu.is_decimal() {
        return Err(CpuError::DecimalModeNotSupported);
    }
    if !takes_mode(Mnemonic::Sbc, mode) {
        return Err(CpuError::BadAddressingMode);
    }
    let v = operand_value(cpu, mode);
    add_to_accumulator(cpu, v ^ 0xff);
    advance_pc(cpu, mode);
    Ok(())
}

/// CMP: compare A with the operand: C when A ≥ operand, Z when equal, N from
/// bit 7 of the 8-bit difference.
pub fn cmp(cpu: &mut Cpu, mode: AddressingMode) -> (r: Result<(), CpuError>)
    ensures
        outcome(old(cpu)@, Mnemonic::Cmp, mode, r, final(cpu)@),
{
    if !takes_mode(Mnemonic::Cmp, mode) {
        return Err(CpuError::BadAddressingMode);
    }
    let v = operand_value(cpu, mode);
    let reg = cpu.a;
    compare_with(cpu, reg, v);
    advance_pc(cpu, mode);
    Ok(())
}

/// CPX: compare X with the operand: C when X ≥ operand, Z when equal, N from
/// bit 7 of the 8-bit difference.
pub fn cpx(cpu: &mut Cpu, mode: AddressingMode) -> (r: Result<(), CpuError>)
    ensures
        outcome(old(cpu)@, Mnemonic::Cpx, mode, r, final(cpu)@),
{
    if !takes_mode(Mnemonic::Cpx, mode) {
        return Err(CpuError::BadAddressingMode);
    }
    let v = operand_value(cpu, mode);
    let reg = cpu.x;
    compare_with(cpu, reg, v);
    advance_pc(cpu, mode);
    Ok(())
}

/// CPY: compare Y with the operand: C when Y ≥ operand, Z when equal, N from
/// bit 7 of the 8-bit difference.
pub fn cpy(cpu: &mut Cpu, mode: AddressingMode) -> (r: Result<(), CpuError>)
    ensures
        outcome(old(cpu)@, Mnemonic::Cpy, mode, r, final(cpu)@),
{
    if !takes_mode(Mnemonic::Cpy, mode) {
        return Err(CpuError::BadAddressingMode);
    }
    let v = operand_value(cpu, mode);
    let reg = cpu.y;
    compare_with(cpu, reg, v);
    advance_pc(cpu, mode);
    Ok(())
}

//
// increments and decrements
//

/// INC: memory ← memory + 1 (8-bit wrap); N, Z.
pub fn inc(cpu: &mut Cpu, mode: AddressingMode) -> (r: Result<(), CpuError>)
    ensures
        outcome(old(cpu)@, Mnemonic::Inc, mode, r, final(cpu)@),
{
    if !takes_mode(Mnemonic::Inc, mode) {
        return Err(CpuError::BadAddressingMode);
    }
    let ea = cpu.operand_address(mode);
    let v = inc8(cpu.read(ea));
    cpu.memory[ea as usize] = v;
    cpu.update_nz(v);
    advance_pc(cpu, mode);
    Ok(())
}

/// DEC: memory ← memory - 1 (8-bit wrap); N, Z.
pub fn dec(cpu: &mut Cpu, mode: AddressingMode) -> (r: Result<(), CpuError>)
    ensures
        outcome(old(cpu)@, Mnemonic::Dec, mode, r, final(cpu)@),
{
    if !takes_mode(Mnemonic::Dec, mode) {
        return Err(CpuError::BadAddressingMode);
    }
    let ea = cpu.operand_address(mode);
    let v = dec8(cpu.read(ea));
    cpu.memory[ea as usize] = v;
    cpu.update_nz(v);
    advance_pc(cpu, mode);
    Ok(())
}

/// INX: X ← X + 1 (8-bit wrap); N, Z.
pub fn inx(cpu: &mut Cpu, mode: AddressingMode) -> (r: Result<(), CpuError>)
    ensures
        outcome(old(cpu)@, Mnemonic::Inx, mode, r, final(cpu)@),
{
    if !takes_mode(Mnemonic::Inx, mode) {
        return Err(CpuError::BadAddressingMode);
    }
    cpu.x = inc8(cpu.x);
    cpu.update_nz(cpu.x);
    advance_pc(cpu, mode);
    Ok(())
}

/// INY: Y ← Y + 1 (8-bit wrap); N, Z.
pub fn iny(cpu: &mut Cpu, mode: AddressingMode) -> (r: Result<(), CpuError>)
    ensures
        outcome(old(cpu)@, Mnemonic::Iny, mode, r, final(cpu)@),
{
    if !takes_mode(Mnemonic::Iny, mode) {
        return Err(CpuError::BadAddressingMode);
    }
    cpu.y = inc8(cpu.y);
    cpu.update_nz(cpu.y);
    advance_pc(cpu, mode);
    Ok(())
}

/// DEX: X ← X - 1 (8-bit wrap); N, Z.
pub fn dex(cpu: &mut Cpu, mode: AddressingMode) -> (r: Result<(), CpuError>)
    ensures
        outcome(old(cpu)@, Mnemonic::Dex, mode, r, final(cpu)@),
{
    if !takes_mode(Mnemonic::Dex, mode) {
        return Err(CpuError::BadAddressingMode);
    }
    cpu.x = dec8(cpu.x);
    cpu.update_nz(cpu.x);
    advance_pc(cpu, mode);
    Ok(())
}

/// DEY: Y ← Y - 1 (8-bit wrap); N, Z.
pub fn dey(cpu: &mut Cpu, mode: AddressingMode) -> (r: Result<(), CpuError>)
    ensures
        outcome(old(cpu)@, Mnemonic::Dey, mode, r, final(cpu)@),
{
    if !takes_mode(Mnemonic::Dey, mode) {
        return Err(CpuError::BadAddressingMode);
    }
    cpu.y = dec8(cpu.y);
    cpu.update_nz(cpu.y);
    advance_pc(cpu, mode);
    Ok(())
}

//
// control
//

/// BRK: recognised, but interrupts are out of scope, so it always fails.
pub fn brk(cpu: &mut Cpu, mode: AddressingMode) -> (r: Result<(), CpuError>)
    ensures
        outcome(old(cpu)@, Mnemonic::Brk, mode, r, final(cpu)@),
{
    if !takes_mode(Mnemonic::Brk, mode) {
        return Err(CpuError::BadAddressingMode);
    }
    Err(CpuError::UnsupportedInstruction)
}

/// JMP: PC ← target (`Absolute`) or the word stored at it (`AbsoluteIndirect`).
pub fn jmp(cpu: &mut Cpu, mode: AddressingMode) -> (r: Result<(), CpuError>)
    ensures
        outcome(old(cpu)@, Mnemonic::Jmp, mode, r, final(cpu)@),
{
    if !takes_mode(Mnemonic::Jmp, mode) {
        return Err(CpuError::BadAddressingMode);
    }
    cpu.pc = cpu.operand_address(mode);
    Ok(())
}

/// JSR: push the high, then the low byte of the address of the call's last byte; PC ← target.
pub fn jsr(cpu: &mut Cpu, mode: AddressingMode) -> (r: Result<(), CpuError>)
    ensures
        outcome(old(cpu)@, Mnemonic::Jsr, mode, r, final(cpu)@),
{
    if !takes_mode(Mnemonic::Jsr, mode) {
        return Err(CpuError::BadAddressingMode);
    }
    let target = cpu.operand_address(mode);
    let ret = inc16(cpu.pc);
    push_byte(cpu, high_byte(ret));
    push_byte(cpu, low_byte(ret));
    cpu.pc = target;
    Ok(())
}

/// RTS: pull the low, then the high byte of PC; then PC ← PC + 1.
pub fn rts(cpu: &mut Cpu, mode: AddressingMode) -> (r: Result<(), CpuError>)
    ensures
        outcome(old(cpu)@, Mnemonic::Rts, mode, r, final(cpu)@),
{
    if !takes_mode(Mnemonic::Rts, mode) {
        return Err(CpuError::BadAddressingMode);
    }
    let lo = pull_byte(cpu);
    let hi = pull_byte(cpu);
    cpu.pc = inc16(word_of(lo, hi));
    Ok(())
}

/// RTI: pull P, then the low and the high byte of PC; then PC ← PC + 1.
pub fn rti(cpu: &mut Cpu, mode: AddressingMode) -> (r: Result<(), CpuError>)
    ensures
        outcome(old(cpu)@, Mnemonic::Rti, mode, r, final(cpu)@),
{
    if !takes_mode(Mnemonic::Rti, mode) {
        return Err(CpuError::BadAddressingMode);
    }
    let p = pull_byte(cpu);
    let lo = pull_byte(cpu);
    let hi = pull_byte(cpu);
    cpu.p = p;
    cpu.pc = inc16(word_of(lo, hi));
    Ok(())
}

//
// branches
//

/// The common body of the branches: PC ← the 16-bit target at PC when `taken`, else PC
/// moves past the two operand bytes.
fn branch(cpu: &mut Cpu, m: Mnemonic, mode: AddressingMode, taken: bool) -> (r: Result<
    (),
    CpuError,
>)
    requires
        m is Bcc || m is Bcs || m is Beq || m is Bmi || m is Bne || m is Bpl || m is Bvc
            || m is Bvs,
        taken == branch_taken(m, old(cpu).p),
    ensures
        outcome(old(cpu)@, m, mode, r, final(cpu)@),
{
    if !takes_mode(m, mode) {
        return Err(CpuError::BadAddressingMode);
    }
    if taken {
        cpu.set_pc_to_current_addr_in_memory();
    } else {
        advance_pc(cpu, mode);
    }
    Ok(())
}

/// BCC: branch when C is clear.
pub fn bcc(cpu: &mut Cpu, mode: AddressingMode) -> (r: Result<(), CpuError>)
    ensures
        outcome(old(cpu)@, Mnemonic::Bcc, mode, r, final(cpu)@),
{
    let taken = !cpu.is_carry();
    branch(cpu, Mnemonic::Bcc, mode, taken)
}

/// BCS: branch when C is set.
pub fn bcs(cpu: &mut Cpu, mode: AddressingMode) -> (r: Result<(), CpuError>)
    ensures
        outcome(old(cpu)@, Mnemonic::Bcs, mode, r, final(cpu)@),
{
    let taken = cpu.is_carry();
    branch(cpu, Mnemonic::Bcs, mode, taken)
}

/// BEQ: branch when Z is set.
pub fn beq(cpu: &mut Cpu, mode: AddressingMode) -> (r: Result<(), CpuError>)
    ensures
        outcome(old(cpu)@, Mnemonic::Beq, mode, r, final(cpu)@),
{
    let taken = cpu.is_zero();
    branch(cpu, Mnemonic::Beq, mode, taken)
}

/// BMI: branch when N is set.
pub fn bmi(cpu: &mut Cpu, mode: AddressingMode) -> (r: Result<(), CpuError>)
    ensures
        outcome(old(cpu)@, Mnemonic::Bmi, mode, r, final(cpu)@),
{
    let taken = cpu.is_negative();
    branch(cpu, Mnemonic::Bmi, mode, taken)
}

/// BNE: branch when Z is clear.
pub fn bne(cpu: &mut Cpu, mode: AddressingMode) -> (r: Result<(), CpuError>)
    ensures
        outcome(old(cpu)@, Mnemonic::Bne, mode, r, final(cpu)@),
{
    let taken = !cpu.is_zero();
    branch(cpu, Mnemonic::Bne, mode, taken)
}

/// BPL: branch when N is clear.
pub fn bpl(cpu: &mut Cpu, mode: AddressingMode) -> (r: Result<(), CpuError>)
    ensures
        outcome(old(cpu)@, Mnemonic::Bpl, mode, r, final(cpu)@),
{
    let taken = !cpu.is_negative();
    branch(cpu, Mnemonic::Bpl, mode, taken)
}

/// BVC: branch when V is clear.
pub fn bvc(cpu: &mut Cpu, mode: AddressingMode) -> (r: Result<(), CpuError>)
    ensures
        outcome(old(cpu)@, Mnemonic::Bvc, mode, r, final(cpu)@),
{
    let taken = !cpu.is_overflow();
    branch(cpu, Mnemonic::Bvc, mode, taken)
}

/// BVS: branch when V is set.
pub fn bvs(cpu: &mut Cpu, mode: AddressingMode) -> (r: Result<(), CpuError>)
    ensures
        outcome(old(cpu)@, Mnemonic::Bvs, mode, r, final(cpu)@),
{
    let taken = cpu.is_overflow();
    branch(cpu, Mnemonic::Bvs, mode, taken)
}

//
// flags
//

/// CLC: clear C.
pub fn clc(cpu: &mut Cpu, mode: AddressingMode) -> (r: Result<(), CpuError>)
    ensures
        outcome(old(cpu)@, Mnemonic::Clc, mode, r, final(cpu)@),
{
    if !takes_mode(Mnemonic::Clc, mode) {
        return Err(CpuError::BadAddressingMode);
    }
    cpu.update_carry(false);
    advance_pc(cpu, mode);
    Ok(())
}

/// CLD: clear D.
pub fn cld(cpu: &mut Cpu, mode: AddressingMode) -> (r: Result<(), CpuError>)
    ensures
        outcome(old(cpu)@, Mnemonic::Cld, mode, r, final(cpu)@),
{
    if !takes_mode(Mnemonic::Cld, mode) {
        return Err(CpuError::BadAddressingMode);
    }
    cpu.update_decimal(false);
    advance_pc(cpu, mode);
    Ok(())
}

/// CLI: clear I.
pub fn cli(cpu: &mut Cpu, mode: AddressingMode) -> (r: Result<(), CpuError>)
    ensures
        outcome(old(cpu)@, Mnemonic::Cli, mode, r, final(cpu)@),
{
    if !takes_mode(Mnemonic::Cli, mode) {
        return Err(CpuError::BadAddressingMode);
    }
    cpu.update_interrupt_disable(false);
    advance_pc(cpu, mode);
    Ok(())
}

/// CLV: clear V.
pub fn clv(cpu: &mut Cpu, mode: AddressingMode) -> (r: Result<(), CpuError>)
    ensures
        outcome(old(cpu)@, Mnemonic::Clv, mode, r, final(cpu)@),
{
    if !takes_mode(Mnemonic::Clv, mode) {
        return Err(CpuError::BadAddressingMode);
    }
    cpu.update_overflow(false);
    advance_pc(cpu, mode);
    Ok(())
}

/// SEC: set C.
pub fn sec(cpu: &mut Cpu, mode: AddressingMode) -> (r: Result<(), CpuError>)
    ensures
        outcome(old(cpu)@, Mnemonic::Sec, mode, r, final(cpu)@),
{
    if !takes_mode(Mnemonic::Sec, mode) {
        return Err(CpuError::BadAddressingMode);
    }
    cpu.update_carry(true);
    advance_pc(cpu, mode);
    Ok(())
}

/// SED: set D.
pub fn sed(cpu: &mut Cpu, mode: AddressingMode) -> (r: Result<(), CpuError>)
    ensures
        outcome(old(cpu)@, Mnemonic::Sed, mode, r, final(cpu)@),
{
    if !takes_mode(Mnemonic::Sed, mode) {
        return Err(CpuError::BadAddressingMode);
    }
    cpu.update_decimal(true);
    advance_pc(cpu, mode);
    Ok(())
}

/// SEI: set I.
pub fn sei(cpu: &mut Cpu, mode: AddressingMode) -> (r: Result<(), CpuError>)
    ensures
        outcome(old(cpu)@, Mnemonic::Sei, mode, r, final(cpu)@),
{
    if !takes_mode(Mnemonic::Sei, mode) {
        return Err(CpuError::BadAddressingMode);
    }
    cpu.update_interrupt_disable(true);
    advance_pc(cpu, mode);
    Ok(())
}

/// NOP: nothing changes.
pub fn nop(cpu: &mut Cpu, mode: AddressingMode) -> (r: Result<(), CpuError>)
    ensures
        outcome(old(cpu)@, Mnemonic::Nop, mode, r, final(cpu)@),
{
    Ok(())
}

//
// dispatch
//

/// Runs the handler of `m`.
pub fn dispatch(cpu: &mut Cpu, m: Mnemonic, mode: AddressingMode) -> (r: Result<(), CpuError>)
    ensures
        outcome(old(cpu)@, m, mode, r, final(cpu)@),
{
    match m {
        Mnemonic::Lda => lda(cpu, mode),
        Mnemonic::Ldx => ldx(cpu, mode),
        Mnemonic::Ldy => ldy(cpu, mode),
        Mnemonic::Sta => sta(cpu, mode),
        Mnemonic::Stx => stx(cpu, mode),
        Mnemonic::Sty => sty(cpu, mode),
        Mnemonic::Tax => tax(cpu, mode),
        Mnemonic::Tay => tay(cpu, mode),
        Mnemonic::Tsx => tsx(cpu, mode),
        Mnemonic::Txa => txa(cpu, mode),
        Mnemonic::Txs => txs(cpu, mode),
        Mnemonic::Tya => tya(cpu, mode),
        Mnemonic::Pha => pha(cpu, mode),
        Mnemonic::Php => php(cpu, mode),
        Mnemonic::Pla => pla(cpu, mode),
        Mnemonic::Plp => plp(cpu, mode),
        Mnemonic::Asl => asl(cpu, mode),
        Mnemonic::Lsr => lsr(cpu, mode),
        Mnemonic::Rol => rol(cpu, mode),
        Mnemonic::Ror => ror(cpu, mode),
        Mnemonic::And => and(cpu, mode),
        Mnemonic::Bit => bit(cpu, mode),
        Mnemonic::Eor => eor(cpu, mode),
        Mnemonic::Ora => ora(cpu, mode),
        Mnemonic::Adc => adc(cpu, mode),
        Mnemonic::Cmp => cmp(cpu, mode),
        Mnemonic::Cpx => cpx(cpu, mode),
        Mnemonic::Cpy => cpy(cpu, mode),
        Mnemonic::Sbc => sbc(cpu, mode),
        Mnemonic::Dec => dec(cpu, mode),
        Mnemonic::Dex => dex(cpu, mode),
        Mnemonic::Dey => dey(cpu, mode),
        Mnemonic::Inc => inc(cpu, mode),
        Mnemonic::Inx => inx(cpu, mode),
        Mnemonic::Iny => iny(cpu, mode),
        Mnemonic::Brk => brk(cpu, mode),
        Mnemonic::Jmp => jmp(cpu, mode),
        Mnemonic::Jsr => jsr(cpu, mode),
        Mnemonic::Rti => rti(cpu, mode),
        Mnemonic::Rts => rts(cpu, mode),
        Mnemonic::Bcc => bcc(cpu, mode),
        Mnemonic::Bcs => bcs(cpu, mode),
        Mnemonic::Beq => beq(cpu, mode),
        Mnemonic::Bmi => bmi(cpu, mode),
        Mnemonic::Bne => bne(cpu, mode),
        Mnemonic::Bpl => bpl(cpu, mode),
        Mnemonic::Bvc => bvc(cpu, mode),
        Mnemonic::Bvs => bvs(cpu, mode),
        Mnemonic::Clc => clc(cpu, mode),
        Mnemonic::Cld => cld(cpu, mode),
        Mnemonic::Cli => cli(cpu, mode),
        Mnemonic::Clv => clv(cpu, mode),
        Mnemonic::Sec => sec(cpu, mode),
        Mnemonic::Sed => sed(cpu, mode),
        Mnemonic::Sei => sei(cpu, mode),
        Mnemonic::Nop => nop(cpu, mode),
    }
}

impl Cpu {
    /// Executes one instruction: fetch the opcode at PC, move PC past it, decode it and run
    /// its handler. On failure the processor is left as it was before the step.
    pub fn step(&mut self) -> (r: Result<(), CpuError>)
        ensures
            step_outcome(old(self)@, r, final(self)@),
    {
        let pc = self.pc;
        let op = self.read(pc);
        match decode(op) {
            None => Err(CpuError::UnknownOpcode(op)),
            Some((m, mode)) => {
                self.pc = inc16(pc);
                let r = dispatch(self, m, mode);
                if r.is_err() {
                    self.pc = pc;
                }
                r
            },
        }
    }
}

} // verus!
