//! The opcode table: which mnemonic and addressing mode each opcode byte stands for.

use vstd::prelude::*;
use crate::cpu::AddressingMode;

verus! {

// Opcode bytes, named after their mnemonic and value.
pub const LDA_A9: u8 = 0xA9;
pub const LDA_AD: u8 = 0xAD;
pub const LDA_BD: u8 = 0xBD;
pub const LDA_B9: u8 = 0xB9;
pub const LDA_A5: u8 = 0xA5;
pub const LDA_B5: u8 = 0xB5;
pub const LDA_A1: u8 = 0xA1;
pub const LDA_B1: u8 = 0xB1;
pub const LDX_A2: u8 = 0xA2;
pub const LDX_AE: u8 = 0xAE;
pub const LDX_BE: u8 = 0xBE;
pub const LDX_A6: u8 = 0xA6;
pub const LDX_B6: u8 = 0xB6;
pub const LDY_A0: u8 = 0xA0;
pub const LDY_AC: u8 = 0xAC;
pub const LDY_BC: u8 = 0xBC;
pub const LDY_A4: u8 = 0xA4;
pub const LDY_B4: u8 = 0xB4;
pub const STA_8D: u8 = 0x8D;
pub const STA_9D: u8 = 0x9D;
pub const STA_99: u8 = 0x99;
pub const STA_85: u8 = 0x85;
pub const STA_95: u8 = 0x95;
pub const STA_81: u8 = 0x81;
pub const STA_91: u8 = 0x91;
pub const STX_8E: u8 = 0x8E;
pub const STX_86: u8 = 0x86;
pub const STX_96: u8 = 0x96;
pub const STY_8C: u8 = 0x8C;
pub const STY_84: u8 = 0x84;
pub const STY_94: u8 = 0x94;
pub const INC_EE: u8 = 0xEE;
pub const INC_FE: u8 = 0xFE;
pub const INC_E6: u8 = 0xE6;
pub const INC_F6: u8 = 0xF6;
pub const INX_E8: u8 = 0xE8;
pub const INY_C8: u8 = 0xC8;
pub const ADC_69: u8 = 0x69;
pub const ADC_6D: u8 = 0x6D;
pub const ADC_7D: u8 = 0x7D;
pub const ADC_79: u8 = 0x79;
pub const ADC_65: u8 = 0x65;
pub const ADC_75: u8 = 0x75;
pub const ADC_61: u8 = 0x61;
pub const ADC_71: u8 = 0x71;
pub const SBC_E9: u8 = 0xE9;
pub const SBC_ED: u8 = 0xED;
pub const SBC_FD: u8 = 0xFD;
pub const SBC_F9: u8 = 0xF9;
pub const SBC_E5: u8 = 0xE5;
pub const SBC_F5: u8 = 0xF5;
pub const SBC_E1: u8 = 0xE1;
pub const SBC_F1: u8 = 0xF1;
pub const CMP_C9: u8 = 0xC9;
pub const CMP_CD: u8 = 0xCD;
pub const CMP_DD: u8 = 0xDD;
pub const CMP_D9: u8 = 0xD9;
pub const CMP_C5: u8 = 0xC5;
pub const CMP_D5: u8 = 0xD5;
pub const CMP_C1: u8 = 0xC1;
pub const CMP_D1: u8 = 0xD1;
pub const CPX_E0: u8 = 0xE0;
pub const CPX_EC: u8 = 0xEC;
pub const CPX_E4: u8 = 0xE4;
pub const CPY_C0: u8 = 0xC0;
pub const CPY_CC: u8 = 0xCC;
pub const CPY_C4: u8 = 0xC4;
pub const DEC_CE: u8 = 0xCE;
pub const DEC_DE: u8 = 0xDE;
pub const DEC_C6: u8 = 0xC6;
pub const DEC_D6: u8 = 0xD6;
pub const DEX_CA: u8 = 0xCA;
pub const DEY_88: u8 = 0x88;
pub const CLC_18: u8 = 0x18;
pub const CLD_D8: u8 = 0xD8;
pub const CLI_58: u8 = 0x58;
pub const CLV_B8: u8 = 0xB8;
pub const SEC_38: u8 = 0x38;
pub const SED_F8: u8 = 0xF8;
pub const SEI_78: u8 = 0x78;
pub const TAX_AA: u8 = 0xAA;
pub const TAY_A8: u8 = 0xA8;
pub const TSX_BA: u8 = 0xBA;
pub const TXA_8A: u8 = 0x8A;
pub const TXS_9A: u8 = 0x9A;
pub const TYA_98: u8 = 0x98;
pub const PHA_48: u8 = 0x48;
pub const PHP_08: u8 = 0x08;
pub const PLA_68: u8 = 0x68;
pub const PLP_28: u8 = 0x28;
pub const BRK_00: u8 = 0x00;
pub const JMP_4C: u8 = 0x4C;
pub const JMP_6C: u8 = 0x6C;
pub const JSR_20: u8 = 0x20;
pub const RTI_40: u8 = 0x40;
pub const RTS_60: u8 = 0x60;
pub const BCC_90: u8 = 0x90;
pub const BCS_B0: u8 = 0xB0;
pub const BEQ_F0: u8 = 0xF0;
pub const BMI_30: u8 = 0x30;
pub const BNE_D0: u8 = 0xD0;
pub const BPL_10: u8 = 0x10;
pub const BVC_50: u8 = 0x50;
pub const BVS_70: u8 = 0x70;
pub const ASL_0A: u8 = 0x0A;
pub const ASL_0E: u8 = 0x0E;
pub const ASL_1E: u8 = 0x1E;
pub const ASL_06: u8 = 0x06;
pub const ASL_16: u8 = 0x16;
pub const LSR_4A: u8 = 0x4A;
pub const LSR_4E: u8 = 0x4E;
pub const LSR_5E: u8 = 0x5E;
pub const LSR_46: u8 = 0x46;
pub const LSR_56: u8 = 0x56;
pub const ROL_2A: u8 = 0x2A;
pub const ROL_2E: u8 = 0x2E;
pub const ROL_3E: u8 = 0x3E;
pub const ROL_26: u8 = 0x26;
pub const ROL_36: u8 = 0x36;
pub const ROR_6A: u8 = 0x6A;
pub const ROR_6E: u8 = 0x6E;
pub const ROR_7E: u8 = 0x7E;
pub const ROR_66: u8 = 0x66;
pub const ROR_76: u8 = 0x76;
pub const AND_29: u8 = 0x29;
pub const AND_2D: u8 = 0x2D;
pub const AND_3D: u8 = 0x3D;
pub const AND_39: u8 = 0x39;
pub const AND_25: u8 = 0x25;
pub const AND_35: u8 = 0x35;
pub const AND_21: u8 = 0x21;
pub const AND_31: u8 = 0x31;
pub const BIT_2C: u8 = 0x2C;
pub const BIT_24: u8 = 0x24;
pub const EOR_49: u8 = 0x49;
pub const EOR_4D: u8 = 0x4D;
pub const EOR_5D: u8 = 0x5D;
pub const EOR_59: u8 = 0x59;
pub const EOR_45: u8 = 0x45;
pub const EOR_55: u8 = 0x55;
pub const EOR_41: u8 = 0x41;
pub const EOR_51: u8 = 0x51;
pub const ORA_09: u8 = 0x09;
pub const ORA_0D: u8 = 0x0D;
pub const ORA_1D: u8 = 0x1D;
pub const ORA_19: u8 = 0x19;
pub const ORA_05: u8 = 0x05;
pub const ORA_15: u8 = 0x15;
pub const ORA_01: u8 = 0x01;
pub const ORA_11: u8 = 0x11;
pub const NOP_EA: u8 = 0xEA;

/// The instructions this interpreter knows, one per mnemonic.
#[derive(Debug, PartialEq, Eq, Clone, Copy, Structural)]
pub enum Mnemonic {
    Lda,
    Ldx,
    Ldy,
    Sta,
    Stx,
    Sty,
    Inc,
    Inx,
    Iny,
    Adc,
    Sbc,
    Cmp,
    Cpx,
    Cpy,
    Dec,
    Dex,
    Dey,
    Clc,
    Cld,
    Cli,
    Clv,
    Sec,
    Sed,
    Sei,
    Tax,
    Tay,
    Tsx,
    Txa,
    Txs,
    Tya,
    Pha,
    Php,
    Pla,
    Plp,
    Brk,
    Jmp,
    Jsr,
    Rti,
    Rts,
    Bcc,
    Bcs,
    Beq,
    Bmi,
    Bne,
    Bpl,
    Bvc,
    Bvs,
    Asl,
    Lsr,
    Rol,
    Ror,
    And,
    Bit,
    Eor,
    Ora,
    Nop,
}

/// The decode table: `Some((mnemonic, mode))` for each implemented opcode, `None` otherwise.
pub open spec fn decode_spec(op: u8) -> Option<(Mnemonic, AddressingMode)> {
    match op {
        0xA9 => Some((Mnemonic::Lda, AddressingMode::Immediate)),
        0xAD => Some((Mnemonic::Lda, AddressingMode::Absolute)),
        0xBD => Some((Mnemonic::Lda, AddressingMode::AbsoluteX)),
        0xB9 => Some((Mnemonic::Lda, AddressingMode::AbsoluteY)),
        0xA5 => Some((Mnemonic::Lda, AddressingMode::ZeroPage)),
        0xB5 => Some((Mnemonic::Lda, AddressingMode::ZeroPageX)),
        0xA1 => Some((Mnemonic::Lda, AddressingMode::ZeroPageXIndirect)),
        0xB1 => Some((Mnemonic::Lda, AddressingMode::ZeroPageIndirectY)),
        0xA2 => Some((Mnemonic::Ldx, AddressingMode::Immediate)),
        0xAE => Some((Mnemonic::Ldx, AddressingMode::Absolute)),
        0xBE => Some((Mnemonic::Ldx, AddressingMode::AbsoluteY)),
        0xA6 => Some((Mnemonic::Ldx, AddressingMode::ZeroPage)),
        0xB6 => Some((Mnemonic::Ldx, AddressingMode::ZeroPageY)),
        0xA0 => Some((Mnemonic::Ldy, AddressingMode::Immediate)),
        0xAC => Some((Mnemonic::Ldy, AddressingMode::Absolute)),
        0xBC => Some((Mnemonic::Ldy, AddressingMode::AbsoluteX)),
        0xA4 => Some((Mnemonic::Ldy, AddressingMode::ZeroPage)),
        0xB4 => Some((Mnemonic::Ldy, AddressingMode::ZeroPageX)),
        0x8D => Some((Mnemonic::Sta, AddressingMode::Absolute)),
        0x9D => Some((Mnemonic::Sta, AddressingMode::AbsoluteX)),
        0x99 => Some((Mnemonic::Sta, AddressingMode::AbsoluteY)),
        0x85 => Some((Mnemonic::Sta, AddressingMode::ZeroPage)),
        0x95 => Some((Mnemonic::Sta, AddressingMode::ZeroPageX)),
        0x81 => Some((Mnemonic::Sta, AddressingMode::ZeroPageXIndirect)),
        0x91 => Some((Mnemonic::Sta, AddressingMode::ZeroPageIndirectY)),
        0x8E => Some((Mnemonic::Stx, AddressingMode::Absolute)),
        0x86 => Some((Mnemonic::Stx, AddressingMode::ZeroPage)),
        0x96 => Some((Mnemonic::Stx, AddressingMode::ZeroPageY)),
        0x8C => Some((Mnemonic::Sty, AddressingMode::Absolute)),
        0x84 => Some((Mnemonic::Sty, AddressingMode::ZeroPage)),
        0x94 => Some((Mnemonic::Sty, AddressingMode::ZeroPageX)),
        0xEE => Some((Mnemonic::Inc, AddressingMode::Absolute)),
        0xFE => Some((Mnemonic::Inc, AddressingMode::AbsoluteX)),
        0xE6 => Some((Mnemonic::Inc, AddressingMode::ZeroPage)),
        0xF6 => Some((Mnemonic::Inc, AddressingMode::ZeroPageX)),
        0xE8 => Some((Mnemonic::Inx, AddressingMode::Implied)),
        0xC8 => Some((Mnemonic::Iny, AddressingMode::Implied)),
        0x69 => Some((Mnemonic::Adc, AddressingMode::Immediate)),
        0x6D => Some((Mnemonic::Adc, AddressingMode::Absolute)),
        0x7D => Some((Mnemonic::Adc, AddressingMode::AbsoluteX)),
        0x79 => Some((Mnemonic::Adc, AddressingMode::AbsoluteY)),
        0x65 => Some((Mnemonic::Adc, AddressingMode::ZeroPage)),
        0x75 => Some((Mnemonic::Adc, AddressingMode::ZeroPageX)),
        0x61 => Some((Mnemonic::Adc, AddressingMode::ZeroPageXIndirect)),
        0x71 => Some((Mnemonic::Adc, AddressingMode::ZeroPageIndirectY)),
        0xE9 => Some((Mnemonic::Sbc, AddressingMode::Immediate)),
        0xED => Some((Mnemonic::Sbc, AddressingMode::Absolute)),
        0xFD => Some((Mnemonic::Sbc, AddressingMode::AbsoluteX)),
        0xF9 => Some((Mnemonic::Sbc, AddressingMode::AbsoluteY)),
        0xE5 => Some((Mnemonic::Sbc, AddressingMode::ZeroPage)),
        0xF5 => Some((Mnemonic::Sbc, AddressingMode::ZeroPageX)),
        0xE1 => Some((Mnemonic::Sbc, AddressingMode::ZeroPageXIndirect)),
        0xF1 => Some((Mnemonic::Sbc, AddressingMode::ZeroPageIndirectY)),
        0xC9 => Some((Mnemonic::Cmp, AddressingMode::Immediate)),
        0xCD => Some((Mnemonic::Cmp, AddressingMode::Absolute)),
        0xDD => Some((Mnemonic::Cmp, AddressingMode::AbsoluteX)),
        0xD9 => Some((Mnemonic::Cmp, AddressingMode::AbsoluteY)),
        0xC5 => Some((Mnemonic::Cmp, AddressingMode::ZeroPage)),
        0xD5 => Some((Mnemonic::Cmp, AddressingMode::ZeroPageX)),
        0xC1 => Some((Mnemonic::Cmp, AddressingMode::ZeroPageXIndirect)),
        0xD1 => Some((Mnemonic::Cmp, AddressingMode::ZeroPageIndirectY)),
        0xE0 => Some((Mnemonic::Cpx, AddressingMode::Immediate)),
        0xEC => Some((Mnemonic::Cpx, AddressingMode::Absolute)),
        0xE4 => Some((Mnemonic::Cpx, AddressingMode::ZeroPage)),
        0xC0 => Some((Mnemonic::Cpy, AddressingMode::Immediate)),
        0xCC => Some((Mnemonic::Cpy, AddressingMode::Absolute)),
        0xC4 => Some((Mnemonic::Cpy, AddressingMode::ZeroPage)),
        0xCE => Some((Mnemonic::Dec, AddressingMode::Absolute)),
        0xDE => Some((Mnemonic::Dec, AddressingMode::AbsoluteX)),
        0xC6 => Some((Mnemonic::Dec, AddressingMode::ZeroPage)),
        0xD6 => Some((Mnemonic::Dec, AddressingMode::ZeroPageX)),
        0xCA => Some((Mnemonic::Dex, AddressingMode::Implied)),
        0x88 => Some((Mnemonic::Dey, AddressingMode::Implied)),
        0x18 => Some((Mnemonic::Clc, AddressingMode::Implied)),
        0xD8 => Some((Mnemonic::Cld, AddressingMode::Implied)),
        0x58 => Some((Mnemonic::Cli, AddressingMode::Implied)),
        0xB8 => Some((Mnemonic::Clv, AddressingMode::Implied)),
        0x38 => Some((Mnemonic::Sec, AddressingMode::Implied)),
        0xF8 => Some((Mnemonic::Sed, AddressingMode::Implied)),
        0x78 => Some((Mnemonic::Sei, AddressingMode::Implied)),
        0xAA => Some((Mnemonic::Tax, AddressingMode::Implied)),
        0xA8 => Some((Mnemonic::Tay, AddressingMode::Implied)),
        0xBA => Some((Mnemonic::Tsx, AddressingMode::Implied)),
        0x8A => Some((Mnemonic::Txa, AddressingMode::Implied)),
        0x9A => Some((Mnemonic::Txs, AddressingMode::Implied)),
        0x98 => Some((Mnemonic::Tya, AddressingMode::Implied)),
        0x48 => Some((Mnemonic::Pha, AddressingMode::Implied)),
        0x08 => Some((Mnemonic::Php, AddressingMode::Implied)),
        0x68 => Some((Mnemonic::Pla, AddressingMode::Implied)),
        0x28 => Some((Mnemonic::Plp, AddressingMode::Implied)),
        0x00 => Some((Mnemonic::Brk, AddressingMode::Implied)),
        0x4C => Some((Mnemonic::Jmp, AddressingMode::Absolute)),
        0x6C => Some((Mnemonic::Jmp, AddressingMode::AbsoluteIndirect)),
        0x20 => Some((Mnemonic::Jsr, AddressingMode::Absolute)),
        0x40 => Some((Mnemonic::Rti, AddressingMode::Implied)),
        0x60 => Some((Mnemonic::Rts, AddressingMode::Implied)),
        0x90 => Some((Mnemonic::Bcc, AddressingMode::Relative)),
        0xB0 => Some((Mnemonic::Bcs, AddressingMode::Relative)),
        0xF0 => Some((Mnemonic::Beq, AddressingMode::Relative)),
        0x30 => Some((Mnemonic::Bmi, AddressingMode::Relative)),
        0xD0 => Some((Mnemonic::Bne, AddressingMode::Relative)),
        0x10 => Some((Mnemonic::Bpl, AddressingMode::Relative)),
        0x50 => Some((Mnemonic::Bvc, AddressingMode::Relative)),
        0x70 => Some((Mnemonic::Bvs, AddressingMode::Relative)),
        0x0A => Some((Mnemonic::Asl, AddressingMode::Accumulator)),
        0x0E => Some((Mnemonic::Asl, AddressingMode::Absolute)),
        0x1E => Some((Mnemonic::Asl, AddressingMode::AbsoluteX)),
        0x06 => Some((Mnemonic::Asl, AddressingMode::ZeroPage)),
        0x16 => Some((Mnemonic::Asl, AddressingMode::ZeroPageX)),
        0x4A => Some((Mnemonic::Lsr, AddressingMode::Accumulator)),
        0x4E => Some((Mnemonic::Lsr, AddressingMode::Absolute)),
        0x5E => Some((Mnemonic::Lsr, AddressingMode::AbsoluteX)),
        0x46 => Some((Mnemonic::Lsr, AddressingMode::ZeroPage)),
        0x56 => Some((Mnemonic::Lsr, AddressingMode::ZeroPageX)),
        0x2A => Some((Mnemonic::Rol, AddressingMode::Accumulator)),
        0x2E => Some((Mnemonic::Rol, AddressingMode::Absolute)),
        0x3E => Some((Mnemonic::Rol, AddressingMode::AbsoluteX)),
        0x26 => Some((Mnemonic::Rol, AddressingMode::ZeroPage)),
        0x36 => Some((Mnemonic::Rol, AddressingMode::ZeroPageX)),
        0x6A => Some((Mnemonic::Ror, AddressingMode::Accumulator)),
        0x6E => Some((Mnemonic::Ror, AddressingMode::Absolute)),
        0x7E => Some((Mnemonic::Ror, AddressingMode::AbsoluteX)),
        0x66 => Some((Mnemonic::Ror, AddressingMode::ZeroPage)),
        0x76 => Some((Mnemonic::Ror, AddressingMode::ZeroPageX)),
        0x29 => Some((Mnemonic::And, AddressingMode::Immediate)),
        0x2D => Some((Mnemonic::And, AddressingMode::Absolute)),
        0x3D => Some((Mnemonic::And, AddressingMode::AbsoluteX)),
        0x39 => Some((Mnemonic::And, AddressingMode::AbsoluteY)),
        0x25 => Some((Mnemonic::And, AddressingMode::ZeroPage)),
        0x35 => Some((Mnemonic::And, AddressingMode::ZeroPageX)),
        0x21 => Some((Mnemonic::And, AddressingMode::ZeroPageXIndirect)),
        0x31 => Some((Mnemonic::And, AddressingMode::ZeroPageIndirectY)),
        0x2C => Some((Mnemonic::Bit, AddressingMode::Absolute)),
        0x24 => Some((Mnemonic::Bit, AddressingMode::ZeroPage)),
        0x49 => Some((Mnemonic::Eor, AddressingMode::Immediate)),
        0x4D => Some((Mnemonic::Eor, AddressingMode::Absolute)),
        0x5D => Some((Mnemonic::Eor, AddressingMode::AbsoluteX)),
        0x59 => Some((Mnemonic::Eor, AddressingMode::AbsoluteY)),
        0x45 => Some((Mnemonic::Eor, AddressingMode::ZeroPage)),
        0x55 => Some((Mnemonic::Eor, AddressingMode::ZeroPageX)),
        0x41 => Some((Mnemonic::Eor, AddressingMode::ZeroPageXIndirect)),
        0x51 => Some((Mnemonic::Eor, AddressingMode::ZeroPageIndirectY)),
        0x09 => Some((Mnemonic::Ora, AddressingMode::Immediate)),
        0x0D => Some((Mnemonic::Ora, AddressingMode::Absolute)),
        0x1D => Some((Mnemonic::Ora, AddressingMode::AbsoluteX)),
        0x19 => Some((Mnemonic::Ora, AddressingMode::AbsoluteY)),
        0x05 => Some((Mnemonic::Ora, AddressingMode::ZeroPage)),
        0x15 => Some((Mnemonic::Ora, AddressingMode::ZeroPageX)),
        0x01 => Some((Mnemonic::Ora, AddressingMode::ZeroPageXIndirect)),
        0x11 => Some((Mnemonic::Ora, AddressingMode::ZeroPageIndirectY)),
        0xEA => Some((Mnemonic::Nop, AddressingMode::Implied)),
        _ => None,
    }
}

/// Looks `op` up in the decode table.
pub fn decode(op: u8) -> (r: Option<(Mnemonic, AddressingMode)>)
    ensures
        r == decode_spec(op),
{
    match op {
        LDA_A9 => Some((Mnemonic::Lda, AddressingMode::Immediate)),
        LDA_AD => Some((Mnemonic::Lda, AddressingMode::Absolute)),
        LDA_BD => Some((Mnemonic::Lda, AddressingMode::AbsoluteX)),
        LDA_B9 => Some((Mnemonic::Lda, AddressingMode::AbsoluteY)),
        LDA_A5 => Some((Mnemonic::Lda, AddressingMode::ZeroPage)),
        LDA_B5 => Some((Mnemonic::Lda, AddressingMode::ZeroPageX)),
        LDA_A1 => Some((Mnemonic::Lda, AddressingMode::ZeroPageXIndirect)),
        LDA_B1 => Some((Mnemonic::Lda, AddressingMode::ZeroPageIndirectY)),
        LDX_A2 => Some((Mnemonic::Ldx, AddressingMode::Immediate)),
        LDX_AE => Some((Mnemonic::Ldx, AddressingMode::Absolute)),
        LDX_BE => Some((Mnemonic::Ldx, AddressingMode::AbsoluteY)),
        LDX_A6 => Some((Mnemonic::Ldx, AddressingMode::ZeroPage)),
        LDX_B6 => Some((Mnemonic::Ldx, AddressingMode::ZeroPageY)),
        LDY_A0 => Some((Mnemonic::Ldy, AddressingMode::Immediate)),
        LDY_AC => Some((Mnemonic::Ldy, AddressingMode::Absolute)),
        LDY_BC => Some((Mnemonic::Ldy, AddressingMode::AbsoluteX)),
        LDY_A4 => Some((Mnemonic::Ldy, AddressingMode::ZeroPage)),
        LDY_B4 => Some((Mnemonic::Ldy, AddressingMode::ZeroPageX)),
        STA_8D => Some((Mnemonic::Sta, AddressingMode::Absolute)),
        STA_9D => Some((Mnemonic::Sta, AddressingMode::AbsoluteX)),
        STA_99 => Some((Mnemonic::Sta, AddressingMode::AbsoluteY)),
        STA_85 => Some((Mnemonic::Sta, AddressingMode::ZeroPage)),
        STA_95 => Some((Mnemonic::Sta, AddressingMode::ZeroPageX)),
        STA_81 => Some((Mnemonic::Sta, AddressingMode::ZeroPageXIndirect)),
        STA_91 => Some((Mnemonic::Sta, AddressingMode::ZeroPageIndirectY)),
        STX_8E => Some((Mnemonic::Stx, AddressingMode::Absolute)),
        STX_86 => Some((Mnemonic::Stx, AddressingMode::ZeroPage)),
        STX_96 => Some((Mnemonic::Stx, AddressingMode::ZeroPageY)),
        STY_8C => Some((Mnemonic::Sty, AddressingMode::Absolute)),
        STY_84 => Some((Mnemonic::Sty, AddressingMode::ZeroPage)),
        STY_94 => Some((Mnemonic::Sty, AddressingMode::ZeroPageX)),
        INC_EE => Some((Mnemonic::Inc, AddressingMode::Absolute)),
        INC_FE => Some((Mnemonic::Inc, AddressingMode::AbsoluteX)),
        INC_E6 => Some((Mnemonic::Inc, AddressingMode::ZeroPage)),
        INC_F6 => Some((Mnemonic::Inc, AddressingMode::ZeroPageX)),
        INX_E8 => Some((Mnemonic::Inx, AddressingMode::Implied)),
        INY_C8 => Some((Mnemonic::Iny, AddressingMode::Implied)),
        ADC_69 => Some((Mnemonic::Adc, AddressingMode::Immediate)),
        ADC_6D => Some((Mnemonic::Adc, AddressingMode::Absolute)),
        ADC_7D => Some((Mnemonic::Adc, AddressingMode::AbsoluteX)),
        ADC_79 => Some((Mnemonic::Adc, AddressingMode::AbsoluteY)),
        ADC_65 => Some((Mnemonic::Adc, AddressingMode::ZeroPage)),
        ADC_75 => Some((Mnemonic::Adc, AddressingMode::ZeroPageX)),
        ADC_61 => Some((Mnemonic::Adc, AddressingMode::ZeroPageXIndirect)),
        ADC_71 => Some((Mnemonic::Adc, AddressingMode::ZeroPageIndirectY)),
        SBC_E9 => Some((Mnemonic::Sbc, AddressingMode::Immediate)),
        SBC_ED => Some((Mnemonic::Sbc, AddressingMode::Absolute)),
        SBC_FD => Some((Mnemonic::Sbc, AddressingMode::AbsoluteX)),
        SBC_F9 => Some((Mnemonic::Sbc, AddressingMode::AbsoluteY)),
        SBC_E5 => Some((Mnemonic::Sbc, AddressingMode::ZeroPage)),
        SBC_F5 => Some((Mnemonic::Sbc, AddressingMode::ZeroPageX)),
        SBC_E1 => Some((Mnemonic::Sbc, AddressingMode::ZeroPageXIndirect)),
        SBC_F1 => Some((Mnemonic::Sbc, AddressingMode::ZeroPageIndirectY)),
        CMP_C9 => Some((Mnemonic::Cmp, AddressingMode::Immediate)),
        CMP_CD => Some((Mnemonic::Cmp, AddressingMode::Absolute)),
        CMP_DD => Some((Mnemonic::Cmp, AddressingMode::AbsoluteX)),
        CMP_D9 => Some((Mnemonic::Cmp, AddressingMode::AbsoluteY)),
        CMP_C5 => Some((Mnemonic::Cmp, AddressingMode::ZeroPage)),
        CMP_D5 => Some((Mnemonic::Cmp, AddressingMode::ZeroPageX)),
        CMP_C1 => Some((Mnemonic::Cmp, AddressingMode::ZeroPageXIndirect)),
        CMP_D1 => Some((Mnemonic::Cmp, AddressingMode::ZeroPageIndirectY)),
        CPX_E0 => Some((Mnemonic::Cpx, AddressingMode::Immediate)),
        CPX_EC => Some((Mnemonic::Cpx, AddressingMode::Absolute)),
        CPX_E4 => Some((Mnemonic::Cpx, AddressingMode::ZeroPage)),
        CPY_C0 => Some((Mnemonic::Cpy, AddressingMode::Immediate)),
        CPY_CC => Some((Mnemonic::Cpy, AddressingMode::Absolute)),
        CPY_C4 => Some((Mnemonic::Cpy, AddressingMode::ZeroPage)),
        DEC_CE => Some((Mnemonic::Dec, AddressingMode::Absolute)),
        DEC_DE => Some((Mnemonic::Dec, AddressingMode::AbsoluteX)),
        DEC_C6 => Some((Mnemonic::Dec, AddressingMode::ZeroPage)),
        DEC_D6 => Some((Mnemonic::Dec, AddressingMode::ZeroPageX)),
        DEX_CA => Some((Mnemonic::Dex, AddressingMode::Implied)),
        DEY_88 => Some((Mnemonic::Dey, AddressingMode::Implied)),
        CLC_18 => Some((Mnemonic::Clc, AddressingMode::Implied)),
        CLD_D8 => Some((Mnemonic::Cld, AddressingMode::Implied)),
        CLI_58 => Some((Mnemonic::Cli, AddressingMode::Implied)),
        CLV_B8 => Some((Mnemonic::Clv, AddressingMode::Implied)),
        SEC_38 => Some((Mnemonic::Sec, AddressingMode::Implied)),
        SED_F8 => Some((Mnemonic::Sed, AddressingMode::Implied)),
        SEI_78 => Some((Mnemonic::Sei, AddressingMode::Implied)),
        TAX_AA => Some((Mnemonic::Tax, AddressingMode::Implied)),
        TAY_A8 => Some((Mnemonic::Tay, AddressingMode::Implied)),
        TSX_BA => Some((Mnemonic::Tsx, AddressingMode::Implied)),
        TXA_8A => Some((Mnemonic::Txa, AddressingMode::Implied)),
        TXS_9A => Some((Mnemonic::Txs, AddressingMode::Implied)),
        TYA_98 => Some((Mnemonic::Tya, AddressingMode::Implied)),
        PHA_48 => Some((Mnemonic::Pha, AddressingMode::Implied)),
        PHP_08 => Some((Mnemonic::Php, AddressingMode::Implied)),
        PLA_68 => Some((Mnemonic::Pla, AddressingMode::Implied)),
        PLP_28 => Some((Mnemonic::Plp, AddressingMode::Implied)),
        BRK_00 => Some((Mnemonic::Brk, AddressingMode::Implied)),
        JMP_4C => Some((Mnemonic::Jmp, AddressingMode::Absolute)),
        JMP_6C => Some((Mnemonic::Jmp, AddressingMode::AbsoluteIndirect)),
        JSR_20 => Some((Mnemonic::Jsr, AddressingMode::Absolute)),
        RTI_40 => Some((Mnemonic::Rti, AddressingMode::Implied)),
        RTS_60 => Some((Mnemonic::Rts, AddressingMode::Implied)),
        BCC_90 => Some((Mnemonic::Bcc, AddressingMode::Relative)),
        BCS_B0 => Some((Mnemonic::Bcs, AddressingMode::Relative)),
        BEQ_F0 => Some((Mnemonic::Beq, AddressingMode::Relative)),
        BMI_30 => Some((Mnemonic::Bmi, AddressingMode::Relative)),
        BNE_D0 => Some((Mnemonic::Bne, AddressingMode::Relative)),
        BPL_10 => Some((Mnemonic::Bpl, AddressingMode::Relative)),
        BVC_50 => Some((Mnemonic::Bvc, AddressingMode::Relative)),
        BVS_70 => Some((Mnemonic::Bvs, AddressingMode::Relative)),
        ASL_0A => Some((Mnemonic::Asl, AddressingMode::Accumulator)),
        ASL_0E => Some((Mnemonic::Asl, AddressingMode::Absolute)),
        ASL_1E => Some((Mnemonic::Asl, AddressingMode::AbsoluteX)),
        ASL_06 => Some((Mnemonic::Asl, AddressingMode::ZeroPage)),
        ASL_16 => Some((Mnemonic::Asl, AddressingMode::ZeroPageX)),
        LSR_4A => Some((Mnemonic::Lsr, AddressingMode::Accumulator)),
        LSR_4E => Some((Mnemonic::Lsr, AddressingMode::Absolute)),
        LSR_5E => Some((Mnemonic::Lsr, AddressingMode::AbsoluteX)),
        LSR_46 => Some((Mnemonic::Lsr, AddressingMode::ZeroPage)),
        LSR_56 => Some((Mnemonic::Lsr, AddressingMode::ZeroPageX)),
        ROL_2A => Some((Mnemonic::Rol, AddressingMode::Accumulator)),
        ROL_2E => Some((Mnemonic::Rol, AddressingMode::Absolute)),
        ROL_3E => Some((Mnemonic::Rol, AddressingMode::AbsoluteX)),
        ROL_26 => Some((Mnemonic::Rol, AddressingMode::ZeroPage)),
        ROL_36 => Some((Mnemonic::Rol, AddressingMode::ZeroPageX)),
        ROR_6A => Some((Mnemonic::Ror, AddressingMode::Accumulator)),
        ROR_6E => Some((Mnemonic::Ror, AddressingMode::Absolute)),
        ROR_7E => Some((Mnemonic::Ror, AddressingMode::AbsoluteX)),
        ROR_66 => Some((Mnemonic::Ror, AddressingMode::ZeroPage)),
        ROR_76 => Some((Mnemonic::Ror, AddressingMode::ZeroPageX)),
        AND_29 => Some((Mnemonic::And, AddressingMode::Immediate)),
        AND_2D => Some((Mnemonic::And, AddressingMode::Absolute)),
        AND_3D => Some((Mnemonic::And, AddressingMode::AbsoluteX)),
        AND_39 => Some((Mnemonic::And, AddressingMode::AbsoluteY)),
        AND_25 => Some((Mnemonic::And, AddressingMode::ZeroPage)),
        AND_35 => Some((Mnemonic::And, AddressingMode::ZeroPageX)),
        AND_21 => Some((Mnemonic::And, AddressingMode::ZeroPageXIndirect)),
        AND_31 => Some((Mnemonic::And, AddressingMode::ZeroPageIndirectY)),
        BIT_2C => Some((Mnemonic::Bit, AddressingMode::Absolute)),
        BIT_24 => Some((Mnemonic::Bit, AddressingMode::ZeroPage)),
        EOR_49 => Some((Mnemonic::Eor, AddressingMode::Immediate)),
        EOR_4D => Some((Mnemonic::Eor, AddressingMode::Absolute)),
        EOR_5D => Some((Mnemonic::Eor, AddressingMode::AbsoluteX)),
        EOR_59 => Some((Mnemonic::Eor, AddressingMode::AbsoluteY)),
        EOR_45 => Some((Mnemonic::Eor, AddressingMode::ZeroPage)),
        EOR_55 => Some((Mnemonic::Eor, AddressingMode::ZeroPageX)),
        EOR_41 => Some((Mnemonic::Eor, AddressingMode::ZeroPageXIndirect)),
        EOR_51 => Some((Mnemonic::Eor, AddressingMode::ZeroPageIndirectY)),
        ORA_09 => Some((Mnemonic::Ora, AddressingMode::Immediate)),
        ORA_0D => Some((Mnemonic::Ora, AddressingMode::Absolute)),
        ORA_1D => Some((Mnemonic::Ora, AddressingMode::AbsoluteX)),
        ORA_19 => Some((Mnemonic::Ora, AddressingMode::AbsoluteY)),
        ORA_05 => Some((Mnemonic::Ora, AddressingMode::ZeroPage)),
        ORA_15 => Some((Mnemonic::Ora, AddressingMode::ZeroPageX)),
        ORA_01 => Some((Mnemonic::Ora, AddressingMode::ZeroPageXIndirect)),
        ORA_11 => Some((Mnemonic::Ora, AddressingMode::ZeroPageIndirectY)),
        NOP_EA => Some((Mnemonic::Nop, AddressingMode::Implied)),
        _ => None,
    }
}

} // verus!
