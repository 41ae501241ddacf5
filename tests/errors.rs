//! Failures: unknown opcodes, BRK, decimal-mode arithmetic, and modes a handler refuses.

use mos6502::cpu::{AddressingMode, Cpu, CpuError};
use mos6502::instructions::{adc, brk, jsr, lda, nop, sbc, sta, txs};

#[test]
fn unknown_opcode_fails_and_leaves_state() {
    let mut cpu = Cpu::new();
    cpu.patch_memory(0, &[0x02]);
    cpu.a = 9;
    assert_eq!(cpu.step(), Err(CpuError::UnknownOpcode(0x02)));
    assert_eq!(cpu.pc, 0);
    assert_eq!(cpu.a, 9);
}

#[test]
fn brk_is_unsupported() {
    let mut cpu = Cpu::new();
    assert_eq!(cpu.step(), Err(CpuError::UnsupportedInstruction));
    assert_eq!(cpu.pc, 0);
    assert_eq!(brk(&mut cpu, AddressingMode::Implied), Err(CpuError::UnsupportedInstruction));
}

#[test]
fn decimal_mode_arithmetic_fails() {
    let mut cpu = Cpu::new();
    cpu.patch_memory(0, &[0xF8, 0x69, 0x01, 0xE9, 0x01]);
    cpu.step().unwrap(); // SED
    assert_eq!(cpu.step(), Err(CpuError::DecimalModeNotSupported));
    assert_eq!(cpu.pc, 1);
    assert_eq!(cpu.a, 0);
    cpu.pc = 3;
    assert_eq!(cpu.step(), Err(CpuError::DecimalModeNotSupported));
    assert_eq!(cpu.pc, 3);
}

#[test]
fn decimal_mode_handlers_fail_directly() {
    let mut cpu = Cpu::new();
    cpu.update_decimal(true);
    assert_eq!(adc(&mut cpu, AddressingMode::Immediate), Err(CpuError::DecimalModeNotSupported));
    assert_eq!(sbc(&mut cpu, AddressingMode::Immediate), Err(CpuError::DecimalModeNotSupported));
    // The decimal check comes before the mode check.
    assert_eq!(adc(&mut cpu, AddressingMode::Implied), Err(CpuError::DecimalModeNotSupported));
    assert_eq!(sbc(&mut cpu, AddressingMode::Relative), Err(CpuError::DecimalModeNotSupported));
    assert_eq!(cpu.pc, 0);
    assert_eq!(cpu.a, 0);
    cpu.update_decimal(false);
    assert_eq!(adc(&mut cpu, AddressingMode::Implied), Err(CpuError::BadAddressingMode));
}

#[test]
fn handlers_refuse_foreign_modes() {
    let mut cpu = Cpu::new();
    cpu.a = 5;
    assert_eq!(lda(&mut cpu, AddressingMode::Implied), Err(CpuError::BadAddressingMode));
    assert_eq!(sta(&mut cpu, AddressingMode::Immediate), Err(CpuError::BadAddressingMode));
    assert_eq!(txs(&mut cpu, AddressingMode::Absolute), Err(CpuError::BadAddressingMode));
    assert_eq!(jsr(&mut cpu, AddressingMode::AbsoluteIndirect), Err(CpuError::BadAddressingMode));
    assert_eq!(brk(&mut cpu, AddressingMode::Immediate), Err(CpuError::BadAddressingMode));
    assert_eq!(cpu.a, 5);
    assert_eq!(cpu.pc, 0);
    assert_eq!(cpu.s, 0xff);
    assert_eq!(nop(&mut cpu, AddressingMode::Implied), Ok(()));
}
