//! The processor state: registers and the 64 KiB memory it owns.

use vstd::prelude::*;
use crate::flags::{
    flag, with_flag, with_nz, C_CARRY, D_DECIMAL, I_INTERRUPT_DISABLE, N_NEGATIVE, V_OVERFLOW,
    Z_ZERO,
};

verus! {

/// Number of addressable bytes.
pub const MEM_SZ: usize = 65536;

/// A 6502 processor together with its memory.
#[derive(Debug, PartialEq, Eq)]
pub struct Cpu {
    /// Accumulator.
    pub a: u8,
    /// Index register X.
    pub x: u8,
    /// Index register Y.
    pub y: u8,
    /// Program counter.
    pub pc: u16,
    /// Stack pointer; the stack lives at `0x0100 + s`.
    pub s: u8,
    /// Status byte (see `flags`).
    pub p: u8,
    /// The whole address space, `0x0000..=0xFFFF`.
    pub memory: [u8; MEM_SZ],
}

/// The mathematical picture of a `Cpu`: its registers and its memory as a sequence.
#[verifier::ext_equal]
pub struct CpuState {
    pub a: u8,
    pub x: u8,
    pub y: u8,
    pub pc: u16,
    pub s: u8,
    pub p: u8,
    pub memory: Seq<u8>,
}

impl View for Cpu {
    type V = CpuState;

    open spec fn view(&self) -> CpuState {
        CpuState {
            a: self.a,
            x: self.x,
            y: self.y,
            pc: self.pc,
            s: self.s,
            p: self.p,
            memory: self.memory@,
        }
    }
}

/// Where an instruction finds its operand.
#[derive(Debug, PartialEq, Eq, Clone, Copy, Structural)]
pub enum AddressingMode {
    Implied,
    Accumulator,
    Immediate,
    Absolute,
    AbsoluteX,
    AbsoluteY,
    AbsoluteIndirect,
    ZeroPage,
    ZeroPageX,
    ZeroPageY,
    ZeroPageXIndirect,
    ZeroPageIndirectY,
    Relative,
}

/// Why the interpreter stopped.
#[derive(Debug, PartialEq, Eq, Clone, Copy, Structural)]
pub enum CpuError {
    /// The byte at PC is not an opcode this interpreter knows.
    UnknownOpcode(u8),
    /// `BRK`: decoded, but interrupts are out of scope.
    UnsupportedInstruction,
    /// `ADC` or `SBC` while the D flag is set.
    DecimalModeNotSupported,
    /// A handler was given a mode it does not take.
    BadAddressingMode,
}

/// `v` reduced to 16 bits.
pub open spec fn wrap16(v: int) -> u16 {
    (v % 65536) as u16
}

/// `v` reduced to 8 bits.
pub open spec fn wrap8(v: int) -> u8 {
    (v % 256) as u8
}

/// The little-endian 16-bit value of the bytes `lo`, `hi`.
pub open spec fn word(lo: u8, hi: u8) -> u16 {
    (hi as int * 256 + lo as int) as u16
}

/// The address of stack slot `s`.
pub open spec fn stack_addr(s: u8) -> u16 {
    (0x100 + s as int) as u16
}

impl CpuState {
    /// The memory covers the whole 16-bit address space.
    pub open spec fn wf(self) -> bool {
        self.memory.len() == MEM_SZ
    }

    /// The byte at `addr`.
    pub open spec fn read(self, addr: u16) -> u8 {
        self.memory[addr as int]
    }

    /// The little-endian word at `addr`, `addr + 1` (16-bit wrap).
    pub open spec fn read_word(self, addr: u16) -> u16 {
        word(self.read(addr), self.read(wrap16(addr + 1)))
    }

    /// The little-endian word at `zp`, `zp + 1`, both within the zero page.
    pub open spec fn read_word_zp(self, zp: u8) -> u16 {
        word(self.read(zp as u16), self.read(wrap8(zp + 1) as u16))
    }

    /// The state with the byte at `addr` replaced by `v`.
    pub open spec fn write(self, addr: u16, v: u8) -> CpuState {
        CpuState { memory: self.memory.update(addr as int, v), ..self }
    }
}

/// Modes whose operand is a byte in memory at an effective address.
pub open spec fn is_memory_mode(mode: AddressingMode) -> bool {
    !(mode is Implied || mode is Accumulator)
}

/// The effective address of the operand of the instruction whose operand bytes start at PC.
/// For `Immediate` it is PC itself; for `Relative` it is the 16-bit branch target.
pub open spec fn effective_address(c: CpuState, mode: AddressingMode) -> u16 {
    let lo = c.read(c.pc);
    let abs = c.read_word(c.pc);
    match mode {
        AddressingMode::Immediate => c.pc,
        AddressingMode::Absolute => abs,
        AddressingMode::Relative => abs,
        AddressingMode::AbsoluteX => wrap16(abs + c.x),
        AddressingMode::AbsoluteY => wrap16(abs + c.y),
        AddressingMode::AbsoluteIndirect => c.read_word(abs),
        AddressingMode::ZeroPage => lo as u16,
        AddressingMode::ZeroPageX => wrap8(lo + c.x) as u16,
        AddressingMode::ZeroPageY => wrap8(lo + c.y) as u16,
        AddressingMode::ZeroPageXIndirect => c.read_word_zp(wrap8(lo + c.x)),
        AddressingMode::ZeroPageIndirectY => wrap16(c.read_word_zp(lo) + c.y),
        _ => 0,
    }
}

/// How many operand bytes follow the opcode in this mode.
pub open spec fn operand_bytes(mode: AddressingMode) -> u16 {
    match mode {
        AddressingMode::Implied => 0,
        AddressingMode::Accumulator => 0,
        AddressingMode::Immediate => 1,
        AddressingMode::ZeroPage => 1,
        AddressingMode::ZeroPageX => 1,
        AddressingMode::ZeroPageY => 1,
        AddressingMode::ZeroPageXIndirect => 1,
        AddressingMode::ZeroPageIndirectY => 1,
        _ => 2,
    }
}

/// Number of operand bytes that follow an opcode in `mode`; PC moves past them.
pub fn addressing_mode_pc_advance(mode: AddressingMode) -> (r: u16)
    ensures
        r == operand_bytes(mode),
{
    match mode {
        AddressingMode::Implied | AddressingMode::Accumulator => 0,
        AddressingMode::Immediate
        | AddressingMode::ZeroPage
        | AddressingMode::ZeroPageX
        | AddressingMode::ZeroPageY
        | AddressingMode::ZeroPageXIndirect
        | AddressingMode::ZeroPageIndirectY => 1,
        AddressingMode::Absolute
        | AddressingMode::AbsoluteX
        | AddressingMode::AbsoluteY
        | AddressingMode::AbsoluteIndirect
        | AddressingMode::Relative => 2,
    }
}

/// The register values a fresh or reset processor starts with, over `memory`.
pub open spec fn reset_state(memory: Seq<u8>) -> CpuState {
    CpuState { a: 0, x: 0, y: 0, pc: 0, s: 0xff, p: 0, memory }
}

impl Cpu {
    /// A processor with A = X = Y = 0, S = 0xFF, PC = 0, P = 0 and all memory zero.
    pub fn new() -> (r: Cpu)
        ensures
            r@ == reset_state(Seq::new(MEM_SZ as nat, |i: int| 0u8)),
    {
        let r = Cpu { a: 0, x: 0, y: 0, pc: 0, s: 0xff, p: 0, memory: [0u8; MEM_SZ] };
        assert(r@.memory =~= Seq::new(MEM_SZ as nat, |i: int| 0u8));
        r
    }

    /// Puts the registers back to their power-on values; memory is kept.
    pub fn reset(&mut self)
        ensures
            final(self)@ == reset_state(old(self)@.memory),
    {
        self.a = 0;
        self.x = 0;
        self.y = 0;
        self.pc = 0;
        self.s = 0xff;
        self.p = 0;
    }

    /// Copies `bytes` into memory from `offset` on.
    pub fn patch_memory(&mut self, offset: usize, bytes: &[u8])
        requires
            offset + bytes@.len() <= MEM_SZ,
        ensures
            final(self)@ == (CpuState {
                memory: old(self)@.memory.take(offset as int) + bytes@ + old(self)@.memory.skip(
                    offset + bytes@.len(),
                ),
                ..old(self)@
            }),
    {
        let mut idx: usize = 0;
        while idx < bytes.len()
            invariant
                offset + bytes@.len() <= MEM_SZ,
                idx <= bytes@.len(),
                self@ == (CpuState {
                    memory: old(self)@.memory.take(offset as int) + bytes@.take(idx as int)
                        + old(self)@.memory.skip(offset + idx),
                    ..old(self)@
                }),
            decreases bytes@.len() - idx,
        {
            self.memory[offset + idx] = bytes[idx];
            idx = idx + 1;
            assert(self@.memory =~= old(self)@.memory.take(offset as int) + bytes@.take(idx as int)
                + old(self)@.memory.skip(offset + idx));
        }
        assert(bytes@.take(idx as int) =~= bytes@);
    }

    /// Sets the program counter.
    pub fn update_pc(&mut self, new_pc: u16)
        ensures
            final(self)@ == (CpuState { pc: new_pc, ..old(self)@ }),
    {
        self.pc = new_pc;
    }

    /// The C flag.
    pub fn is_carry(&self) -> (r: bool)
        ensures
            r == flag(self.p, C_CARRY),
    {
        self.p & C_CARRY != 0
    }

    /// The D flag.
    pub fn is_decimal(&self) -> (r: bool)
        ensures
            r == flag(self.p, D_DECIMAL),
    {
        self.p & D_DECIMAL != 0
    }

    /// The I flag.
    pub fn is_interrupt_disabled(&self) -> (r: bool)
        ensures
            r == flag(self.p, I_INTERRUPT_DISABLE),
    {
        self.p & I_INTERRUPT_DISABLE != 0
    }

    /// The N flag.
    pub fn is_negative(&self) -> (r: bool)
        ensures
            r == flag(self.p, N_NEGATIVE),
    {
        self.p & N_NEGATIVE != 0
    }

    /// The V flag.
    pub fn is_overflow(&self) -> (r: bool)
        ensures
            r == flag(self.p, V_OVERFLOW),
    {
        self.p & V_OVERFLOW != 0
    }

    /// The Z flag.
    pub fn is_zero(&self) -> (r: bool)
        ensures
            r == flag(self.p, Z_ZERO),
    {
        self.p & Z_ZERO != 0
    }

    /// Writes the status bit `mask`; nothing else changes.
    fn update_flag(&mut self, mask: u8, on: bool)
        ensures
            final(self)@ == (CpuState { p: with_flag(old(self).p, mask, on), ..old(self)@ }),
    {
        if on {
            self.p = self.p | mask;
        } else {
            self.p = self.p & !mask;
        }
    }

    /// Writes N; nothing else changes.
    pub fn update_negative(&mut self, flag: bool)
        ensures
            final(self)@ == (CpuState { p: with_flag(old(self).p, N_NEGATIVE, flag), ..old(self)@ }),
    {
        self.update_flag(N_NEGATIVE, flag);
    }

    /// Writes Z; nothing else changes.
    pub fn update_zero(&mut self, flag: bool)
        ensures
            final(self)@ == (CpuState { p: with_flag(old(self).p, Z_ZERO, flag), ..old(self)@ }),
    {
        self.update_flag(Z_ZERO, flag);
    }

    /// Writes V; nothing else changes.
    pub fn update_overflow(&mut self, flag: bool)
        ensures
            final(self)@ == (CpuState { p: with_flag(old(self).p, V_OVERFLOW, flag), ..old(self)@ }),
    {
        self.update_flag(V_OVERFLOW, flag);
    }

    /// Writes C; nothing else changes.
    pub fn update_carry(&mut self, flag: bool)
        ensures
            final(self)@ == (CpuState { p: with_flag(old(self).p, C_CARRY, flag), ..old(self)@ }),
    {
        self.update_flag(C_CARRY, flag);
    }

    /// Writes D; nothing else changes.
    pub fn update_decimal(&mut self, flag: bool)
        ensures
            final(self)@ == (CpuState { p: with_flag(old(self).p, D_DECIMAL, flag), ..old(self)@ }),
    {
        self.update_flag(D_DECIMAL, flag);
    }

    /// Writes I; nothing else changes.
    pub fn update_interrupt_disable(&mut self, flag: bool)
        ensures
            final(self)@ == (CpuState {
                p: with_flag(old(self).p, I_INTERRUPT_DISABLE, flag),
                ..old(self)@
            }),
    {
        self.update_flag(I_INTERRUPT_DISABLE, flag);
    }

    /// N from bit 7 of `value`, then Z from `value == 0`.
    pub fn update_nz(&mut self, value: u8)
        ensures
            final(self)@ == (CpuState { p: with_nz(old(self).p, value), ..old(self)@ }),
    {
        self.update_negative(value & 0x80 != 0);
        self.update_zero(value == 0);
    }
    /// The byte at `addr`.
    pub fn read(&self, addr: u16) -> (r: u8)
        ensures
            r == self@.read(addr),
    {
        self.memory[addr as usize]
    }

    /// The little-endian word at `addr`, the high byte from `addr + 1` (16-bit wrap).
    fn read_word(&self, addr: u16) -> (r: u16)
        ensures
            r == self@.read_word(addr),
    {
        let lo = self.read(addr);
        let hi = self.read(addr.wrapping_add(1));
        (hi as u16) * 256 + lo as u16
    }

    /// The little-endian word at `zp`, the high byte from `zp + 1` within the zero page.
    fn read_word_zp(&self, zp: u8) -> (r: u16)
        ensures
            r == self@.read_word_zp(zp),
    {
        let lo = self.read(zp as u16);
        let hi = self.read(zp.wrapping_add(1) as u16);
        (hi as u16) * 256 + lo as u16
    }

    /// Address of an immediate operand: the operand byte itself.
    fn immediate(&self) -> (r: u16)
        ensures
            r == effective_address(self@, AddressingMode::Immediate),
    {
        self.pc
    }

    /// `$nnnn`: the word at PC.
    fn absolute(&self) -> (r: u16)
        ensures
            r == effective_address(self@, AddressingMode::Absolute),
    {
        self.read_word(self.pc)
    }

    /// `($nnnn)`: the word stored at the word at PC.
    fn absolute_indirect(&self) -> (r: u16)
        ensures
            r == effective_address(self@, AddressingMode::AbsoluteIndirect),
    {
        let addr = self.absolute();
        self.read_word(addr)
    }

    /// `$nnnn,X`: 16-bit sum of the word at PC and X.
    fn absolute_x(&self) -> (r: u16)
        ensures
            r == effective_address(self@, AddressingMode::AbsoluteX),
    {
        self.absolute().wrapping_add(self.x as u16)
    }

    /// `$nnnn,Y`: 16-bit sum of the word at PC and Y.
    fn absolute_y(&self) -> (r: u16)
        ensures
            r == effective_address(self@, AddressingMode::AbsoluteY),
    {
        self.absolute().wrapping_add(self.y as u16)
    }

    /// `$nn`: the byte at PC, in the zero page.
    fn zero_page(&self) -> (r: u16)
        ensures
            r == effective_address(self@, AddressingMode::ZeroPage),
    {
        self.read(self.pc) as u16
    }

    /// `$nn,X`: the byte at PC plus X, wrapped within the zero page.
    fn zero_page_x(&self) -> (r: u16)
        ensures
            r == effective_address(self@, AddressingMode::ZeroPageX),
    {
        self.read(self.pc).wrapping_add(self.x) as u16
    }

    /// `$nn,Y`: the byte at PC plus Y, wrapped within the zero page.
    fn zero_page_y(&self) -> (r: u16)
        ensures
            r == effective_address(self@, AddressingMode::ZeroPageY),
    {
        self.read(self.pc).wrapping_add(self.y) as u16
    }

    /// `($nn,X)`: the zero-page word at the byte at PC plus X.
    fn zero_page_x_indirect(&self) -> (r: u16)
        ensures
            r == effective_address(self@, AddressingMode::ZeroPageXIndirect),
    {
        let zp = self.read(self.pc).wrapping_add(self.x);
        self.read_word_zp(zp)
    }

    /// `($nn),Y`: the zero-page word at the byte at PC, plus Y (16-bit sum).
    fn zero_page_indirect_y(&self) -> (r: u16)
        ensures
            r == effective_address(self@, AddressingMode::ZeroPageIndirectY),
    {
        let zp = self.read(self.pc);
        self.read_word_zp(zp).wrapping_add(self.y as u16)
    }

    /// The effective address of the current operand; `Relative` gives the branch target.
    pub fn operand_address(&self, mode: AddressingMode) -> (r: u16)
        requires
            is_memory_mode(mode),
        ensures
            r == effective_address(self@, mode),
    {
        match mode {
            AddressingMode::Immediate => self.immediate(),
            AddressingMode::Absolute | AddressingMode::Relative => self.absolute(),
            AddressingMode::AbsoluteX => self.absolute_x(),
            AddressingMode::AbsoluteY => self.absolute_y(),
            AddressingMode::AbsoluteIndirect => self.absolute_indirect(),
            AddressingMode::ZeroPage => self.zero_page(),
            AddressingMode::ZeroPageX => self.zero_page_x(),
            AddressingMode::ZeroPageY => self.zero_page_y(),
            AddressingMode::ZeroPageXIndirect => self.zero_page_x_indirect(),
            AddressingMode::ZeroPageIndirectY => self.zero_page_indirect_y(),
            AddressingMode::Implied | AddressingMode::Accumulator => 0,
        }
    }

    /// Branch target: the 16-bit word at PC.
    pub fn set_pc_to_current_addr_in_memory(&mut self)
        ensures
            final(self)@ == (CpuState {
                pc: effective_address(old(self)@, AddressingMode::Relative),
                ..old(self)@
            }),
    {
        self.pc = self.absolute();
    }
}

} // verus!
