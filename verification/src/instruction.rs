//! The opcode table: which operation and which addressing mode each opcode
//! byte stands for.
//!
//! The table holds the 151 documented opcodes. The other 105 byte values have
//! no entry; the processor faults on them.

use crate::addressing::{AddressingMode, Operand};
use crate::status::Flag;
use vstd::prelude::*;

verus! {

/// The operations of the processor.
#[derive(Clone, Copy, Debug, PartialEq, Eq, Structural)]
pub enum Mnemonic {
    /// Add the operand and the carry to the accumulator.
    Adc,
    /// Bitwise AND of the accumulator and the operand.
    And,
    /// Shift the operand one bit to the left.
    Asl,
    /// Branch if Carry is clear.
    Bcc,
    /// Branch if Carry is set.
    Bcs,
    /// Branch if Zero is set.
    Beq,
    /// Test the operand's bits against the accumulator.
    Bit,
    /// Branch if Negative is set.
    Bmi,
    /// Branch if Zero is clear.
    Bne,
    /// Branch if Negative is clear.
    Bpl,
    /// Halt.
    Brk,
    /// Branch if Overflow is clear.
    Bvc,
    /// Branch if Overflow is set.
    Bvs,
    /// Clear Carry.
    Clc,
    /// Clear Decimal.
    Cld,
    /// Clear Interrupt-Disable.
    Cli,
    /// Clear Overflow.
    Clv,
    /// Compare the accumulator with the operand.
    Cmp,
    /// Compare X with the operand.
    Cpx,
    /// Compare Y with the operand.
    Cpy,
    /// Decrement the operand in memory.
    Dec,
    /// Decrement X.
    Dex,
    /// Decrement Y.
    Dey,
    /// Bitwise exclusive OR of the accumulator and the operand.
    Eor,
    /// Increment the operand in memory.
    Inc,
    /// Increment X.
    Inx,
    /// Increment Y.
    Iny,
    /// Jump.
    Jmp,
    /// Jump to a subroutine.
    Jsr,
    /// Load the accumulator.
    Lda,
    /// Load X.
    Ldx,
    /// Load Y.
    Ldy,
    /// Shift the operand one bit to the right.
    Lsr,
    /// Do nothing.
    Nop,
    /// Bitwise OR of the accumulator and the operand.
    Ora,
    /// Push the accumulator.
    Pha,
    /// Push the status register.
    Php,
    /// Pull the accumulator.
    Pla,
    /// Pull the status register.
    Plp,
    /// Rotate the operand one bit to the left through Carry.
    Rol,
    /// Rotate the operand one bit to the right through Carry.
    Ror,
    /// Return from an interrupt handler.
    Rti,
    /// Return from a subroutine.
    Rts,
    /// Subtract the operand and the borrow from the accumulator.
    Sbc,
    /// Set Carry.
    Sec,
    /// Set Decimal.
    Sed,
    /// Set Interrupt-Disable.
    Sei,
    /// Store the accumulator.
    Sta,
    /// Store X.
    Stx,
    /// Store Y.
    Sty,
    /// Copy the accumulator to X.
    Tax,
    /// Copy the accumulator to Y.
    Tay,
    /// Copy the stack pointer to X.
    Tsx,
    /// Copy X to the accumulator.
    Txa,
    /// Copy X to the stack pointer.
    Txs,
    /// Copy Y to the accumulator.
    Tya,
}

/// One entry of the opcode table.
#[derive(Clone, Copy, Debug, PartialEq, Eq, Structural)]
pub struct Instruction {
    pub mnemonic: Mnemonic,
    pub mode: AddressingMode,
}

/// The entry for `mnemonic` in `mode`.
pub open spec fn entry(mnemonic: Mnemonic, mode: AddressingMode) -> Option<Instruction> {
    Some(Instruction { mnemonic, mode })
}

/// The opcode table.
#[verifier::opaque]
pub open spec fn instruction_at(opcode: u8) -> Option<Instruction> {
    match opcode {
        0x00 => entry(Mnemonic::Brk, AddressingMode::Implied),
        0x01 => entry(Mnemonic::Ora, AddressingMode::IndirectX),
        0x05 => entry(Mnemonic::Ora, AddressingMode::ZeroPage),
        0x06 => entry(Mnemonic::Asl, AddressingMode::ZeroPage),
        0x08 => entry(Mnemonic::Php, AddressingMode::Implied),
        0x09 => entry(Mnemonic::Ora, AddressingMode::Immediate),
        0x0A => entry(Mnemonic::Asl, AddressingMode::Accumulator),
        0x0D => entry(Mnemonic::Ora, AddressingMode::Absolute),
        0x0E => entry(Mnemonic::Asl, AddressingMode::Absolute),
        0x10 => entry(Mnemonic::Bpl, AddressingMode::Relative),
        0x11 => entry(Mnemonic::Ora, AddressingMode::IndirectY),
        0x15 => entry(Mnemonic::Ora, AddressingMode::ZeroPageX),
        0x16 => entry(Mnemonic::Asl, AddressingMode::ZeroPageX),
        0x18 => entry(Mnemonic::Clc, AddressingMode::Implied),
        0x19 => entry(Mnemonic::Ora, AddressingMode::AbsoluteY),
        0x1D => entry(Mnemonic::Ora, AddressingMode::AbsoluteX),
        0x1E => entry(Mnemonic::Asl, AddressingMode::AbsoluteX),
        0x20 => entry(Mnemonic::Jsr, AddressingMode::Absolute),
        0x21 => entry(Mnemonic::And, AddressingMode::IndirectX),
        0x24 => entry(Mnemonic::Bit, AddressingMode::ZeroPage),
        0x25 => entry(Mnemonic::And, AddressingMode::ZeroPage),
        0x26 => entry(Mnemonic::Rol, AddressingMode::ZeroPage),
        0x28 => entry(Mnemonic::Plp, AddressingMode::Implied),
        0x29 => entry(Mnemonic::And, AddressingMode::Immediate),
        0x2A => entry(Mnemonic::Rol, AddressingMode::Accumulator),
        0x2C => entry(Mnemonic::Bit, AddressingMode::Absolute),
        0x2D => entry(Mnemonic::And, AddressingMode::Absolute),
        0x2E => entry(Mnemonic::Rol, AddressingMode::Absolute),
        0x30 => entry(Mnemonic::Bmi, AddressingMode::Relative),
        0x31 => entry(Mnemonic::And, AddressingMode::IndirectY),
        0x35 => entry(Mnemonic::And, AddressingMode::ZeroPageX),
        0x36 => entry(Mnemonic::Rol, AddressingMode::ZeroPageX),
        0x38 => entry(Mnemonic::Sec, AddressingMode::Implied),
        0x39 => entry(Mnemonic::And, AddressingMode::AbsoluteY),
        0x3D => entry(Mnemonic::And, AddressingMode::AbsoluteX),
        0x3E => entry(Mnemonic::Rol, AddressingMode::AbsoluteX),
        0x40 => entry(Mnemonic::Rti, AddressingMode::Implied),
        0x41 => entry(Mnemonic::Eor, AddressingMode::IndirectX),
        0x45 => entry(Mnemonic::Eor, AddressingMode::ZeroPage),
        0x46 => entry(Mnemonic::Lsr, AddressingMode::ZeroPage),
        0x48 => entry(Mnemonic::Pha, AddressingMode::Implied),
        0x49 => entry(Mnemonic::Eor, AddressingMode::Immediate),
        0x4A => entry(Mnemonic::Lsr, AddressingMode::Accumulator),
        0x4C => entry(Mnemonic::Jmp, AddressingMode::Absolute),
        0x4D => entry(Mnemonic::Eor, AddressingMode::Absolute),
        0x4E => entry(Mnemonic::Lsr, AddressingMode::Absolute),
        0x50 => entry(Mnemonic::Bvc, AddressingMode::Relative),
        0x51 => entry(Mnemonic::Eor, AddressingMode::IndirectY),
        0x55 => entry(Mnemonic::Eor, AddressingMode::ZeroPageX),
        0x56 => entry(Mnemonic::Lsr, AddressingMode::ZeroPageX),
        0x58 => entry(Mnemonic::Cli, AddressingMode::Implied),
        0x59 => entry(Mnemonic::Eor, AddressingMode::AbsoluteY),
        0x5D => entry(Mnemonic::Eor, AddressingMode::AbsoluteX),
        0x5E => entry(Mnemonic::Lsr, AddressingMode::AbsoluteX),
        0x60 => entry(Mnemonic::Rts, AddressingMode::Implied),
        0x61 => entry(Mnemonic::Adc, AddressingMode::IndirectX),
        0x65 => entry(Mnemonic::Adc, AddressingMode::ZeroPage),
        0x66 => entry(Mnemonic::Ror, AddressingMode::ZeroPage),
        0x68 => entry(Mnemonic::Pla, AddressingMode::Implied),
        0x69 => entry(Mnemonic::Adc, AddressingMode::Immediate),
        0x6A => entry(Mnemonic::Ror, AddressingMode::Accumulator),
        0x6C => entry(Mnemonic::Jmp, AddressingMode::Indirect),
        0x6D => entry(Mnemonic::Adc, AddressingMode::Absolute),
        0x6E => entry(Mnemonic::Ror, AddressingMode::Absolute),
        0x70 => entry(Mnemonic::Bvs, AddressingMode::Relative),
        0x71 => entry(Mnemonic::Adc, AddressingMode::IndirectY),
        0x75 => entry(Mnemonic::Adc, AddressingMode::ZeroPageX),
        0x76 => entry(Mnemonic::Ror, AddressingMode::ZeroPageX),
        0x78 => entry(Mnemonic::Sei, AddressingMode::Implied),
        0x79 => entry(Mnemonic::Adc, AddressingMode::AbsoluteY),
        0x7D => entry(Mnemonic::Adc, AddressingMode::AbsoluteX),
        0x7E => entry(Mnemonic::Ror, AddressingMode::AbsoluteX),
        0x81 => entry(Mnemonic::Sta, AddressingMode::IndirectX),
        0x84 => entry(Mnemonic::Sty, AddressingMode::ZeroPage),
        0x85 => entry(Mnemonic::Sta, AddressingMode::ZeroPage),
        0x86 => entry(Mnemonic::Stx, AddressingMode::ZeroPage),
        0x88 => entry(Mnemonic::Dey, AddressingMode::Implied),
        0x8A => entry(Mnemonic::Txa, AddressingMode::Implied),
        0x8C => entry(Mnemonic::Sty, AddressingMode::Absolute),
        0x8D => entry(Mnemonic::Sta, AddressingMode::Absolute),
        0x8E => entry(Mnemonic::Stx, AddressingMode::Absolute),
        0x90 => entry(Mnemonic::Bcc, AddressingMode::Relative),
        0x91 => entry(Mnemonic::Sta, AddressingMode::IndirectY),
        0x94 => entry(Mnemonic::Sty, AddressingMode::ZeroPageX),
        0x95 => entry(Mnemonic::Sta, AddressingMode::ZeroPageX),
        0x96 => entry(Mnemonic::Stx, AddressingMode::ZeroPageY),
        0x98 => entry(Mnemonic::Tya, AddressingMode::Implied),
        0x99 => entry(Mnemonic::Sta, AddressingMode::AbsoluteY),
        0x9A => entry(Mnemonic::Txs, AddressingMode::Implied),
        0x9D => entry(Mnemonic::Sta, AddressingMode::AbsoluteX),
        0xA0 => entry(Mnemonic::Ldy, AddressingMode::Immediate),
        0xA1 => entry(Mnemonic::Lda, AddressingMode::IndirectX),
        0xA2 => entry(Mnemonic::Ldx, AddressingMode::Immediate),
        0xA4 => entry(Mnemonic::Ldy, AddressingMode::ZeroPage),
        0xA5 => entry(Mnemonic::Lda, AddressingMode::ZeroPage),
        0xA6 => entry(Mnemonic::Ldx, AddressingMode::ZeroPage),
        0xA8 => entry(Mnemonic::Tay, AddressingMode::Implied),
        0xA9 => entry(Mnemonic::Lda, AddressingMode::Immediate),
        0xAA => entry(Mnemonic::Tax, AddressingMode::Implied),
        0xAC => entry(Mnemonic::Ldy, AddressingMode::Absolute),
        0xAD => entry(Mnemonic::Lda, AddressingMode::Absolute),
        0xAE => entry(Mnemonic::Ldx, AddressingMode::Absolute),
        0xB0 => entry(Mnemonic::Bcs, AddressingMode::Relative),
        0xB1 => entry(Mnemonic::Lda, AddressingMode::IndirectY),
        0xB4 => entry(Mnemonic::Ldy, AddressingMode::ZeroPageX),
        0xB5 => entry(Mnemonic::Lda, AddressingMode::ZeroPageX),
        0xB6 => entry(Mnemonic::Ldx, AddressingMode::ZeroPageY),
        0xB8 => entry(Mnemonic::Clv, AddressingMode::Implied),
        0xB9 => entry(Mnemonic::Lda, AddressingMode::AbsoluteY),
        0xBA => entry(Mnemonic::Tsx, AddressingMode::Implied),
        0xBC => entry(Mnemonic::Ldy, AddressingMode::AbsoluteX),
        0xBD => entry(Mnemonic::Lda, AddressingMode::AbsoluteX),
        0xBE => entry(Mnemonic::Ldx, AddressingMode::AbsoluteY),
        0xC0 => entry(Mnemonic::Cpy, AddressingMode::Immediate),
        0xC1 => entry(Mnemonic::Cmp, AddressingMode::IndirectX),
        0xC4 => entry(Mnemonic::Cpy, AddressingMode::ZeroPage),
        0xC5 => entry(Mnemonic::Cmp, AddressingMode::ZeroPage),
        0xC6 => entry(Mnemonic::Dec, AddressingMode::ZeroPage),
        0xC8 => entry(Mnemonic::Iny, AddressingMode::Implied),
        0xC9 => entry(Mnemonic::Cmp, AddressingMode::Immediate),
        0xCA => entry(Mnemonic::Dex, AddressingMode::Implied),
        0xCC => entry(Mnemonic::Cpy, AddressingMode::Absolute),
        0xCD => entry(Mnemonic::Cmp, AddressingMode::Absolute),
        0xCE => entry(Mnemonic::Dec, AddressingMode::Absolute),
        0xD0 => entry(Mnemonic::Bne, AddressingMode::Relative),
        0xD1 => entry(Mnemonic::Cmp, AddressingMode::IndirectY),
        0xD5 => entry(Mnemonic::Cmp, AddressingMode::ZeroPageX),
        0xD6 => entry(Mnemonic::Dec, AddressingMode::ZeroPageX),
        0xD8 => entry(Mnemonic::Cld, AddressingMode::Implied),
        0xD9 => entry(Mnemonic::Cmp, AddressingMode::AbsoluteY),
        0xDD => entry(Mnemonic::Cmp, AddressingMode::AbsoluteX),
        0xDE => entry(Mnemonic::Dec, AddressingMode::AbsoluteX),
        0xE0 => entry(Mnemonic::Cpx, AddressingMode::Immediate),
        0xE1 => entry(Mnemonic::Sbc, AddressingMode::IndirectX),
        0xE4 => entry(Mnemonic::Cpx, AddressingMode::ZeroPage),
        0xE5 => entry(Mnemonic::Sbc, AddressingMode::ZeroPage),
        0xE6 => entry(Mnemonic::Inc, AddressingMode::ZeroPage),
        0xE8 => entry(Mnemonic::Inx, AddressingMode::Implied),
        0xE9 => entry(Mnemonic::Sbc, AddressingMode::Immediate),
        0xEA => entry(Mnemonic::Nop, AddressingMode::Implied),
        0xEC => entry(Mnemonic::Cpx, AddressingMode::Absolute),
        0xED => entry(Mnemonic::Sbc, AddressingMode::Absolute),
        0xEE => entry(Mnemonic::Inc, AddressingMode::Absolute),
        0xF0 => entry(Mnemonic::Beq, AddressingMode::Relative),
        0xF1 => entry(Mnemonic::Sbc, AddressingMode::IndirectY),
        0xF5 => entry(Mnemonic::Sbc, AddressingMode::ZeroPageX),
        0xF6 => entry(Mnemonic::Inc, AddressingMode::ZeroPageX),
        0xF8 => entry(Mnemonic::Sed, AddressingMode::Implied),
        0xF9 => entry(Mnemonic::Sbc, AddressingMode::AbsoluteY),
        0xFD => entry(Mnemonic::Sbc, AddressingMode::AbsoluteX),
        0xFE => entry(Mnemonic::Inc, AddressingMode::AbsoluteX),
        _ => None,
    }
}

fn found(mnemonic: Mnemonic, mode: AddressingMode) -> (r: Option<Instruction>)
    ensures
        r == entry(mnemonic, mode),
{
    Some(Instruction { mnemonic, mode })
}

/// Looks `opcode` up in the opcode table. `None` says that the byte is no
/// documented opcode.
pub fn decode(opcode: u8) -> (r: Option<Instruction>)
    ensures
        r == instruction_at(opcode),
{
    reveal(instruction_at);
    match opcode {
        0x00 => found(Mnemonic::Brk, AddressingMode::Implied),
        0x01 => found(Mnemonic::Ora, AddressingMode::IndirectX),
        0x05 => found(Mnemonic::Ora, AddressingMode::ZeroPage),
        0x06 => found(Mnemonic::Asl, AddressingMode::ZeroPage),
        0x08 => found(Mnemonic::Php, AddressingMode::Implied),
        0x09 => found(Mnemonic::Ora, AddressingMode::Immediate),
        0x0A => found(Mnemonic::Asl, AddressingMode::Accumulator),
        0x0D => found(Mnemonic::Ora, AddressingMode::Absolute),
        0x0E => found(Mnemonic::Asl, AddressingMode::Absolute),
        0x10 => found(Mnemonic::Bpl, AddressingMode::Relative),
        0x11 => found(Mnemonic::Ora, AddressingMode::IndirectY),
        0x15 => found(Mnemonic::Ora, AddressingMode::ZeroPageX),
        0x16 => found(Mnemonic::Asl, AddressingMode::ZeroPageX),
        0x18 => found(Mnemonic::Clc, AddressingMode::Implied),
        0x19 => found(Mnemonic::Ora, AddressingMode::AbsoluteY),
        0x1D => found(Mnemonic::Ora, AddressingMode::AbsoluteX),
        0x1E => found(Mnemonic::Asl, AddressingMode::AbsoluteX),
        0x20 => found(Mnemonic::Jsr, AddressingMode::Absolute),
        0x21 => found(Mnemonic::And, AddressingMode::IndirectX),
        0x24 => found(Mnemonic::Bit, AddressingMode::ZeroPage),
        0x25 => found(Mnemonic::And, AddressingMode::ZeroPage),
        0x26 => found(Mnemonic::Rol, AddressingMode::ZeroPage),
        0x28 => found(Mnemonic::Plp, AddressingMode::Implied),
        0x29 => found(Mnemonic::And, AddressingMode::Immediate),
        0x2A => found(Mnemonic::Rol, AddressingMode::Accumulator),
        0x2C => found(Mnemonic::Bit, AddressingMode::Absolute),
        0x2D => found(Mnemonic::And, AddressingMode::Absolute),
        0x2E => found(Mnemonic::Rol, AddressingMode::Absolute),
        0x30 => found(Mnemonic::Bmi, AddressingMode::Relative),
        0x31 => found(Mnemonic::And, AddressingMode::IndirectY),
        0x35 => found(Mnemonic::And, AddressingMode::ZeroPageX),
        0x36 => found(Mnemonic::Rol, AddressingMode::ZeroPageX),
        0x38 => found(Mnemonic::Sec, AddressingMode::Implied),
        0x39 => found(Mnemonic::And, AddressingMode::AbsoluteY),
        0x3D => found(Mnemonic::And, AddressingMode::AbsoluteX),
        0x3E => found(Mnemonic::Rol, AddressingMode::AbsoluteX),
        0x40 => found(Mnemonic::Rti, AddressingMode::Implied),
        0x41 => found(Mnemonic::Eor, AddressingMode::IndirectX),
        0x45 => found(Mnemonic::Eor, AddressingMode::ZeroPage),
        0x46 => found(Mnemonic::Lsr, AddressingMode::ZeroPage),
        0x48 => found(Mnemonic::Pha, AddressingMode::Implied),
        0x49 => found(Mnemonic::Eor, AddressingMode::Immediate),
        0x4A => found(Mnemonic::Lsr, AddressingMode::Accumulator),
        0x4C => found(Mnemonic::Jmp, AddressingMode::Absolute),
        0x4D => found(Mnemonic::Eor, AddressingMode::Absolute),
        0x4E => found(Mnemonic::Lsr, AddressingMode::Absolute),
        0x50 => found(Mnemonic::Bvc, AddressingMode::Relative),
        0x51 => found(Mnemonic::Eor, AddressingMode::IndirectY),
        0x55 => found(Mnemonic::Eor, AddressingMode::ZeroPageX),
        0x56 => found(Mnemonic::Lsr, AddressingMode::ZeroPageX),
        0x58 => found(Mnemonic::Cli, AddressingMode::Implied),
        0x59 => found(Mnemonic::Eor, AddressingMode::AbsoluteY),
        0x5D => found(Mnemonic::Eor, AddressingMode::AbsoluteX),
        0x5E => found(Mnemonic::Lsr, AddressingMode::AbsoluteX),
        0x60 => found(Mnemonic::Rts, AddressingMode::Implied),
        0x61 => found(Mnemonic::Adc, AddressingMode::IndirectX),
        0x65 => found(Mnemonic::Adc, AddressingMode::ZeroPage),
        0x66 => found(Mnemonic::Ror, AddressingMode::ZeroPage),
        0x68 => found(Mnemonic::Pla, AddressingMode::Implied),
        0x69 => found(Mnemonic::Adc, AddressingMode::Immediate),
        0x6A => found(Mnemonic::Ror, AddressingMode::Accumulator),
        0x6C => found(Mnemonic::Jmp, AddressingMode::Indirect),
        0x6D => found(Mnemonic::Adc, AddressingMode::Absolute),
        0x6E => found(Mnemonic::Ror, AddressingMode::Absolute),
        0x70 => found(Mnemonic::Bvs, AddressingMode::Relative),
        0x71 => found(Mnemonic::Adc, AddressingMode::IndirectY),
        0x75 => found(Mnemonic::Adc, AddressingMode::ZeroPageX),
        0x76 => found(Mnemonic::Ror, AddressingMode::ZeroPageX),
        0x78 => found(Mnemonic::Sei, AddressingMode::Implied),
        0x79 => found(Mnemonic::Adc, AddressingMode::AbsoluteY),
        0x7D => found(Mnemonic::Adc, AddressingMode::AbsoluteX),
        0x7E => found(Mnemonic::Ror, AddressingMode::AbsoluteX),
        0x81 => found(Mnemonic::Sta, AddressingMode::IndirectX),
        0x84 => found(Mnemonic::Sty, AddressingMode::ZeroPage),
        0x85 => found(Mnemonic::Sta, AddressingMode::ZeroPage),
        0x86 => found(Mnemonic::Stx, AddressingMode::ZeroPage),
        0x88 => found(Mnemonic::Dey, AddressingMode::Implied),
        0x8A => found(Mnemonic::Txa, AddressingMode::Implied),
        0x8C => found(Mnemonic::Sty, AddressingMode::Absolute),
        0x8D => found(Mnemonic::Sta, AddressingMode::Absolute),
        0x8E => found(Mnemonic::Stx, AddressingMode::Absolute),
        0x90 => found(Mnemonic::Bcc, AddressingMode::Relative),
        0x91 => found(Mnemonic::Sta, AddressingMode::IndirectY),
        0x94 => found(Mnemonic::Sty, AddressingMode::ZeroPageX),
        0x95 => found(Mnemonic::Sta, AddressingMode::ZeroPageX),
        0x96 => found(Mnemonic::Stx, AddressingMode::ZeroPageY),
        0x98 => found(Mnemonic::Tya, AddressingMode::Implied),
        0x99 => found(Mnemonic::Sta, AddressingMode::AbsoluteY),
        0x9A => found(Mnemonic::Txs, AddressingMode::Implied),
        0x9D => found(Mnemonic::Sta, AddressingMode::AbsoluteX),
        0xA0 => found(Mnemonic::Ldy, AddressingMode::Immediate),
        0xA1 => found(Mnemonic::Lda, AddressingMode::IndirectX),
        0xA2 => found(Mnemonic::Ldx, AddressingMode::Immediate),
        0xA4 => found(Mnemonic::Ldy, AddressingMode::ZeroPage),
        0xA5 => found(Mnemonic::Lda, AddressingMode::ZeroPage),
        0xA6 => found(Mnemonic::Ldx, AddressingMode::ZeroPage),
        0xA8 => found(Mnemonic::Tay, AddressingMode::Implied),
        0xA9 => found(Mnemonic::Lda, AddressingMode::Immediate),
        0xAA => found(Mnemonic::Tax, AddressingMode::Implied),
        0xAC => found(Mnemonic::Ldy, AddressingMode::Absolute),
        0xAD => found(Mnemonic::Lda, AddressingMode::Absolute),
        0xAE => found(Mnemonic::Ldx, AddressingMode::Absolute),
        0xB0 => found(Mnemonic::Bcs, AddressingMode::Relative),
        0xB1 => found(Mnemonic::Lda, AddressingMode::IndirectY),
        0xB4 => found(Mnemonic::Ldy, AddressingMode::ZeroPageX),
        0xB5 => found(Mnemonic::Lda, AddressingMode::ZeroPageX),
        0xB6 => found(Mnemonic::Ldx, AddressingMode::ZeroPageY),
        0xB8 => found(Mnemonic::Clv, AddressingMode::Implied),
        0xB9 => found(Mnemonic::Lda, AddressingMode::AbsoluteY),
        0xBA => found(Mnemonic::Tsx, AddressingMode::Implied),
        0xBC => found(Mnemonic::Ldy, AddressingMode::AbsoluteX),
        0xBD => found(Mnemonic::Lda, AddressingMode::AbsoluteX),
        0xBE => found(Mnemonic::Ldx, AddressingMode::AbsoluteY),
        0xC0 => found(Mnemonic::Cpy, AddressingMode::Immediate),
        0xC1 => found(Mnemonic::Cmp, AddressingMode::IndirectX),
        0xC4 => found(Mnemonic::Cpy, AddressingMode::ZeroPage),
        0xC5 => found(Mnemonic::Cmp, AddressingMode::ZeroPage),
        0xC6 => found(Mnemonic::Dec, AddressingMode::ZeroPage),
        0xC8 => found(Mnemonic::Iny, AddressingMode::Implied),
        0xC9 => found(Mnemonic::Cmp, AddressingMode::Immediate),
        0xCA => found(Mnemonic::Dex, AddressingMode::Implied),
        0xCC => found(Mnemonic::Cpy, AddressingMode::Absolute),
        0xCD => found(Mnemonic::Cmp, AddressingMode::Absolute),
        0xCE => found(Mnemonic::Dec, AddressingMode::Absolute),
        0xD0 => found(Mnemonic::Bne, AddressingMode::Relative),
        0xD1 => found(Mnemonic::Cmp, AddressingMode::IndirectY),
        0xD5 => found(Mnemonic::Cmp, AddressingMode::ZeroPageX),
        0xD6 => found(Mnemonic::Dec, AddressingMode::ZeroPageX),
        0xD8 => found(Mnemonic::Cld, AddressingMode::Implied),
        0xD9 => found(Mnemonic::Cmp, AddressingMode::AbsoluteY),
        0xDD => found(Mnemonic::Cmp, AddressingMode::AbsoluteX),
        0xDE => found(Mnemonic::Dec, AddressingMode::AbsoluteX),
        0xE0 => found(Mnemonic::Cpx, AddressingMode::Immediate),
        0xE1 => found(Mnemonic::Sbc, AddressingMode::IndirectX),
        0xE4 => found(Mnemonic::Cpx, AddressingMode::ZeroPage),
        0xE5 => found(Mnemonic::Sbc, AddressingMode::ZeroPage),
        0xE6 => found(Mnemonic::Inc, AddressingMode::ZeroPage),
        0xE8 => found(Mnemonic::Inx, AddressingMode::Implied),
        0xE9 => found(Mnemonic::Sbc, AddressingMode::Immediate),
        0xEA => found(Mnemonic::Nop, AddressingMode::Implied),
        0xEC => found(Mnemonic::Cpx, AddressingMode::Absolute),
        0xED => found(Mnemonic::Sbc, AddressingMode::Absolute),
        0xEE => found(Mnemonic::Inc, AddressingMode::Absolute),
        0xF0 => found(Mnemonic::Beq, AddressingMode::Relative),
        0xF1 => found(Mnemonic::Sbc, AddressingMode::IndirectY),
        0xF5 => found(Mnemonic::Sbc, AddressingMode::ZeroPageX),
        0xF6 => found(Mnemonic::Inc, AddressingMode::ZeroPageX),
        0xF8 => found(Mnemonic::Sed, AddressingMode::Implied),
        0xF9 => found(Mnemonic::Sbc, AddressingMode::AbsoluteY),
        0xFD => found(Mnemonic::Sbc, AddressingMode::AbsoluteX),
        0xFE => found(Mnemonic::Inc, AddressingMode::AbsoluteX),
        _ => None,
    }
}

/// The flags that an operation may change. Every other flag is the same
/// after the operation as before it.
pub open spec fn touches(mnemonic: Mnemonic, flag: Flag) -> bool {
    match mnemonic {
        Mnemonic::Plp | Mnemonic::Rti => true,
        Mnemonic::Adc | Mnemonic::Sbc => flag == Flag::Carry || flag == Flag::Zero || flag
            == Flag::Overflow || flag == Flag::Negative,
        Mnemonic::Asl
        | Mnemonic::Lsr
        | Mnemonic::Rol
        | Mnemonic::Ror
        | Mnemonic::Cmp
        | Mnemonic::Cpx
        | Mnemonic::Cpy => flag == Flag::Carry || flag == Flag::Zero || flag == Flag::Negative,
        Mnemonic::Bit => flag == Flag::Zero || flag == Flag::Overflow || flag == Flag::Negative,
        Mnemonic::Lda
        | Mnemonic::Ldx
        | Mnemonic::Ldy
        | Mnemonic::Tax
        | Mnemonic::Tay
        | Mnemonic::Tsx
        | Mnemonic::Txa
        | Mnemonic::Tya
        | Mnemonic::And
        | Mnemonic::Ora
        | Mnemonic::Eor
        | Mnemonic::Inc
        | Mnemonic::Dec
        | Mnemonic::Inx
        | Mnemonic::Iny
        | Mnemonic::Dex
        | Mnemonic::Dey
        | Mnemonic::Pla => flag == Flag::Zero || flag == Flag::Negative,
        Mnemonic::Clc | Mnemonic::Sec => flag == Flag::Carry,
        Mnemonic::Cld | Mnemonic::Sed => flag == Flag::Decimal,
        Mnemonic::Cli | Mnemonic::Sei => flag == Flag::InterruptDisable,
        Mnemonic::Clv => flag == Flag::Overflow,
        _ => false,
    }
}

/// Whether `operand` is of the kind that the operation works on: a place for
/// what it writes, a value for what it reads, a target for a jump, nothing
/// for an operation on registers alone.
pub open spec fn takes(mnemonic: Mnemonic, operand: Operand) -> bool {
    match mnemonic {
        Mnemonic::Sta
        | Mnemonic::Stx
        | Mnemonic::Sty
        | Mnemonic::Inc
        | Mnemonic::Dec
        | Mnemonic::Bit
        | Mnemonic::Jmp
        | Mnemonic::Jsr
        | Mnemonic::Bcc
        | Mnemonic::Bcs
        | Mnemonic::Beq
        | Mnemonic::Bne
        | Mnemonic::Bmi
        | Mnemonic::Bpl
        | Mnemonic::Bvc
        | Mnemonic::Bvs => operand is Address,
        Mnemonic::Asl | Mnemonic::Lsr | Mnemonic::Rol | Mnemonic::Ror => operand is Address
            || operand is Accumulator,
        Mnemonic::Lda
        | Mnemonic::Ldx
        | Mnemonic::Ldy
        | Mnemonic::Adc
        | Mnemonic::Sbc
        | Mnemonic::And
        | Mnemonic::Ora
        | Mnemonic::Eor
        | Mnemonic::Cmp
        | Mnemonic::Cpx
        | Mnemonic::Cpy => operand is Address || operand is Immediate,
        _ => operand is Implied,
    }
}

} // verus!
