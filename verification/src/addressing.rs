//! Addressing modes: the rules by which an instruction finds its operand in
//! the bytes that follow its opcode.

use vstd::prelude::*;

verus! {

/// How an instruction finds its operand.
#[derive(Clone, Copy, Debug, PartialEq, Eq, Structural)]
pub enum AddressingMode {
    /// The operand is the byte after the opcode.
    Immediate,
    /// The byte after the opcode is an address in the zero page.
    ZeroPage,
    /// As `ZeroPage`, with X added; the sum wraps inside the zero page.
    ZeroPageX,
    /// As `ZeroPage`, with Y added; the sum wraps inside the zero page.
    ZeroPageY,
    /// The two bytes after the opcode are an address, low byte first.
    Absolute,
    /// As `Absolute`, with X added; the sum wraps at sixteen bits.
    AbsoluteX,
    /// As `Absolute`, with Y added; the sum wraps at sixteen bits.
    AbsoluteY,
    /// The two bytes after the opcode point to the address. The pointer's
    /// second byte is read from the page of its first byte.
    Indirect,
    /// The byte after the opcode plus X, wrapped inside the zero page, points
    /// to the address; the whole pointer lies in the zero page.
    IndirectX,
    /// The byte after the opcode points into the zero page to an address, to
    /// which Y is added; the sum wraps at sixteen bits.
    IndirectY,
    /// The operand is the accumulator.
    Accumulator,
    /// The instruction has no operand.
    Implied,
    /// The byte after the opcode is a signed distance from the instruction
    /// that follows.
    Relative,
}

/// What the resolver found.
#[derive(Clone, Copy, Debug, PartialEq, Eq, Structural)]
pub enum Operand {
    /// No operand.
    Implied,
    /// The accumulator.
    Accumulator,
    /// The operand itself.
    Immediate(u8),
    /// The address of the operand, or the target of a jump or a branch.
    Address(u16),
}

/// The number of operand bytes that follow an opcode in `mode`.
pub open spec fn operand_bytes(mode: AddressingMode) -> u8 {
    match mode {
        AddressingMode::Accumulator | AddressingMode::Implied => 0,
        AddressingMode::Absolute
        | AddressingMode::AbsoluteX
        | AddressingMode::AbsoluteY
        | AddressingMode::Indirect => 2,
        _ => 1,
    }
}

/// The number of operand bytes that follow an opcode in `mode`.
pub fn operand_length(mode: AddressingMode) -> (n: u8)
    ensures
        n == operand_bytes(mode),
{
    match mode {
        AddressingMode::Accumulator | AddressingMode::Implied => 0,
        AddressingMode::Immediate
        | AddressingMode::ZeroPage
        | AddressingMode::ZeroPageX
        | AddressingMode::ZeroPageY
        | AddressingMode::IndirectX
        | AddressingMode::IndirectY
        | AddressingMode::Relative => 1,
        AddressingMode::Absolute
        | AddressingMode::AbsoluteX
        | AddressingMode::AbsoluteY
        | AddressingMode::Indirect => 2,
    }
}

} // verus!
