//! What holds of the processor whatever program it runs.

use crate::addressing::{AddressingMode, Operand};
use crate::alu::{
    compared, difference_with_borrow, rotated_left, rotated_right, sum_with_carry, wrap16,
    Shifted, Sum,
};
use crate::instruction::{entry, instruction_at, takes, touches, Mnemonic};
use crate::machine::{Machine, StepResult};
use crate::status::{lemma_reading_of_byte, Flag, Flags};
use vstd::prelude::*;

verus! {

/// A load of the accumulator, in whatever addressing mode, leaves the operand
/// in the accumulator, sets Zero exactly when the loaded byte is zero and
/// Negative exactly when its bit 7 is set, and changes no other bit of the
/// status register.
pub proof fn lemma_accumulator_load_flags(m: Machine, mode: AddressingMode)
    requires
        m.fetch() == entry(Mnemonic::Lda, mode),
    ensures
        m.step().1 == StepResult::Continue,
        m.step().0.a == m.advance(1).value_of(m.advance(1).resolve(mode).0),
        m.step().0.flags == (Flags {
            zero: m.step().0.a == 0,
            negative: m.step().0.a & 0x80 != 0,
            ..m.flags
        }),
{
    reveal(Machine::execute);
    let loaded = m.step().0.a;
    assert((loaded & 0x80 != 0) == (loaded >= 128)) by (bit_vector);
}

/// Zero-page indexed addressing never leaves the zero page: the index is
/// added to the operand byte modulo 256.
pub proof fn lemma_zero_page_indexed_wraps(m: Machine, mode: AddressingMode)
    requires
        mode == AddressingMode::ZeroPageX || mode == AddressingMode::ZeroPageY,
    ensures
        m.resolve(mode).0 matches Operand::Address(addr) && addr < 256 && addr == (m.read(m.pc) + (
        if mode == AddressingMode::ZeroPageX {
            m.x
        } else {
            m.y
        })) % 256,
{
    reveal(Machine::resolve);
}

/// The resolver takes at most two bytes, and none only where the operand is
/// the accumulator or there is no operand.
pub proof fn lemma_operand_bytes_bounded(m: Machine, mode: AddressingMode)
    ensures
        m.resolve(mode).1 <= 2,
        (m.resolve(mode).1 == 0) == (mode == AddressingMode::Accumulator || mode
            == AddressingMode::Implied),
{
    reveal(Machine::resolve);
}

/// What kind of operand each addressing mode gives.
pub proof fn lemma_operand_kind(m: Machine, mode: AddressingMode)
    ensures
        match mode {
            AddressingMode::Immediate => m.resolve(mode).0 is Immediate,
            AddressingMode::Accumulator => m.resolve(mode).0 is Accumulator,
            AddressingMode::Implied => m.resolve(mode).0 is Implied,
            _ => m.resolve(mode).0 is Address,
        },
{
    reveal(Machine::resolve);
}

/// Every entry of the opcode table pairs an operation with an addressing mode
/// that gives it the kind of operand it works on. So no step hands a store an
/// operand that names no place, or a jump an operand that holds no address.
#[verifier::rlimit(40)]
pub proof fn lemma_table_operands_fit(m: Machine, opcode: u8)
    ensures
        instruction_at(opcode) matches Some(instruction) ==> takes(
            instruction.mnemonic,
            m.resolve(instruction.mode).0,
        ),
{
    reveal(instruction_at);
    if let Some(instruction) = instruction_at(opcode) {
        lemma_operand_kind(m, instruction.mode);
    }
}

/// A step faults exactly on a byte that the opcode table does not hold, and
/// a step that faults changes nothing: no register, no flag, no byte of
/// memory, and not the program counter.
pub proof fn lemma_fault_changes_nothing(m: Machine)
    ensures
        (m.step().1 == StepResult::Fault) == (m.fetch() is None),
        m.step().1 == StepResult::Fault ==> m.step().0 == m,
{
}

/// A step halts exactly on the halt opcode, and then only the program counter
/// has moved: it points to the byte behind the opcode.
pub proof fn lemma_halt_moves_only_program_counter(m: Machine)
    ensures
        (m.step().1 == StepResult::Halt) == (m.read(m.pc) == 0x00),
        m.step().1 == StepResult::Halt ==> m.step().0 == m.advance(1),
{
    reveal(instruction_at);
    if m.read(m.pc) == 0x00 {
        reveal(Machine::resolve);
        reveal(Machine::execute);
        assert(m.fetch() == entry(Mnemonic::Brk, AddressingMode::Implied));
        assert(m.advance(1).advance(0) == m.advance(1));
    }
}

/// The flags outside the touch set of `mnemonic`, and bits 4 and 5, are the
/// same after the operation as before it.
spec fn flags_kept(m: Machine, mnemonic: Mnemonic, operand: Operand) -> bool {
    let before = m.flags;
    let after = m.execute(mnemonic, operand).flags;
    &&& after.bit4 == before.bit4
    &&& after.bit5 == before.bit5
    &&& !touches(mnemonic, Flag::Carry) ==> after.carry == before.carry
    &&& !touches(mnemonic, Flag::Zero) ==> after.zero == before.zero
    &&& !touches(mnemonic, Flag::InterruptDisable) ==> after.interrupt_disable
        == before.interrupt_disable
    &&& !touches(mnemonic, Flag::Decimal) ==> after.decimal == before.decimal
    &&& !touches(mnemonic, Flag::Overflow) ==> after.overflow == before.overflow
    &&& !touches(mnemonic, Flag::Negative) ==> after.negative == before.negative
}

/// The operations that compute a carry or write it.
spec fn sets_carry(mnemonic: Mnemonic) -> bool {
    match mnemonic {
        Mnemonic::Adc
        | Mnemonic::Sbc
        | Mnemonic::Asl
        | Mnemonic::Lsr
        | Mnemonic::Rol
        | Mnemonic::Ror
        | Mnemonic::Cmp
        | Mnemonic::Cpx
        | Mnemonic::Cpy
        | Mnemonic::Clc
        | Mnemonic::Sec => true,
        _ => false,
    }
}

/// The operations that describe a register or an operand by Zero and Negative.
spec fn describes_register(mnemonic: Mnemonic) -> bool {
    match mnemonic {
        Mnemonic::Lda
        | Mnemonic::Ldx
        | Mnemonic::Ldy
        | Mnemonic::Tax
        | Mnemonic::Tay
        | Mnemonic::Tsx
        | Mnemonic::Txa
        | Mnemonic::Tya
        | Mnemonic::And
        | Mnemonic::Ora
        | Mnemonic::Eor
        | Mnemonic::Bit => true,
        _ => false,
    }
}

/// The operations that count, pull from the stack or write single flags.
spec fn writes_status(mnemonic: Mnemonic) -> bool {
    match mnemonic {
        Mnemonic::Inc
        | Mnemonic::Dec
        | Mnemonic::Inx
        | Mnemonic::Iny
        | Mnemonic::Dex
        | Mnemonic::Dey
        | Mnemonic::Pla
        | Mnemonic::Plp
        | Mnemonic::Rti
        | Mnemonic::Cld
        | Mnemonic::Sed
        | Mnemonic::Cli
        | Mnemonic::Sei
        | Mnemonic::Clv => true,
        _ => false,
    }
}

proof fn lemma_flags_kept_by_carry_setters(m: Machine, mnemonic: Mnemonic, operand: Operand)
    requires
        sets_carry(mnemonic),
    ensures
        flags_kept(m, mnemonic, operand),
{
    reveal(Machine::execute);
    match mnemonic {
        Mnemonic::Adc => {},
        Mnemonic::Sbc => {},
        Mnemonic::Asl => {},
        Mnemonic::Lsr => {},
        Mnemonic::Rol => {},
        Mnemonic::Ror => {},
        Mnemonic::Cmp => {},
        Mnemonic::Cpx => {},
        Mnemonic::Cpy => {},
        Mnemonic::Clc => {},
        Mnemonic::Sec => {},
        _ => {},
    }
}

proof fn lemma_flags_kept_by_describers(m: Machine, mnemonic: Mnemonic, operand: Operand)
    requires
        describes_register(mnemonic),
    ensures
        flags_kept(m, mnemonic, operand),
{
    reveal(Machine::execute);
    match mnemonic {
        Mnemonic::Lda => {},
        Mnemonic::Ldx => {},
        Mnemonic::Ldy => {},
        Mnemonic::Tax => {},
        Mnemonic::Tay => {},
        Mnemonic::Tsx => {},
        Mnemonic::Txa => {},
        Mnemonic::Tya => {},
        Mnemonic::And => {},
        Mnemonic::Ora => {},
        Mnemonic::Eor => {},
        Mnemonic::Bit => {},
        _ => {},
    }
}

proof fn lemma_flags_kept_by_status_writers(m: Machine, mnemonic: Mnemonic, operand: Operand)
    requires
        writes_status(mnemonic),
    ensures
        flags_kept(m, mnemonic, operand),
{
    reveal(Machine::execute);
    match mnemonic {
        Mnemonic::Inc => {},
        Mnemonic::Dec => {},
        Mnemonic::Inx => {},
        Mnemonic::Iny => {},
        Mnemonic::Dex => {},
        Mnemonic::Dey => {},
        Mnemonic::Pla => {},
        Mnemonic::Plp => {},
        Mnemonic::Rti => {},
        Mnemonic::Cld => {},
        Mnemonic::Sed => {},
        Mnemonic::Cli => {},
        Mnemonic::Sei => {},
        Mnemonic::Clv => {},
        _ => {},
    }
}

proof fn lemma_flags_kept_by_the_rest(m: Machine, mnemonic: Mnemonic, operand: Operand)
    requires
        !sets_carry(mnemonic),
        !describes_register(mnemonic),
        !writes_status(mnemonic),
    ensures
        flags_kept(m, mnemonic, operand),
{
    reveal(Machine::execute);
    match mnemonic {
        Mnemonic::Sta => {},
        Mnemonic::Stx => {},
        Mnemonic::Sty => {},
        Mnemonic::Txs => {},
        Mnemonic::Bcc => {},
        Mnemonic::Bcs => {},
        Mnemonic::Beq => {},
        Mnemonic::Bne => {},
        Mnemonic::Bmi => {},
        Mnemonic::Bpl => {},
        Mnemonic::Bvc => {},
        Mnemonic::Bvs => {},
        Mnemonic::Jmp => {},
        Mnemonic::Jsr => {},
        Mnemonic::Rts => {},
        Mnemonic::Pha => {},
        Mnemonic::Php => {},
        Mnemonic::Nop => {},
        Mnemonic::Brk => {},
        _ => {},
    }
}

/// An operation changes only the flags in its touch set, and none changes
/// bit 4 or bit 5 of the status register.
pub proof fn lemma_untouched_flags_kept(
    m: Machine,
    mnemonic: Mnemonic,
    operand: Operand,
    flag: Flag,
)
    ensures
        !touches(mnemonic, flag) ==> m.execute(mnemonic, operand).flags.get(flag) == m.flags.get(
            flag,
        ),
        m.execute(mnemonic, operand).flags.bit4 == m.flags.bit4,
        m.execute(mnemonic, operand).flags.bit5 == m.flags.bit5,
{
    if sets_carry(mnemonic) {
        lemma_flags_kept_by_carry_setters(m, mnemonic, operand);
    } else if describes_register(mnemonic) {
        lemma_flags_kept_by_describers(m, mnemonic, operand);
    } else if writes_status(mnemonic) {
        lemma_flags_kept_by_status_writers(m, mnemonic, operand);
    } else {
        lemma_flags_kept_by_the_rest(m, mnemonic, operand);
    }
}

/// Memory spans the whole address space after an operation if it did before.
pub proof fn lemma_execute_keeps_memory_size(m: Machine, mnemonic: Mnemonic, operand: Operand)
    requires
        m.wf(),
    ensures
        m.execute(mnemonic, operand).wf(),
{
    reveal(Machine::execute);
    // One case for each operation.
    match mnemonic {
        Mnemonic::Adc => {},
        Mnemonic::And => {},
        Mnemonic::Asl => {},
        Mnemonic::Bcc => {},
        Mnemonic::Bcs => {},
        Mnemonic::Beq => {},
        Mnemonic::Bit => {},
        Mnemonic::Bmi => {},
        Mnemonic::Bne => {},
        Mnemonic::Bpl => {},
        Mnemonic::Brk => {},
        Mnemonic::Bvc => {},
        Mnemonic::Bvs => {},
        Mnemonic::Clc => {},
        Mnemonic::Cld => {},
        Mnemonic::Cli => {},
        Mnemonic::Clv => {},
        Mnemonic::Cmp => {},
        Mnemonic::Cpx => {},
        Mnemonic::Cpy => {},
        Mnemonic::Dec => {},
        Mnemonic::Dex => {},
        Mnemonic::Dey => {},
        Mnemonic::Eor => {},
        Mnemonic::Inc => {},
        Mnemonic::Inx => {},
        Mnemonic::Iny => {},
        Mnemonic::Jmp => {},
        Mnemonic::Jsr => {},
        Mnemonic::Lda => {},
        Mnemonic::Ldx => {},
        Mnemonic::Ldy => {},
        Mnemonic::Lsr => {},
        Mnemonic::Nop => {},
        Mnemonic::Ora => {},
        Mnemonic::Pha => {},
        Mnemonic::Php => {},
        Mnemonic::Pla => {},
        Mnemonic::Plp => {},
        Mnemonic::Rol => {},
        Mnemonic::Ror => {},
        Mnemonic::Rti => {},
        Mnemonic::Rts => {},
        Mnemonic::Sbc => {},
        Mnemonic::Sec => {},
        Mnemonic::Sed => {},
        Mnemonic::Sei => {},
        Mnemonic::Sta => {},
        Mnemonic::Stx => {},
        Mnemonic::Sty => {},
        Mnemonic::Tax => {},
        Mnemonic::Tay => {},
        Mnemonic::Tsx => {},
        Mnemonic::Txa => {},
        Mnemonic::Txs => {},
        Mnemonic::Tya => {},
    }
}

/// Memory spans the whole address space after a step if it did before.
pub proof fn lemma_step_keeps_memory_size(m: Machine)
    requires
        m.wf(),
    ensures
        m.step().0.wf(),
{
    if let Some(instruction) = m.fetch() {
        let at_operand = m.advance(1);
        let (operand, consumed) = at_operand.resolve(instruction.mode);
        lemma_execute_keeps_memory_size(
            at_operand.advance(consumed),
            instruction.mnemonic,
            operand,
        );
    }
}

/// Memory spans the whole address space after a run if it did before.
pub proof fn lemma_run_keeps_memory_size(m: Machine, limit: nat)
    requires
        m.wf(),
    ensures
        m.run_for(limit).0.wf(),
    decreases limit,
{
    if limit > 0 {
        lemma_step_keeps_memory_size(m);
        if m.step().1 == StepResult::Continue {
            lemma_run_keeps_memory_size(m.step().0, (limit - 1) as nat);
        }
    }
}

/// A pull after a push gives the pushed byte back and leaves the stack
/// pointer where it was.
pub proof fn lemma_push_then_pull(m: Machine, value: u8)
    requires
        m.wf(),
    ensures
        m.push(value).pop().top() == value,
        m.push(value).pop().sp == m.sp,
{
}

/// The status register comes back from the stack as it went: a push of the
/// status followed by a pull restores every bit of it, bits 4 and 5 included.
pub proof fn lemma_status_round_trip(m: Machine)
    requires
        m.wf(),
    ensures
        m.execute(Mnemonic::Php, Operand::Implied).execute(Mnemonic::Plp, Operand::Implied).flags
            == m.flags,
        m.execute(Mnemonic::Php, Operand::Implied).execute(Mnemonic::Plp, Operand::Implied).sp
            == m.sp,
{
    reveal(Machine::execute);
    let pushed = Flags { bit4: true, bit5: true, ..m.flags };
    lemma_reading_of_byte(pushed);
    lemma_push_then_pull(m, pushed.byte());
}

/// A return after a call continues behind the calling instruction.
pub proof fn lemma_call_then_return(m: Machine, target: u16)
    requires
        m.wf(),
    ensures
        m.call(Operand::Address(target)).return_from_call().pc == m.pc,
        m.call(Operand::Address(target)).return_from_call().sp == m.sp,
{
    let last = wrap16(m.pc - 1);
    let high = (last / 256) as u8;
    let low = (last % 256) as u8;
    let pushed = m.push(high).push(low);
    assert(pushed.pop().top() == low);
    assert(pushed.pop().pop().top() == high);
}

/// A loaded block reads back byte for byte, and a load changes no byte
/// outside the block.
pub proof fn lemma_load_block_reads_back(m: Machine, origin: u16, data: Seq<u8>, addr: u16)
    requires
        m.wf(),
        origin + data.len() <= 65536,
    ensures
        m.load_block(origin, data).wf(),
        m.load_block(origin, data).read(addr) == if origin <= addr < origin + data.len() {
            data[addr - origin]
        } else {
            m.read(addr)
        },
{
}

/// Writing the Decimal flag before a sum is put in place gives what writing
/// it afterwards gives.
proof fn lemma_decimal_passes_sum(m: Machine, sum: Sum, decimal: bool)
    ensures
        m.with_flag(Flag::Decimal, decimal).with_sum(sum) == m.with_sum(sum).with_flag(
            Flag::Decimal,
            decimal,
        ),
{
}

/// Addition and subtraction do not read the Decimal flag: whatever it holds,
/// the result is the binary one, and the flag is left as it was.
pub proof fn lemma_arithmetic_ignores_decimal(m: Machine, operand: Operand, decimal: bool)
    ensures
        m.with_flag(Flag::Decimal, decimal).execute(Mnemonic::Adc, operand) == m.execute(
            Mnemonic::Adc,
            operand,
        ).with_flag(Flag::Decimal, decimal),
        m.with_flag(Flag::Decimal, decimal).execute(Mnemonic::Sbc, operand) == m.execute(
            Mnemonic::Sbc,
            operand,
        ).with_flag(Flag::Decimal, decimal),
{
    let set = m.with_flag(Flag::Decimal, decimal);
    let value = m.value_of(operand);
    let sum = sum_with_carry(m.a, value, m.flags.carry);
    let difference = difference_with_borrow(m.a, value, m.flags.carry);
    assert(m.execute(Mnemonic::Adc, operand) == m.with_sum(sum) && set.execute(
        Mnemonic::Adc,
        operand,
    ) == set.with_sum(sum)) by {
        reveal(Machine::execute);
    }
    assert(m.execute(Mnemonic::Sbc, operand) == m.with_sum(difference) && set.execute(
        Mnemonic::Sbc,
        operand,
    ) == set.with_sum(difference)) by {
        reveal(Machine::execute);
    }
    lemma_decimal_passes_sum(m, sum, decimal);
    lemma_decimal_passes_sum(m, difference, decimal);
}

/// Subtracting a byte is adding its complement, in value, carry and overflow.
pub proof fn lemma_subtraction_adds_complement(a: u8, v: u8, carry: bool)
    ensures
        difference_with_borrow(a, v, carry) == sum_with_carry(a, (255 - v) as u8, carry),
{
}

/// A comparison is a subtraction without borrow whose byte is thrown away.
pub proof fn lemma_comparison_is_subtraction(register: u8, v: u8)
    ensures
        compared(register, v).value == difference_with_borrow(register, v, true).value,
        compared(register, v).carry == difference_with_borrow(register, v, true).carry,
        (compared(register, v).value == 0) == (register == v),
{
}

/// A rotation to the right undoes a rotation to the left, and the other way
/// round: the byte and the carry together rotate as nine bits.
pub proof fn lemma_rotations_are_inverse(v: u8, carry: bool)
    ensures
        rotated_right(rotated_left(v, carry).value, rotated_left(v, carry).carry) == (Shifted {
            value: v,
            carry,
        }),
        rotated_left(rotated_right(v, carry).value, rotated_right(v, carry).carry) == (Shifted {
            value: v,
            carry,
        }),
{
}

} // verus!
