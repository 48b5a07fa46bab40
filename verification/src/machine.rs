//! The processor as a mathematical object.
//!
//! A [`Machine`] is a snapshot of the registers, the flags and the 65536 bytes
//! of memory. Everything the processor does is a function from one snapshot
//! to the next: [`Machine::resolve`] finds an operand, [`Machine::execute`]
//! applies one operation, [`Machine::step`] runs one instruction and
//! [`Machine::run_for`] runs several. The executable processor is specified
//! against these functions.

use crate::addressing::{operand_bytes, AddressingMode, Operand};
use crate::alu::{
    compared, difference_with_borrow, displaced, next_in_page, rotated_left, rotated_right,
    sum_with_carry, word_of, wrap16, wrap8, Shifted, Sum,
};
use crate::instruction::{instruction_at, Instruction, Mnemonic};
use crate::status::{Flag, Flags};
use vstd::prelude::*;

verus! {

/// The address at which a program image is loaded and started.
pub const ORIGIN: u16 = 0x8000;

/// How one instruction ended.
#[derive(Clone, Copy, Debug, PartialEq, Eq, Structural)]
pub enum StepResult {
    /// The instruction ran; the next one can follow.
    Continue,
    /// The instruction was the halt instruction.
    Halt,
    /// The byte at the program counter is no documented opcode. Nothing was
    /// changed.
    Fault,
}

/// A snapshot of the processor and its memory.
#[verifier::ext_equal]
pub struct Machine {
    pub a: u8,
    pub x: u8,
    pub y: u8,
    pub sp: u8,
    pub pc: u16,
    pub flags: Flags,
    pub mem: Seq<u8>,
}

impl Machine {
    /// The memory spans the whole sixteen-bit address space.
    pub open spec fn wf(self) -> bool {
        self.mem.len() == 65536
    }

    /// The machine with every register, every flag and every byte of memory
    /// zero.
    pub open spec fn blank() -> Machine {
        Machine {
            a: 0,
            x: 0,
            y: 0,
            sp: 0,
            pc: 0,
            flags: Flags::of(0),
            mem: Seq::new(65536, |i: int| 0u8),
        }
    }

    /// The byte at `addr`.
    pub open spec fn read(self, addr: u16) -> u8 {
        self.mem[addr as int]
    }

    /// This machine with `value` at `addr`.
    pub open spec fn write(self, addr: u16, value: u8) -> Machine {
        Machine { mem: self.mem.update(addr as int, value), ..self }
    }

    /// This machine with `data` in memory from `origin` on.
    pub open spec fn load_block(self, origin: u16, data: Seq<u8>) -> Machine {
        Machine {
            mem: Seq::new(
                65536,
                |i: int|
                    if origin <= i < origin + data.len() {
                        data[i - origin]
                    } else {
                        self.mem[i]
                    },
            ),
            ..self
        }
    }

    /// This machine with `program` in memory from [`ORIGIN`] on and the
    /// program counter at [`ORIGIN`].
    pub open spec fn load(self, program: Seq<u8>) -> Machine {
        Machine { pc: ORIGIN, ..self.load_block(ORIGIN, program) }
    }

    /// This machine with every register and flag zeroed; memory is kept.
    pub open spec fn reset(self) -> Machine {
        Machine { a: 0, x: 0, y: 0, sp: 0, pc: 0, flags: Flags::of(0), mem: self.mem }
    }

    /// The sixteen-bit pointer stored at `p`, low byte first. Its high byte is
    /// read from the page of `p`: a pointer at the last byte of a page
    /// continues at the first byte of the same page.
    pub open spec fn pointer_at(self, p: u16) -> u16 {
        word_of(self.read(p), self.read(next_in_page(p)))
    }

    /// The address in the stack page that the stack pointer names.
    pub open spec fn stack_address(self) -> u16 {
        (0x0100 + self.sp) as u16
    }

    /// This machine after a push of `value`: the byte goes where the stack
    /// pointer names, and the stack pointer moves down, wrapping inside the
    /// stack page.
    pub open spec fn push(self, value: u8) -> Machine {
        Machine { sp: wrap8(self.sp - 1), ..self.write(self.stack_address(), value) }
    }

    /// This machine with the stack pointer moved up, wrapping inside the
    /// stack page.
    pub open spec fn pop(self) -> Machine {
        Machine { sp: wrap8(self.sp + 1), ..self }
    }

    /// The byte that the stack pointer names.
    pub open spec fn top(self) -> u8 {
        self.read(self.stack_address())
    }

    /// The operand of an instruction in `mode` whose operand bytes start at
    /// the program counter, and the number of those bytes.
    #[verifier::opaque]
    pub open spec fn resolve(self, mode: AddressingMode) -> (Operand, u8) {
        let first = self.read(self.pc);
        let second = self.read(wrap16(self.pc + 1));
        let operand = match mode {
            AddressingMode::Immediate => Operand::Immediate(first),
            AddressingMode::ZeroPage => Operand::Address(first as u16),
            AddressingMode::ZeroPageX => Operand::Address(wrap8(first + self.x) as u16),
            AddressingMode::ZeroPageY => Operand::Address(wrap8(first + self.y) as u16),
            AddressingMode::Absolute => Operand::Address(word_of(first, second)),
            AddressingMode::AbsoluteX => Operand::Address(
                wrap16(word_of(first, second) + self.x),
            ),
            AddressingMode::AbsoluteY => Operand::Address(
                wrap16(word_of(first, second) + self.y),
            ),
            AddressingMode::Indirect => Operand::Address(
                self.pointer_at(word_of(first, second)),
            ),
            AddressingMode::IndirectX => Operand::Address(
                self.pointer_at(wrap8(first + self.x) as u16),
            ),
            AddressingMode::IndirectY => Operand::Address(
                wrap16(self.pointer_at(first as u16) + self.y),
            ),
            AddressingMode::Relative => Operand::Address(
                displaced(wrap16(self.pc + 1), first),
            ),
            AddressingMode::Accumulator => Operand::Accumulator,
            AddressingMode::Implied => Operand::Implied,
        };
        (operand, operand_bytes(mode))
    }

    /// The byte that `operand` stands for.
    pub open spec fn value_of(self, operand: Operand) -> u8 {
        match operand {
            Operand::Immediate(value) => value,
            Operand::Address(addr) => self.read(addr),
            Operand::Accumulator => self.a,
            Operand::Implied => 0,
        }
    }

    /// This machine with `value` put where `operand` points: in memory or in
    /// the accumulator. An operand that names no place takes nothing.
    pub open spec fn store(self, operand: Operand, value: u8) -> Machine {
        match operand {
            Operand::Address(addr) => self.write(addr, value),
            Operand::Accumulator => Machine { a: value, ..self },
            _ => self,
        }
    }

    /// This machine with `flag` set to `on`.
    pub open spec fn with_flag(self, flag: Flag, on: bool) -> Machine {
        Machine { flags: self.flags.with(flag, on), ..self }
    }

    /// This machine with Zero and Negative describing `value`.
    pub open spec fn with_zero_negative(self, value: u8) -> Machine {
        Machine { flags: self.flags.with_zero_negative(value), ..self }
    }

    /// This machine with `value` in the accumulator and described by Zero and
    /// Negative.
    pub open spec fn with_a(self, value: u8) -> Machine {
        Machine { a: value, ..self }.with_zero_negative(value)
    }

    /// This machine with `value` in X and described by Zero and Negative.
    pub open spec fn with_x(self, value: u8) -> Machine {
        Machine { x: value, ..self }.with_zero_negative(value)
    }

    /// This machine with `value` in Y and described by Zero and Negative.
    pub open spec fn with_y(self, value: u8) -> Machine {
        Machine { y: value, ..self }.with_zero_negative(value)
    }

    /// This machine after an addition or subtraction left `sum`: the byte is
    /// in the accumulator, Carry and Overflow are those of the sum, Zero and
    /// Negative describe the byte.
    pub open spec fn with_sum(self, sum: Sum) -> Machine {
        self.with_flag(Flag::Carry, sum.carry).with_flag(Flag::Overflow, sum.overflow).with_a(
            sum.value,
        )
    }

    /// This machine after a shift or rotation of `operand` left `shifted`: the
    /// byte is back where the operand was, Carry holds the bit that left, Zero
    /// and Negative describe the byte.
    pub open spec fn with_shifted(self, operand: Operand, shifted: Shifted) -> Machine {
        self.store(operand, shifted.value).with_flag(Flag::Carry, shifted.carry).with_zero_negative(
            shifted.value,
        )
    }

    /// This machine after a comparison left `difference`: only flags change.
    pub open spec fn with_comparison(self, difference: Shifted) -> Machine {
        self.with_flag(Flag::Carry, difference.carry).with_zero_negative(difference.value)
    }

    /// This machine with `value` put where `operand` points and described by
    /// Zero and Negative.
    pub open spec fn with_stored(self, operand: Operand, value: u8) -> Machine {
        self.store(operand, value).with_zero_negative(value)
    }

    /// This machine after a bit test of `value` against the accumulator: Zero
    /// says that the two share no bit, Overflow and Negative copy bits 6 and
    /// 7 of `value`.
    pub open spec fn with_bit_test(self, value: u8) -> Machine {
        Machine {
            flags: Flags {
                zero: self.a & value == 0,
                overflow: value & 0x40 != 0,
                negative: value & 0x80 != 0,
                ..self.flags
            },
            ..self
        }
    }

    /// This machine with the program counter at the address in `operand`.
    pub open spec fn jump(self, operand: Operand) -> Machine {
        match operand {
            Operand::Address(target) => Machine { pc: target, ..self },
            _ => self,
        }
    }

    /// This machine after a branch that is taken or not.
    pub open spec fn branch(self, operand: Operand, taken: bool) -> Machine {
        if taken {
            self.jump(operand)
        } else {
            self
        }
    }

    /// This machine after a subroutine call: the address of the last byte of
    /// the calling instruction is pushed, high byte first, and the program
    /// counter moves to the address in `operand`.
    pub open spec fn call(self, operand: Operand) -> Machine {
        let last = wrap16(self.pc - 1);
        self.push((last / 256) as u8).push((last % 256) as u8).jump(operand)
    }

    /// This machine after a return from a subroutine: an address is pulled,
    /// low byte first, and the program counter moves to the byte after it.
    pub open spec fn return_from_call(self) -> Machine {
        let low = self.pop();
        let high = low.pop();
        Machine { pc: wrap16(word_of(low.top(), high.top()) + 1), ..high }
    }

    /// This machine with the six flags taken from the byte `status`; bits 4
    /// and 5 of the status register are kept.
    pub open spec fn with_status(self, status: u8) -> Machine {
        Machine { flags: self.flags.with_flags_of(Flags::of(status)), ..self }
    }

    /// This machine after a return from an interrupt handler: the flags are
    /// pulled, then the program counter, low byte first.
    pub open spec fn return_from_interrupt(self) -> Machine {
        let status = self.pop();
        let low = status.pop();
        let high = low.pop();
        Machine { pc: word_of(low.top(), high.top()), ..high }.with_status(status.top())
    }

    /// This machine after the operation `mnemonic` on `operand`. The program
    /// counter already points behind the instruction.
    #[verifier::opaque]
    pub open spec fn execute(self, mnemonic: Mnemonic, operand: Operand) -> Machine {
        let value = self.value_of(operand);
        let flags = self.flags;
        match mnemonic {
            Mnemonic::Lda => self.with_a(value),
            Mnemonic::Ldx => self.with_x(value),
            Mnemonic::Ldy => self.with_y(value),
            Mnemonic::Sta => self.store(operand, self.a),
            Mnemonic::Stx => self.store(operand, self.x),
            Mnemonic::Sty => self.store(operand, self.y),
            Mnemonic::Tax => self.with_x(self.a),
            Mnemonic::Tay => self.with_y(self.a),
            Mnemonic::Tsx => self.with_x(self.sp),
            Mnemonic::Txa => self.with_a(self.x),
            Mnemonic::Tya => self.with_a(self.y),
            Mnemonic::Txs => Machine { sp: self.x, ..self },
            Mnemonic::Adc => self.with_sum(sum_with_carry(self.a, value, flags.carry)),
            Mnemonic::Sbc => self.with_sum(difference_with_borrow(self.a, value, flags.carry)),
            Mnemonic::And => self.with_a(self.a & value),
            Mnemonic::Ora => self.with_a(self.a | value),
            Mnemonic::Eor => self.with_a(self.a ^ value),
            Mnemonic::Asl => self.with_shifted(operand, rotated_left(value, false)),
            Mnemonic::Lsr => self.with_shifted(operand, rotated_right(value, false)),
            Mnemonic::Rol => self.with_shifted(operand, rotated_left(value, flags.carry)),
            Mnemonic::Ror => self.with_shifted(operand, rotated_right(value, flags.carry)),
            Mnemonic::Cmp => self.with_comparison(compared(self.a, value)),
            Mnemonic::Cpx => self.with_comparison(compared(self.x, value)),
            Mnemonic::Cpy => self.with_comparison(compared(self.y, value)),
            Mnemonic::Inc => self.with_stored(operand, wrap8(value + 1)),
            Mnemonic::Dec => self.with_stored(operand, wrap8(value - 1)),
            Mnemonic::Inx => self.with_x(wrap8(self.x + 1)),
            Mnemonic::Iny => self.with_y(wrap8(self.y + 1)),
            Mnemonic::Dex => self.with_x(wrap8(self.x - 1)),
            Mnemonic::Dey => self.with_y(wrap8(self.y - 1)),
            Mnemonic::Bcc => self.branch(operand, !flags.carry),
            Mnemonic::Bcs => self.branch(operand, flags.carry),
            Mnemonic::Bne => self.branch(operand, !flags.zero),
            Mnemonic::Beq => self.branch(operand, flags.zero),
            Mnemonic::Bpl => self.branch(operand, !flags.negative),
            Mnemonic::Bmi => self.branch(operand, flags.negative),
            Mnemonic::Bvc => self.branch(operand, !flags.overflow),
            Mnemonic::Bvs => self.branch(operand, flags.overflow),
            Mnemonic::Jmp => self.jump(operand),
            Mnemonic::Jsr => self.call(operand),
            Mnemonic::Rts => self.return_from_call(),
            Mnemonic::Rti => self.return_from_interrupt(),
            Mnemonic::Pha => self.push(self.a),
            Mnemonic::Php => self.push((Flags { bit4: true, bit5: true, ..flags }).byte()),
            Mnemonic::Pla => self.pop().with_a(self.pop().top()),
            Mnemonic::Plp => self.pop().with_status(self.pop().top()),
            Mnemonic::Clc => self.with_flag(Flag::Carry, false),
            Mnemonic::Sec => self.with_flag(Flag::Carry, true),
            Mnemonic::Cld => self.with_flag(Flag::Decimal, false),
            Mnemonic::Sed => self.with_flag(Flag::Decimal, true),
            Mnemonic::Cli => self.with_flag(Flag::InterruptDisable, false),
            Mnemonic::Sei => self.with_flag(Flag::InterruptDisable, true),
            Mnemonic::Clv => self.with_flag(Flag::Overflow, false),
            Mnemonic::Bit => self.with_bit_test(value),
            Mnemonic::Nop => self,
            Mnemonic::Brk => self,
        }
    }

    /// The table entry for the byte at the program counter.
    pub open spec fn fetch(self) -> Option<Instruction> {
        instruction_at(self.read(self.pc))
    }

    /// This machine with the program counter `count` bytes further, wrapping
    /// at the end of the address space.
    pub open spec fn advance(self, count: u8) -> Machine {
        Machine { pc: wrap16(self.pc + count), ..self }
    }

    /// This machine after one instruction, and how the instruction ended.
    ///
    /// The opcode at the program counter is looked up. A byte without an
    /// entry faults and changes nothing. Otherwise the program counter moves
    /// behind the opcode, the operand is resolved, the program counter moves
    /// behind the operand bytes, and the operation is applied. The halt
    /// instruction changes nothing more and reports `Halt`.
    pub open spec fn step(self) -> (Machine, StepResult) {
        match self.fetch() {
            None => (self, StepResult::Fault),
            Some(instruction) => {
                let at_operand = self.advance(1);
                let (operand, consumed) = at_operand.resolve(instruction.mode);
                let after = at_operand.advance(consumed).execute(instruction.mnemonic, operand);
                if instruction.mnemonic == Mnemonic::Brk {
                    (after, StepResult::Halt)
                } else {
                    (after, StepResult::Continue)
                }
            },
        }
    }

    /// This machine after at most `limit` instructions. The run stops early at
    /// the first instruction that halts or faults; `Continue` says that the
    /// limit ended it.
    pub open spec fn run_for(self, limit: nat) -> (Machine, StepResult)
        decreases limit,
    {
        if limit == 0 {
            (self, StepResult::Continue)
        } else {
            let (next, result) = self.step();
            if result == StepResult::Continue {
                next.run_for((limit - 1) as nat)
            } else {
                (next, result)
            }
        }
    }

    /// This machine after exactly `count` instructions, whatever their
    /// results.
    pub open spec fn after_steps(self, count: nat) -> Machine
        decreases count,
    {
        if count == 0 {
            self
        } else {
            self.step().0.after_steps((count - 1) as nat)
        }
    }

    /// A run from this machine halts or faults within `limit` instructions.
    pub open spec fn stops_within(self, limit: nat) -> bool {
        self.run_for(limit).1 != StepResult::Continue
    }

    /// A run from this machine halts or faults at some point.
    pub open spec fn terminates(self) -> bool {
        exists|limit: nat| self.stops_within(limit)
    }

    /// Where an unbounded run from this machine ends and how. It speaks of
    /// machines that terminate.
    pub open spec fn outcome(self) -> (Machine, StepResult)
        recommends
            self.terminates(),
    {
        self.run_for(choose|limit: nat| self.stops_within(limit))
    }
}

/// A run that has stopped within one limit ends the same way under every
/// larger limit.
pub proof fn lemma_run_extends(m: Machine, limit: nat, larger: nat)
    requires
        m.stops_within(limit),
        limit <= larger,
    ensures
        m.run_for(larger) == m.run_for(limit),
    decreases limit,
{
    if limit > 0 && m.step().1 == StepResult::Continue {
        lemma_run_extends(m.step().0, (limit - 1) as nat, (larger - 1) as nat);
    }
}

/// Running without a limit and stepping one instruction at a time are the
/// same thing: whenever a run from `m` stops within `limit` instructions, the
/// unbounded run ends in the state and with the result that `limit` single
/// steps, stopping at the first halt or fault, end in.
pub proof fn lemma_outcome_is_bounded_run(m: Machine, limit: nat)
    requires
        m.stops_within(limit),
    ensures
        m.terminates(),
        m.outcome() == m.run_for(limit),
{
    let chosen = choose|n: nat| m.stops_within(n);
    if chosen <= limit {
        lemma_run_extends(m, chosen, limit);
    } else {
        lemma_run_extends(m, limit, chosen);
    }
}

/// If the instruction that halts or faults is exactly the `count`-th of a
/// run, then `count` single steps from `m` end in the state in which the
/// unbounded run from `m` ends.
pub proof fn lemma_steps_reach_outcome(m: Machine, count: nat)
    requires
        count > 0,
        m.stops_within(count),
        !m.stops_within((count - 1) as nat),
    ensures
        m.after_steps(count) == m.outcome().0,
    decreases count,
{
    lemma_outcome_is_bounded_run(m, count);
    if count == 1 {
        assert(m.after_steps(1) == m.step().0) by {
            reveal_with_fuel(Machine::after_steps, 2);
        }
        assert(m.run_for(1).0 == m.step().0) by {
            reveal_with_fuel(Machine::run_for, 2);
        }
    } else {
        let next = m.step().0;
        assert(m.step().1 == StepResult::Continue);
        assert(m.run_for((count - 1) as nat) == next.run_for((count - 2) as nat));
        lemma_steps_reach_outcome(next, (count - 1) as nat);
        lemma_outcome_is_bounded_run(next, (count - 1) as nat);
    }
}

/// A step after a fault faults again: a machine that has faulted stays as it
/// is however often it is stepped.
pub proof fn lemma_fault_is_final(m: Machine, count: nat)
    requires
        m.step().1 == StepResult::Fault,
    ensures
        m.after_steps(count) == m,
    decreases count,
{
    if count > 0 {
        lemma_fault_is_final(m, (count - 1) as nat);
    }
}

/// A run that goes on after its first instruction ends where the run from the
/// second instruction ends.
pub proof fn lemma_outcome_after_step(m: Machine)
    requires
        m.terminates(),
        m.step().1 == StepResult::Continue,
    ensures
        m.step().0.terminates(),
        m.step().0.outcome() == m.outcome(),
{
    let chosen = choose|n: nat| m.stops_within(n);
    assert(chosen > 0);
    assert(m.step().0.stops_within((chosen - 1) as nat));
    lemma_outcome_is_bounded_run(m.step().0, (chosen - 1) as nat);
}

/// A run ends at its first instruction if that one halts or faults.
pub proof fn lemma_outcome_at_stop(m: Machine)
    requires
        m.step().1 != StepResult::Continue,
    ensures
        m.terminates(),
        m.outcome() == m.step(),
{
    assert(m.run_for(1) == m.step()) by {
        reveal_with_fuel(Machine::run_for, 2);
    }
    lemma_outcome_is_bounded_run(m, 1);
}

} // verus!
