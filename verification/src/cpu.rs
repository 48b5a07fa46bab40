//! The executable processor.
//!
//! [`CPU`] holds the registers, the status byte and the memory. Its view is
//! the [`Machine`] that those make up, and every method says what it does as a
//! function on that view.

use crate::addressing::{operand_length, AddressingMode, Operand};
use crate::alu::{
    add_with_carry, compare, decrement, displace, high_byte, increment, low_byte, make_word,
    offset_byte, offset_word, rotate_left, rotate_right, step_in_page, subtract_with_borrow,
    word_of, wrap16, Shifted, Sum,
};
use crate::instruction::{decode, Mnemonic};
use crate::machine::{
    lemma_outcome_after_step, lemma_outcome_at_stop, Machine, StepResult, ORIGIN,
};
use crate::status::{
    assign_flag, lemma_reading_determines_byte, pushed_status, replace_flags, test_flag,
    update_zero_negative, Flag, Flags,
};
use vstd::prelude::*;

verus! {

/// Why a load was rejected.
#[derive(Clone, Copy, Debug, PartialEq, Eq, Structural)]
pub enum LoadError {
    /// The data does not fit between its origin and the end of the address
    /// space.
    CapacityExceeded,
}

/// The processor with its memory.
pub struct CPU {
    /// The accumulator.
    pub a: u8,
    /// Index register X.
    pub x: u8,
    /// Index register Y.
    pub y: u8,
    /// The program counter.
    pub pc: u16,
    /// The stack pointer: the low byte of an address in page one.
    pub sp: u8,
    /// The status byte, `NV__DIZC`.
    pub s_flags: u8,
    /// The address space.
    pub memory: [u8; 65536],
}

impl View for CPU {
    type V = Machine;

    open spec fn view(&self) -> Machine {
        Machine {
            a: self.a,
            x: self.x,
            y: self.y,
            sp: self.sp,
            pc: self.pc,
            flags: Flags::of(self.s_flags),
            mem: self.memory@,
        }
    }
}

/// The view loses nothing: two processors with the same view are the same,
/// status byte and memory included.
pub proof fn lemma_view_is_faithful(a: CPU, b: CPU)
    requires
        a@ == b@,
    ensures
        a == b,
{
    lemma_reading_determines_byte(a.s_flags, b.s_flags);
    assert(a.memory =~= b.memory);
}

/// The memory of a processor spans the whole address space.
pub proof fn lemma_view_is_well_formed(cpu: CPU)
    ensures
        cpu@.wf(),
{
}

impl CPU {
    /// A processor with zeroed registers, flags and memory.
    pub fn new() -> (cpu: Self)
        ensures
            cpu@ == Machine::blank(),
    {
        let cpu = CPU { a: 0, x: 0, y: 0, pc: 0, sp: 0, s_flags: 0, memory: [0u8; 65536] };
        assert(cpu@.mem =~= Machine::blank().mem);
        cpu
    }

    /// The byte at `addr`.
    pub fn read_memory(&self, addr: u16) -> (value: u8)
        ensures
            value == self@.read(addr),
    {
        self.memory[addr as usize]
    }

    /// Stores `data` at `addr`. Nothing else changes.
    pub fn write_memory(&mut self, addr: u16, data: u8)
        ensures
            final(self)@ == old(self)@.write(addr, data),
    {
        self.memory[addr as usize] = data;
    }

    /// Copies `data` into memory from `origin` on. Data that would pass the
    /// end of the address space is rejected, and then nothing is copied.
    /// Registers and flags are not touched.
    pub fn load_block(&mut self, origin: u16, data: &[u8]) -> (r: Result<(), LoadError>)
        ensures
            r is Err <==> origin + data@.len() > 65536,
            r is Err ==> r == Err::<(), LoadError>(LoadError::CapacityExceeded) && *final(self)
                == *old(self),
            r is Ok ==> final(self)@ == old(self)@.load_block(origin, data@),
    {
        let count = data.len();
        let start = origin as usize;
        if count > 65536 - start {
            return Err(LoadError::CapacityExceeded);
        }
        let ghost before = self@;
        let mut i: usize = 0;
        while i < count
            invariant
                i <= count,
                count == data@.len(),
                start == origin,
                start + count <= 65536,
                self@ == (Machine { mem: self@.mem, ..before }),
                self@.mem.len() == 65536,
                forall|j: int|
                    0 <= j < 65536 ==> self@.mem[j] == if start <= j < start + i {
                        data@[j - start]
                    } else {
                        before.mem[j]
                    },
            decreases count - i,
        {
            self.memory[start + i] = data[i];
            i += 1;
        }
        assert(self@.mem =~= before.load_block(origin, data@).mem);
        Ok(())
    }

    /// Loads `program` at [`ORIGIN`] and points the program counter there.
    /// A program longer than the space from the origin to the end of memory
    /// is rejected, and then nothing changes.
    pub fn load(&mut self, program: Vec<u8>) -> (r: Result<(), LoadError>)
        ensures
            r is Err <==> program@.len() > 0x8000,
            r is Err ==> r == Err::<(), LoadError>(LoadError::CapacityExceeded) && *final(self)
                == *old(self),
            r is Ok ==> final(self)@ == old(self)@.load(program@),
    {
        match self.load_block(ORIGIN, program.as_slice()) {
            Ok(()) => {
                self.pc = ORIGIN;
                Ok(())
            },
            Err(e) => Err(e),
        }
    }

    /// Zeroes every register and flag. Memory is kept.
    pub fn reset(&mut self)
        ensures
            final(self)@ == old(self)@.reset(),
    {
        self.a = 0;
        self.x = 0;
        self.y = 0;
        self.sp = 0;
        self.pc = 0;
        self.s_flags = 0;
    }

    /// Whether `flag` is set.
    pub fn flag(&self, flag: Flag) -> (on: bool)
        ensures
            on == self@.flags.get(flag),
    {
        test_flag(self.s_flags, flag)
    }

    fn put_flag(&mut self, flag: Flag, on: bool)
        ensures
            final(self)@ == old(self)@.with_flag(flag, on),
    {
        self.s_flags = assign_flag(self.s_flags, flag, on);
    }

    fn put_zero_negative(&mut self, value: u8)
        ensures
            final(self)@ == old(self)@.with_zero_negative(value),
    {
        self.s_flags = update_zero_negative(self.s_flags, value);
    }

    fn put_a(&mut self, value: u8)
        ensures
            final(self)@ == old(self)@.with_a(value),
    {
        self.a = value;
        self.put_zero_negative(value);
    }

    fn put_x(&mut self, value: u8)
        ensures
            final(self)@ == old(self)@.with_x(value),
    {
        self.x = value;
        self.put_zero_negative(value);
    }

    fn put_y(&mut self, value: u8)
        ensures
            final(self)@ == old(self)@.with_y(value),
    {
        self.y = value;
        self.put_zero_negative(value);
    }

    fn pointer_at(&self, p: u16) -> (target: u16)
        ensures
            target == self@.pointer_at(p),
    {
        make_word(self.read_memory(p), self.read_memory(step_in_page(p)))
    }

    fn operand_word(&self) -> (w: u16)
        ensures
            w == word_of(self@.read(self.pc), self@.read(wrap16(self.pc + 1))),
    {
        make_word(self.read_memory(self.pc), self.read_memory(self.pc.wrapping_add(1)))
    }

    /// Finds the operand of an instruction in `mode` whose operand bytes start
    /// at the program counter. Returns the operand and the number of operand
    /// bytes; the program counter stays where it is.
    pub fn resolve(&self, mode: AddressingMode) -> (r: (Operand, u8))
        ensures
            r == self@.resolve(mode),
    {
        reveal(Machine::resolve);
        let operand = match mode {
            AddressingMode::Immediate => Operand::Immediate(self.read_memory(self.pc)),
            AddressingMode::ZeroPage => Operand::Address(self.read_memory(self.pc) as u16),
            AddressingMode::ZeroPageX => Operand::Address(
                offset_byte(self.read_memory(self.pc), self.x) as u16,
            ),
            AddressingMode::ZeroPageY => Operand::Address(
                offset_byte(self.read_memory(self.pc), self.y) as u16,
            ),
            AddressingMode::Absolute => Operand::Address(self.operand_word()),
            AddressingMode::AbsoluteX => Operand::Address(
                offset_word(self.operand_word(), self.x),
            ),
            AddressingMode::AbsoluteY => Operand::Address(
                offset_word(self.operand_word(), self.y),
            ),
            AddressingMode::Indirect => Operand::Address(self.pointer_at(self.operand_word())),
            AddressingMode::IndirectX => Operand::Address(
                self.pointer_at(offset_byte(self.read_memory(self.pc), self.x) as u16),
            ),
            AddressingMode::IndirectY => Operand::Address(
                offset_word(self.pointer_at(self.read_memory(self.pc) as u16), self.y),
            ),
            AddressingMode::Relative => Operand::Address(
                displace(self.pc.wrapping_add(1), self.read_memory(self.pc)),
            ),
            AddressingMode::Accumulator => Operand::Accumulator,
            AddressingMode::Implied => Operand::Implied,
        };
        (operand, operand_length(mode))
    }

    fn operand_value(&self, operand: Operand) -> (value: u8)
        ensures
            value == self@.value_of(operand),
    {
        match operand {
            Operand::Immediate(value) => value,
            Operand::Address(addr) => self.read_memory(addr),
            Operand::Accumulator => self.a,
            Operand::Implied => 0,
        }
    }

    fn store(&mut self, operand: Operand, value: u8)
        ensures
            final(self)@ == old(self)@.store(operand, value),
    {
        match operand {
            Operand::Address(addr) => self.write_memory(addr, value),
            Operand::Accumulator => {
                self.a = value;
            },
            _ => {},
        }
    }

    fn put_stored(&mut self, operand: Operand, value: u8)
        ensures
            final(self)@ == old(self)@.with_stored(operand, value),
    {
        self.store(operand, value);
        self.put_zero_negative(value);
    }

    fn put_sum(&mut self, sum: Sum)
        ensures
            final(self)@ == old(self)@.with_sum(sum),
    {
        self.put_flag(Flag::Carry, sum.carry);
        self.put_flag(Flag::Overflow, sum.overflow);
        self.put_a(sum.value);
    }

    fn put_shifted(&mut self, operand: Operand, shifted: Shifted)
        ensures
            final(self)@ == old(self)@.with_shifted(operand, shifted),
    {
        self.store(operand, shifted.value);
        self.put_flag(Flag::Carry, shifted.carry);
        self.put_zero_negative(shifted.value);
    }

    fn put_comparison(&mut self, difference: Shifted)
        ensures
            final(self)@ == old(self)@.with_comparison(difference),
    {
        self.put_flag(Flag::Carry, difference.carry);
        self.put_zero_negative(difference.value);
    }

    fn bit_test(&mut self, value: u8)
        ensures
            final(self)@ == old(self)@.with_bit_test(value),
    {
        self.put_flag(Flag::Zero, self.a & value == 0);
        self.put_flag(Flag::Overflow, value & 0x40 != 0);
        self.put_flag(Flag::Negative, value & 0x80 != 0);
    }

    fn jump(&mut self, operand: Operand)
        ensures
            final(self)@ == old(self)@.jump(operand),
    {
        match operand {
            Operand::Address(target) => {
                self.pc = target;
            },
            _ => {},
        }
    }

    fn branch(&mut self, operand: Operand, taken: bool)
        ensures
            final(self)@ == old(self)@.branch(operand, taken),
    {
        if taken {
            self.jump(operand);
        }
    }

    fn push(&mut self, value: u8)
        ensures
            final(self)@ == old(self)@.push(value),
    {
        self.write_memory(0x0100 + self.sp as u16, value);
        self.sp = decrement(self.sp);
    }

    fn pull(&mut self) -> (value: u8)
        ensures
            final(self)@ == old(self)@.pop(),
            value == old(self)@.pop().top(),
    {
        self.sp = increment(self.sp);
        self.read_memory(0x0100 + self.sp as u16)
    }

    fn call(&mut self, operand: Operand)
        ensures
            final(self)@ == old(self)@.call(operand),
    {
        let last = self.pc.wrapping_sub(1);
        self.push(high_byte(last));
        self.push(low_byte(last));
        self.jump(operand);
    }

    fn return_from_call(&mut self)
        ensures
            final(self)@ == old(self)@.return_from_call(),
    {
        let low = self.pull();
        let high = self.pull();
        self.pc = make_word(low, high).wrapping_add(1);
    }

    fn pull_status(&mut self)
        ensures
            final(self)@ == old(self)@.pop().with_status(old(self)@.pop().top()),
    {
        let status = self.pull();
        self.s_flags = replace_flags(self.s_flags, status);
    }

    fn return_from_interrupt(&mut self)
        ensures
            final(self)@ == old(self)@.return_from_interrupt(),
    {
        self.pull_status();
        let low = self.pull();
        let high = self.pull();
        self.pc = make_word(low, high);
    }

    /// Applies the operation `mnemonic` to `operand`. The program counter is
    /// taken to point behind the instruction already.
    pub fn execute(&mut self, mnemonic: Mnemonic, operand: Operand)
        ensures
            final(self)@ == old(self)@.execute(mnemonic, operand),
    {
        reveal(Machine::execute);
        let value = self.operand_value(operand);
        let carry = self.flag(Flag::Carry);
        match mnemonic {
            Mnemonic::Lda => self.put_a(value),
            Mnemonic::Ldx => self.put_x(value),
            Mnemonic::Ldy => self.put_y(value),
            Mnemonic::Sta => self.store(operand, self.a),
            Mnemonic::Stx => self.store(operand, self.x),
            Mnemonic::Sty => self.store(operand, self.y),
            Mnemonic::Tax => self.put_x(self.a),
            Mnemonic::Tay => self.put_y(self.a),
            Mnemonic::Tsx => self.put_x(self.sp),
            Mnemonic::Txa => self.put_a(self.x),
            Mnemonic::Tya => self.put_a(self.y),
            Mnemonic::Txs => {
                self.sp = self.x;
            },
            Mnemonic::Adc => self.put_sum(add_with_carry(self.a, value, carry)),
            Mnemonic::Sbc => self.put_sum(subtract_with_borrow(self.a, value, carry)),
            Mnemonic::And => self.put_a(self.a & value),
            Mnemonic::Ora => self.put_a(self.a | value),
            Mnemonic::Eor => self.put_a(self.a ^ value),
            Mnemonic::Asl => self.put_shifted(operand, rotate_left(value, false)),
            Mnemonic::Lsr => self.put_shifted(operand, rotate_right(value, false)),
            Mnemonic::Rol => self.put_shifted(operand, rotate_left(value, carry)),
            Mnemonic::Ror => self.put_shifted(operand, rotate_right(value, carry)),
            Mnemonic::Cmp => self.put_comparison(compare(self.a, value)),
            Mnemonic::Cpx => self.put_comparison(compare(self.x, value)),
            Mnemonic::Cpy => self.put_comparison(compare(self.y, value)),
            Mnemonic::Inc => self.put_stored(operand, increment(value)),
            Mnemonic::Dec => self.put_stored(operand, decrement(value)),
            Mnemonic::Inx => self.put_x(increment(self.x)),
            Mnemonic::Iny => self.put_y(increment(self.y)),
            Mnemonic::Dex => self.put_x(decrement(self.x)),
            Mnemonic::Dey => self.put_y(decrement(self.y)),
            Mnemonic::Bcc => self.branch(operand, !carry),
            Mnemonic::Bcs => self.branch(operand, carry),
            Mnemonic::Bne => self.branch(operand, !self.flag(Flag::Zero)),
            Mnemonic::Beq => self.branch(operand, self.flag(Flag::Zero)),
            Mnemonic::Bpl => self.branch(operand, !self.flag(Flag::Negative)),
            Mnemonic::Bmi => self.branch(operand, self.flag(Flag::Negative)),
            Mnemonic::Bvc => self.branch(operand, !self.flag(Flag::Overflow)),
            Mnemonic::Bvs => self.branch(operand, self.flag(Flag::Overflow)),
            Mnemonic::Jmp => self.jump(operand),
            Mnemonic::Jsr => self.call(operand),
            Mnemonic::Rts => self.return_from_call(),
            Mnemonic::Rti => self.return_from_interrupt(),
            Mnemonic::Pha => self.push(self.a),
            Mnemonic::Php => self.push(pushed_status(self.s_flags)),
            Mnemonic::Pla => {
                let pulled = self.pull();
                self.put_a(pulled);
            },
            Mnemonic::Plp => self.pull_status(),
            Mnemonic::Clc => self.put_flag(Flag::Carry, false),
            Mnemonic::Sec => self.put_flag(Flag::Carry, true),
            Mnemonic::Cld => self.put_flag(Flag::Decimal, false),
            Mnemonic::Sed => self.put_flag(Flag::Decimal, true),
            Mnemonic::Cli => self.put_flag(Flag::InterruptDisable, false),
            Mnemonic::Sei => self.put_flag(Flag::InterruptDisable, true),
            Mnemonic::Clv => self.put_flag(Flag::Overflow, false),
            Mnemonic::Bit => self.bit_test(value),
            Mnemonic::Nop => {},
            Mnemonic::Brk => {},
        }
    }

    /// Runs one instruction and says how it ended. A byte at the program
    /// counter that is no documented opcode faults, and then nothing changes,
    /// the program counter included.
    pub fn step(&mut self) -> (r: StepResult)
        ensures
            final(self)@ == old(self)@.step().0,
            r == old(self)@.step().1,
    {
        let opcode = self.read_memory(self.pc);
        match decode(opcode) {
            None => StepResult::Fault,
            Some(instruction) => {
                self.pc = self.pc.wrapping_add(1);
                let (operand, consumed) = self.resolve(instruction.mode);
                self.pc = self.pc.wrapping_add(consumed as u16);
                self.execute(instruction.mnemonic, operand);
                match instruction.mnemonic {
                    Mnemonic::Brk => StepResult::Halt,
                    _ => StepResult::Continue,
                }
            },
        }
    }

    /// Runs instructions until one halts or faults, and says which. There is
    /// no limit on the number of instructions: the call returns only if the
    /// program stops, which is what it asks of its caller. To run a program
    /// that may not stop, use [`CPU::run_steps`].
    pub fn interpreter(&mut self) -> (r: StepResult)
        requires
            old(self)@.terminates(),
        ensures
            final(self)@ == old(self)@.outcome().0,
            r == old(self)@.outcome().1,
            r != StepResult::Continue,
    {
        let ghost start = self@;
        let ghost mut remaining: nat = choose|n: nat| start.stops_within(n);
        let mut result = StepResult::Continue;
        loop
            invariant_except_break
                self@.stops_within(remaining),
                self@.terminates(),
                self@.outcome() == start.outcome(),
            ensures
                self@ == start.outcome().0,
                result == start.outcome().1,
                result != StepResult::Continue,
            decreases remaining,
        {
            let ghost before = self@;
            result = self.step();
            match result {
                StepResult::Continue => {
                    proof {
                        lemma_outcome_after_step(before);
                        remaining = (remaining - 1) as nat;
                    }
                },
                _ => {
                    proof {
                        lemma_outcome_at_stop(before);
                    }
                    break ;
                },
            }
        }
        result
    }

    /// Runs at most `limit` instructions, stopping early at the first one
    /// that halts or faults. `Continue` says that the limit was reached with
    /// the program still running.
    pub fn run_steps(&mut self, limit: usize) -> (r: StepResult)
        ensures
            final(self)@ == old(self)@.run_for(limit as nat).0,
            r == old(self)@.run_for(limit as nat).1,
    {
        let ghost start = self@;
        let mut done: usize = 0;
        while done < limit
            invariant
                done <= limit,
                start == old(self)@,
                start.run_for(limit as nat) == self@.run_for((limit - done) as nat),
            decreases limit - done,
        {
            let result = self.step();
            match result {
                StepResult::Continue => {},
                _ => {
                    return result;
                },
            }
            done += 1;
        }
        StepResult::Continue
    }

    /// Zeroes the registers and flags, loads `program` at [`ORIGIN`] and runs
    /// it from there until it halts or faults. A program that does not fit is
    /// rejected, and then nothing changes, the registers included. Memory
    /// outside the program keeps what it held.
    pub fn load_and_interpret(&mut self, program: Vec<u8>) -> (r: Result<StepResult, LoadError>)
        requires
            program@.len() <= 0x8000 ==> old(self)@.reset().load(program@).terminates(),
        ensures
            r is Err <==> program@.len() > 0x8000,
            r is Err ==> r == Err::<StepResult, LoadError>(LoadError::CapacityExceeded)
                && *final(self) == *old(self),
            r matches Ok(end) ==> {
                &&& final(self)@ == old(self)@.reset().load(program@).outcome().0
                &&& end == old(self)@.reset().load(program@).outcome().1
                &&& end != StepResult::Continue
            },
    {
        if program.len() > 0x8000 {
            return Err(LoadError::CapacityExceeded);
        }
        self.reset();
        match self.load(program) {
            Ok(()) => Ok(self.interpreter()),
            Err(e) => Err(e),
        }
    }
}

} // verus!
