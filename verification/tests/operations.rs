use nes_cpu::{Flag, Mnemonic, Operand, StepResult, CPU};

fn run(program: &[u8]) -> CPU {
    let mut cpu = CPU::new();
    assert_eq!(cpu.load(program.to_vec()), Ok(()));
    assert_eq!(cpu.interpreter(), StepResult::Halt);
    cpu
}

fn flags(cpu: &CPU) -> (bool, bool, bool, bool) {
    (cpu.flag(Flag::Negative), cpu.flag(Flag::Overflow), cpu.flag(Flag::Zero), cpu.flag(Flag::Carry))
}

#[test]
fn adc_without_carry_or_overflow() {
    let cpu = run(&[0xA9, 0x10, 0x69, 0x20, 0x00]);
    assert_eq!(cpu.a, 0x30);
    assert_eq!(flags(&cpu), (false, false, false, false));
}

#[test]
fn adc_signed_overflow_into_negative() {
    let cpu = run(&[0xA9, 0x50, 0x69, 0x50, 0x00]);
    assert_eq!(cpu.a, 0xA0);
    assert_eq!(flags(&cpu), (true, true, false, false));
}

#[test]
fn adc_signed_overflow_into_positive() {
    let cpu = run(&[0xA9, 0xD0, 0x69, 0x90, 0x00]);
    assert_eq!(cpu.a, 0x60);
    assert_eq!(flags(&cpu), (false, true, false, true));
}

#[test]
fn adc_carry_out_and_zero() {
    let cpu = run(&[0xA9, 0xFF, 0x69, 0x01, 0x00]);
    assert_eq!(cpu.a, 0x00);
    assert_eq!(flags(&cpu), (false, false, true, true));
}

#[test]
fn adc_adds_the_carry_in() {
    let cpu = run(&[0x38, 0xA9, 0x01, 0x69, 0x01, 0x00]);
    assert_eq!(cpu.a, 0x03);
    assert_eq!(flags(&cpu), (false, false, false, false));
}

#[test]
fn adc_carry_in_tips_the_overflow() {
    let cpu = run(&[0x38, 0xA9, 0x7F, 0x69, 0x00, 0x00]);
    assert_eq!(cpu.a, 0x80);
    assert_eq!(flags(&cpu), (true, true, false, false));
}

#[test]
fn adc_ignores_the_decimal_flag() {
    let cpu = run(&[0xF8, 0xA9, 0x09, 0x69, 0x01, 0x00]);
    assert_eq!(cpu.a, 0x0A);
    assert!(cpu.flag(Flag::Decimal));
}

#[test]
fn sbc_without_borrow() {
    let cpu = run(&[0x38, 0xA9, 0x05, 0xE9, 0x03, 0x00]);
    assert_eq!(cpu.a, 0x02);
    assert_eq!(flags(&cpu), (false, false, false, true));
}

#[test]
fn sbc_with_borrow_in() {
    let cpu = run(&[0x18, 0xA9, 0x05, 0xE9, 0x03, 0x00]);
    assert_eq!(cpu.a, 0x01);
    assert_eq!(flags(&cpu), (false, false, false, true));
}

#[test]
fn sbc_borrows_below_zero() {
    let cpu = run(&[0x38, 0xA9, 0x00, 0xE9, 0x01, 0x00]);
    assert_eq!(cpu.a, 0xFF);
    assert_eq!(flags(&cpu), (true, false, false, false));
}

#[test]
fn sbc_signed_overflow() {
    let cpu = run(&[0x38, 0xA9, 0x50, 0xE9, 0xB0, 0x00]);
    assert_eq!(cpu.a, 0xA0);
    assert_eq!(flags(&cpu), (true, true, false, false));
    let cpu = run(&[0x38, 0xA9, 0x50, 0xE9, 0xF0, 0x00]);
    assert_eq!(cpu.a, 0x60);
    assert_eq!(flags(&cpu), (false, false, false, false));
    let cpu = run(&[0x38, 0xA9, 0xD0, 0xE9, 0x70, 0x00]);
    assert_eq!(cpu.a, 0x60);
    assert_eq!(flags(&cpu), (false, true, false, true));
}

#[test]
fn sbc_equal_operands_give_zero() {
    let cpu = run(&[0x38, 0xA9, 0x42, 0xE9, 0x42, 0x00]);
    assert_eq!(cpu.a, 0x00);
    assert_eq!(flags(&cpu), (false, false, true, true));
}

#[test]
fn logical_operations() {
    let cpu = run(&[0xA9, 0xF0, 0x29, 0x3C, 0x00]);
    assert_eq!(cpu.a, 0x30);
    assert_eq!(flags(&cpu), (false, false, false, false));
    let cpu = run(&[0xA9, 0xF0, 0x29, 0x0F, 0x00]);
    assert_eq!(cpu.a, 0x00);
    assert_eq!(flags(&cpu), (false, false, true, false));
    let cpu = run(&[0xA9, 0xF0, 0x09, 0x0C, 0x00]);
    assert_eq!(cpu.a, 0xFC);
    assert_eq!(flags(&cpu), (true, false, false, false));
    let cpu = run(&[0xA9, 0xF0, 0x49, 0xFF, 0x00]);
    assert_eq!(cpu.a, 0x0F);
    assert_eq!(flags(&cpu), (false, false, false, false));
    let cpu = run(&[0xA9, 0xAA, 0x49, 0xAA, 0x00]);
    assert_eq!(cpu.a, 0x00);
    assert_eq!(flags(&cpu), (false, false, true, false));
}

#[test]
fn asl_on_the_accumulator() {
    let cpu = run(&[0xA9, 0x81, 0x0A, 0x00]);
    assert_eq!(cpu.a, 0x02);
    assert_eq!(flags(&cpu), (false, false, false, true));
    let cpu = run(&[0x38, 0xA9, 0x40, 0x0A, 0x00]);
    assert_eq!(cpu.a, 0x80);
    assert_eq!(flags(&cpu), (true, false, false, false));
    let cpu = run(&[0xA9, 0x80, 0x0A, 0x00]);
    assert_eq!(cpu.a, 0x00);
    assert_eq!(flags(&cpu), (false, false, true, true));
}

#[test]
fn lsr_on_the_accumulator() {
    let cpu = run(&[0xA9, 0x01, 0x4A, 0x00]);
    assert_eq!(cpu.a, 0x00);
    assert_eq!(flags(&cpu), (false, false, true, true));
    let cpu = run(&[0x38, 0xA9, 0xFE, 0x4A, 0x00]);
    assert_eq!(cpu.a, 0x7F);
    assert_eq!(flags(&cpu), (false, false, false, false));
}

#[test]
fn rol_takes_the_carry_in() {
    let cpu = run(&[0x38, 0xA9, 0x80, 0x2A, 0x00]);
    assert_eq!(cpu.a, 0x01);
    assert_eq!(flags(&cpu), (false, false, false, true));
    let cpu = run(&[0x18, 0xA9, 0x40, 0x2A, 0x00]);
    assert_eq!(cpu.a, 0x80);
    assert_eq!(flags(&cpu), (true, false, false, false));
}

#[test]
fn ror_takes_the_carry_in() {
    let cpu = run(&[0x38, 0xA9, 0x01, 0x6A, 0x00]);
    assert_eq!(cpu.a, 0x80);
    assert_eq!(flags(&cpu), (true, false, false, true));
    let cpu = run(&[0x18, 0xA9, 0x02, 0x6A, 0x00]);
    assert_eq!(cpu.a, 0x01);
    assert_eq!(flags(&cpu), (false, false, false, false));
}

#[test]
fn shifts_in_memory_leave_the_accumulator() {
    let mut cpu = CPU::new();
    cpu.write_memory(0x0010, 0x81);
    cpu.write_memory(0x0011, 0x81);
    cpu.write_memory(0x0212, 0x81);
    cpu.write_memory(0x0213, 0x81);
    assert_eq!(
        cpu.load(vec![
            0xA9, 0x33, // LDA #$33
            0x06, 0x10, // ASL $10
            0x46, 0x11, // LSR $11
            0x2E, 0x12, 0x02, // ROL $0212
            0x6E, 0x13, 0x02, // ROR $0213
            0x00,
        ]),
        Ok(())
    );
    assert_eq!(cpu.interpreter(), StepResult::Halt);
    assert_eq!(cpu.a, 0x33);
    assert_eq!(cpu.read_memory(0x0010), 0x02);
    assert_eq!(cpu.read_memory(0x0011), 0x40);
    assert_eq!(cpu.read_memory(0x0212), 0x03);
    assert_eq!(cpu.read_memory(0x0213), 0xC0);
    assert_eq!(flags(&cpu), (true, false, false, true));
}

#[test]
fn compare_equal_less_greater() {
    let cpu = run(&[0xA9, 0x40, 0xC9, 0x40, 0x00]);
    assert_eq!(flags(&cpu), (false, false, true, true));
    assert_eq!(cpu.a, 0x40);
    let cpu = run(&[0xA9, 0x40, 0xC9, 0x41, 0x00]);
    assert_eq!(flags(&cpu), (true, false, false, false));
    let cpu = run(&[0xA9, 0x80, 0xC9, 0x01, 0x00]);
    assert_eq!(flags(&cpu), (false, false, false, true));
    let cpu = run(&[0xA9, 0x01, 0xC9, 0x80, 0x00]);
    assert_eq!(flags(&cpu), (true, false, false, false));
}

#[test]
fn compare_index_registers() {
    let cpu = run(&[0xA2, 0x10, 0xE0, 0x10, 0x00]);
    assert_eq!(flags(&cpu), (false, false, true, true));
    let cpu = run(&[0xA2, 0x10, 0xE0, 0x11, 0x00]);
    assert_eq!(flags(&cpu), (true, false, false, false));
    let cpu = run(&[0xA0, 0x10, 0xC0, 0x0F, 0x00]);
    assert_eq!(flags(&cpu), (false, false, false, true));
    assert_eq!(cpu.y, 0x10);
}

#[test]
fn compare_keeps_overflow() {
    let cpu = run(&[0xA9, 0x50, 0x69, 0x50, 0xC9, 0xA0, 0x00]);
    assert_eq!(flags(&cpu), (false, true, true, true));
}

#[test]
fn increment_and_decrement_memory() {
    let mut cpu = CPU::new();
    cpu.write_memory(0x0010, 0xFF);
    cpu.write_memory(0x0011, 0x00);
    assert_eq!(cpu.load(vec![0xE6, 0x10, 0xC6, 0x11, 0x00]), Ok(()));
    assert_eq!(cpu.step(), StepResult::Continue);
    assert_eq!(cpu.read_memory(0x0010), 0x00);
    assert_eq!(flags(&cpu), (false, false, true, false));
    assert_eq!(cpu.step(), StepResult::Continue);
    assert_eq!(cpu.read_memory(0x0011), 0xFF);
    assert_eq!(flags(&cpu), (true, false, false, false));
    assert_eq!(cpu.a, 0);
}

#[test]
fn increment_and_decrement_registers() {
    let cpu = run(&[0xA2, 0xFF, 0xE8, 0x00]);
    assert_eq!(cpu.x, 0x00);
    assert_eq!(flags(&cpu), (false, false, true, false));
    let cpu = run(&[0xA0, 0x7F, 0xC8, 0x00]);
    assert_eq!(cpu.y, 0x80);
    assert_eq!(flags(&cpu), (true, false, false, false));
    let cpu = run(&[0xCA, 0x00]);
    assert_eq!(cpu.x, 0xFF);
    assert_eq!(flags(&cpu), (true, false, false, false));
    let cpu = run(&[0xA0, 0x01, 0x88, 0x00]);
    assert_eq!(cpu.y, 0x00);
    assert_eq!(flags(&cpu), (false, false, true, false));
}

#[test]
fn transfers() {
    let cpu = run(&[0xA9, 0x80, 0xAA, 0xA8, 0x00]);
    assert_eq!((cpu.a, cpu.x, cpu.y), (0x80, 0x80, 0x80));
    assert_eq!(flags(&cpu), (true, false, false, false));
    let cpu = run(&[0xA2, 0x00, 0xA9, 0x55, 0x8A, 0x00]);
    assert_eq!(cpu.a, 0x00);
    assert_eq!(flags(&cpu), (false, false, true, false));
    let cpu = run(&[0xA0, 0x33, 0x98, 0x00]);
    assert_eq!(cpu.a, 0x33);
}

#[test]
fn stack_pointer_transfers() {
    let cpu = run(&[0xA2, 0x00, 0x9A, 0x00]);
    assert_eq!(cpu.sp, 0x00);
    assert_eq!(flags(&cpu), (false, false, true, false));
    let cpu = run(&[0xA2, 0xF0, 0x9A, 0xA2, 0x01, 0x9A, 0x00]);
    assert_eq!(cpu.sp, 0x01);
    assert_eq!(flags(&cpu), (false, false, false, false));
    let cpu = run(&[0xA2, 0xF0, 0x9A, 0xA2, 0x01, 0xBA, 0x00]);
    assert_eq!(cpu.x, 0xF0);
    assert_eq!(flags(&cpu), (true, false, false, false));
}

#[test]
fn branches_taken_and_not_taken() {
    // Each pair: the branch skips an INX when taken.
    let cases: [(u8, u8, bool); 16] = [
        (0x90, 0x18, true),
        (0x90, 0x38, false),
        (0xB0, 0x38, true),
        (0xB0, 0x18, false),
        (0xD0, 0x01, true),
        (0xD0, 0x00, false),
        (0xF0, 0x00, true),
        (0xF0, 0x01, false),
        (0x10, 0x01, true),
        (0x10, 0x80, false),
        (0x30, 0x80, true),
        (0x30, 0x01, false),
        (0x50, 0x01, true),
        (0x50, 0x7F, false),
        (0x70, 0x7F, true),
        (0x70, 0x01, false),
    ];
    for (branch, setup, taken) in cases {
        let program: Vec<u8> = match branch {
            0x90 | 0xB0 => vec![setup, branch, 0x01, 0xE8, 0x00],
            0x50 | 0x70 => vec![0xA9, setup, 0x69, 0x01, branch, 0x01, 0xE8, 0x00],
            _ => vec![0xA9, setup, branch, 0x01, 0xE8, 0x00],
        };
        let cpu = run(&program);
        assert_eq!(cpu.x == 0, taken, "branch {:#04x} after {:#04x}", branch, setup);
        assert_eq!(cpu.pc as usize, 0x8000 + program.len());
    }
}

#[test]
fn branch_backward_loops() {
    let cpu = run(&[0xA2, 0x03, 0xA9, 0x00, 0x18, 0x69, 0x05, 0xCA, 0xD0, 0xFA, 0x00]);
    assert_eq!(cpu.a, 15);
    assert_eq!(cpu.x, 0);
}

#[test]
fn branch_changes_no_flag() {
    let mut cpu = CPU::new();
    assert_eq!(cpu.load(vec![0xF0, 0x10]), Ok(()));
    cpu.s_flags = 0xFF;
    assert_eq!(cpu.step(), StepResult::Continue);
    assert_eq!(cpu.pc, 0x8012);
    assert_eq!(cpu.s_flags, 0xFF);
}

#[test]
fn jump_absolute_and_indirect() {
    let cpu = run(&[0x4C, 0x05, 0x80, 0xE8, 0x00, 0xC8, 0x00]);
    assert_eq!((cpu.x, cpu.y), (0, 1));
    assert_eq!(cpu.pc, 0x8007);
    let mut cpu = CPU::new();
    cpu.write_memory(0x02FF, 0x05);
    cpu.write_memory(0x0200, 0x80);
    cpu.write_memory(0x0300, 0x90);
    assert_eq!(cpu.load(vec![0x6C, 0xFF, 0x02, 0xE8, 0x00, 0xC8, 0x00]), Ok(()));
    assert_eq!(cpu.interpreter(), StepResult::Halt);
    assert_eq!((cpu.x, cpu.y), (0, 1));
    assert_eq!(cpu.pc, 0x8007);
}

#[test]
fn subroutine_call_and_return() {
    let mut cpu = CPU::new();
    assert_eq!(cpu.load(vec![0x20, 0x05, 0x80, 0x00, 0xEA, 0xA9, 0x07, 0x60]), Ok(()));
    assert_eq!(cpu.step(), StepResult::Continue);
    assert_eq!(cpu.pc, 0x8005);
    assert_eq!(cpu.sp, 0xFE);
    assert_eq!(cpu.read_memory(0x0100), 0x80);
    assert_eq!(cpu.read_memory(0x01FF), 0x02);
    assert_eq!(cpu.step(), StepResult::Continue);
    assert_eq!(cpu.step(), StepResult::Continue);
    assert_eq!(cpu.pc, 0x8003);
    assert_eq!(cpu.sp, 0x00);
    assert_eq!(cpu.step(), StepResult::Halt);
    assert_eq!(cpu.a, 7);
    assert_eq!(cpu.pc, 0x8004);
    assert_eq!(cpu.s_flags, 0);
}

#[test]
fn nested_subroutines_with_a_set_stack_pointer() {
    let cpu = run(&[
        0xA2, 0xFF, 0x9A, // LDX #$FF, TXS
        0x20, 0x08, 0x80, // JSR $8008
        0xE8, // INX
        0x00, // halt
        0x20, 0x0C, 0x80, // JSR $800C
        0x60, // RTS
        0xC8, // INY
        0x60, // RTS
    ]);
    assert_eq!(cpu.x, 0x00);
    assert_eq!(cpu.y, 0x01);
    assert_eq!(cpu.sp, 0xFF);
    assert_eq!(cpu.pc, 0x8008);
    assert_eq!(cpu.read_memory(0x01FF), 0x80);
    assert_eq!(cpu.read_memory(0x01FE), 0x05);
    assert_eq!(cpu.read_memory(0x01FD), 0x80);
    assert_eq!(cpu.read_memory(0x01FC), 0x0A);
}

#[test]
fn push_and_pull_the_accumulator() {
    let mut cpu = CPU::new();
    assert_eq!(cpu.load(vec![0xA9, 0x42, 0x48, 0xA9, 0x00, 0x68, 0x00]), Ok(()));
    assert_eq!(cpu.run_steps(2), StepResult::Continue);
    assert_eq!(cpu.sp, 0xFF);
    assert_eq!(cpu.read_memory(0x0100), 0x42);
    assert_eq!(cpu.step(), StepResult::Continue);
    assert!(cpu.flag(Flag::Zero));
    assert_eq!(cpu.step(), StepResult::Continue);
    assert_eq!(cpu.a, 0x42);
    assert_eq!(cpu.sp, 0x00);
    assert_eq!(flags(&cpu), (false, false, false, false));
}

#[test]
fn pull_sets_zero_and_negative() {
    let mut cpu = CPU::new();
    cpu.write_memory(0x0101, 0x80);
    cpu.write_memory(0x0102, 0x00);
    assert_eq!(cpu.load(vec![0x68, 0x68, 0x00]), Ok(()));
    assert_eq!(cpu.step(), StepResult::Continue);
    assert_eq!(cpu.a, 0x80);
    assert_eq!(cpu.sp, 0x01);
    assert_eq!(flags(&cpu), (true, false, false, false));
    assert_eq!(cpu.step(), StepResult::Continue);
    assert_eq!(cpu.a, 0x00);
    assert_eq!(cpu.sp, 0x02);
    assert_eq!(flags(&cpu), (false, false, true, false));
}

#[test]
fn stack_wraps_inside_page_one() {
    let mut cpu = CPU::new();
    assert_eq!(cpu.load(vec![0xA2, 0xFF, 0x9A, 0x68, 0x00]), Ok(()));
    cpu.write_memory(0x0100, 0x21);
    cpu.write_memory(0x0200, 0x99);
    assert_eq!(cpu.interpreter(), StepResult::Halt);
    assert_eq!(cpu.a, 0x21);
    assert_eq!(cpu.sp, 0x00);
}

#[test]
fn push_and_pull_the_status() {
    let mut cpu = CPU::new();
    assert_eq!(cpu.load(vec![0x38, 0xF8, 0x08, 0x18, 0xD8, 0x28, 0x00]), Ok(()));
    assert_eq!(cpu.run_steps(3), StepResult::Continue);
    assert_eq!(cpu.s_flags, 0x09);
    assert_eq!(cpu.read_memory(0x0100), 0x39);
    assert_eq!(cpu.sp, 0xFF);
    assert_eq!(cpu.run_steps(2), StepResult::Continue);
    assert_eq!(cpu.s_flags, 0x00);
    assert_eq!(cpu.step(), StepResult::Continue);
    assert_eq!(cpu.s_flags, 0x09);
    assert_eq!(cpu.sp, 0x00);
}

#[test]
fn pulled_status_keeps_bits_four_and_five() {
    let mut cpu = CPU::new();
    cpu.write_memory(0x0101, 0xFF);
    cpu.write_memory(0x0102, 0x00);
    assert_eq!(cpu.load(vec![0x28, 0x28]), Ok(()));
    assert_eq!(cpu.step(), StepResult::Continue);
    assert_eq!(cpu.s_flags, 0xCF);
    cpu.s_flags = 0xFF;
    assert_eq!(cpu.step(), StepResult::Continue);
    assert_eq!(cpu.s_flags, 0x30);
}

#[test]
fn status_round_trips_through_the_stack() {
    for status in [0x00u8, 0x10, 0x20, 0x30, 0xC3, 0xFF, 0x6D] {
        let mut cpu = CPU::new();
        assert_eq!(cpu.load(vec![0x08, 0x28]), Ok(()));
        cpu.s_flags = status;
        assert_eq!(cpu.run_steps(2), StepResult::Continue);
        assert_eq!(cpu.s_flags, status);
        assert_eq!(cpu.sp, 0);
        assert_eq!(cpu.read_memory(0x0100), status | 0x30);
    }
}

#[test]
fn return_from_interrupt() {
    let mut cpu = CPU::new();
    cpu.write_memory(0x0101, 0xC3);
    cpu.write_memory(0x0102, 0x34);
    cpu.write_memory(0x0103, 0x12);
    assert_eq!(cpu.load(vec![0x40]), Ok(()));
    cpu.s_flags = 0x10;
    assert_eq!(cpu.step(), StepResult::Continue);
    assert_eq!(cpu.pc, 0x1234);
    assert_eq!(cpu.sp, 0x03);
    assert_eq!(cpu.s_flags, 0xD3);
}

#[test]
fn flag_instructions() {
    let cpu = run(&[0x38, 0xF8, 0x78, 0x00]);
    assert_eq!(cpu.s_flags, 0x0D);
    let mut cpu = CPU::new();
    assert_eq!(cpu.load(vec![0x18, 0xD8, 0x58, 0xB8]), Ok(()));
    cpu.s_flags = 0xFF;
    assert_eq!(cpu.step(), StepResult::Continue);
    assert_eq!(cpu.s_flags, 0xFE);
    assert_eq!(cpu.step(), StepResult::Continue);
    assert_eq!(cpu.s_flags, 0xF6);
    assert_eq!(cpu.step(), StepResult::Continue);
    assert_eq!(cpu.s_flags, 0xF2);
    assert_eq!(cpu.step(), StepResult::Continue);
    assert_eq!(cpu.s_flags, 0xB2);
}

#[test]
fn bit_test() {
    let mut cpu = CPU::new();
    cpu.write_memory(0x0010, 0xC0);
    cpu.write_memory(0x0211, 0x3F);
    assert_eq!(cpu.load(vec![0xA9, 0x0F, 0x24, 0x10, 0x2C, 0x11, 0x02, 0x00]), Ok(()));
    assert_eq!(cpu.run_steps(2), StepResult::Continue);
    assert_eq!(flags(&cpu), (true, true, true, false));
    assert_eq!(cpu.a, 0x0F);
    assert_eq!(cpu.step(), StepResult::Continue);
    assert_eq!(flags(&cpu), (false, false, false, false));
    assert_eq!(cpu.read_memory(0x0010), 0xC0);
}

#[test]
fn nop_changes_only_the_program_counter() {
    let mut cpu = CPU::new();
    assert_eq!(cpu.load(vec![0xEA]), Ok(()));
    cpu.a = 1;
    cpu.x = 2;
    cpu.y = 3;
    cpu.sp = 4;
    cpu.s_flags = 0xA5;
    let memory = cpu.memory;
    assert_eq!(cpu.step(), StepResult::Continue);
    assert_eq!((cpu.a, cpu.x, cpu.y, cpu.sp, cpu.s_flags, cpu.pc), (1, 2, 3, 4, 0xA5, 0x8001));
    assert!(cpu.memory == memory);
}

#[test]
fn halt_changes_only_the_program_counter() {
    let mut cpu = CPU::new();
    assert_eq!(cpu.load(vec![0x00]), Ok(()));
    cpu.a = 1;
    cpu.x = 2;
    cpu.y = 3;
    cpu.sp = 4;
    cpu.s_flags = 0xA5;
    let memory = cpu.memory;
    assert_eq!(cpu.step(), StepResult::Halt);
    assert_eq!((cpu.a, cpu.x, cpu.y, cpu.sp, cpu.s_flags, cpu.pc), (1, 2, 3, 4, 0xA5, 0x8001));
    assert!(cpu.memory == memory);
}

#[test]
fn execute_applies_one_operation() {
    let mut cpu = CPU::new();
    cpu.pc = 0x0300;
    cpu.execute(Mnemonic::Lda, Operand::Immediate(0x99));
    assert_eq!(cpu.a, 0x99);
    assert!(cpu.flag(Flag::Negative));
    cpu.execute(Mnemonic::Sta, Operand::Address(0x0042));
    assert_eq!(cpu.read_memory(0x0042), 0x99);
    cpu.execute(Mnemonic::Lsr, Operand::Address(0x0042));
    assert_eq!(cpu.read_memory(0x0042), 0x4C);
    assert!(cpu.flag(Flag::Carry));
    cpu.execute(Mnemonic::Ror, Operand::Accumulator);
    assert_eq!(cpu.a, 0xCC);
    assert!(cpu.flag(Flag::Carry));
    cpu.execute(Mnemonic::Jmp, Operand::Address(0xBEEF));
    assert_eq!(cpu.pc, 0xBEEF);
    cpu.execute(Mnemonic::Sta, Operand::Immediate(0x01));
    cpu.execute(Mnemonic::Jmp, Operand::Implied);
    assert_eq!(cpu.pc, 0xBEEF);
    assert_eq!(cpu.a, 0xCC);
}
