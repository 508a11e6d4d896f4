use rchip16::apu::Apu;
use rchip16::apu::Command;
use rchip16::apu::Raw;
use rchip16::cpu::instruction::format_instruction;
use rchip16::cpu::instruction::run_instruction;
use rchip16::cpu::instruction::run_instruction_with;
use rchip16::cpu::Cpu;
use rchip16::cpu::Fault;
use rchip16::gpu::Gpu;
use rchip16::gpu::PIXELS;
use rchip16::rom::Rom;

/// A machine with a program at address 0.
fn machine(program: &[u8]) -> Cpu {
    let rom = Rom::load(program).unwrap();
    Cpu::new(Gpu::new(), Apu::new(1000), &rom)
}

/// An instruction word with two registers and a number.
fn op(opcode: u8, rx: u8, ry: u8, hhll: u16) -> [u8; 4] {
    [opcode, ry << 4 | rx, hhll as u8, (hhll >> 8) as u8]
}

fn program(words: &[[u8; 4]]) -> Vec<u8> {
    words.iter().flat_map(|w| w.iter().cloned()).collect()
}

/// Run a number of cycles, none of which may fail.
fn run(cpu: &mut Cpu, cycles: usize) {
    for _ in 0..cycles {
        cpu.step().unwrap();
    }
}

fn flags(cpu: &Cpu) -> (bool, bool, bool, bool) {
    (cpu.carry(), cpu.zero(), cpu.overflow(), cpu.negative())
}

/// The registers, the counters and the flags of a machine.
fn registers(cpu: &Cpu) -> (u16, u16, Vec<i16>, u8, bool) {
    (cpu.pc(), cpu.sp(), (0..16).map(|i| cpu.r(i)).collect(), cpu.flags(), cpu.wait_vblank())
}

/// The frame as the default palette shows it.
fn frame(cpu: &mut Cpu) -> Vec<u32> {
    let mut buffer = vec![0; PIXELS];
    cpu.render(&mut buffer);
    buffer
}

const LDI: u8 = 0x20;

#[test]
fn a_new_machine() {
    let cpu = machine(&[1, 2, 3]);
    assert_eq!(cpu.pc(), 0);
    assert_eq!(cpu.sp(), 0xFDF0);
    for i in 0..16 {
        assert_eq!(cpu.r(i), 0);
    }
    assert_eq!(cpu.flags(), 0);
    assert_eq!(flags(&cpu), (false, false, false, false));
    assert_eq!(cpu.wait_vblank(), false);
    assert_eq!(cpu.read_byte(0), 1);
    assert_eq!(cpu.read_byte(2), 3);
    assert_eq!(cpu.read_byte(3), 0);
    assert_eq!(cpu.read_byte(0xFFFF), 0);
    assert_eq!(cpu.gpu().vblank(), false);
    assert_eq!(cpu.apu().playing(), false);
}

#[test]
fn a_machine_starts_at_the_entry_address() {
    let mut file = b"CH16".to_vec();
    file.extend_from_slice(&[0, 0x13, 8, 0, 4, 0, 0, 0, 0, 0, 0, 0]);
    file.extend_from_slice(&program(&[op(LDI, 1, 0, 111), op(LDI, 2, 0, 222)]));
    let rom = Rom::load(&file).unwrap();
    let mut cpu = Cpu::new(Gpu::new(), Apu::new(1000), &rom);
    assert_eq!(cpu.pc(), 4);
    cpu.step().unwrap();
    assert_eq!(cpu.r(1), 0);
    assert_eq!(cpu.r(2), 222);
    assert_eq!(cpu.pc(), 8);
}

#[test]
fn a_program_may_fill_the_memory() {
    let mut code = vec![0x5A; 0x1_0000];
    code[0xFFFF] = 0x77;
    let cpu = machine(&code);
    assert_eq!(cpu.read_byte(0), 0x5A);
    assert_eq!(cpu.read_byte(0xFFFF), 0x77);
    assert_eq!(cpu.read(0xFFFE), 0x775A);
}

#[test]
fn memory_is_read_and_written_low_byte_first() {
    let mut cpu = machine(&[]);
    cpu.write(0x1000, 0x1234);
    assert_eq!(cpu.read_byte(0x1000), 0x34);
    assert_eq!(cpu.read_byte(0x1001), 0x12);
    assert_eq!(cpu.read(0x1000), 0x1234);
    cpu.write(0xFFFE, -2);
    assert_eq!(cpu.read_byte(0xFFFE), 0xFE);
    assert_eq!(cpu.read_byte(0xFFFF), 0xFF);
    assert_eq!(cpu.read(0xFFFE), -2);
    assert_eq!(cpu.read(0x1001), 0x0012);
}

#[test]
fn the_flags_are_bits_of_one_register() {
    let mut cpu = machine(&[]);
    cpu.set_carry(true);
    assert_eq!(cpu.flags(), 0b0000_0010);
    cpu.set_zero(true);
    assert_eq!(cpu.flags(), 0b0000_0110);
    cpu.set_overflow(true);
    assert_eq!(cpu.flags(), 0b0100_0110);
    cpu.set_negative(true);
    assert_eq!(cpu.flags(), 0b1100_0110);
    assert_eq!(flags(&cpu), (true, true, true, true));
    cpu.set_zero(false);
    assert_eq!(flags(&cpu), (true, false, true, true));
    cpu.set_carry(false);
    cpu.set_overflow(false);
    cpu.set_negative(false);
    assert_eq!(cpu.flags(), 0);
    cpu.set_flags(0b1000_0100);
    assert_eq!(flags(&cpu), (false, true, false, true));
}

#[test]
fn the_input_is_latched_at_two_addresses() {
    let mut cpu = machine(&[]);
    cpu.set_input((0b1010_0101, 0b0000_1111));
    assert_eq!(cpu.read_byte(0xFFF0), 0b1010_0101);
    assert_eq!(cpu.read_byte(0xFFF2), 0b0000_1111);
    assert_eq!(cpu.read_byte(0xFFF1), 0);
    cpu.set_input((0, 0));
    assert_eq!(cpu.read_byte(0xFFF0), 0);
    assert_eq!(cpu.read_byte(0xFFF2), 0);
}

#[test]
fn nop_moves_on() {
    let mut cpu = machine(&[0, 0, 0, 0]);
    let before = registers(&cpu);
    cpu.step().unwrap();
    assert_eq!(cpu.pc(), 4);
    assert_eq!(registers(&cpu).1, before.1);
    assert_eq!(registers(&cpu).2, before.2);
    assert_eq!(registers(&cpu).3, before.3);
}

#[test]
fn ldi_loads_a_register_or_the_stack_pointer() {
    let mut cpu = machine(&program(&[
        op(LDI, 3, 0, 0x1234),
        op(LDI, 15, 0, 0xFFFF),
        op(0x21, 0, 0, 0xC000),
    ]));
    run(&mut cpu, 3);
    assert_eq!(cpu.r(3), 0x1234);
    assert_eq!(cpu.r(15), -1);
    assert_eq!(cpu.sp(), 0xC000);
    assert_eq!(cpu.flags(), 0);
}

#[test]
fn mov_copies_a_register() {
    let mut cpu = machine(&program(&[op(LDI, 1, 0, 77), op(0x24, 2, 1, 0)]));
    run(&mut cpu, 2);
    assert_eq!(cpu.r(2), 77);
    assert_eq!(cpu.r(1), 77);
}

#[test]
fn ldm_and_stm_reach_memory() {
    let mut cpu = machine(&program(&[
        op(LDI, 1, 0, 0xBEEF),
        op(0x30, 1, 0, 0x2000),
        op(0x22, 2, 0, 0x2000),
        op(LDI, 3, 0, 0x3000),
        op(0x31, 1, 3, 0),
        op(0x23, 4, 3, 0),
    ]));
    run(&mut cpu, 6);
    assert_eq!(cpu.read_byte(0x2000), 0xEF);
    assert_eq!(cpu.read_byte(0x2001), 0xBE);
    assert_eq!(cpu.r(2), 0xBEEFu16 as i16);
    assert_eq!(cpu.read(0x3000), 0xBEEFu16 as i16);
    assert_eq!(cpu.r(4), 0xBEEFu16 as i16);
}

#[test]
fn a_word_may_not_hang_over_the_end_of_memory() {
    let mut cpu = machine(&program(&[
        op(0x22, 2, 0, 0xFFFF),
        op(0x30, 2, 0, 0xFFFF),
        op(LDI, 1, 0, 0xFFFF),
        op(0x23, 2, 1, 0),
        op(0x31, 2, 1, 0),
    ]));
    assert_eq!(cpu.step(), Err(Fault::OutOfBounds(0xFFFF)));
    assert_eq!(cpu.pc(), 0);
    assert_eq!(run_instruction(&mut cpu, 4), Err(Fault::OutOfBounds(0xFFFF)));
    run_instruction(&mut cpu, 8).unwrap();
    assert_eq!(run_instruction(&mut cpu, 12), Err(Fault::OutOfBounds(0xFFFF)));
    assert_eq!(run_instruction(&mut cpu, 16), Err(Fault::OutOfBounds(0xFFFF)));
    assert_eq!(cpu.r(2), 0);
    assert_eq!(cpu.read_byte(0xFFFF), 0);
}

#[test]
fn jmp_goes_to_an_address() {
    let mut cpu = machine(&program(&[op(0x10, 0, 0, 0x0100)]));
    cpu.step().unwrap();
    assert_eq!(cpu.pc(), 0x0100);
}

#[test]
fn jmp_goes_to_the_address_in_a_register() {
    let mut cpu = machine(&program(&[op(LDI, 7, 0, 0xABCD), op(0x16, 7, 0, 0)]));
    run(&mut cpu, 2);
    assert_eq!(cpu.pc(), 0xABCD);
}

#[test]
fn jme_jumps_when_two_registers_are_equal() {
    let mut cpu = machine(&program(&[
        op(LDI, 1, 0, 5),
        op(0x13, 1, 2, 0x0100),
        op(LDI, 2, 0, 5),
        op(0x13, 1, 2, 0x0100),
    ]));
    run(&mut cpu, 2);
    assert_eq!(cpu.pc(), 8);
    run(&mut cpu, 2);
    assert_eq!(cpu.pc(), 0x0100);
}

#[test]
fn conditional_jumps_test_the_flags() {
    // CMPI r0, 1 gives a borrow and a negative result
    let mut cpu = machine(&program(&[
        op(0x53, 0, 0, 1),
        [0x12, 0x00, 0x00, 0x01],
        [0x12, 0x0F, 0x00, 0x01],
        [0x12, 0x09, 0x00, 0x01],
    ]));
    run(&mut cpu, 3);
    assert_eq!(flags(&cpu), (true, false, false, true));
    assert_eq!(cpu.pc(), 12);
    cpu.step().unwrap();
    assert_eq!(cpu.pc(), 0x0100);
}

#[test]
fn jmc_jumps_on_carry() {
    let mut cpu = machine(&program(&[
        op(0x11, 0, 0, 0x0100),
        op(0x53, 0, 0, 1),
        op(0x11, 0, 0, 0x0200),
    ]));
    cpu.step().unwrap();
    assert_eq!(cpu.pc(), 4);
    run(&mut cpu, 2);
    assert_eq!(cpu.pc(), 0x0200);
}

#[test]
fn every_condition_is_tested_by_its_code() {
    // flags: zero alone
    let expected = [
        true, false, false, true, false, false, true, false, true, false, true, false, true,
        false, true, false,
    ];
    for code in 0..16u8 {
        let mut cpu = machine(&program(&[op(0x53, 0, 0, 0), [0x12, code, 0x00, 0x01]]));
        run(&mut cpu, 2);
        assert_eq!(flags(&cpu), (false, true, false, false));
        assert_eq!(cpu.pc() == 0x0100, expected[code as usize], "code {}", code);
    }
}

#[test]
fn call_and_ret_use_the_stack() {
    let mut words = vec![op(0x14, 0, 0, 0x0010)];
    words.resize(4, [0; 4]);
    words.push(op(0x15, 0, 0, 0));
    let mut cpu = machine(&program(&words));
    cpu.step().unwrap();
    assert_eq!(cpu.pc(), 0x0010);
    assert_eq!(cpu.sp(), 0xFDF2);
    assert_eq!(cpu.read(0xFDF0), 4);
    cpu.step().unwrap();
    assert_eq!(cpu.pc(), 4);
    assert_eq!(cpu.sp(), 0xFDF0);
}

#[test]
fn call_goes_to_the_address_in_a_register() {
    let mut cpu = machine(&program(&[op(LDI, 9, 0, 0x8000), op(0x18, 9, 0, 0)]));
    run(&mut cpu, 2);
    assert_eq!(cpu.pc(), 0x8000);
    assert_eq!(cpu.sp(), 0xFDF2);
    assert_eq!(cpu.read(0xFDF0), 8);
}

#[test]
fn conditional_calls_test_the_flags() {
    let mut cpu = machine(&program(&[
        [0x17, 0x00, 0x00, 0x01],
        op(0x53, 0, 0, 0),
        [0x17, 0x00, 0x00, 0x01],
    ]));
    cpu.step().unwrap();
    assert_eq!(cpu.pc(), 4);
    assert_eq!(cpu.sp(), 0xFDF0);
    run(&mut cpu, 2);
    assert_eq!(cpu.pc(), 0x0100);
    assert_eq!(cpu.sp(), 0xFDF2);
    assert_eq!(cpu.read(0xFDF0), 12);
}

#[test]
fn a_return_address_above_the_middle_comes_back_whole() {
    let mut cpu = machine(&program(&[op(0x10, 0, 0, 0x9000)]));
    cpu.step().unwrap();
    cpu.write(0x9000, 0x0014);
    cpu.write(0x9002, 0x5000);
    cpu.write(0x5000, 0x0015);
    cpu.step().unwrap();
    assert_eq!(cpu.pc(), 0x5000);
    assert_eq!(cpu.read(0xFDF0), 0x9004u16 as i16);
    cpu.step().unwrap();
    assert_eq!(cpu.pc(), 0x9004);
}

#[test]
fn the_stack_pointer_wraps_round() {
    let mut cpu = machine(&program(&[
        op(0x21, 0, 0, 0xFFFE),
        op(LDI, 1, 0, 0x1234),
        op(0xC0, 1, 0, 0),
        op(0xC1, 2, 0, 0),
        op(0x21, 0, 0, 0x0000),
        op(0xC1, 3, 0, 0),
    ]));
    run(&mut cpu, 3);
    assert_eq!(cpu.sp(), 0);
    assert_eq!(cpu.read(0xFFFE), 0x1234);
    cpu.step().unwrap();
    assert_eq!(cpu.sp(), 0xFFFE);
    assert_eq!(cpu.r(2), 0x1234);
    run(&mut cpu, 2);
    assert_eq!(cpu.sp(), 0xFFFE);
    assert_eq!(cpu.r(3), 0x1234);
}

#[test]
fn the_stack_may_not_hang_over_the_end_of_memory() {
    let mut cpu = machine(&program(&[
        op(0x21, 0, 0, 0xFFFF),
        op(0xC0, 1, 0, 0),
        op(0x14, 0, 0, 0x0100),
        op(0xC4, 0, 0, 0),
        op(0x21, 0, 0, 0x0001),
        op(0xC1, 1, 0, 0),
        op(0x15, 0, 0, 0),
    ]));
    cpu.step().unwrap();
    for _ in 0..3 {
        assert_eq!(cpu.step(), Err(Fault::OutOfBounds(0xFFFF)));
        assert_eq!(cpu.sp(), 0xFFFF);
        cpu.set_pc(cpu.pc() + 4);
    }
    cpu.step().unwrap();
    for _ in 0..2 {
        assert_eq!(cpu.step(), Err(Fault::OutOfBounds(0xFFFF)));
        assert_eq!(cpu.sp(), 1);
        cpu.set_pc(cpu.pc() + 4);
    }
}

#[test]
fn push_and_pop() {
    let mut cpu = machine(&program(&[
        op(LDI, 1, 0, 0xAAAA),
        op(LDI, 2, 0, 0x5555),
        op(0xC0, 1, 0, 0),
        op(0xC0, 2, 0, 0),
        op(0xC1, 3, 0, 0),
        op(0xC1, 4, 0, 0),
    ]));
    run(&mut cpu, 4);
    assert_eq!(cpu.sp(), 0xFDF4);
    assert_eq!(cpu.read(0xFDF0), 0xAAAAu16 as i16);
    assert_eq!(cpu.read(0xFDF2), 0x5555);
    run(&mut cpu, 2);
    assert_eq!(cpu.sp(), 0xFDF0);
    assert_eq!(cpu.r(3), 0x5555);
    assert_eq!(cpu.r(4), 0xAAAAu16 as i16);
}

#[test]
fn pushall_stores_the_registers_in_order() {
    let mut words: Vec<[u8; 4]> = (0..16).map(|i| op(LDI, i, 0, 0x100 * i as u16 + 7)).collect();
    words.push(op(0xC2, 0, 0, 0));
    let mut cpu = machine(&program(&words));
    run(&mut cpu, 17);
    assert_eq!(cpu.sp(), 0xFDF0 + 32);
    for i in 0..16u16 {
        assert_eq!(cpu.read(0xFDF0 + 2 * i), 0x100 * i as i16 + 7);
    }
    assert_eq!(cpu.read_byte(0xFDF0 + 32), 0);
    assert_eq!(cpu.read_byte(0xFDEF), 0);
}

#[test]
fn popall_restores_what_pushall_stored() {
    let mut words: Vec<[u8; 4]> = (0..16).map(|i| op(LDI, i, 0, 0x1111 * i as u16)).collect();
    words.push(op(0xC2, 0, 0, 0));
    words.extend((0..16).map(|i| op(LDI, i, 0, 0)));
    words.push(op(0xC3, 0, 0, 0));
    let mut cpu = machine(&program(&words));
    run(&mut cpu, 33);
    assert_eq!(cpu.r(15), 0);
    cpu.step().unwrap();
    assert_eq!(cpu.sp(), 0xFDF0);
    for i in 0..16u8 {
        assert_eq!(cpu.r(i), (0x1111 * i as u16) as i16);
    }
}

#[test]
fn pushall_wraps_round_at_an_even_address() {
    let mut cpu = machine(&program(&[
        op(LDI, 0, 0, 0x0A0B),
        op(LDI, 15, 0, 0x0C0D),
        op(0x21, 0, 0, 0xFFFE),
        op(0xC2, 0, 0, 0),
    ]));
    run(&mut cpu, 3);
    // the registers go over the program at the start of memory
    cpu.step().unwrap();
    assert_eq!(cpu.sp(), 30);
    assert_eq!(cpu.read(0xFFFE), 0x0A0B);
    assert_eq!(cpu.read(28), 0x0C0D);
    assert_eq!(cpu.read(0), 0);
}

#[test]
fn pushall_and_popall_fault_as_a_whole() {
    let mut cpu = machine(&program(&[
        op(0x21, 0, 0, 0xFFE1),
        op(0xC2, 0, 0, 0),
        op(0x21, 0, 0, 0xFFDF),
        op(0xC2, 0, 0, 0),
        op(0x21, 0, 0, 0x001F),
        op(0xC3, 0, 0, 0),
        op(0x21, 0, 0, 0x0021),
        op(0xC3, 0, 0, 0),
    ]));
    cpu.step().unwrap();
    assert_eq!(cpu.step(), Err(Fault::OutOfBounds(0xFFFF)));
    assert_eq!(cpu.sp(), 0xFFE1);
    assert_eq!(cpu.pc(), 4);
    for addr in 0xFFE0..=0xFFFFu16 {
        assert_eq!(cpu.read_byte(addr), 0);
    }
    cpu.set_pc(8);
    run(&mut cpu, 2);
    assert_eq!(cpu.sp(), 0xFFFF);
    cpu.set_pc(16);
    cpu.step().unwrap();
    let before = registers(&cpu);
    assert_eq!(cpu.step(), Err(Fault::OutOfBounds(0xFFFF)));
    assert_eq!(registers(&cpu), before);
    cpu.set_pc(24);
    run(&mut cpu, 2);
    assert_eq!(cpu.sp(), 1);
}

#[test]
fn pushf_and_popf() {
    let mut cpu = machine(&program(&[
        op(0x53, 0, 0, 1),
        op(0xC4, 0, 0, 0),
        op(0x53, 0, 0, 0),
        op(0xC5, 0, 0, 0),
    ]));
    run(&mut cpu, 2);
    assert_eq!(cpu.sp(), 0xFDF2);
    assert_eq!(cpu.read(0xFDF0), 0b1000_0010);
    cpu.step().unwrap();
    assert_eq!(flags(&cpu), (false, true, false, false));
    cpu.step().unwrap();
    assert_eq!(cpu.sp(), 0xFDF0);
    assert_eq!(flags(&cpu), (true, false, false, true));
}

#[test]
fn popf_takes_the_flags_alone() {
    let mut cpu = machine(&program(&[op(LDI, 1, 0, 0xFFFF), op(0xC0, 1, 0, 0), op(0xC5, 0, 0, 0)]));
    run(&mut cpu, 3);
    assert_eq!(cpu.flags(), 0b1100_0110);
    // the byte on top of the stack is all that is read
    let mut cpu = machine(&program(&[op(0x21, 0, 0, 1), op(0xC5, 0, 0, 0)]));
    cpu.write(0xFFFE, 0x4600);
    run(&mut cpu, 2);
    assert_eq!(cpu.sp(), 0xFFFF);
    assert_eq!(cpu.flags(), 0b0100_0110);
}

#[test]
fn the_three_forms_of_an_operator() {
    let mut cpu = machine(&program(&[
        op(LDI, 1, 0, 10),
        op(LDI, 2, 0, 3),
        op(0x40, 1, 0, 5),
        op(0x41, 1, 2, 0),
        [0x42, 0x21, 0x03, 0x00],
    ]));
    run(&mut cpu, 3);
    assert_eq!(cpu.r(1), 15);
    cpu.step().unwrap();
    assert_eq!(cpu.r(1), 18);
    assert_eq!(cpu.r(2), 3);
    cpu.step().unwrap();
    assert_eq!(cpu.r(3), 21);
    assert_eq!(cpu.r(1), 18);
    assert_eq!(cpu.r(2), 3);
}

#[test]
fn arithmetic_sets_the_flags_anew() {
    let mut cpu = machine(&program(&[
        op(LDI, 1, 0, 0x7FFF),
        op(0x40, 1, 0, 1),
        op(0x40, 1, 0, 0x8000),
        op(0x40, 1, 0, 1),
        op(0x60, 1, 0, 0),
    ]));
    run(&mut cpu, 2);
    assert_eq!(cpu.r(1), -32768);
    assert_eq!(flags(&cpu), (false, false, true, true));
    cpu.step().unwrap();
    assert_eq!(cpu.r(1), 0);
    assert_eq!(flags(&cpu), (true, true, true, false));
    cpu.step().unwrap();
    assert_eq!(cpu.r(1), 1);
    assert_eq!(flags(&cpu), (false, false, false, false));
    cpu.set_carry(true);
    cpu.set_overflow(true);
    cpu.step().unwrap();
    assert_eq!(cpu.r(1), 0);
    assert_eq!(flags(&cpu), (false, true, false, false));
}

#[test]
fn comparing_and_testing_keep_the_registers() {
    let mut cpu = machine(&program(&[
        op(LDI, 1, 0, 5),
        op(LDI, 2, 0, 9),
        op(0x54, 1, 2, 0),
        op(0x53, 1, 0, 5),
        op(0x64, 1, 2, 0),
        op(0x63, 1, 0, 2),
    ]));
    run(&mut cpu, 3);
    assert_eq!((cpu.r(1), cpu.r(2)), (5, 9));
    assert_eq!(flags(&cpu), (true, false, false, true));
    cpu.step().unwrap();
    assert_eq!(flags(&cpu), (false, true, false, false));
    cpu.step().unwrap();
    assert_eq!(flags(&cpu), (false, false, false, false));
    cpu.step().unwrap();
    assert_eq!(flags(&cpu), (false, true, false, false));
    assert_eq!((cpu.r(1), cpu.r(2)), (5, 9));
}

#[test]
fn every_operator_has_its_opcodes() {
    // (opcode of the immediate form, a, b, result)
    let cases: [(u8, i16, i16, i16); 9] = [
        (0x40, 7, 3, 10),
        (0x50, 7, 3, 4),
        (0x60, 7, 3, 3),
        (0x70, 5, 3, 7),
        (0x80, 7, 3, 4),
        (0x90, 7, 3, 21),
        (0xA0, 7, 3, 2),
        (0xA3, -7, 3, 2),
        (0xA6, -7, 3, -1),
    ];
    for &(opcode, a, b, result) in cases.iter() {
        let mut cpu = machine(&program(&[
            op(LDI, 1, 0, a as u16),
            op(LDI, 2, 0, b as u16),
            op(LDI, 4, 0, a as u16),
            op(opcode, 1, 0, b as u16),
            op(opcode + 1, 4, 2, 0),
            [opcode + 2, 0x24, 0x05, 0x00],
        ]));
        run(&mut cpu, 6);
        assert_eq!(cpu.r(1), result, "opcode {:02X}", opcode);
        assert_eq!(cpu.r(4), result, "opcode {:02X}", opcode + 1);
        // the third form took the result of the second for its first operand
        let mut again = machine(&program(&[
            op(LDI, 1, 0, a as u16),
            op(LDI, 2, 0, b as u16),
            [opcode + 2, 0x21, 0x05, 0x00],
        ]));
        run(&mut again, 3);
        assert_eq!(again.r(5), result, "opcode {:02X}", opcode + 2);
        assert_eq!((again.r(1), again.r(2)), (a, b));
    }
}

#[test]
fn the_shifts_have_two_forms() {
    let mut cpu = machine(&program(&[
        op(LDI, 1, 0, 0x8001),
        op(LDI, 2, 0, 0x8001),
        op(LDI, 3, 0, 0x8001),
        op(LDI, 9, 0, 4),
        op(0xB0, 1, 0, 1),
        op(0xB1, 2, 0, 1),
        op(0xB2, 3, 0, 1),
        op(0xB3, 1, 9, 0),
        op(0xB4, 2, 9, 0),
        op(0xB5, 3, 9, 0),
    ]));
    run(&mut cpu, 7);
    assert_eq!(cpu.r(1), 0x0002);
    assert_eq!(cpu.r(2), 0x4000);
    assert_eq!(cpu.r(3), 0xC000u16 as i16);
    assert_eq!(flags(&cpu), (false, false, false, true));
    run(&mut cpu, 3);
    assert_eq!(cpu.r(1), 0x0020);
    assert_eq!(cpu.r(2), 0x0400);
    assert_eq!(cpu.r(3), 0xFC00u16 as i16);
}

#[test]
fn not_and_neg_have_three_forms() {
    let mut cpu = machine(&program(&[
        op(0xE0, 1, 0, 0x00FF),
        op(LDI, 2, 0, 0x0F0F),
        op(0xE1, 2, 0, 0),
        op(0xE2, 3, 2, 0),
        op(0xE3, 4, 0, 5),
        op(LDI, 5, 0, 9),
        op(0xE4, 5, 0, 0),
        op(0xE5, 6, 5, 0),
        op(0xE3, 7, 0, 0x8000),
    ]));
    cpu.step().unwrap();
    assert_eq!(cpu.r(1), 0xFF00u16 as i16);
    assert_eq!(flags(&cpu), (false, false, false, true));
    run(&mut cpu, 2);
    assert_eq!(cpu.r(2), 0xF0F0u16 as i16);
    cpu.step().unwrap();
    assert_eq!(cpu.r(3), 0x0F0F);
    assert_eq!(cpu.r(2), 0xF0F0u16 as i16);
    cpu.step().unwrap();
    assert_eq!(cpu.r(4), -5);
    run(&mut cpu, 2);
    assert_eq!(cpu.r(5), -9);
    cpu.step().unwrap();
    assert_eq!(cpu.r(6), 9);
    assert_eq!(flags(&cpu), (false, false, false, false));
    cpu.step().unwrap();
    assert_eq!(cpu.r(7), -32768);
}

#[test]
fn a_division_by_zero_stops_the_machine() {
    for &opcode in [0xA0u8, 0xA3, 0xA6].iter() {
        let mut cpu = machine(&program(&[
            op(LDI, 1, 0, 9),
            op(0x53, 1, 0, 9),
            op(opcode, 1, 0, 0),
            op(opcode + 1, 1, 2, 0),
            [opcode + 2, 0x21, 0x03, 0x00],
        ]));
        run(&mut cpu, 2);
        let before = registers(&cpu);
        assert_eq!(cpu.step(), Err(Fault::DivisionByZero));
        assert_eq!(registers(&cpu), before);
        assert_eq!(run_instruction(&mut cpu, 12), Err(Fault::DivisionByZero));
        assert_eq!(run_instruction(&mut cpu, 16), Err(Fault::DivisionByZero));
        assert_eq!(registers(&cpu), before);
    }
}

#[test]
fn an_unknown_opcode_stops_the_machine() {
    let mut cpu = machine(&program(&[op(LDI, 1, 0, 9), [0x1F, 0x11, 0x22, 0x33]]));
    cpu.step().unwrap();
    let before = registers(&cpu);
    assert_eq!(cpu.step(), Err(Fault::UnknownOpcode(0x1F)));
    assert_eq!(registers(&cpu), before);
    assert_eq!(cpu.pc(), 4);
    assert_eq!(cpu.step(), Err(Fault::UnknownOpcode(0x1F)));
    assert_eq!(registers(&cpu), before);
}

#[test]
fn an_unknown_opcode_at_the_entry_address_changes_nothing() {
    let mut file = b"CH16".to_vec();
    file.extend_from_slice(&[0, 0x11, 8, 0, 4, 0, 0, 0, 0, 0, 0, 0]);
    file.extend_from_slice(&[0x20, 0x01, 0x05, 0x00, 0x1F, 0x00, 0x00, 0x00]);
    let rom = Rom::load(&file).unwrap();
    let mut cpu = Cpu::new(Gpu::new(), Apu::new(1000), &rom);
    let before = registers(&cpu);
    assert_eq!(cpu.step(), Err(Fault::UnknownOpcode(0x1F)));
    assert_eq!(registers(&cpu), before);
    assert_eq!(before.0, 4);
    assert_eq!(before.1, 0xFDF0);
    assert!(before.2.iter().all(|&r| r == 0));
}

#[test]
fn a_wrong_checksum_does_not_keep_a_program_from_running() {
    let code = program(&[op(LDI, 1, 0, 40), op(0x40, 1, 0, 2)]);
    let mut file = b"CH16".to_vec();
    file.extend_from_slice(&[0, 0x13, 8, 0, 0, 0, 0, 0, 0x78, 0x56, 0x34, 0x12]);
    file.extend_from_slice(&code);
    let rom = Rom::load(&file).unwrap();
    let (declared, actual) = rom.checksum();
    assert_eq!(declared, 0x12345678);
    assert_ne!(declared, actual);
    let mut cpu = Cpu::new(Gpu::new(), Apu::new(1000), &rom);
    run(&mut cpu, 2);
    assert_eq!(cpu.r(1), 42);
}

#[test]
fn every_byte_is_an_opcode_or_a_fault() {
    let known: Vec<u8> = vec![
        0x00, 0x01, 0x02, 0x03, 0x04, 0x05, 0x06, 0x07, 0x08, 0x09, 0x0A, 0x0B, 0x0C, 0x0D, 0x0E,
        0x10, 0x11, 0x12, 0x13, 0x14, 0x15, 0x16, 0x17, 0x18, 0x20, 0x21, 0x22, 0x23, 0x24, 0x30,
        0x31, 0x40, 0x41, 0x42, 0x50, 0x51, 0x52, 0x53, 0x54, 0x60, 0x61, 0x62, 0x63, 0x64, 0x70,
        0x71, 0x72, 0x80, 0x81, 0x82, 0x90, 0x91, 0x92, 0xA0, 0xA1, 0xA2, 0xA3, 0xA4, 0xA5, 0xA6,
        0xA7, 0xA8, 0xB0, 0xB1, 0xB2, 0xB3, 0xB4, 0xB5, 0xC0, 0xC1, 0xC2, 0xC3, 0xC4, 0xC5, 0xD0,
        0xD1, 0xE0, 0xE1, 0xE2, 0xE3, 0xE4, 0xE5,
    ];
    for opcode in 0..=255u8 {
        let cpu = machine(&[opcode, 0, 0, 0]);
        let text = format_instruction(&cpu, 0);
        if known.contains(&opcode) {
            assert!(text.is_ok(), "opcode {:02X}", opcode);
        } else {
            assert_eq!(text, Err(Fault::UnknownOpcode(opcode)));
            let mut cpu = cpu;
            assert_eq!(cpu.step(), Err(Fault::UnknownOpcode(opcode)));
        }
    }
}

#[test]
fn an_instruction_may_not_hang_over_the_end_of_memory() {
    let mut cpu = machine(&program(&[op(0x10, 0, 0, 0xFFFD)]));
    cpu.step().unwrap();
    assert_eq!(cpu.step(), Err(Fault::OutOfBounds(0xFFFD)));
    assert_eq!(cpu.pc(), 0xFFFD);
    assert_eq!(format_instruction(&cpu, 0xFFFF), Err(Fault::OutOfBounds(0xFFFF)));
    assert_eq!(run_instruction(&mut cpu, 0xFFFE), Err(Fault::OutOfBounds(0xFFFE)));
}

#[test]
fn the_program_counter_wraps_round() {
    let mut cpu = machine(&program(&[op(0x10, 0, 0, 0xFFFC)]));
    run(&mut cpu, 2);
    assert_eq!(cpu.pc(), 0);
}

#[test]
fn rnd_draws_a_number_up_to_its_operand() {
    let mut cpu = machine(&program(&[op(0x07, 1, 0, 0), op(0x07, 2, 0, 1), op(0x07, 3, 0, 9)]));
    cpu.set_r(1, 55);
    cpu.step().unwrap();
    assert_eq!(cpu.r(1), 0);
    let mut seen = [false; 10];
    for _ in 0..400 {
        cpu.set_pc(4);
        run(&mut cpu, 2);
        assert!(cpu.r(2) == 0 || cpu.r(2) == 1);
        assert!(0 <= cpu.r(3) && cpu.r(3) <= 9);
        seen[cpu.r(3) as usize] = true;
    }
    assert!(seen.iter().all(|&s| s));
    assert_eq!(cpu.flags(), 0);
}

#[test]
fn rnd_takes_the_number_that_was_drawn() {
    let mut cpu = machine(&program(&[op(0x07, 1, 0, 0xFFFF), op(0x07, 2, 0, 0xFFFF)]));
    cpu.step_with(1234).unwrap();
    assert_eq!(cpu.r(1), 1234);
    assert_eq!(cpu.pc(), 4);
    cpu.step_with(0xFFFF).unwrap();
    assert_eq!(cpu.r(2), -1);
    run_instruction_with(&mut cpu, 0, 0x8000).unwrap();
    assert_eq!(cpu.r(1), -32768);
    assert_eq!(cpu.pc(), 8);
    // no other instruction looks at the number
    let mut cpu = machine(&program(&[op(LDI, 1, 0, 5)]));
    cpu.step_with(999).unwrap();
    assert_eq!(cpu.r(1), 5);
}

#[test]
fn vblnk_waits_for_a_frame() {
    let mut cpu = machine(&program(&[op(0x02, 0, 0, 0), op(LDI, 1, 0, 1)]));
    for _ in 0..3 {
        cpu.step().unwrap();
        assert_eq!(cpu.pc(), 0);
        assert_eq!(cpu.wait_vblank(), true);
    }
    frame(&mut cpu);
    assert_eq!(cpu.gpu().vblank(), true);
    cpu.step().unwrap();
    assert_eq!(cpu.pc(), 4);
    assert_eq!(cpu.wait_vblank(), false);
    assert_eq!(cpu.gpu().vblank(), false);
}

#[test]
fn the_signal_of_a_frame_lasts_one_instruction() {
    let mut cpu = machine(&program(&[op(0x00, 0, 0, 0), op(0x02, 0, 0, 0)]));
    frame(&mut cpu);
    cpu.step().unwrap();
    assert_eq!(cpu.gpu().vblank(), false);
    cpu.step().unwrap();
    assert_eq!(cpu.pc(), 4);
    assert_eq!(cpu.wait_vblank(), true);
    // the next instruction takes the waiting back
    cpu.set_pc(0);
    cpu.step().unwrap();
    assert_eq!(cpu.wait_vblank(), false);
}

#[test]
fn vblnk_at_address_zero_rewinds_round_the_address_space() {
    let mut cpu = machine(&program(&[op(0x02, 0, 0, 0)]));
    run_instruction(&mut cpu, 0).unwrap();
    assert_eq!(cpu.pc(), 0xFFFC);
    assert_eq!(cpu.wait_vblank(), true);
}

#[test]
fn drw_draws_and_reports_the_overlap() {
    let mut code = program(&[
        op(0x04, 0, 0, 0x0201),
        op(LDI, 1, 0, 3),
        op(LDI, 2, 0, 1),
        op(0x05, 1, 2, 0x0040),
        op(0x05, 1, 2, 0x0040),
        op(LDI, 1, 0, 5),
        op(0x05, 1, 2, 0x0040),
    ]);
    code.resize(0x40, 0);
    code.extend_from_slice(&[0x2F, 0x03]);
    let mut cpu = machine(&code);
    cpu.set_zero(true);
    run(&mut cpu, 4);
    assert_eq!(flags(&cpu), (false, true, false, false));
    cpu.step().unwrap();
    assert_eq!(flags(&cpu), (true, true, false, false));
    run(&mut cpu, 2);
    assert_eq!(flags(&cpu), (false, true, false, false));
    let frame = frame(&mut cpu);
    assert_eq!(frame[3 + 320], 0x888888);
    assert_eq!(frame[4 + 320], 0xFFFFFF);
    assert_eq!(frame[3 + 2 * 320], 0x000000);
    assert_eq!(frame[4 + 2 * 320], 0xBF3932);
    assert_eq!(frame[5 + 320], 0x888888);
    assert_eq!(frame[6 + 2 * 320], 0xBF3932);
}

#[test]
fn drw_takes_the_address_from_a_register() {
    let mut code = program(&[
        op(0x04, 0, 0, 0x0101),
        op(LDI, 3, 0, 0x0040),
        op(LDI, 1, 0, 0xFFFF),
        [0x06, 0x21, 0x03, 0x00],
    ]);
    code.resize(0x40, 0);
    code.push(0x2F);
    let mut cpu = machine(&code);
    run(&mut cpu, 4);
    assert_eq!(cpu.carry(), false);
    let frame = frame(&mut cpu);
    assert_eq!(frame[0], 0xFFFFFF);
    assert_eq!(frame[1], 0x000000);
}

#[test]
fn a_sprite_may_not_hang_over_the_end_of_memory() {
    let mut cpu = machine(&program(&[
        op(0x04, 0, 0, 0x0202),
        op(0x05, 1, 2, 0xFFFD),
        op(0x05, 1, 2, 0xFFFC),
        op(LDI, 2, 0, 239),
        op(0x05, 1, 2, 0xFFFE),
    ]));
    cpu.step().unwrap();
    assert_eq!(cpu.step(), Err(Fault::OutOfBounds(0xFFFD)));
    assert_eq!(cpu.pc(), 4);
    cpu.set_pc(8);
    run(&mut cpu, 3);
    assert_eq!(cpu.pc(), 20);
}

#[test]
fn cls_bgc_spr_and_flip_set_the_gpu_up() {
    let mut code = program(&[
        op(0x03, 0, 0, 0x0003),
        op(0x04, 0, 0, 0x0101),
        op(0x08, 0, 0, 0x0300),
        op(0x05, 0, 0, 0x0040),
        op(0x08, 0, 0, 0x0100),
        op(0x05, 1, 1, 0x0040),
        op(0x08, 0, 0, 0x0200),
        op(0x05, 2, 2, 0x0040),
    ]);
    code.resize(0x40, 0);
    code.push(0x29);
    let mut cpu = machine(&code);
    cpu.set_r(1, 10);
    cpu.set_r(2, 20);
    run(&mut cpu, 8);
    assert_eq!(cpu.gpu().bg(), 3);
    let frame = frame(&mut cpu);
    // flipped both ways, flipped top to bottom, flipped left to right
    assert_eq!((frame[0], frame[1]), (0x537A3B, 0x888888));
    assert_eq!((frame[10 + 10 * 320], frame[11 + 10 * 320]), (0x888888, 0x537A3B));
    assert_eq!((frame[20 + 20 * 320], frame[21 + 20 * 320]), (0x537A3B, 0x888888));
    assert_eq!(frame[2], 0xBF3932);
    let mut cpu = machine(&program(&[op(0x03, 0, 0, 9), op(0x01, 0, 0, 0)]));
    run(&mut cpu, 2);
    assert_eq!(cpu.gpu().bg(), 0);
}

#[test]
fn pal_loads_sixteen_colours() {
    let mut code = program(&[op(0xD0, 0, 0, 0x0040), op(0x03, 0, 0, 15)]);
    code.resize(0x40, 0);
    for i in 0..16u8 {
        code.extend_from_slice(&[i, 0x10 + i, 0xF0 + i]);
    }
    let mut cpu = machine(&code);
    run(&mut cpu, 2);
    assert!(frame(&mut cpu).iter().all(|&c| c == 0x0F1FFF));
    let mut cpu = machine(&code);
    cpu.step().unwrap();
    cpu.set_bg(0);
    assert!(frame(&mut cpu).iter().all(|&c| c == 0x0010F0));
    cpu.set_bg(1);
    assert!(frame(&mut cpu).iter().all(|&c| c == 0x0111F1));
}

#[test]
fn pal_takes_the_address_from_a_register() {
    let mut code = program(&[op(LDI, 5, 0, 0x0043), op(0xD1, 5, 0, 0)]);
    code.resize(0x40, 0);
    for i in 0..17u8 {
        code.extend_from_slice(&[i, i, i]);
    }
    let mut cpu = machine(&code);
    run(&mut cpu, 2);
    assert!(frame(&mut cpu).iter().all(|&c| c == 0x010101));
}

#[test]
fn a_palette_may_not_hang_over_the_end_of_memory() {
    let mut cpu = machine(&program(&[op(0xD0, 0, 0, 0xFFD1), op(0xD0, 0, 0, 0xFFD0)]));
    assert_eq!(cpu.step(), Err(Fault::OutOfBounds(0xFFD1)));
    cpu.set_pc(4);
    cpu.step().unwrap();
    assert!(frame(&mut cpu).iter().all(|&c| c == 0));
}

#[test]
fn the_tones_play_without_an_envelope() {
    for (opcode, period) in [(0x0Au8, 2i64), (0x0B, 1), (0x0C, 0)].iter() {
        let mut cpu = machine(&program(&[op(*opcode, 0, 0, 20)]));
        cpu.step().unwrap();
        match cpu.sound_command() {
            Some(Command::Play(mut voice)) => {
                let first = voice.next();
                assert_eq!((first.gain_num, first.gain_den), (15, 15));
                let high = *period > 0;
                assert_eq!(first.raw, Raw::Ratio { num: if high { 1 } else { -1 }, den: 1 });
                let mut n = 1;
                while !voice.is_finished() {
                    voice.next();
                    n += 1;
                }
                assert_eq!(n, 20);
            }
            _ => panic!("no voice to play"),
        }
        assert!(cpu.sound_command().is_none());
    }
}

#[test]
fn snd0_stops_the_sound() {
    let mut cpu = machine(&program(&[op(0x0A, 0, 0, 20), op(0x09, 0, 0, 0)]));
    cpu.step().unwrap();
    assert_eq!(cpu.apu().playing(), true);
    cpu.step().unwrap();
    assert_eq!(cpu.apu().playing(), false);
    assert!(matches!(cpu.sound_command(), Some(Command::Pause)));
}

#[test]
fn sng_and_snp_play_with_an_envelope() {
    let mut code = program(&[
        // attack 0, decay 0, sustain 6, release 0, volume 12, sawtooth
        [0x0E, 0x00, 0x60, 0xC1],
        op(LDI, 1, 0, 0x0040),
        op(0x0D, 1, 0, 12),
    ]);
    code.resize(0x40, 0);
    code.extend_from_slice(&[100, 0]);
    let mut cpu = machine(&code);
    run(&mut cpu, 3);
    let mut voice = cpu.apu().voice();
    let first = voice.next();
    assert_eq!(first.raw, Raw::Ratio { num: -10, den: 10 });
    assert_eq!((first.gain_num, first.gain_den), (0, 30));
    let second = voice.next();
    assert_eq!((second.gain_num, second.gain_den), (12, 30));
    let mut n = 2;
    while !voice.is_finished() {
        voice.next();
        n += 1;
    }
    assert_eq!(n, 18);
}

#[test]
fn a_tone_of_no_frequency_stops_the_machine() {
    let mut cpu = machine(&program(&[op(LDI, 1, 0, 0x0100), op(0x0D, 1, 0, 12)]));
    cpu.step().unwrap();
    assert_eq!(cpu.step(), Err(Fault::DivisionByZero));
    assert_eq!(cpu.apu().playing(), false);
    assert_eq!(cpu.pc(), 4);
    let mut cpu = machine(&program(&[op(LDI, 1, 0, 0xFFFF), op(0x0D, 1, 0, 12)]));
    cpu.step().unwrap();
    assert_eq!(cpu.step(), Err(Fault::OutOfBounds(0xFFFF)));
}

#[test]
fn render_shows_the_frame_and_signals_it() {
    let mut cpu = machine(&[]);
    cpu.set_bg(15);
    let mut buffer = vec![0; PIXELS];
    cpu.render(&mut buffer);
    assert!(buffer.iter().all(|&c| c == 0xFFFFFF));
    assert_eq!(cpu.vblank(), true);
    cpu.set_vblank(false);
    assert_eq!(cpu.gpu().vblank(), false);
}

#[test]
fn faults_in_words() {
    assert_eq!(Fault::UnknownOpcode(0x1F).message(), "Unknown Opcode 0x1F");
    assert_eq!(Fault::UnknownOpcode(0x0F).message(), "Unknown Opcode 0x0F");
    assert_eq!(Fault::UnknownOpcode(0xFF).message(), "Unknown Opcode 0xFF");
    assert_eq!(Fault::DivisionByZero.message(), "Division by zero");
    assert_eq!(Fault::OutOfBounds(0xFFFD).message(), "Access past the end of memory at 0xFFFD");
    assert_eq!(Fault::OutOfBounds(0x00A0).message(), "Access past the end of memory at 0x00A0");
}

#[test]
fn instructions_as_text() {
    let cases: [([u8; 4], &str); 30] = [
        ([0x00, 0x12, 0x34, 0x56], "NOP"),
        ([0x01, 0, 0, 0], "CLS"),
        ([0x02, 0, 0, 0], "VBLNK"),
        ([0x03, 0, 0x0A, 0], "BGC 10"),
        ([0x04, 0, 0x04, 0x10], "SPR 4 16"),
        ([0x05, 0xBA, 0x34, 0x12], "DRW RA RB 4660"),
        ([0x06, 0x21, 0x0F, 0], "DRW R1 R2 RF"),
        ([0x07, 0x03, 0xFF, 0xFF], "RND R3 65535"),
        ([0x08, 0, 0, 0x03], "FLIP 3"),
        ([0x09, 0, 0, 0], "SND0"),
        ([0x0A, 0, 0xE8, 0x03], "SND1 1000"),
        ([0x0D, 0x05, 0x64, 0x00], "SNP R5 100"),
        ([0x0E, 0x12, 0x34, 0x56], "SNG 18 52 86"),
        ([0x10, 0, 0x00, 0x01], "JMP 256"),
        ([0x11, 0, 0x00, 0x01], "JMC 256"),
        ([0x12, 0x00, 0x00, 0x01], "JZ 256"),
        ([0x12, 0x0E, 0x0A, 0x00], "JLE 10"),
        ([0x12, 0x0F, 0x0A, 0x00], "JUNKNOWN 10"),
        ([0x13, 0x21, 0x00, 0x00], "JME R1 R2 0"),
        ([0x15, 0, 0, 0], "RET"),
        ([0x16, 0xF7, 0, 0], "JMP_R R7"),
        ([0x17, 0x01, 0x10, 0x00], "CNZ 16"),
        ([0x18, 0x0C, 0, 0], "CALL RC"),
        ([0x21, 0x00, 0xF0, 0xFD], "LDI 65008"),
        ([0x23, 0x10, 0, 0], "LDM R0 R1"),
        ([0x53, 0x02, 0x09, 0x00], "CMPI R2 9"),
        ([0x54, 0x32, 0, 0], "CMP R2 R3"),
        ([0xA5, 0x21, 0x03, 0], "MOD R1 R2 R3"),
        ([0xC2, 0, 0, 0], "PUSHALL"),
        ([0xE1, 0x04, 0, 0], "NOT R4"),
    ];
    for (word, text) in cases.iter() {
        let cpu = machine(word);
        assert_eq!(cpu.format_instruction(0).unwrap(), *text);
        assert_eq!(format_instruction(&cpu, 0).unwrap(), *text);
    }
}

#[test]
fn every_mnemonic() {
    let names: [(u8, &str); 82] = [
        (0x00, "NOP"), (0x01, "CLS"), (0x02, "VBLNK"), (0x03, "BGC"), (0x04, "SPR"),
        (0x05, "DRW"), (0x06, "DRW"), (0x07, "RND"), (0x08, "FLIP"), (0x09, "SND0"),
        (0x0A, "SND1"), (0x0B, "SND2"), (0x0C, "SND3"), (0x0D, "SNP"), (0x0E, "SNG"),
        (0x10, "JMP"), (0x11, "JMC"), (0x12, "J"), (0x13, "JME"), (0x14, "CALL"),
        (0x15, "RET"), (0x16, "JMP_R"), (0x17, "C"), (0x18, "CALL"), (0x20, "LDI"),
        (0x21, "LDI"), (0x22, "LDM"), (0x23, "LDM"), (0x24, "MOV"), (0x30, "STM"),
        (0x31, "STM"), (0x40, "ADDI"), (0x41, "ADD"), (0x42, "ADD"), (0x50, "SUBI"),
        (0x51, "SUB"), (0x52, "SUB"), (0x53, "CMPI"), (0x54, "CMP"), (0x60, "ANDI"),
        (0x61, "AND"), (0x62, "AND"), (0x63, "TSTI"), (0x64, "TST"), (0x70, "ORI"),
        (0x71, "OR"), (0x72, "OR"), (0x80, "XORI"), (0x81, "XOR"), (0x82, "XOR"),
        (0x90, "MULI"), (0x91, "MUL"), (0x92, "MUL"), (0xA0, "DIVI"), (0xA1, "DIV"),
        (0xA2, "DIV"), (0xA3, "MODI"), (0xA4, "MOD"), (0xA5, "MOD"), (0xA6, "REMI"),
        (0xA7, "REM"), (0xA8, "REM"), (0xB0, "SHL"), (0xB1, "SHR"), (0xB2, "SAR"),
        (0xB3, "SHL"), (0xB4, "SHR"), (0xB5, "SAR"), (0xC0, "PUSH"), (0xC1, "POP"),
        (0xC2, "PUSHALL"), (0xC3, "POPALL"), (0xC4, "PUSHF"), (0xC5, "POPF"), (0xD0, "PAL"),
        (0xD1, "PAL"), (0xE0, "NOTI"), (0xE1, "NOT"), (0xE2, "NOT"), (0xE3, "NEGI"),
        (0xE4, "NEG"), (0xE5, "NEG"),
    ];
    for (opcode, name) in names.iter() {
        let cpu = machine(&[*opcode, 0, 0, 0]);
        let text = cpu.format_instruction(0).unwrap();
        let head = text.split(' ').next().unwrap();
        if *opcode == 0x12 || *opcode == 0x17 {
            assert_eq!(head, format!("{}Z", name));
        } else {
            assert_eq!(head, *name);
        }
    }
}

#[test]
fn writing_an_instruction_changes_nothing() {
    let cpu = machine(&program(&[op(0x40, 1, 0, 5)]));
    let before = registers(&cpu);
    cpu.format_instruction(0).unwrap();
    assert_eq!(registers(&cpu), before);
    assert_eq!(cpu.read(0), 0x0140);
}
