// Multi-step scenarios: predication, halting, carry chains, stack round
// trips, and the factorial demo program.

use melo::addressing::Addressable;
use melo::memory::Ram;
use melo::mfcpu::MeloCpu;

const COND: u8 = 128;
const HALT: u8 = 64;
const CARRY: u8 = 1;

fn opcode(argc: u8, pred: u8, sel: u8) -> u8 {
    (argc << 6) | (pred << 5) | sel
}

fn arg(dest: u8, src: u8) -> u8 {
    (dest << 4) | src
}

#[test]
fn halted_cpu_is_inert() {
    let mut cpu = MeloCpu::new();
    cpu.set_reg(8, 0x11);
    cpu.halt();
    let before: Vec<u8> = (0..16u8).map(|i| cpu.get_reg(i)).collect();
    let mut ram = Ram::new(vec![opcode(1, 0, 0x08), arg(9, 8), 0, 0]);
    for _ in 0..10 {
        cpu.tick(&mut ram);
    }
    let after: Vec<u8> = (0..16u8).map(|i| cpu.get_reg(i)).collect();
    assert_eq!(before, after);
    assert_eq!(ram.read_byte(0), opcode(1, 0, 0x08));
}

#[test]
fn predicated_skip_has_no_side_effect_but_consumes_operands() {
    let mut cpu = MeloCpu::new();
    cpu.set_reg(8, 0x20);
    // COND is clear: the predicated mov must not copy, yet PC must advance
    // past opcode and operand.
    let mut ram = Ram::new(vec![opcode(1, 1, 0x08), arg(10, 8)]);
    cpu.tick(&mut ram);
    assert_eq!(cpu.get_reg(10), 0);
    assert_eq!(cpu.get_le_reg(0), 2);
}

#[test]
fn predicated_instruction_runs_with_cond_set() {
    let mut cpu = MeloCpu::new();
    cpu.set_reg(8, 0x20);
    cpu.set_flag(COND);
    let mut ram = Ram::new(vec![opcode(1, 1, 0x08), arg(10, 8)]);
    cpu.tick(&mut ram);
    assert_eq!(cpu.get_reg(10), 0x20);
    assert_eq!(cpu.get_le_reg(0), 2);
}

#[test]
fn pc_advances_by_one_plus_argc() {
    let mut cpu = MeloCpu::new();
    let mut ram = Ram::new(vec![
        opcode(0, 0, 0x00), // 1 byte
        opcode(1, 0, 0x08),
        arg(9, 8), // 2 bytes
        opcode(3, 0, 0x00),
        1,
        2,
        3, // 4 bytes
    ]);
    cpu.tick(&mut ram);
    assert_eq!(cpu.get_le_reg(0), 1);
    cpu.tick(&mut ram);
    assert_eq!(cpu.get_le_reg(0), 3);
    cpu.tick(&mut ram);
    assert_eq!(cpu.get_le_reg(0), 7);
}

#[test]
fn pc_wraps_past_the_top_of_memory() {
    let mut cpu = MeloCpu::new();
    cpu.set_le_reg(0, 0xFFFF);
    let mut ram = Ram::zero(0x10000);
    ram.write_byte(0xFFFF, opcode(1, 0, 0x08));
    ram.write_byte(0x0000, arg(9, 8));
    cpu.set_reg(8, 7);
    cpu.tick(&mut ram);
    assert_eq!(cpu.get_le_reg(0), 1);
    assert_eq!(cpu.get_reg(9), 7);
}

#[test]
fn stale_scratch_registers_survive_shorter_instructions() {
    let mut cpu = MeloCpu::new();
    let mut ram = Ram::new(vec![
        opcode(3, 0, 0x00),
        0xAA,
        0xBB,
        0xCC, // fills A0, A1, A2
        opcode(1, 0, 0x00),
        0xDD, // overwrites A0 only
    ]);
    cpu.tick(&mut ram);
    assert_eq!(cpu.get_reg(5), 0xAA);
    assert_eq!(cpu.get_reg(6), 0xBB);
    assert_eq!(cpu.get_reg(7), 0xCC);
    cpu.tick(&mut ram);
    assert_eq!(cpu.get_reg(5), 0xDD);
    assert_eq!(cpu.get_reg(6), 0xBB);
    assert_eq!(cpu.get_reg(7), 0xCC);
}

#[test]
fn chained_adds_emulate_sixteen_bit_addition() {
    // 0x12FF + 0x0101 == 0x1400, rippling the carry between the two adds.
    let mut cpu = MeloCpu::new();
    cpu.set_reg(8, 0xFF); // low byte of x
    cpu.set_reg(10, 0x12); // high byte of x
    cpu.set_reg(9, 0x01); // low byte of y
    cpu.set_reg(11, 0x01); // high byte of y
    let mut ram = Ram::new(vec![
        opcode(1, 0, 0x1F),
        CARRY, // clear carry
        opcode(1, 0, 0x14),
        arg(8, 9), // add low
        opcode(1, 0, 0x14),
        arg(10, 11), // add high + carry
    ]);
    cpu.tick(&mut ram);
    cpu.tick(&mut ram);
    cpu.tick(&mut ram);
    assert_eq!(cpu.get_reg(8), 0x00);
    assert_eq!(cpu.get_reg(10), 0x14);
    assert_eq!(cpu.get_flag(CARRY), 0);
}

#[test]
fn chained_subs_emulate_sixteen_bit_subtraction() {
    // 0x1400 - 0x0101 == 0x12FF, with CARRY preset to 1 and the borrow
    // rippling through it.
    let mut cpu = MeloCpu::new();
    cpu.set_reg(8, 0x00);
    cpu.set_reg(10, 0x14);
    cpu.set_reg(9, 0x01);
    cpu.set_reg(11, 0x01);
    let mut ram = Ram::new(vec![
        opcode(1, 0, 0x1E),
        CARRY, // preset carry
        opcode(1, 0, 0x15),
        arg(8, 9), // sub low
        opcode(1, 0, 0x15),
        arg(10, 11), // sub high with borrow
    ]);
    cpu.tick(&mut ram);
    cpu.tick(&mut ram);
    cpu.tick(&mut ram);
    assert_eq!(cpu.get_reg(8), 0xFF);
    assert_eq!(cpu.get_reg(10), 0x12);
    assert_eq!(cpu.get_flag(CARRY), CARRY);
}

#[test]
fn push_carries_sp_across_a_page_boundary() {
    let mut cpu = MeloCpu::new();
    cpu.set_le_reg(2, 0x00FF);
    cpu.set_reg(8, 0x42);
    let mut ram = Ram::zero(0x200);
    ram.write_byte(0, opcode(1, 0, 0x0E));
    ram.write_byte(1, arg(0, 8));
    cpu.tick(&mut ram);
    assert_eq!(ram.read_byte(0x00FF), 0x42);
    assert_eq!(cpu.get_le_reg(2), 0x0100);
}

#[test]
fn pop_borrows_sp_across_a_page_boundary() {
    let mut cpu = MeloCpu::new();
    cpu.set_le_reg(2, 0x0100);
    let mut ram = Ram::zero(0x200);
    ram.write_byte(0x00FF, 0x42);
    ram.write_byte(0, opcode(1, 0, 0x0F));
    ram.write_byte(1, arg(9, 0));
    cpu.tick(&mut ram);
    assert_eq!(cpu.get_reg(9), 0x42);
    assert_eq!(cpu.get_le_reg(2), 0x00FF);
}

#[test]
fn call_and_ret_carry_sp_across_a_page_boundary() {
    let mut cpu = MeloCpu::new();
    cpu.set_le_reg(2, 0x00FF);
    cpu.set_le_reg(8, 0xAABB);
    cpu.set_le_reg(10, 0x0040);
    let mut ram = Ram::zero(0x200);
    ram.write_byte(0, opcode(1, 0, 0x0A)); // call pair 8, pair 10
    ram.write_byte(1, arg(8, 10));
    ram.write_byte(2, opcode(1, 0, 0x0B)); // ret pair 8
    ram.write_byte(3, arg(8, 0));
    cpu.tick(&mut ram);
    assert_eq!(ram.read_byte(0x00FF), 0xBB);
    assert_eq!(ram.read_byte(0x0100), 0xAA);
    assert_eq!(cpu.get_le_reg(2), 0x0101);
    assert_eq!(cpu.get_le_reg(8), 0x0040);
    cpu.tick(&mut ram);
    assert_eq!(cpu.get_le_reg(8), 0xAABB);
    assert_eq!(cpu.get_le_reg(2), 0x00FF);
}

#[test]
fn push_then_pop_restores_value_and_sp() {
    let mut cpu = MeloCpu::new();
    cpu.set_le_reg(2, 0x0020);
    cpu.set_reg(8, 0x42);
    let mut ram = Ram::new(vec![0; 64]);
    ram.write_byte(0, opcode(1, 0, 0x0E));
    ram.write_byte(1, arg(0, 8));
    ram.write_byte(2, opcode(1, 0, 0x0F));
    ram.write_byte(3, arg(9, 0));
    cpu.tick(&mut ram);
    cpu.tick(&mut ram);
    assert_eq!(cpu.get_reg(9), 0x42);
    assert_eq!(cpu.get_le_reg(2), 0x0020);
}

#[test]
fn call_then_ret_resumes_after_the_call() {
    // A call on the PC pair jumps to a routine that immediately returns;
    // execution resumes at the instruction after the call.
    let mut cpu = MeloCpu::new();
    cpu.set_le_reg(2, 0x0080); // stack
    cpu.set_le_reg(10, 0x0040); // routine address
    let mut ram = Ram::new(vec![0; 256]);
    ram.write_byte(0, opcode(1, 0, 0x0A)); // call pc, pair 10
    ram.write_byte(1, arg(0, 10));
    ram.write_byte(2, opcode(1, 0, 0x08)); // mov r9, r8 after return
    ram.write_byte(3, arg(9, 8));
    ram.write_byte(0x40, opcode(1, 0, 0x0B)); // ret pc
    ram.write_byte(0x41, arg(0, 0));
    cpu.set_reg(8, 0x99);
    cpu.tick(&mut ram); // call
    assert_eq!(cpu.get_le_reg(0), 0x0040);
    cpu.tick(&mut ram); // ret
    assert_eq!(cpu.get_le_reg(0), 0x0002);
    assert_eq!(cpu.get_le_reg(2), 0x0080);
    cpu.tick(&mut ram); // the instruction after the call
    assert_eq!(cpu.get_reg(9), 0x99);
}

#[test]
fn shift_amounts_of_eight_or_more_yield_zero() {
    for amount in [8u8, 9, 12, 15] {
        let mut cpu = MeloCpu::new();
        cpu.set_reg(8, 0xA5);
        cpu.set_reg(9, amount);
        let mut ram = Ram::new(vec![opcode(1, 0, 0x18), arg(8, 9)]);
        cpu.tick(&mut ram);
        assert_eq!(cpu.get_reg(8), 0);

        let mut cpu = MeloCpu::new();
        cpu.set_reg(8, 0xA5);
        cpu.set_reg(9, amount);
        let mut ram = Ram::new(vec![opcode(1, 0, 0x19), arg(8, 9)]);
        cpu.tick(&mut ram);
        assert_eq!(cpu.get_reg(8), 0);
    }
}

#[test]
fn mov_clear_add_halt_scenario() {
    // r8 = 0x20, r9 = 0x69; mov r10,r8; clear carry; add r10,r9; set halt.
    let mut cpu = MeloCpu::new();
    cpu.set_reg(8, 0x20);
    cpu.set_reg(9, 0x69);
    let mut ram = Ram::new(vec![
        opcode(1, 0, 0x08),
        arg(10, 8),
        opcode(1, 0, 0x1F),
        CARRY,
        opcode(1, 0, 0x14),
        arg(10, 9),
        opcode(1, 0, 0x1E),
        HALT,
    ]);
    cpu.tick(&mut ram);
    cpu.tick(&mut ram);
    cpu.tick(&mut ram);
    cpu.tick(&mut ram);
    assert_eq!(cpu.get_reg(10), 0x89);
    assert_eq!(cpu.get_flag(CARRY), 0);
    assert_eq!(cpu.get_flag(HALT), HALT);
    assert!(cpu.is_halted());
}

#[test]
fn factorial_program_computes_five_factorial() {
    let start = [
        0xC9, 0x26, 0x00, 0xFF, // mov16 sp, $FF00
        0x88, 0xD6, 0x05, // mov r13, #5
        0xCA, 0x06, 0x00, 0x20, // call pc, [factorial]
        0x5E, 0x40, // set halt
    ];
    let mul = [
        0x88, 0xF6, 0x00, // mov r15, #0
        0x41, 0xEE, // loop: cmp r14
        0x42, 0x02, // any zero
        0x6B, 0x00, // ret? pc
        0x5D, 0xE1, // dec r14, 1
        0x5F, 0x01, // clear carry
        0x54, 0xFD, // add r15, r13
        0xC9, 0x06, 0x03, 0x10, // mov16 pc, [loop]
    ];
    let fact = [
        0x48, 0xFD, // mov r15, r13
        0x81, 0xD6, 0x01, // loop: cmp r13, #1
        0x42, 0x18, // any (lt | eq)
        0x6B, 0x00, // ret? pc
        0x5D, 0xD1, // dec r13, 1
        0x48, 0xEF, // mov r14, r15
        0xCA, 0x06, 0x00, 0x10, // call pc, [mul]
        0xC9, 0x06, 0x02, 0x20, // mov16 pc, [loop]
    ];

    let mut bytes = vec![0u8; 0x10000];
    bytes[0..start.len()].copy_from_slice(&start);
    bytes[0x1000..0x1000 + mul.len()].copy_from_slice(&mul);
    bytes[0x2000..0x2000 + fact.len()].copy_from_slice(&fact);
    let mut ram = Ram::new(bytes);

    let mut cpu = MeloCpu::rand();
    let mut steps = 0u32;
    while !cpu.is_halted() {
        cpu.tick(&mut ram);
        steps += 1;
        assert!(steps < 100_000, "program did not halt");
    }
    assert_eq!(cpu.get_reg(15), 120);
    assert!(cpu.is_halted());
}
