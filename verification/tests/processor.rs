use fun_emu::bus::Bus;
use fun_emu::processor::MyProcessor;
use fun_emu::ram::Ram;

/// A processor with the given registers, about to execute `program` at `pc`.
fn machine(pc: u16, registers: [u8; 16], program: &[u8]) -> (MyProcessor, Ram) {
    let mut cpu = MyProcessor::new();
    for (index, value) in registers.iter().enumerate() {
        cpu.set_register(index as u8, *value);
    }
    cpu.interrupt(pc);
    let mut ram = Ram::new();
    for (offset, byte) in program.iter().enumerate() {
        ram.write(pc.wrapping_add(offset as u16), *byte);
    }
    (cpu, ram)
}

fn seeded(seed: u32) -> [u8; 16] {
    let mut state = seed.wrapping_mul(2654435761).wrapping_add(12345);
    let mut registers = [0u8; 16];
    for slot in registers.iter_mut() {
        state = state.wrapping_mul(1103515245).wrapping_add(12345);
        *slot = (state >> 16) as u8;
    }
    registers
}

#[test]
fn reset_state() {
    let cpu = MyProcessor::new();
    assert_eq!(cpu.pc(), 0x0100);
    assert_eq!(cpu.sp(), 1024);
    assert_eq!(cpu.registers(), [0u8; 16]);
    assert_eq!(cpu.latch(), None);
}

#[test]
fn interrupt_sets_only_the_program_counter() {
    let mut cpu = MyProcessor::new();
    cpu.set_register(7, 0x55);
    cpu.interrupt(0xbeef);
    assert_eq!(cpu.pc(), 0xbeef);
    assert_eq!(cpu.sp(), 1024);
    assert_eq!(cpu.register(7), 0x55);
    assert_eq!(cpu.latch(), None);
}

#[test]
fn set_register_changes_one_register() {
    let mut cpu = MyProcessor::new();
    cpu.set_register(15, 9);
    let mut expected = [0u8; 16];
    expected[15] = 9;
    assert_eq!(cpu.registers(), expected);
    assert_eq!(cpu.pc(), 0x0100);
}

#[test]
fn literal_load_takes_two_steps() {
    let (mut cpu, mut ram) = machine(0x0100, [0; 16], &[0x05, 0x93]);
    cpu.step(&mut ram);
    assert_eq!(cpu.latch(), Some(5));
    assert_eq!(cpu.pc(), 0x0101);
    assert_eq!(cpu.registers(), [0u8; 16]);
    cpu.step(&mut ram);
    assert_eq!(cpu.latch(), None);
    assert_eq!(cpu.pc(), 0x0102);
    assert_eq!(cpu.register(5), 0x93);
}

#[test]
fn literal_load_round_trip_for_every_byte_and_register() {
    for n in 0..16u8 {
        for value in 0..=255u8 {
            let seed = seeded(n as u32 * 256 + value as u32);
            let (mut cpu, mut ram) = machine(0x0100, seed, &[n, value, 0x30]);
            cpu.step(&mut ram);
            cpu.step(&mut ram);
            let mut expected = seed;
            expected[n as usize] = value;
            assert_eq!(cpu.registers(), expected);
            assert_eq!(cpu.pc(), 0x0102);
            assert_eq!(cpu.sp(), 1024);
            assert_eq!(cpu.latch(), None);
        }
    }
}

#[test]
fn literal_that_looks_like_a_jump_is_data() {
    let mut registers = [0u8; 16];
    registers[1] = 0x03;
    let (mut cpu, mut ram) = machine(0x0100, registers, &[0x04, 0x10]);
    cpu.step(&mut ram);
    cpu.step(&mut ram);
    assert_eq!(cpu.register(4), 0x10);
    assert_eq!(cpu.pc(), 0x0102);
}

#[test]
fn literal_load_wraps_the_program_counter() {
    let (mut cpu, mut ram) = machine(0xffff, [0; 16], &[0x0a, 0x77]);
    cpu.step(&mut ram);
    assert_eq!(cpu.pc(), 0x0000);
    cpu.step(&mut ram);
    assert_eq!(cpu.pc(), 0x0001);
    assert_eq!(cpu.register(10), 0x77);
}

/// The instruction table for opcodes 3 and above, written out once more.
fn expected_registers(op: u8, n: usize, r: [u8; 16], at_address: u8) -> [u8; 16] {
    let mut out = r;
    match op {
        0x3 => out[0] = r[n],
        0x4 => out[n] = r[0],
        0x5 => out[n] = at_address,
        0x6 => {}
        0x7 => out[0] = if r[0] == r[n] { 1 } else { 0 },
        0x8 => {
            let holds = if r[3] & 1 == 1 { r[0] > r[n] } else { r[0] < r[n] };
            out[0] = if holds { 0xff } else { 0 };
        }
        0x9 => {
            let sum = r[0] as u16 + r[n] as u16;
            out[0] = (sum % 256) as u8;
            out[3] = if sum > 255 { r[3] | 0x02 } else { r[3] & 0xfd };
        }
        0xa => {
            let difference = r[0] as i16 - r[n] as i16;
            out[0] = difference.rem_euclid(256) as u8;
            out[3] = if difference < 0 { r[3] | 0x04 } else { r[3] & 0xfb };
        }
        0xb => out[0] = ((r[0] as u16) << (r[n] % 8)) as u8,
        0xc => out[0] = r[0] >> (r[n] % 8),
        0xd => out[0] = r[0] | r[n],
        0xe => out[0] = r[0] & r[n],
        0xf => out[0] = !r[n],
        _ => unreachable!(),
    }
    out
}

#[test]
fn register_instructions_follow_the_table() {
    for op in 0x3..=0xfu8 {
        for n in 0..16u8 {
            for round in 0..40u32 {
                let mut seed = seeded(round * 4099 + op as u32 * 16 + n as u32);
                // Keep the indirect address away from the instruction.
                seed[1] = 0x40 | (seed[1] & 0x3f);
                if op == 0x5 {
                    // The load must not change where it points afterwards.
                    seed[1] = 0x40;
                }
                let (mut cpu, mut ram) = machine(0x0200, seed, &[op << 4 | n]);
                let pointer = (seed[1] as u16) << 8 | seed[2] as u16;
                let stored = (round as u8).wrapping_mul(37).wrapping_add(op);
                ram.write(pointer, stored);
                cpu.step(&mut ram);
                assert_eq!(
                    cpu.registers(),
                    expected_registers(op, n as usize, seed, stored),
                    "op {:#x}, n {}, registers {:?}",
                    op,
                    n,
                    seed
                );
                assert_eq!(cpu.pc(), 0x0201);
                assert_eq!(cpu.sp(), 1024);
                assert_eq!(cpu.latch(), None);
                let at_pointer = ram.read(pointer);
                if op == 0x6 {
                    assert_eq!(at_pointer, seed[n as usize]);
                } else {
                    assert_eq!(at_pointer, stored);
                }
                assert_eq!(ram.read(0x0200), op << 4 | n);
            }
        }
    }
}

#[test]
fn register_instruction_wraps_the_program_counter() {
    let (mut cpu, mut ram) = machine(0xffff, [0; 16], &[0x30]);
    cpu.step(&mut ram);
    assert_eq!(cpu.pc(), 0x0000);
}

fn accumulate(op: u8, k: u8, acc: u8, operand: u8, status: u8) -> (u8, u8) {
    let mut registers = [0u8; 16];
    registers[0] = acc;
    registers[3] = status;
    registers[k as usize] = operand;
    let (mut cpu, mut ram) = machine(0x0100, registers, &[op << 4 | k]);
    cpu.step(&mut ram);
    assert_eq!(cpu.pc(), 0x0101);
    (cpu.register(0), cpu.register(3))
}

#[test]
fn add_sets_the_overflow_bit() {
    assert_eq!(accumulate(0x9, 5, 250, 10, 0), (4, 0x02));
    assert_eq!(accumulate(0x9, 5, 250, 10, 0xf0), (4, 0xf2));
}

#[test]
fn add_clears_the_overflow_bit() {
    assert_eq!(accumulate(0x9, 5, 10, 5, 0), (15, 0));
    assert_eq!(accumulate(0x9, 5, 10, 5, 0xff), (15, 0xfd));
}

#[test]
fn add_at_the_edge_of_a_byte() {
    assert_eq!(accumulate(0x9, 4, 255, 0, 0x02), (255, 0));
    assert_eq!(accumulate(0x9, 4, 255, 1, 0), (0, 0x02));
    assert_eq!(accumulate(0x9, 4, 255, 255, 0), (254, 0x02));
}

#[test]
fn add_of_the_accumulator_to_itself_uses_the_old_value() {
    let mut registers = [0u8; 16];
    registers[0] = 100;
    let (mut cpu, mut ram) = machine(0x0100, registers, &[0x90]);
    cpu.step(&mut ram);
    assert_eq!(cpu.register(0), 200);
    assert_eq!(cpu.register(3), 0);

    let mut registers = [0u8; 16];
    registers[0] = 200;
    let (mut cpu, mut ram) = machine(0x0100, registers, &[0x90]);
    cpu.step(&mut ram);
    assert_eq!(cpu.register(0), 144);
    assert_eq!(cpu.register(3), 0x02);
}

#[test]
fn add_of_the_status_register_reads_it_before_the_flag_changes() {
    let mut registers = [0u8; 16];
    registers[0] = 0xff;
    registers[3] = 0x01;
    let (mut cpu, mut ram) = machine(0x0100, registers, &[0x93]);
    cpu.step(&mut ram);
    assert_eq!(cpu.register(0), 0x00);
    assert_eq!(cpu.register(3), 0x03);
}

#[test]
fn sub_sets_the_underflow_bit() {
    assert_eq!(accumulate(0xa, 7, 2, 5, 0), (253, 0x04));
    assert_eq!(accumulate(0xa, 7, 2, 5, 0x03), (253, 0x07));
}

#[test]
fn sub_clears_the_underflow_bit() {
    assert_eq!(accumulate(0xa, 7, 5, 2, 0), (3, 0));
    assert_eq!(accumulate(0xa, 7, 5, 2, 0xff), (3, 0xfb));
    assert_eq!(accumulate(0xa, 7, 5, 5, 0x04), (0, 0));
}

#[test]
fn sub_of_the_accumulator_from_itself() {
    let mut registers = [0u8; 16];
    registers[0] = 77;
    registers[3] = 0x04;
    let (mut cpu, mut ram) = machine(0x0100, registers, &[0xa0]);
    cpu.step(&mut ram);
    assert_eq!(cpu.register(0), 0);
    assert_eq!(cpu.register(3), 0);
}

#[test]
fn equality_test() {
    assert_eq!(accumulate(0x7, 6, 9, 9, 0xaa), (1, 0xaa));
    assert_eq!(accumulate(0x7, 6, 9, 8, 0xaa), (0, 0xaa));
}

#[test]
fn ordered_test_follows_status_bit_zero() {
    // Bit 0 clear: less than.
    assert_eq!(accumulate(0x8, 6, 3, 9, 0x00), (0xff, 0x00));
    assert_eq!(accumulate(0x8, 6, 9, 3, 0x00), (0x00, 0x00));
    assert_eq!(accumulate(0x8, 6, 9, 9, 0x00), (0x00, 0x00));
    // Bit 0 set: greater than.
    assert_eq!(accumulate(0x8, 6, 9, 3, 0x01), (0xff, 0x01));
    assert_eq!(accumulate(0x8, 6, 3, 9, 0x01), (0x00, 0x01));
    assert_eq!(accumulate(0x8, 6, 9, 9, 0x01), (0x00, 0x01));
    // Only bit 0 counts.
    assert_eq!(accumulate(0x8, 6, 3, 9, 0xfe), (0xff, 0xfe));
}

#[test]
fn shifts() {
    assert_eq!(accumulate(0xb, 4, 0b0000_0101, 1, 0), (0b0000_1010, 0));
    assert_eq!(accumulate(0xb, 4, 0b1000_0001, 1, 0), (0b0000_0010, 0));
    assert_eq!(accumulate(0xb, 4, 0xff, 7, 0), (0x80, 0));
    assert_eq!(accumulate(0xc, 4, 0b1010_0000, 5, 0), (0b0000_0101, 0));
    assert_eq!(accumulate(0xc, 4, 0xff, 7, 0), (0x01, 0));
    assert_eq!(accumulate(0xb, 4, 0x5a, 0, 0), (0x5a, 0));
}

#[test]
fn shift_distance_wraps_at_eight() {
    assert_eq!(accumulate(0xb, 4, 0x01, 8, 0), (0x01, 0));
    assert_eq!(accumulate(0xb, 4, 0x01, 9, 0), (0x02, 0));
    assert_eq!(accumulate(0xc, 4, 0x80, 8, 0), (0x80, 0));
    assert_eq!(accumulate(0xc, 4, 0x80, 255, 0), (0x01, 0));
}

#[test]
fn bitwise_operations() {
    assert_eq!(accumulate(0xd, 4, 0b1100_0000, 0b0000_0011, 0), (0b1100_0011, 0));
    assert_eq!(accumulate(0xe, 4, 0b1100_0110, 0b0000_0111, 0), (0b0000_0110, 0));
    assert_eq!(accumulate(0xf, 4, 0x12, 0b1010_0101, 0), (0b0101_1010, 0));
}

#[test]
fn get_and_put() {
    let mut registers = [0u8; 16];
    registers[0] = 1;
    registers[9] = 2;
    let (mut cpu, mut ram) = machine(0x0100, registers, &[0x39, 0x4c]);
    cpu.step(&mut ram);
    assert_eq!(cpu.register(0), 2);
    cpu.step(&mut ram);
    assert_eq!(cpu.register(12), 2);
    assert_eq!(cpu.register(9), 2);
    assert_eq!(cpu.pc(), 0x0102);
}

#[test]
fn load_and_store_use_the_indirect_address() {
    let mut registers = [0u8; 16];
    registers[1] = 0x12;
    registers[2] = 0x34;
    registers[6] = 0xab;
    let (mut cpu, mut ram) = machine(0x0100, registers, &[0x66, 0x57]);
    cpu.step(&mut ram);
    assert_eq!(ram.read(0x1234), 0xab);
    assert_eq!(ram.read(0x3412), 0x00);
    cpu.step(&mut ram);
    assert_eq!(cpu.register(7), 0xab);
    assert_eq!(cpu.pc(), 0x0102);
}

#[test]
fn load_into_an_address_register_uses_the_address_from_before() {
    let mut registers = [0u8; 16];
    registers[1] = 0x20;
    registers[2] = 0x00;
    let (mut cpu, mut ram) = machine(0x0100, registers, &[0x51]);
    ram.write(0x2000, 0x99);
    cpu.step(&mut ram);
    assert_eq!(cpu.register(1), 0x99);
    assert_eq!(cpu.register(2), 0x00);
}

#[test]
fn jump_lands_on_the_indirect_address() {
    let mut registers = [0u8; 16];
    registers[1] = 0x03;
    registers[2] = 0x00;
    let (mut cpu, mut ram) = machine(0x0100, registers, &[0x10]);
    cpu.step(&mut ram);
    assert_eq!(cpu.pc(), 0x0300);
    assert_eq!(cpu.sp(), 1024);
    assert_eq!(cpu.registers(), registers);
}

#[test]
fn jump_to_address_zero() {
    let (mut cpu, mut ram) = machine(0x0100, [0; 16], &[0x10]);
    cpu.step(&mut ram);
    assert_eq!(cpu.pc(), 0x0000);
}

#[test]
fn branch_not_taken_on_zero() {
    let mut registers = [0u8; 16];
    registers[1] = 0x03;
    registers[2] = 0x00;
    registers[8] = 0;
    let (mut cpu, mut ram) = machine(0x0100, registers, &[0x28]);
    cpu.step(&mut ram);
    assert_eq!(cpu.pc(), 0x0101);
    assert_eq!(cpu.registers(), registers);
}

#[test]
fn branch_taken_on_nonzero() {
    let mut registers = [0u8; 16];
    registers[1] = 0x03;
    registers[2] = 0x00;
    registers[8] = 7;
    let (mut cpu, mut ram) = machine(0x0100, registers, &[0x28]);
    cpu.step(&mut ram);
    assert_eq!(cpu.pc(), 0x0300);
    assert_eq!(cpu.registers(), registers);
}

#[test]
fn call_pushes_and_return_pops() {
    let mut registers = [0u8; 16];
    registers[1] = 0x04;
    registers[2] = 0x80;
    let (mut cpu, mut ram) = machine(0x0200, registers, &[0x11]);
    ram.write(0x0480, 0x12);
    cpu.step(&mut ram);
    assert_eq!(cpu.pc(), 0x0480);
    assert_eq!(cpu.sp(), 1022);
    assert_eq!(ram.read(1022), 0x00);
    assert_eq!(ram.read(1023), 0x02);
    cpu.step(&mut ram);
    assert_eq!(cpu.pc(), 0x0201);
    assert_eq!(cpu.sp(), 1024);
    assert_eq!(cpu.registers(), registers);
}

#[test]
fn call_pushes_both_bytes_of_the_program_counter() {
    let mut registers = [0u8; 16];
    registers[1] = 0x04;
    let (mut cpu, mut ram) = machine(0xabcd, registers, &[0x11]);
    ram.write(0x0400, 0x12);
    cpu.step(&mut ram);
    assert_eq!(ram.read(1022), 0xcd);
    assert_eq!(ram.read(1023), 0xab);
    cpu.step(&mut ram);
    assert_eq!(cpu.pc(), 0xabce);
}

#[test]
fn nested_calls_return_in_order() {
    let mut registers = [0u8; 16];
    registers[1] = 0x03;
    let (mut cpu, mut ram) = machine(0x0200, registers, &[0x11]);
    // At 0x0300: point at 0x0500, call, return.
    for (offset, byte) in [0x01u8, 0x05, 0x11, 0x12].iter().enumerate() {
        ram.write(0x0300 + offset as u16, *byte);
    }
    ram.write(0x0500, 0x12);
    cpu.step(&mut ram);
    assert_eq!((cpu.pc(), cpu.sp()), (0x0300, 1022));
    cpu.step(&mut ram);
    cpu.step(&mut ram);
    cpu.step(&mut ram);
    assert_eq!((cpu.pc(), cpu.sp()), (0x0500, 1020));
    cpu.step(&mut ram);
    assert_eq!((cpu.pc(), cpu.sp()), (0x0303, 1022));
    cpu.step(&mut ram);
    assert_eq!((cpu.pc(), cpu.sp()), (0x0201, 1024));
}

#[test]
fn stack_pointer_wraps() {
    // Memory full of returns: each pops 0x1212 and continues at 0x1213.
    let mut cpu = MyProcessor::new();
    let mut ram = Ram::new();
    for address in 0..=0xffffu16 {
        ram.write(address, 0x12);
    }
    let mut steps = 0u32;
    while cpu.sp() != 0xfffe {
        cpu.step(&mut ram);
        assert_eq!(cpu.pc(), 0x1213);
        steps += 1;
    }
    assert_eq!(steps, (0xfffe - 1024) / 2);
    cpu.step(&mut ram);
    assert_eq!(cpu.sp(), 0x0000);
    cpu.step(&mut ram);
    assert_eq!(cpu.sp(), 0x0002);
}

#[test]
fn call_wraps_the_stack_pointer_below_zero() {
    // Calls that call themselves: every step pushes 0x8000 and stays there.
    let mut registers = [0u8; 16];
    registers[1] = 0x80;
    let (mut cpu, mut ram) = machine(0x8000, registers, &[0x11]);
    for _ in 0..512 {
        cpu.step(&mut ram);
    }
    assert_eq!(cpu.sp(), 0x0000);
    assert_eq!(ram.read(0x0000), 0x00);
    assert_eq!(ram.read(0x0001), 0x80);
    cpu.step(&mut ram);
    assert_eq!(cpu.sp(), 0xfffe);
    assert_eq!(cpu.pc(), 0x8000);
    assert_eq!(ram.read(0xfffe), 0x00);
    assert_eq!(ram.read(0xffff), 0x80);
}

#[test]
fn hold_stays_on_the_instruction() {
    let (mut cpu, mut ram) = machine(0x0100, seeded(1), &[0x13]);
    cpu.step(&mut ram);
    assert_eq!(cpu.pc(), 0x0100);
    cpu.step(&mut ram);
    assert_eq!(cpu.pc(), 0x0100);
    assert_eq!(cpu.sp(), 1024);
    assert_eq!(cpu.registers(), seeded(1));

    let (mut cpu, mut ram) = machine(0x0000, [0; 16], &[0x13]);
    cpu.step(&mut ram);
    assert_eq!(cpu.pc(), 0x0000);
}

#[test]
fn unused_control_codes_do_nothing() {
    for low in 4..16u8 {
        let (mut cpu, mut ram) = machine(0x0100, seeded(low as u32), &[0x10 | low]);
        cpu.step(&mut ram);
        assert_eq!(cpu.pc(), 0x0101);
        assert_eq!(cpu.sp(), 1024);
        assert_eq!(cpu.registers(), seeded(low as u32));
        assert_eq!(cpu.latch(), None);
    }
}

#[test]
fn a_small_program_counts_down() {
    // r5 := 3; r4 := 1; loop: r0 := r5; r0 -= r4; r5 := r0; if r5 != 0 goto loop; hold
    let program = [
        0x05, 0x03, // 0x0100: r5 := 3
        0x04, 0x01, // 0x0102: r4 := 1
        0x01, 0x01, // 0x0104: r1 := 0x01
        0x02, 0x08, // 0x0106: r2 := 0x08
        0x35, // 0x0108: r0 := r5
        0xa4, // 0x0109: r0 -= r4
        0x45, // 0x010a: r5 := r0
        0x25, // 0x010b: if r5 != 0 goto 0x0108
        0x13, // 0x010c: hold
    ];
    let (mut cpu, mut ram) = machine(0x0100, [0; 16], &program);
    let mut steps = 0;
    while cpu.pc() != 0x010c {
        cpu.step(&mut ram);
        steps += 1;
        assert!(steps < 100);
    }
    assert_eq!(steps, 8 + 3 * 4);
    assert_eq!(cpu.register(5), 0);
    assert_eq!(cpu.register(0), 0);
    assert_eq!(cpu.register(3) & 0x04, 0);
}
