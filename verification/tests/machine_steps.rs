use nes6502::cpu::{Step, CPU};
use nes6502::instruction::{AddrMode, Instruction, OpCode};
use nes6502::mem::Memory;
use nes6502::nes::NES;
use nes6502::status::StatusRegister;

// Puts `bytes` into memory from `start` on.
fn load(mem: &mut Memory, start: u16, bytes: &[u8]) {
    let mut addr = start;
    for byte in bytes {
        mem.ram_write(addr, *byte);
        addr = addr.wrapping_add(1);
    }
}

// A processor at `pc` with a program there.
fn start_at(pc: u16, program: &[u8]) -> (CPU, Memory) {
    let mut mem = Memory::new();
    load(&mut mem, pc, program);
    let mut cpu = CPU::new();
    cpu.pc = pc;
    (cpu, mem)
}

#[test]
fn memory_is_all_ff_at_power_on() {
    let mem = Memory::new();
    assert_eq!(mem.ram_read(0x0000), 0xff);
    assert_eq!(mem.ram_read(0x07ff), 0xff);
    assert_eq!(mem.ram_read(0x0800), 0xff);
    assert_eq!(mem.ram_read(0xffff), 0xff);
}

#[test]
fn memory_is_flat_over_the_whole_address_space() {
    let mut mem = Memory::new();
    mem.ram_write(0x0000, 0x11);
    mem.ram_write(0x0800, 0x22);
    mem.ram_write(0xffff, 0x33);
    assert_eq!(mem.ram_read(0x0000), 0x11);
    assert_eq!(mem.ram_read(0x0800), 0x22);
    assert_eq!(mem.ram_read(0xffff), 0x33);
    assert_eq!(mem.ram_read(0x0001), 0xff);
    assert_eq!(mem.ram_read(0x1000), 0xff);
}

#[test]
fn processor_at_power_on() {
    let cpu = CPU::new();
    assert_eq!(
        cpu,
        CPU { pc: 0, sp: 0xfd, accum: 0, x: 0, y: 0, status: StatusRegister::new(), cycle: 0 }
    );
}

#[test]
fn reset_goes_through_the_reset_vector() {
    let mut mem = Memory::new();
    mem.ram_write(0xfffc, 0x00);
    mem.ram_write(0xfffd, 0x06);
    let mut cpu = CPU::new();
    cpu.accum = 0x12;
    cpu.sp = 0x10;
    cpu.cycle = 99;
    cpu.status.clear_i();
    cpu.status.set_c();
    cpu.reset(&mem);
    assert_eq!(cpu.pc, 0x0600);
    assert_eq!(cpu.sp, 0xfd);
    assert!(cpu.status.i);
    assert!(cpu.status.c);
    assert_eq!(cpu.accum, 0x12);
    assert_eq!(cpu.cycle, 0);
}

#[test]
fn tick_clock_counts_one_cycle() {
    let mut cpu = CPU::new();
    cpu.tick_clock();
    cpu.tick_clock();
    assert_eq!(cpu.cycle, 2);
    assert_eq!(CPU { cycle: 0, ..cpu }, CPU::new());
}

#[test]
fn lda_immediate_sets_zero_and_negative() {
    let (mut cpu, mut mem) = start_at(0x0600, &[0xa9, 0x00, 0xa9, 0x80]);
    cpu.accum = 0x55;
    let step = cpu.advance_cpu(&mut mem);
    assert_eq!(step, Step { opcode: 0xa9, cycles: 2, illegal: false });
    assert_eq!(cpu.accum, 0x00);
    assert!(cpu.status.z);
    assert!(!cpu.status.n);
    assert_eq!(cpu.pc, 0x0602);
    cpu.advance_cpu(&mut mem);
    assert_eq!(cpu.accum, 0x80);
    assert!(!cpu.status.z);
    assert!(cpu.status.n);
    assert_eq!(cpu.pc, 0x0604);
    assert_eq!(cpu.cycle, 4);
}

#[test]
fn adc_signed_overflow_from_positive_operands() {
    let (mut cpu, mut mem) = start_at(0x0600, &[0x69, 0x01]);
    cpu.accum = 0x7f;
    cpu.status.clear_c();
    cpu.advance_cpu(&mut mem);
    assert_eq!(cpu.accum, 0x80);
    assert!(!cpu.status.c);
    assert!(cpu.status.v);
    assert!(cpu.status.n);
    assert!(!cpu.status.z);
}

#[test]
fn sbc_borrows_through_the_carry() {
    let (mut cpu, mut mem) = start_at(0x0600, &[0xe9, 0x01, 0xe9, 0x01]);
    cpu.accum = 0x01;
    cpu.status.set_c();
    cpu.advance_cpu(&mut mem);
    assert_eq!(cpu.accum, 0x00);
    assert!(cpu.status.c);
    assert!(cpu.status.z);
    cpu.advance_cpu(&mut mem);
    assert_eq!(cpu.accum, 0xff);
    assert!(!cpu.status.c);
    assert!(cpu.status.n);
    assert!(!cpu.status.v);
}

#[test]
fn cmp_compares_unsigned() {
    let (mut cpu, mut mem) = start_at(0x0600, &[0xc9, 0x80]);
    cpu.accum = 0x7f;
    cpu.status.set_c();
    cpu.advance_cpu(&mut mem);
    assert!(!cpu.status.c);
    assert!(!cpu.status.z);
    assert!(cpu.status.n);
    assert_eq!(cpu.accum, 0x7f);
}

#[test]
fn cpx_and_cpy_compare_their_registers() {
    let (mut cpu, mut mem) = start_at(0x0600, &[0xe0, 0x10, 0xc0, 0x30]);
    cpu.x = 0x10;
    cpu.y = 0x20;
    cpu.advance_cpu(&mut mem);
    assert!(cpu.status.c && cpu.status.z && !cpu.status.n);
    cpu.advance_cpu(&mut mem);
    assert!(!cpu.status.c && !cpu.status.z && cpu.status.n);
}

#[test]
fn bne_costs_two_three_or_four_cycles() {
    // Not taken.
    let (mut cpu, mut mem) = start_at(0x0600, &[0xd0, 0x10]);
    cpu.status.set_z();
    let step = cpu.advance_cpu(&mut mem);
    assert_eq!(step.cycles, 2);
    assert_eq!(cpu.pc, 0x0602);
    assert_eq!(cpu.cycle, 2);
    // Taken, same page.
    let (mut cpu, mut mem) = start_at(0x0600, &[0xd0, 0x10]);
    cpu.status.clear_z();
    let step = cpu.advance_cpu(&mut mem);
    assert_eq!(step.cycles, 3);
    assert_eq!(cpu.pc, 0x0612);
    assert_eq!(cpu.cycle, 3);
    // Taken, into the next page.
    let (mut cpu, mut mem) = start_at(0x06f0, &[0xd0, 0x10]);
    cpu.status.clear_z();
    let step = cpu.advance_cpu(&mut mem);
    assert_eq!(step.cycles, 4);
    assert_eq!(cpu.pc, 0x0702);
    assert_eq!(cpu.cycle, 4);
    // Taken, back into the page before.
    let (mut cpu, mut mem) = start_at(0x0600, &[0xd0, 0xfb]);
    cpu.status.clear_z();
    let step = cpu.advance_cpu(&mut mem);
    assert_eq!(step.cycles, 4);
    assert_eq!(cpu.pc, 0x05fd);
}

#[test]
fn a_branch_whose_second_byte_ends_the_page_counts_from_the_next_page() {
    // The instruction after the branch is at 0x0700, so landing in page 7
    // crosses nothing.
    let (mut cpu, mut mem) = start_at(0x06fe, &[0xd0, 0x10]);
    cpu.status.clear_z();
    let step = cpu.advance_cpu(&mut mem);
    assert_eq!(step.cycles, 3);
    assert_eq!(cpu.pc, 0x0710);
}

#[test]
fn every_branch_tests_its_own_flag() {
    let cases: [(u8, fn(&mut StatusRegister), fn(&mut StatusRegister)); 8] = [
        (0x90, StatusRegister::clear_c, StatusRegister::set_c),
        (0xb0, StatusRegister::set_c, StatusRegister::clear_c),
        (0xf0, StatusRegister::set_z, StatusRegister::clear_z),
        (0xd0, StatusRegister::clear_z, StatusRegister::set_z),
        (0x30, StatusRegister::set_n, StatusRegister::clear_n),
        (0x10, StatusRegister::clear_n, StatusRegister::set_n),
        (0x50, StatusRegister::clear_v, StatusRegister::set_v),
        (0x70, StatusRegister::set_v, StatusRegister::clear_v),
    ];
    for (opcode, take, leave) in cases {
        let (mut cpu, mut mem) = start_at(0x0600, &[opcode, 0x04]);
        take(&mut cpu.status);
        assert_eq!(cpu.advance_cpu(&mut mem).cycles, 3, "opcode {:#04x}", opcode);
        assert_eq!(cpu.pc, 0x0606);
        let (mut cpu, mut mem) = start_at(0x0600, &[opcode, 0x04]);
        leave(&mut cpu.status);
        assert_eq!(cpu.advance_cpu(&mut mem).cycles, 2, "opcode {:#04x}", opcode);
        assert_eq!(cpu.pc, 0x0602);
    }
}

#[test]
fn pha_then_pla_restores_the_accumulator() {
    let (mut cpu, mut mem) = start_at(0x0600, &[0x48, 0xa9, 0x00, 0x68]);
    cpu.accum = 0x80;
    let step = cpu.advance_cpu(&mut mem);
    assert_eq!(step.cycles, 3);
    assert_eq!(cpu.sp, 0xfc);
    assert_eq!(mem.ram_read(0x01fd), 0x80);
    cpu.advance_cpu(&mut mem);
    assert_eq!(cpu.accum, 0x00);
    assert!(cpu.status.z && !cpu.status.n);
    let step = cpu.advance_cpu(&mut mem);
    assert_eq!(step.cycles, 4);
    assert_eq!(cpu.accum, 0x80);
    assert_eq!(cpu.sp, 0xfd);
    assert!(!cpu.status.z && cpu.status.n);
}

#[test]
fn the_stack_pointer_wraps_inside_page_one() {
    let mut mem = Memory::new();
    let mut cpu = CPU::new();
    cpu.sp = 0x00;
    cpu.push_byte(&mut mem, 0xab);
    assert_eq!(cpu.sp, 0xff);
    assert_eq!(mem.ram_read(0x0100), 0xab);
    assert_eq!(mem.ram_read(0x00ff), 0xff);
    cpu.push_byte(&mut mem, 0xcd);
    assert_eq!(cpu.sp, 0xfe);
    assert_eq!(mem.ram_read(0x01ff), 0xcd);
    assert_eq!(cpu.pop_byte(&mem), 0xcd);
    assert_eq!(cpu.sp, 0xff);
    assert_eq!(cpu.pop_byte(&mem), 0xab);
    assert_eq!(cpu.sp, 0x00);
}

#[test]
fn php_always_shows_b_and_bit_5() {
    let (mut cpu, mut mem) = start_at(0x0600, &[0x08]);
    cpu.status = StatusRegister {
        c: true, z: false, i: false, d: false, b: false, bit_5: false, v: false, n: true,
    };
    let before = cpu.status;
    cpu.advance_cpu(&mut mem);
    assert_eq!(mem.ram_read(0x01fd), 0xb1);
    assert_eq!(cpu.status, before);
    assert_eq!(cpu.sp, 0xfc);
}

#[test]
fn plp_replaces_all_flags() {
    let (mut cpu, mut mem) = start_at(0x0600, &[0x28]);
    cpu.sp = 0xfc;
    mem.ram_write(0x01fd, 0x43);
    cpu.advance_cpu(&mut mem);
    assert_eq!(
        cpu.status,
        StatusRegister { c: true, z: true, i: false, d: false, b: false, bit_5: true, v: true, n: false }
    );
    assert_eq!(cpu.sp, 0xfd);
}

#[test]
fn jsr_then_rts_comes_back_after_the_call() {
    let (mut cpu, mut mem) = start_at(0x0600, &[0x20, 0x34, 0x12]);
    mem.ram_write(0x1234, 0x60);
    let step = cpu.advance_cpu(&mut mem);
    assert_eq!(step, Step { opcode: 0x20, cycles: 6, illegal: false });
    assert_eq!(cpu.pc, 0x1234);
    assert_eq!(cpu.sp, 0xfb);
    // The address of the last byte of the call, high byte pushed first.
    assert_eq!(mem.ram_read(0x01fd), 0x06);
    assert_eq!(mem.ram_read(0x01fc), 0x02);
    let step = cpu.advance_cpu(&mut mem);
    assert_eq!(step, Step { opcode: 0x60, cycles: 6, illegal: false });
    assert_eq!(cpu.pc, 0x0603);
    assert_eq!(cpu.sp, 0xfd);
}

#[test]
fn jmp_absolute_goes_to_its_operand() {
    let (mut cpu, mut mem) = start_at(0x0600, &[0x4c, 0x00, 0x80]);
    let step = cpu.advance_cpu(&mut mem);
    assert_eq!(step.cycles, 3);
    assert_eq!(cpu.pc, 0x8000);
}

#[test]
fn jmp_indirect_fetches_the_high_byte_from_the_same_page() {
    let (mut cpu, mut mem) = start_at(0x0600, &[0x6c, 0xff, 0x02]);
    mem.ram_write(0x02ff, 0x34);
    mem.ram_write(0x0300, 0x56);
    mem.ram_write(0x0200, 0x12);
    let step = cpu.advance_cpu(&mut mem);
    assert_eq!(step.cycles, 5);
    assert_eq!(cpu.pc, 0x1234);
}

#[test]
fn jmp_indirect_inside_a_page_reads_two_neighbours() {
    let (mut cpu, mut mem) = start_at(0x0600, &[0x6c, 0x10, 0x02]);
    mem.ram_write(0x0210, 0x78);
    mem.ram_write(0x0211, 0x56);
    cpu.advance_cpu(&mut mem);
    assert_eq!(cpu.pc, 0x5678);
}

#[test]
fn lda_sta_brk_from_the_reset_vector() {
    let mut mem = Memory::new();
    load(&mut mem, 0x0600, &[0xa9, 0x05, 0x85, 0x10, 0x00]);
    mem.ram_write(0xfffc, 0x00);
    mem.ram_write(0xfffd, 0x06);
    mem.ram_write(0xfffe, 0x00);
    mem.ram_write(0xffff, 0x90);
    let mut cpu = CPU::new();
    cpu.reset(&mem);
    assert_eq!(cpu.pc, 0x0600);
    cpu.status.clear_b();
    cpu.advance_cpu(&mut mem);
    cpu.advance_cpu(&mut mem);
    assert_eq!(cpu.accum, 5);
    assert_eq!(mem.ram_read(0x0010), 5);
    assert!(!cpu.status.z);
    assert!(!cpu.status.n);
    assert_eq!(cpu.pc, 0x0604);
    assert_eq!(cpu.cycle, 5);
    let step = cpu.advance_cpu(&mut mem);
    assert_eq!(step, Step { opcode: 0x00, cycles: 7, illegal: false });
    assert_eq!(cpu.pc, 0x9000);
    assert!(cpu.status.i);
    assert!(cpu.status.b);
    assert_eq!(cpu.sp, 0xfa);
    // Return address, high byte first, then the flags with B and bit 5.
    assert_eq!(mem.ram_read(0x01fd), 0x06);
    assert_eq!(mem.ram_read(0x01fc), 0x05);
    assert_eq!(mem.ram_read(0x01fb), 0x34);
    assert_eq!(cpu.cycle, 12);
}

#[test]
fn rti_undoes_brk() {
    let (mut cpu, mut mem) = start_at(0x0600, &[0x00]);
    mem.ram_write(0xfffe, 0x00);
    mem.ram_write(0xffff, 0x90);
    mem.ram_write(0x9000, 0x40);
    cpu.status = StatusRegister {
        c: true, z: false, i: false, d: false, b: false, bit_5: true, v: true, n: false,
    };
    cpu.advance_cpu(&mut mem);
    assert_eq!(cpu.pc, 0x9000);
    let step = cpu.advance_cpu(&mut mem);
    assert_eq!(step, Step { opcode: 0x40, cycles: 6, illegal: false });
    assert_eq!(cpu.pc, 0x0601);
    assert_eq!(cpu.sp, 0xfd);
    assert_eq!(
        cpu.status,
        StatusRegister { c: true, z: false, i: false, d: false, b: true, bit_5: true, v: true, n: false }
    );
}

#[test]
fn interrupt_pushes_state_and_follows_the_vector() {
    let mut mem = Memory::new();
    mem.ram_write(0xfffa, 0x21);
    mem.ram_write(0xfffb, 0x43);
    let mut cpu = CPU::new();
    cpu.pc = 0x1234;
    cpu.status.clear_i();
    cpu.status.clear_b();
    cpu.interrupt(&mut mem, 0xfffa);
    assert_eq!(cpu.pc, 0x4321);
    assert!(cpu.status.i);
    assert_eq!(cpu.sp, 0xfa);
    assert_eq!(mem.ram_read(0x01fd), 0x12);
    assert_eq!(mem.ram_read(0x01fc), 0x34);
    assert_eq!(mem.ram_read(0x01fb), 0x20);
}

#[test]
fn an_unassigned_opcode_runs_as_a_flagged_no_operation() {
    let (mut cpu, mut mem) = start_at(0x0600, &[0x02, 0xea]);
    let before = cpu;
    let step = cpu.advance_cpu(&mut mem);
    assert_eq!(step, Step { opcode: 0x02, cycles: 2, illegal: true });
    assert_eq!(cpu, CPU { pc: 0x0601, cycle: 2, ..before });
    let step = cpu.advance_cpu(&mut mem);
    assert_eq!(step, Step { opcode: 0xea, cycles: 2, illegal: false });
    assert_eq!(cpu, CPU { pc: 0x0602, cycle: 4, ..before });
}

#[test]
fn logic_works_on_the_accumulator() {
    let (mut cpu, mut mem) = start_at(0x0600, &[0x29, 0x0f, 0x09, 0x80, 0x49, 0xff]);
    cpu.accum = 0x3c;
    cpu.advance_cpu(&mut mem);
    assert_eq!(cpu.accum, 0x0c);
    assert!(!cpu.status.z && !cpu.status.n);
    cpu.advance_cpu(&mut mem);
    assert_eq!(cpu.accum, 0x8c);
    assert!(cpu.status.n);
    cpu.advance_cpu(&mut mem);
    assert_eq!(cpu.accum, 0x73);
    assert!(!cpu.status.n && !cpu.status.z);
}

#[test]
fn bit_sets_flags_and_keeps_the_accumulator() {
    let (mut cpu, mut mem) = start_at(0x0600, &[0x24, 0x10]);
    mem.ram_write(0x0010, 0xc0);
    cpu.accum = 0x01;
    let step = cpu.advance_cpu(&mut mem);
    assert_eq!(step.cycles, 3);
    assert_eq!(cpu.accum, 0x01);
    assert!(cpu.status.z && cpu.status.v && cpu.status.n);
}

#[test]
fn shifts_work_on_accumulator_or_memory() {
    let (mut cpu, mut mem) = start_at(0x0600, &[0x0a, 0x06, 0x10, 0x4a, 0x2a, 0x66, 0x10]);
    mem.ram_write(0x0010, 0x41);
    cpu.accum = 0x81;
    cpu.status.clear_c();
    // ASL A
    assert_eq!(cpu.advance_cpu(&mut mem).cycles, 2);
    assert_eq!(cpu.accum, 0x02);
    assert!(cpu.status.c && !cpu.status.z && !cpu.status.n);
    // ASL $10
    assert_eq!(cpu.advance_cpu(&mut mem).cycles, 5);
    assert_eq!(mem.ram_read(0x0010), 0x82);
    assert_eq!(cpu.accum, 0x02);
    assert!(!cpu.status.c && cpu.status.n);
    // LSR A
    cpu.advance_cpu(&mut mem);
    assert_eq!(cpu.accum, 0x01);
    assert!(!cpu.status.c && !cpu.status.n);
    // ROL A with carry set
    cpu.status.set_c();
    cpu.advance_cpu(&mut mem);
    assert_eq!(cpu.accum, 0x03);
    assert!(!cpu.status.c);
    // ROR $10 with carry set
    cpu.status.set_c();
    cpu.advance_cpu(&mut mem);
    assert_eq!(mem.ram_read(0x0010), 0xc1);
    assert!(!cpu.status.c && cpu.status.n);
    assert_eq!(cpu.pc, 0x0607);
}

#[test]
fn counting_wraps_and_sets_flags() {
    let (mut cpu, mut mem) = start_at(0x0600, &[0xe6, 0x10, 0xc6, 0x10, 0xe8, 0xca, 0xc8, 0x88]);
    mem.ram_write(0x0010, 0xff);
    assert_eq!(cpu.advance_cpu(&mut mem).cycles, 5);
    assert_eq!(mem.ram_read(0x0010), 0x00);
    assert!(cpu.status.z && !cpu.status.n);
    cpu.advance_cpu(&mut mem);
    assert_eq!(mem.ram_read(0x0010), 0xff);
    assert!(!cpu.status.z && cpu.status.n);
    cpu.x = 0xff;
    cpu.advance_cpu(&mut mem);
    assert_eq!(cpu.x, 0x00);
    assert!(cpu.status.z);
    cpu.advance_cpu(&mut mem);
    assert_eq!(cpu.x, 0xff);
    assert!(cpu.status.n);
    cpu.y = 0x7f;
    cpu.advance_cpu(&mut mem);
    assert_eq!(cpu.y, 0x80);
    assert!(cpu.status.n);
    cpu.advance_cpu(&mut mem);
    assert_eq!(cpu.y, 0x7f);
    assert!(!cpu.status.n && !cpu.status.z);
}

#[test]
fn loads_and_stores_move_bytes() {
    let (mut cpu, mut mem) = start_at(0x0600, &[0xa2, 0x11, 0xa0, 0x00, 0x86, 0x20, 0x84, 0x21, 0x8d, 0x00, 0x30]);
    cpu.accum = 0x99;
    cpu.advance_cpu(&mut mem);
    assert_eq!(cpu.x, 0x11);
    cpu.advance_cpu(&mut mem);
    assert_eq!(cpu.y, 0x00);
    assert!(cpu.status.z);
    let flags = cpu.status;
    cpu.advance_cpu(&mut mem);
    cpu.advance_cpu(&mut mem);
    assert_eq!(cpu.advance_cpu(&mut mem).cycles, 4);
    assert_eq!(mem.ram_read(0x0020), 0x11);
    assert_eq!(mem.ram_read(0x0021), 0x00);
    assert_eq!(mem.ram_read(0x3000), 0x99);
    assert_eq!(cpu.status, flags);
}

#[test]
fn transfers_copy_registers() {
    let (mut cpu, mut mem) = start_at(0x0600, &[0xaa, 0xa8, 0x8a, 0x98, 0xba, 0x9a]);
    cpu.accum = 0x80;
    cpu.advance_cpu(&mut mem);
    assert_eq!(cpu.x, 0x80);
    assert!(cpu.status.n);
    cpu.advance_cpu(&mut mem);
    assert_eq!(cpu.y, 0x80);
    cpu.x = 0x00;
    cpu.advance_cpu(&mut mem);
    assert_eq!(cpu.accum, 0x00);
    assert!(cpu.status.z);
    cpu.advance_cpu(&mut mem);
    assert_eq!(cpu.accum, 0x80);
    cpu.advance_cpu(&mut mem);
    assert_eq!(cpu.x, 0xfd);
    assert!(cpu.status.n && !cpu.status.z);
    // TXS tells the flags nothing.
    cpu.x = 0x00;
    let flags = cpu.status;
    cpu.advance_cpu(&mut mem);
    assert_eq!(cpu.sp, 0x00);
    assert_eq!(cpu.status, flags);
}

#[test]
fn flag_instructions_touch_one_flag() {
    let (mut cpu, mut mem) = start_at(0x0600, &[0x38, 0x18, 0xf8, 0xd8, 0x58, 0x78, 0xb8]);
    cpu.status.set_v();
    let start = cpu.status;
    cpu.advance_cpu(&mut mem);
    assert_eq!(cpu.status, StatusRegister { c: true, ..start });
    cpu.advance_cpu(&mut mem);
    assert_eq!(cpu.status, start);
    cpu.advance_cpu(&mut mem);
    assert_eq!(cpu.status, StatusRegister { d: true, ..start });
    cpu.advance_cpu(&mut mem);
    assert_eq!(cpu.status, start);
    cpu.advance_cpu(&mut mem);
    assert_eq!(cpu.status, StatusRegister { i: false, ..start });
    cpu.advance_cpu(&mut mem);
    assert_eq!(cpu.status, start);
    cpu.advance_cpu(&mut mem);
    assert_eq!(cpu.status, StatusRegister { v: false, ..start });
    assert_eq!(cpu.cycle, 14);
}

#[test]
fn operands_of_every_mode() {
    let mut mem = Memory::new();
    let mut cpu = CPU::new();
    cpu.pc = 0x0601;
    cpu.accum = 0x77;
    cpu.x = 0x04;
    cpu.y = 0x10;
    load(&mut mem, 0x0601, &[0x20, 0x30]);
    mem.ram_write(0x0020, 0xa1);
    mem.ram_write(0x0021, 0x40);
    mem.ram_write(0x0024, 0xa2);
    mem.ram_write(0x0025, 0x50);
    mem.ram_write(0x0030, 0xa3);
    mem.ram_write(0x3020, 0xa4);
    mem.ram_write(0x3024, 0xa5);
    mem.ram_write(0x3030, 0xa6);
    mem.ram_write(0x50a2, 0xa7);
    mem.ram_write(0x40b1, 0xa8);
    assert_eq!(cpu.get_operand(&mem, AddrMode::Implicit), (0, None));
    assert_eq!(cpu.get_operand(&mem, AddrMode::Accumulator), (0x77, None));
    assert_eq!(cpu.get_operand(&mem, AddrMode::Immediate), (0x20, None));
    assert_eq!(cpu.get_operand(&mem, AddrMode::Relative), (0x20, None));
    assert_eq!(cpu.get_operand(&mem, AddrMode::ZeroPage), (0xa1, Some(0x0020)));
    assert_eq!(cpu.get_operand(&mem, AddrMode::ZeroPageX), (0xa2, Some(0x0024)));
    assert_eq!(cpu.get_operand(&mem, AddrMode::ZeroPageY), (0xa3, Some(0x0030)));
    assert_eq!(cpu.get_operand(&mem, AddrMode::Absolute), (0xa4, Some(0x3020)));
    assert_eq!(cpu.get_operand(&mem, AddrMode::AbsoluteX), (0xa5, Some(0x3024)));
    assert_eq!(cpu.get_operand(&mem, AddrMode::AbsoluteY), (0xa6, Some(0x3030)));
    assert_eq!(cpu.get_operand(&mem, AddrMode::IndexedIndirect), (0xa7, Some(0x50a2)));
    assert_eq!(cpu.get_operand(&mem, AddrMode::IndirectIndexed), (0xa8, Some(0x40b1)));
    // Resolving an operand moves nothing.
    assert_eq!(cpu.pc, 0x0601);
}

#[test]
fn indexing_in_page_zero_wraps_modulo_256_for_both_registers() {
    let mut mem = Memory::new();
    let mut cpu = CPU::new();
    cpu.pc = 0x0601;
    mem.ram_write(0x0601, 0xff);
    cpu.x = 0x01;
    cpu.y = 0x01;
    mem.ram_write(0x0000, 0x5a);
    assert_eq!(cpu.get_operand(&mem, AddrMode::ZeroPageX), (0x5a, Some(0x0000)));
    assert_eq!(cpu.get_operand(&mem, AddrMode::ZeroPageY), (0x5a, Some(0x0000)));
    mem.ram_write(0x0601, 0x80);
    cpu.x = 0x7f;
    cpu.y = 0x7f;
    mem.ram_write(0x00ff, 0x6b);
    assert_eq!(cpu.get_operand(&mem, AddrMode::ZeroPageX), (0x6b, Some(0x00ff)));
    assert_eq!(cpu.get_operand(&mem, AddrMode::ZeroPageY), (0x6b, Some(0x00ff)));
}

#[test]
fn indexed_indirect_pointer_wraps_inside_page_zero() {
    let mut mem = Memory::new();
    let mut cpu = CPU::new();
    cpu.pc = 0x0601;
    mem.ram_write(0x0601, 0xfe);
    cpu.x = 0x01;
    mem.ram_write(0x00ff, 0x34);
    mem.ram_write(0x0000, 0x12);
    mem.ram_write(0x0100, 0x99);
    mem.ram_write(0x1234, 0x42);
    assert_eq!(cpu.get_operand(&mem, AddrMode::IndexedIndirect), (0x42, Some(0x1234)));
}

#[test]
fn indirect_indexed_reads_its_base_from_two_neighbouring_bytes() {
    let mut mem = Memory::new();
    let mut cpu = CPU::new();
    cpu.pc = 0x0601;
    mem.ram_write(0x0601, 0xff);
    cpu.y = 0x02;
    mem.ram_write(0x00ff, 0x00);
    mem.ram_write(0x0100, 0x20);
    mem.ram_write(0x0000, 0x30);
    mem.ram_write(0x2002, 0x42);
    assert_eq!(cpu.get_operand(&mem, AddrMode::IndirectIndexed), (0x42, Some(0x2002)));
}

#[test]
fn absolute_indexing_wraps_at_the_top_of_memory() {
    let mut mem = Memory::new();
    let mut cpu = CPU::new();
    cpu.pc = 0x0601;
    load(&mut mem, 0x0601, &[0xff, 0xff]);
    cpu.x = 0x02;
    mem.ram_write(0x0001, 0x42);
    assert_eq!(cpu.get_operand(&mem, AddrMode::AbsoluteX), (0x42, Some(0x0001)));
}

#[test]
fn operand_bytes_wrap_at_the_top_of_memory() {
    let mut mem = Memory::new();
    let mut cpu = CPU::new();
    cpu.pc = 0xffff;
    mem.ram_write(0xffff, 0x34);
    mem.ram_write(0x0000, 0x12);
    mem.ram_write(0x1234, 0x42);
    assert_eq!(cpu.get_operand(&mem, AddrMode::Absolute), (0x42, Some(0x1234)));
}

#[test]
fn a_read_pays_for_crossing_a_page() {
    // LDA $30f0,X
    let (mut cpu, mut mem) = start_at(0x0600, &[0xbd, 0xf0, 0x30]);
    cpu.x = 0x0f;
    assert_eq!(cpu.advance_cpu(&mut mem).cycles, 4);
    let (mut cpu, mut mem) = start_at(0x0600, &[0xbd, 0xf0, 0x30]);
    cpu.x = 0x10;
    mem.ram_write(0x3100, 0x42);
    assert_eq!(cpu.advance_cpu(&mut mem).cycles, 5);
    assert_eq!(cpu.accum, 0x42);
    assert_eq!(cpu.cycle, 5);
    // LDA $30f0,Y
    let (mut cpu, mut mem) = start_at(0x0600, &[0xb9, 0xf0, 0x30]);
    cpu.y = 0x10;
    assert_eq!(cpu.advance_cpu(&mut mem).cycles, 5);
    // LDA ($20),Y
    let (mut cpu, mut mem) = start_at(0x0600, &[0xb1, 0x20]);
    mem.ram_write(0x0020, 0xf0);
    mem.ram_write(0x0021, 0x30);
    cpu.y = 0x0f;
    assert_eq!(cpu.advance_cpu(&mut mem).cycles, 5);
    let (mut cpu, mut mem) = start_at(0x0600, &[0xb1, 0x20]);
    mem.ram_write(0x0020, 0xf0);
    mem.ram_write(0x0021, 0x30);
    cpu.y = 0x10;
    assert_eq!(cpu.advance_cpu(&mut mem).cycles, 6);
}

#[test]
fn writes_and_read_modify_writes_take_fixed_time() {
    // STA $30f0,X across a page.
    let (mut cpu, mut mem) = start_at(0x0600, &[0x9d, 0xf0, 0x30]);
    cpu.x = 0x10;
    cpu.accum = 0x42;
    assert_eq!(cpu.advance_cpu(&mut mem).cycles, 5);
    assert_eq!(mem.ram_read(0x3100), 0x42);
    // INC $30f0,X across a page.
    let (mut cpu, mut mem) = start_at(0x0600, &[0xfe, 0xf0, 0x30]);
    cpu.x = 0x10;
    mem.ram_write(0x3100, 0x01);
    assert_eq!(cpu.advance_cpu(&mut mem).cycles, 7);
    assert_eq!(mem.ram_read(0x3100), 0x02);
    // STA ($20),Y across a page.
    let (mut cpu, mut mem) = start_at(0x0600, &[0x91, 0x20]);
    mem.ram_write(0x0020, 0xf0);
    mem.ram_write(0x0021, 0x30);
    cpu.y = 0x10;
    assert_eq!(cpu.advance_cpu(&mut mem).cycles, 6);
}

#[test]
fn fetch_then_execute_is_one_step() {
    let (mut cpu, mut mem) = start_at(0x0600, &[0x69, 0x01]);
    cpu.accum = 0x7f;
    let (mut other, mut other_mem) = start_at(0x0600, &[0x69, 0x01]);
    other.accum = 0x7f;
    let inst = cpu.fetch_instruction(&mem);
    assert_eq!(inst, Instruction { op: OpCode::ADC, addr_mode: AddrMode::Immediate, cycles: 2, size: 2 });
    assert_eq!(cpu.pc, 0x0601);
    let cycles = cpu.execute_instruction(&mut mem, &inst);
    let step = other.advance_cpu(&mut other_mem);
    assert_eq!(cycles, step.cycles);
    assert_eq!(cpu, other);
}

#[test]
fn the_program_counter_wraps_at_the_top_of_memory() {
    let (mut cpu, mut mem) = start_at(0xffff, &[0xea]);
    cpu.advance_cpu(&mut mem);
    assert_eq!(cpu.pc, 0x0000);
    let (mut cpu, mut mem) = start_at(0xffff, &[0xa9]);
    mem.ram_write(0x0000, 0x42);
    cpu.advance_cpu(&mut mem);
    assert_eq!(cpu.accum, 0x42);
    assert_eq!(cpu.pc, 0x0001);
}

#[test]
fn every_opcode_takes_its_table_time_at_least() {
    for opcode in 0..=255u8 {
        let (mut cpu, mut mem) = start_at(0x0600, &[opcode, 0x10, 0x20]);
        let inst = Instruction::new(opcode);
        let step = cpu.advance_cpu(&mut mem);
        assert_eq!(step.opcode, opcode);
        assert_eq!(step.illegal, inst.op == OpCode::ILL);
        assert!(inst.cycles <= step.cycles && step.cycles <= 7, "opcode {:#04x}", opcode);
        assert_eq!(cpu.cycle, step.cycles as u64);
    }
}

#[test]
fn the_system_starts_at_power_on_and_steps() {
    let mut nes = NES::new();
    assert_eq!(nes.cpu, CPU::new());
    assert_eq!(nes.mem.ram_read(0x1234), 0xff);
    nes.mem.ram_write(0xfffc, 0x00);
    nes.mem.ram_write(0xfffd, 0x06);
    load(&mut nes.mem, 0x0600, &[0xa9, 0x05, 0x85, 0x10]);
    nes.reset();
    assert_eq!(nes.cpu.pc, 0x0600);
    assert_eq!(nes.step(), Some(Step { opcode: 0xa9, cycles: 2, illegal: false }));
    assert_eq!(nes.step(), Some(Step { opcode: 0x85, cycles: 3, illegal: false }));
    assert_eq!(nes.mem.ram_read(0x0010), 5);
    assert_eq!(nes.cpu.cycle, 5);
}

#[test]
fn the_system_refuses_a_step_when_the_cycle_counter_is_full() {
    let mut nes = NES::new();
    load(&mut nes.mem, 0x0000, &[0xa9, 0x05]);
    nes.cpu.cycle = u64::MAX - 6;
    let before = nes.cpu;
    assert_eq!(nes.step(), None);
    assert_eq!(nes.cpu, before);
    nes.cpu.cycle = u64::MAX - 7;
    assert_eq!(nes.step(), Some(Step { opcode: 0xa9, cycles: 2, illegal: false }));
    assert_eq!(nes.cpu.cycle, u64::MAX - 5);
}
