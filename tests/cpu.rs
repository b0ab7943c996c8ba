use famicom::{Cpu, Fault, Nes, Rom};
use std::rc::Rc;

fn prepare(initial_bytes: &[u8]) -> Cpu {
    let mut rom = vec![0; 0x8000];
    rom[0x7ffc] = 0x00;
    rom[0x7ffd] = 0x80;

    for (i, b) in initial_bytes.iter().enumerate() {
        rom[i] = *b;
    }

    let mut cpu = Cpu::new(vec![0; 0x800]);
    cpu.set_rom(Some(Rc::new(rom)));
    cpu.reset().unwrap();
    cpu
}

#[test]
fn test_reset() {
    let mut rom = vec![0; 0x8000];
    rom[0x7ffc] = 0x00;
    rom[0x7ffd] = 0x80;

    let rom = Rc::new(rom);
    let mut cpu = Cpu::new(vec![0; 0x800]);
    cpu.set_rom(Some(rom));
    assert_eq!(cpu.get_registers().program_counter, 0);

    cpu.reset().unwrap();
    assert_eq!(cpu.get_registers().program_counter, 0x8000);
}

#[test]
fn test_instruction_jmp_0x4c() {
    let mut cpu = prepare(&[0x4c, 0xff, 0x80]);

    let clock = cpu.run().unwrap();
    assert_eq!(clock, 3);
    assert_eq!(cpu.get_registers().program_counter, 0x80ff);
}

#[test]
fn test_instruction_sei_0x78() {
    let mut cpu = prepare(&[0x78]);
    let clock = cpu.run().unwrap();
    assert_eq!(clock, 2);
    assert!(cpu.get_registers().status.irq_prohibited);
}

#[test]
fn test_instruction_dey_0x88() {
    let mut cpu = prepare(&[0x88, 0x88]);
    cpu.get_registers().index_y = 0x01;

    let clock = cpu.run().unwrap();
    assert_eq!(clock, 2);
    assert_eq!(cpu.get_registers().index_y, 0x00);
    assert_eq!(cpu.get_registers().status.negative, false);
    assert_eq!(cpu.get_registers().status.zero, true);

    let clock = cpu.run().unwrap();
    assert_eq!(clock, 2);
    assert_eq!(cpu.get_registers().index_y, 0xff);
    assert_eq!(cpu.get_registers().status.negative, true);
    assert_eq!(cpu.get_registers().status.zero, false);
}

#[test]
fn test_instruction_sta_0x8d() {
    let mut cpu = prepare(&[0x8d, 0x23, 0x01]);
    cpu.get_registers().accumulator = 0x56;
    let clock = cpu.run().unwrap();
    assert_eq!(clock, 4);
    assert_eq!(cpu.read(0x0123), Ok(0x56));
}

#[test]
fn test_instruction_txs_0x9a() {
    let mut cpu = prepare(&[0x9a, 0x9a]);

    cpu.get_registers().index_x = 0xff;
    let clock = cpu.run().unwrap();
    assert_eq!(clock, 2);
    assert_eq!(cpu.get_registers().stack_pointer, 0xff);
    assert_eq!(cpu.get_registers().status.negative, true);
    assert_eq!(cpu.get_registers().status.zero, false);

    cpu.get_registers().index_x = 0x00;
    let clock = cpu.run().unwrap();
    assert_eq!(clock, 2);
    assert_eq!(cpu.get_registers().stack_pointer, 0x00);
    assert_eq!(cpu.get_registers().status.negative, false);
    assert_eq!(cpu.get_registers().status.zero, true);
}

#[test]
fn test_instruction_ldy_0xa0() {
    let mut cpu = prepare(&[0xa0, 0xff, 0xa0, 0x00]);

    let clock = cpu.run().unwrap();
    assert_eq!(clock, 2);
    assert_eq!(cpu.get_registers().index_y, 0xff);
    assert_eq!(cpu.get_registers().status.negative, true);
    assert_eq!(cpu.get_registers().status.zero, false);

    let clock = cpu.run().unwrap();
    assert_eq!(clock, 2);
    assert_eq!(cpu.get_registers().index_y, 0x00);
    assert_eq!(cpu.get_registers().status.negative, false);
    assert_eq!(cpu.get_registers().status.zero, true);
}

#[test]
fn test_instruction_ldx_0xa2() {
    let mut cpu = prepare(&[0xa2, 0xff, 0xa2, 0x00]);

    let clock = cpu.run().unwrap();
    assert_eq!(clock, 2);
    assert_eq!(cpu.get_registers().index_x, 0xff);
    assert_eq!(cpu.get_registers().status.negative, true);
    assert_eq!(cpu.get_registers().status.zero, false);

    let clock = cpu.run().unwrap();
    assert_eq!(clock, 2);
    assert_eq!(cpu.get_registers().index_x, 0x00);
    assert_eq!(cpu.get_registers().status.negative, false);
    assert_eq!(cpu.get_registers().status.zero, true);
}

#[test]
fn test_instruction_lda_0xa9() {
    let mut cpu = prepare(&[0xa9, 0xff, 0xa9, 0x00]);

    let clock = cpu.run().unwrap();
    assert_eq!(clock, 2);
    assert_eq!(cpu.get_registers().accumulator, 0xff);
    assert_eq!(cpu.get_registers().status.negative, true);
    assert_eq!(cpu.get_registers().status.zero, false);

    let clock = cpu.run().unwrap();
    assert_eq!(clock, 2);
    assert_eq!(cpu.get_registers().accumulator, 0x00);
    assert_eq!(cpu.get_registers().status.negative, false);
    assert_eq!(cpu.get_registers().status.zero, true);
}

#[test]
fn test_instruction_lda_0xbd() {
    let mut cpu = prepare(&[0xbd, 0x00, 0x00, 0xbd, 0xff, 0x01]);
    cpu.write(0x0056, 0xff).unwrap();
    cpu.write(0x0255, 0x45).unwrap();
    cpu.get_registers().index_x = 0x56;

    let clock = cpu.run().unwrap();
    assert_eq!(clock, 4);
    assert_eq!(cpu.get_registers().accumulator, 0xff);

    let clock = cpu.run().unwrap();
    assert_eq!(clock, 5); // page crossed
    assert_eq!(cpu.get_registers().accumulator, 0x45);
}

#[test]
fn test_instruction_bne_0xd0() {
    // The first INX wraps X to zero, so the branch is not taken; it is taken
    // after the second INX.
    let mut cpu = prepare(&[0xe8, 0xd0, 0xfa, 0xe8, 0xd0, 0xfa]);
    cpu.get_registers().index_x = 0xff;
    assert_eq!(cpu.get_registers().program_counter, 0x8000);

    cpu.run().unwrap();
    let clock = cpu.run().unwrap();
    assert_eq!(clock, 2);
    assert_eq!(cpu.get_registers().program_counter, 0x8003);

    cpu.run().unwrap();
    let clock = cpu.run().unwrap();
    assert_eq!(clock, 3); // branched
    assert_eq!(cpu.get_registers().program_counter, 0x8000);

    cpu.get_registers().index_x = 0x00;
    cpu.run().unwrap();
    let clock = cpu.run().unwrap();
    assert_eq!(clock, 4); // branched, page crossed
    assert_eq!(cpu.get_registers().program_counter, 0x7ffd);
}

#[test]
fn test_instruction_inx_0xe8() {
    let mut cpu = prepare(&[0xe8, 0xe8]);
    cpu.get_registers().index_x = 0xfe;

    let clock = cpu.run().unwrap();
    assert_eq!(clock, 2);
    assert_eq!(cpu.get_registers().index_x, 0xff);
    assert_eq!(cpu.get_registers().status.negative, true);
    assert_eq!(cpu.get_registers().status.zero, false);

    let clock = cpu.run().unwrap();
    assert_eq!(clock, 2);
    assert_eq!(cpu.get_registers().index_x, 0x00);
    assert_eq!(cpu.get_registers().status.negative, false);
    assert_eq!(cpu.get_registers().status.zero, true);
}

#[test]
fn inx_and_dey_wrap_around() {
    let mut cpu = prepare(&[0xe8, 0x88]);
    cpu.get_registers().index_x = 0xff;
    cpu.get_registers().index_y = 0x00;

    assert_eq!(cpu.run(), Ok(2));
    assert_eq!(cpu.registers().index_x, 0x00);
    assert!(!cpu.registers().status.negative);
    assert!(cpu.registers().status.zero);

    assert_eq!(cpu.run(), Ok(2));
    assert_eq!(cpu.registers().index_y, 0xff);
    assert!(cpu.registers().status.negative);
    assert!(!cpu.registers().status.zero);
}

#[test]
fn indexed_load_page_crossing_timing() {
    let mut cpu = prepare(&[0xbd, 0x00, 0x01, 0xbd, 0xff, 0x01]);
    cpu.write(0x0156, 0x11).unwrap();
    cpu.write(0x0255, 0x80).unwrap();
    cpu.get_registers().index_x = 0x56;

    assert_eq!(cpu.run(), Ok(4));
    assert_eq!(cpu.registers().accumulator, 0x11);
    assert!(!cpu.registers().status.negative);

    assert_eq!(cpu.run(), Ok(5));
    assert_eq!(cpu.registers().accumulator, 0x80);
    assert!(cpu.registers().status.negative);
    assert_eq!(cpu.registers().program_counter, 0x8006);
}

#[test]
fn branch_timing() {
    // Not taken: the zero flag is set.
    let mut cpu = prepare(&[0xd0, 0x10]);
    cpu.get_registers().status.zero = true;
    assert_eq!(cpu.run(), Ok(2));
    assert_eq!(cpu.registers().program_counter, 0x8002);

    // Taken, same page.
    let mut cpu = prepare(&[0xd0, 0x10]);
    assert_eq!(cpu.run(), Ok(3));
    assert_eq!(cpu.registers().program_counter, 0x8012);

    // Taken, across a page boundary.
    let mut cpu = prepare(&[0xd0, 0xfd]);
    assert_eq!(cpu.run(), Ok(4));
    assert_eq!(cpu.registers().program_counter, 0x7fff);
}

#[test]
fn branch_offset_of_minus_128() {
    let mut cpu = prepare(&[0xd0, 0x80]);
    assert_eq!(cpu.run(), Ok(4));
    assert_eq!(cpu.registers().program_counter, 0x7f82);
}

#[test]
fn reset_twice_gives_the_same_program_counter() {
    let mut cpu = prepare(&[0xe8, 0xe8]);
    cpu.run().unwrap();
    cpu.reset().unwrap();
    let first = cpu.registers();
    cpu.reset().unwrap();
    assert_eq!(cpu.registers(), first);
    assert_eq!(cpu.registers().program_counter, 0x8000);
    assert_eq!(cpu.registers().index_x, 0);
    assert!(cpu.registers().status.reserved);
}

#[test]
fn reset_without_rom_faults_and_changes_nothing() {
    let mut cpu = Cpu::new(vec![0; 0x800]);
    cpu.get_registers().accumulator = 7;
    assert_eq!(cpu.reset(), Err(Fault::UnmappedRead(0xfffc)));
    assert_eq!(cpu.registers().accumulator, 7);
}

#[test]
fn ram_write_then_read() {
    let mut cpu = prepare(&[]);
    for addr in [0x0000u16, 0x0123, 0x07ff] {
        cpu.write(addr, 0xa5).unwrap();
        assert_eq!(cpu.read(addr), Ok(0xa5));
    }
}

#[test]
fn writes_outside_ram_fault() {
    let mut cpu = prepare(&[0x4c]);
    assert_eq!(cpu.write(0x8000, 0x12), Err(Fault::UnmappedWrite(0x8000)));
    assert_eq!(cpu.read(0x8000), Ok(0x4c));
    assert_eq!(cpu.write(0x0800, 0x12), Err(Fault::UnmappedWrite(0x0800)));
    assert_eq!(cpu.write(0x4000, 0x12), Err(Fault::UnmappedWrite(0x4000)));
    assert_eq!(cpu.write(0x2000, 0x12), Ok(()));
    assert_eq!(cpu.read(0x2007), Ok(0));
}

#[test]
fn reads_of_unmapped_addresses_fault() {
    let cpu = prepare(&[]);
    assert_eq!(cpu.read(0x0800), Err(Fault::UnmappedRead(0x0800)));
    assert_eq!(cpu.read(0x2008), Err(Fault::UnmappedRead(0x2008)));
    assert_eq!(cpu.read(0x7fff), Err(Fault::UnmappedRead(0x7fff)));
    assert_eq!(cpu.read_word(0xfffc), Ok(0x8000));
}

#[test]
fn short_rom_faults_past_its_end() {
    let mut rom = vec![0xea; 0x4000];
    rom[0] = 0x4c;
    let mut cpu = Cpu::new(vec![0; 0x800]);
    cpu.set_rom(Some(Rc::new(rom)));
    assert_eq!(cpu.read(0xbfff), Ok(0xea));
    assert_eq!(cpu.read(0xc000), Err(Fault::UnmappedRead(0xc000)));
}

#[test]
fn faulting_step_changes_nothing() {
    // STA to ROM: the write faults after the operand was fetched.
    let mut cpu = prepare(&[0x8d, 0x00, 0x90]);
    cpu.get_registers().accumulator = 0x33;
    let before = cpu.registers();
    assert_eq!(cpu.run(), Err(Fault::UnmappedWrite(0x9000)));
    assert_eq!(cpu.registers(), before);

    // LDA through an unmapped address.
    let mut cpu = prepare(&[0xbd, 0x00, 0x40]);
    let before = cpu.registers();
    assert_eq!(cpu.run(), Err(Fault::UnmappedRead(0x4000)));
    assert_eq!(cpu.registers(), before);

    // Program counter outside every region.
    let mut cpu = prepare(&[]);
    cpu.get_registers().program_counter = 0x3000;
    assert_eq!(cpu.run(), Err(Fault::UnmappedRead(0x3000)));
    assert_eq!(cpu.registers().program_counter, 0x3000);
}

#[test]
fn undefined_opcode_is_a_one_byte_no_op() {
    let mut cpu = prepare(&[0xff, 0xe8]);
    let before = cpu.registers();
    assert_eq!(cpu.run(), Ok(2));
    let after = cpu.registers();
    assert_eq!(after.program_counter, 0x8001);
    assert_eq!(after.index_x, before.index_x);
    assert_eq!(after.status, before.status);
    assert_eq!(cpu.run(), Ok(2));
    assert_eq!(cpu.registers().index_x, 1);
}

#[test]
fn jmp_scenario_from_reset_vector() {
    let mut cpu = prepare(&[0x4c, 0xff, 0x80]);
    assert_eq!(cpu.registers().program_counter, 0x8000);
    assert_eq!(cpu.run(), Ok(3));
    assert_eq!(cpu.registers().program_counter, 0x80ff);
}

#[test]
fn inx_bne_loop_scenario() {
    let mut cpu = prepare(&[0xe8, 0xd0, 0xfa, 0xe8, 0xd0, 0xfa]);
    cpu.get_registers().index_x = 0xff;
    let start = cpu.registers().program_counter;
    let mut last = 0;
    for _ in 0..4 {
        last = cpu.run().unwrap();
    }
    assert_eq!(cpu.registers().program_counter, start);
    assert_eq!(last, 3);
}

#[test]
fn console_runs_an_inserted_cartridge() {
    let mut data = vec![0x4e, 0x45, 0x53, 0x1a, 0x02, 0x00];
    data.resize(16, 0);
    let mut program = vec![0; 0x8000];
    program[0] = 0xa9;
    program[1] = 0x42;
    program[2] = 0x8d;
    program[3] = 0x00;
    program[4] = 0x02;
    program[0x7ffd] = 0x80;
    data.extend_from_slice(&program);
    let rom = Rom::load(&data).unwrap();

    let mut nes = Nes::new();
    assert_eq!(nes.step(), Ok(2)); // RAM holds zeros: a no-op at address 0
    nes.set_rom(rom);
    nes.reset().unwrap();
    assert_eq!(nes.registers().program_counter, 0x8000);
    assert_eq!(nes.step(), Ok(2));
    assert_eq!(nes.registers().accumulator, 0x42);
    assert_eq!(nes.step(), Ok(4));
    assert_eq!(nes.registers().program_counter, 0x8005);
}
