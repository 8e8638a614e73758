use cpu6502::{decode, AddressingMode, Operation, CPU};

/// Loads `program`, resets, and returns the processor ready to interpret.
fn booted(program: Vec<u8>) -> CPU {
    let mut cpu = CPU::new();
    cpu.load(program);
    cpu.reset();
    cpu
}

#[test]
fn lda_zero_page() {
    let mut cpu = booted(vec![0xa5, 0x10, 0x00]);
    cpu.mem_write(0x10, 0x55);
    assert_eq!(cpu.interpret(), Ok(()));
    assert_eq!(cpu.register_a, 0x55);
    assert_eq!(cpu.program_counter, 0x8003);
}

#[test]
fn lda_zero_page_x_wraps_in_zero_page() {
    let mut cpu = booted(vec![0xb5, 0xf0, 0x00]);
    cpu.register_x = 0x20;
    cpu.mem_write(0x10, 0x66);
    cpu.mem_write(0x110, 0x99);
    assert_eq!(cpu.interpret(), Ok(()));
    assert_eq!(cpu.register_a, 0x66);
}

#[test]
fn lda_absolute_moves_past_two_operand_bytes() {
    let mut cpu = booted(vec![0xad, 0x34, 0x12, 0x00]);
    cpu.mem_write(0x1234, 0x80);
    assert_eq!(cpu.interpret(), Ok(()));
    assert_eq!(cpu.register_a, 0x80);
    assert_eq!(cpu.status_p & 0x80, 0x80);
    assert_eq!(cpu.program_counter, 0x8004);
}

#[test]
fn lda_absolute_x_wraps_address_space() {
    let mut cpu = booted(vec![0xbd, 0xff, 0xff, 0x00]);
    cpu.register_x = 0x02;
    cpu.mem_write(0x0001, 0x17);
    assert_eq!(cpu.interpret(), Ok(()));
    assert_eq!(cpu.register_a, 0x17);
}

#[test]
fn lda_absolute_y() {
    let mut cpu = booted(vec![0xb9, 0x00, 0x20, 0x00]);
    cpu.register_y = 0x05;
    cpu.mem_write(0x2005, 0x2a);
    assert_eq!(cpu.interpret(), Ok(()));
    assert_eq!(cpu.register_a, 0x2a);
}

#[test]
fn lda_indirect_x() {
    let mut cpu = booted(vec![0xa1, 0xfe, 0x00]);
    cpu.register_x = 0x01;
    cpu.mem_write(0xff, 0x00);
    cpu.mem_write(0x00, 0x30);
    cpu.mem_write(0x3000, 0x44);
    assert_eq!(cpu.interpret(), Ok(()));
    assert_eq!(cpu.register_a, 0x44);
    assert_eq!(cpu.program_counter, 0x8003);
}

#[test]
fn lda_indirect_y() {
    let mut cpu = booted(vec![0xb1, 0x40, 0x00]);
    cpu.register_y = 0x10;
    cpu.mem_write_u16(0x40, 0x30f8);
    cpu.mem_write(0x3108, 0x3c);
    assert_eq!(cpu.interpret(), Ok(()));
    assert_eq!(cpu.register_a, 0x3c);
}

#[test]
fn sta_modes_store_accumulator() {
    let mut cpu = booted(vec![
        0xa9, 0x77, // LDA #$77
        0x85, 0x10, // STA $10
        0x95, 0x10, // STA $10,X
        0x8d, 0x00, 0x30, // STA $3000
        0x9d, 0x00, 0x30, // STA $3000,X
        0x99, 0x00, 0x30, // STA $3000,Y
        0x81, 0x20, // STA ($20,X)
        0x91, 0x30, // STA ($30),Y
        0x00,
    ]);
    cpu.mem_write_u16(0x21, 0x4000);
    cpu.mem_write_u16(0x30, 0x5000);
    cpu.status_p = 0b0100_0011;
    cpu.register_x = 1;
    cpu.register_y = 2;
    assert_eq!(cpu.interpret(), Ok(()));
    for addr in [0x10u16, 0x11, 0x3000, 0x3001, 0x3002, 0x4000, 0x5002] {
        assert_eq!(cpu.mem_read(addr), 0x77, "address {:#x}", addr);
    }
    // LDA cleared Zero; the stores left the status register alone.
    assert_eq!(cpu.status_p, 0b0100_0001);
}

#[test]
fn rol_shifts_operand_left_into_accumulator() {
    let mut cpu = booted(vec![0x2a, 0xc1, 0x00]);
    assert_eq!(cpu.interpret(), Ok(()));
    assert_eq!(cpu.register_a, 0x82);
    assert_eq!(cpu.status_p & 0x80, 0x80);
    assert_eq!(cpu.mem_read(0x8001), 0xc1);

    let mut cpu = booted(vec![0x26, 0x10, 0x00]);
    cpu.mem_write(0x10, 0x80);
    assert_eq!(cpu.interpret(), Ok(()));
    assert_eq!(cpu.register_a, 0x00);
    assert_eq!(cpu.status_p & 0x02, 0x02);
}

#[test]
fn ror_shifts_operand_right_into_accumulator() {
    let mut cpu = booted(vec![0x6a, 0x81, 0x00]);
    assert_eq!(cpu.interpret(), Ok(()));
    assert_eq!(cpu.register_a, 0x40);
    assert_eq!(cpu.status_p & 0x82, 0);

    let mut cpu = booted(vec![0x6e, 0x00, 0x20, 0x00]);
    cpu.mem_write(0x2000, 0x01);
    assert_eq!(cpu.interpret(), Ok(()));
    assert_eq!(cpu.register_a, 0x00);
    assert_eq!(cpu.status_p & 0x02, 0x02);
}

#[test]
fn register_transfers_and_counters() {
    // LDA #$05; TAY; INY; TYA; TAX; DEX; DEX; TXA; DEY; BRK
    let mut cpu = booted(vec![0xa9, 0x05, 0xa8, 0xc8, 0x98, 0xaa, 0xca, 0xca, 0x8a, 0x88, 0x00]);
    assert_eq!(cpu.interpret(), Ok(()));
    assert_eq!(cpu.register_y, 0x05);
    assert_eq!(cpu.register_x, 0x04);
    assert_eq!(cpu.register_a, 0x04);
}

#[test]
fn decrements_wrap() {
    let mut cpu = booted(vec![0xca, 0x88, 0x00]);
    assert_eq!(cpu.interpret(), Ok(()));
    assert_eq!(cpu.register_x, 0xff);
    assert_eq!(cpu.register_y, 0xff);
    assert_eq!(cpu.status_p & 0x82, 0x80);
}

#[test]
fn flags_keep_other_bits() {
    let mut cpu = booted(vec![0xa9, 0x00, 0x00]);
    cpu.status_p = 0b0100_0001;
    assert_eq!(cpu.interpret(), Ok(()));
    assert_eq!(cpu.status_p, 0b0100_0011);
}

#[test]
fn decode_table() {
    assert_eq!(decode(0xa9), Some(Operation::Lda(AddressingMode::Immediate)));
    assert_eq!(decode(0xb1), Some(Operation::Lda(AddressingMode::Indirect_Y)));
    assert_eq!(decode(0x91), Some(Operation::Sta(AddressingMode::Indirect_Y)));
    assert_eq!(decode(0x3e), Some(Operation::Rol(AddressingMode::Absolute_X)));
    assert_eq!(decode(0x76), Some(Operation::Ror(AddressingMode::ZeroPage_X)));
    assert_eq!(decode(0xc8), Some(Operation::Iny));
    assert_eq!(decode(0x00), Some(Operation::Brk));
    assert_eq!(decode(0x02), None);
    assert_eq!(decode(0xff), None);
    let defined = (0..=255u8).filter(|b| decode(*b).is_some()).count();
    assert_eq!(defined, 34);
}
