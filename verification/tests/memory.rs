use cpu6502::cpu::{join_bytes, split_word, Cpu6502};

#[test]
fn write_then_read_returns_the_byte() {
    let mut cpu = Cpu6502::new();
    for addr in [0x0000u16, 0x0001, 0x00FF, 0x0100, 0x01FF, 0x8000, 0xFFFE, 0xFFFF] {
        for byte in [0x00u8, 0x01, 0x7F, 0x80, 0xFF] {
            cpu.write(addr, byte);
            assert_eq!(cpu.read(addr), byte);
        }
    }
}

#[test]
fn write_then_read_at_every_address() {
    let mut cpu = Cpu6502::new();
    for addr in 0..=0xFFFFu16 {
        let byte: u8 = (addr % 251) as u8 + 1;
        cpu.write(addr, byte);
        assert_eq!(cpu.read(addr), byte);
    }
    for addr in 0..=0xFFFFu16 {
        assert_eq!(cpu.read(addr), (addr % 251) as u8 + 1);
    }
}

#[test]
fn write_overwrites_prior_content() {
    let mut cpu = Cpu6502::new();
    cpu.write(0x4000, 0xAA);
    cpu.write(0x4000, 0x55);
    assert_eq!(cpu.read(0x4000), 0x55);
}

#[test]
fn write_changes_one_address_and_no_register() {
    let mut cpu = Cpu6502::new();
    cpu.write(0x4000, 0xAA);
    assert_eq!(cpu.read(0x3FFF), 0);
    assert_eq!(cpu.read(0x4001), 0);
    assert_eq!(cpu.memory.iter().filter(|&&b| b != 0).count(), 1);
    assert_eq!((cpu.a, cpu.x, cpu.y, cpu.sp, cpu.pc, cpu.status), (0, 0, 0, 0xFD, 0x8000, 0x24));
}

#[test]
fn read_word_is_little_endian() {
    let mut cpu = Cpu6502::new();
    cpu.write(0x2000, 0x34);
    cpu.write(0x2001, 0x12);
    assert_eq!(cpu.read_word(0x2000), 0x1234);
}

#[test]
fn write_word_stores_low_byte_first() {
    let mut cpu = Cpu6502::new();
    cpu.write_word(0x2000, 0xBEEF);
    assert_eq!(cpu.read(0x2000), 0xEF);
    assert_eq!(cpu.read(0x2001), 0xBE);
}

#[test]
fn write_word_then_read_word_returns_the_word() {
    let mut cpu = Cpu6502::new();
    for addr in [0x0000u16, 0x00FF, 0x01FF, 0x7FFF, 0x8000, 0xFFFE, 0xFFFF] {
        for word in [0x0000u16, 0x0001, 0x00FF, 0x0100, 0x1234, 0x8000, 0xFF00, 0xFFFF] {
            cpu.write_word(addr, word);
            assert_eq!(cpu.read_word(addr), word);
        }
    }
}

#[test]
fn read_word_wraps_at_the_top_of_memory() {
    let mut cpu = Cpu6502::new();
    cpu.write(0xFFFF, 0xCD);
    cpu.write(0x0000, 0xAB);
    assert_eq!(cpu.read_word(0xFFFF), 0xABCD);
}

#[test]
fn write_word_wraps_at_the_top_of_memory() {
    let mut cpu = Cpu6502::new();
    cpu.write_word(0xFFFF, 0xABCD);
    assert_eq!(cpu.read(0xFFFF), 0xCD);
    assert_eq!(cpu.read(0x0000), 0xAB);
    assert_eq!(cpu.read(0x0001), 0x00);
    assert_eq!(cpu.read_word(0xFFFF), 0xABCD);
}

#[test]
fn split_word_gives_low_then_high() {
    assert_eq!(split_word(0x1234), (0x34, 0x12));
    assert_eq!(split_word(0x0000), (0x00, 0x00));
    assert_eq!(split_word(0xFFFF), (0xFF, 0xFF));
    assert_eq!(split_word(0x00FF), (0xFF, 0x00));
    assert_eq!(split_word(0xFF00), (0x00, 0xFF));
}

#[test]
fn join_bytes_takes_low_then_high() {
    assert_eq!(join_bytes(0x34, 0x12), 0x1234);
    assert_eq!(join_bytes(0x00, 0x00), 0x0000);
    assert_eq!(join_bytes(0xFF, 0xFF), 0xFFFF);
    assert_eq!(join_bytes(0xFF, 0x00), 0x00FF);
    assert_eq!(join_bytes(0x00, 0xFF), 0xFF00);
}

#[test]
fn join_bytes_undoes_split_word() {
    for word in 0..=0xFFFFu16 {
        let (low, high) = split_word(word);
        assert_eq!(join_bytes(low, high), word);
    }
}
