use rustyboy::error::MemoryError;
use rustyboy::mmu::MMU;

fn bus() -> MMU {
    MMU::new(vec![0x00, 0x01])
}

#[test]
fn cartridge_bytes_read_back() {
    let mut m = bus();
    assert_eq!(m.read_byte(0), Ok(0x00));
    assert_eq!(m.read_byte(1), Ok(0x01));
}

#[test]
fn read_past_cartridge_image_is_open_bus() {
    let mut m = bus();
    assert_eq!(m.read_byte(2), Ok(0xFF));
    assert_eq!(m.read_byte(0x7FFF), Ok(0xFF));
}

#[test]
fn rom_write_inside_image_is_kept() {
    let mut m = bus();
    assert_eq!(m.write_byte(1, 0x77), Ok(()));
    assert_eq!(m.read_byte(1), Ok(0x77));
    assert_eq!(m.write_byte(5, 0x77), Ok(()));
    assert_eq!(m.read_byte(5), Ok(0xFF));
}

#[test]
fn sprite_table_round_trip() {
    let mut m = bus();
    assert_eq!(m.write_byte(0xFE10, 0x42), Ok(()));
    assert_eq!(m.read_byte(0xFE10), Ok(0x42));
    assert_eq!(m.read_byte(0xFE11), Ok(0x00));
}

#[test]
fn video_ram_round_trip() {
    let mut m = bus();
    assert_eq!(m.write_byte(0x9ABC, 0x5A), Ok(()));
    assert_eq!(m.read_byte(0x9ABC), Ok(0x5A));
}

#[test]
fn working_ram_echo_shares_cells() {
    let mut m = bus();
    assert_eq!(m.write_byte(0xC123, 0x99), Ok(()));
    assert_eq!(m.read_byte(0xE123), Ok(0x99));
}

#[test]
fn zero_page_round_trip() {
    let mut m = bus();
    assert_eq!(m.write_byte(0xFF80, 1), Ok(()));
    assert_eq!(m.write_byte(0xFFFF, 2), Ok(()));
    assert_eq!(m.read_byte(0xFF80), Ok(1));
    assert_eq!(m.read_byte(0xFFFF), Ok(2));
}

#[test]
fn serial_registers_round_trip() {
    let mut m = bus();
    assert_eq!(m.write_byte(0xFF01, 0x31), Ok(()));
    assert_eq!(m.write_byte(0xFF02, 0x81), Ok(()));
    assert_eq!(m.read_byte(0xFF01), Ok(0x31));
    assert_eq!(m.read_byte(0xFF02), Ok(0x81));
}

#[test]
fn cartridge_ram_is_unsupported() {
    let mut m = bus();
    assert_eq!(m.read_byte(0xA000), Err(MemoryError::CartridgeRamUnsupported(0xA000)));
    assert_eq!(m.write_byte(0xBFFF, 1), Err(MemoryError::CartridgeRamUnsupported(0xBFFF)));
}

#[test]
fn unknown_display_register_is_an_error() {
    let mut m = bus();
    assert_eq!(m.read_byte(0xFF45), Err(MemoryError::InvalidControlRegister(0xFF45)));
    assert_eq!(m.read_byte(0xFF46), Err(MemoryError::InvalidControlRegister(0xFF46)));
    assert_eq!(m.write_byte(0xFF46, 0xC0), Err(MemoryError::InvalidControlRegister(0xFF46)));
}

#[test]
fn unmapped_addresses_read_open_bus_and_ignore_writes() {
    let mut m = bus();
    assert_eq!(m.read_byte(0xFF00), Ok(0xFF));
    assert_eq!(m.read_byte(0xFEA0), Ok(0xFF));
    assert_eq!(m.write_byte(0xFF10, 0), Ok(()));
    assert_eq!(m.read_byte(0xFF10), Ok(0xFF));
}

#[test]
fn word_round_trip_little_endian() {
    let mut m = bus();
    for addr in [0x8000u16, 0xC000, 0xFE00, 0xFF80, 0xFFFE] {
        assert_eq!(m.write_word(addr, 0xBEEF), Ok(()));
        assert_eq!(m.read_word(addr), Ok(0xBEEF));
        assert_eq!(m.read_byte(addr), Ok(0xEF));
        assert_eq!(m.read_byte(addr + 1), Ok(0xBE));
    }
}

#[test]
fn word_read_composes_cartridge_bytes() {
    let mut m = bus();
    assert_eq!(m.read_word(0), Ok(0x0100));
}

#[test]
fn word_write_to_cartridge_ram_fails() {
    let mut m = bus();
    assert_eq!(m.write_word(0xA000, 0x1234), Err(MemoryError::CartridgeRamUnsupported(0xA000)));
    assert_eq!(m.read_word(0x9FFF), Err(MemoryError::CartridgeRamUnsupported(0xA000)));
}

#[test]
fn current_line_register_ignores_writes() {
    let mut m = bus();
    let before = m.read_byte(0xFF44);
    assert_eq!(m.write_byte(0xFF44, 0x55), Ok(()));
    assert_eq!(m.read_byte(0xFF44), before);
}

#[test]
fn lcd_control_reads_back_written_value() {
    let mut m = bus();
    assert_eq!(m.write_byte(0xFF40, 0x83), Ok(()));
    assert_eq!(m.read_byte(0xFF40), Ok(0x83));
}

#[test]
fn full_frame_of_visible_lines_enters_vblank() {
    let mut m = bus();
    let mut frames = 0;
    for _ in 0..144 {
        if m.run_cycle(114).is_some() {
            frames += 1;
        }
    }
    assert_eq!(m.read_byte(0xFF44), Ok(144));
    assert_eq!(m.interrupt_flags() & 1, 1);
    assert_eq!(frames, 1);
}

#[test]
fn zero_cycles_change_nothing() {
    let mut m = bus();
    assert!(m.run_cycle(0).is_none());
    assert_eq!(m.read_byte(0xFF44), Ok(0));
    assert_eq!(m.run_cycle(113), None);
    assert!(m.run_cycle(0).is_none());
    assert_eq!(m.read_byte(0xFF44), Ok(0));
    assert_eq!(m.run_cycle(1), None);
    assert_eq!(m.read_byte(0xFF44), Ok(1));
}

#[test]
fn disabled_display_ignores_cycles() {
    let mut m = bus();
    assert_eq!(m.write_byte(0xFF40, 0x11), Ok(()));
    for _ in 0..500 {
        assert!(m.run_cycle(255).is_none());
    }
    assert_eq!(m.read_byte(0xFF44), Ok(0));
    assert_eq!(m.interrupt_flags(), 0);
}
