use rustyboy::error::MemoryError;
use rustyboy::gpu::{build_palette_map, color_from_dot_data, tile_data_address, FRAME_LEN, GPU};

#[test]
fn unsigned_tile_addressing() {
    assert_eq!(tile_data_address(0x10, 0), 0x8000);
    assert_eq!(tile_data_address(0x10, 1), 0x8010);
    assert_eq!(tile_data_address(0x10, 255), 0x8FF0);
}

#[test]
fn signed_tile_addressing() {
    assert_eq!(tile_data_address(0x00, 0), 0x9000);
    assert_eq!(tile_data_address(0x00, 127), 0x97F0);
    assert_eq!(tile_data_address(0x00, 128), 0x8800);
    assert_eq!(tile_data_address(0x00, 255), 0x8FF0);
}

#[test]
fn shade_table() {
    assert_eq!(color_from_dot_data(0), 255);
    assert_eq!(color_from_dot_data(1), 192);
    assert_eq!(color_from_dot_data(2), 96);
    assert_eq!(color_from_dot_data(3), 0);
    assert_eq!(color_from_dot_data(0x10), 0);
}

#[test]
fn identity_palette_map() {
    assert_eq!(build_palette_map(0b1110_0100), [255, 192, 96, 0]);
    assert_eq!(build_palette_map(0), [255, 255, 255, 255]);
    assert_eq!(build_palette_map(0b0001_1011), [0, 96, 192, 255]);
}

#[test]
fn palette_register_survives_other_writes() {
    let mut g = GPU::new();
    assert_eq!(g.write_control(0xFF47, 0b1110_0100), Ok(()));
    assert_eq!(g.write_control(0xFF48, 0x12), Ok(()));
    assert_eq!(g.write_control(0xFF43, 0x07), Ok(()));
    assert_eq!(g.read_control(0xFF47), Ok(0b1110_0100));
}

#[test]
fn control_registers_round_trip() {
    let mut g = GPU::new();
    let regs = [0xFF40u16, 0xFF41, 0xFF42, 0xFF43, 0xFF47, 0xFF48, 0xFF49, 0xFF4A, 0xFF4B];
    for (i, r) in regs.iter().enumerate() {
        let v = 0x80 | (i as u8);
        assert_eq!(g.write_control(*r, v), Ok(()));
        assert_eq!(g.read_control(*r), Ok(v));
    }
    assert_eq!(g.write_control(0xFF44, 9), Ok(()));
    assert_eq!(g.read_control(0xFF44), Ok(0));
    assert_eq!(g.read_control(0xFF46), Err(MemoryError::InvalidControlRegister(0xFF46)));
    assert_eq!(g.write_control(0xFF45, 1), Err(MemoryError::InvalidControlRegister(0xFF45)));
}

#[test]
fn power_on_registers() {
    let g = GPU::new();
    assert_eq!(g.read_control(0xFF40), Ok(0x91));
    assert_eq!(g.read_control(0xFF44), Ok(0));
    assert_eq!(g.interrupt_flags(), 0);
}

#[test]
fn memory_accessors_mask_addresses() {
    let mut g = GPU::new();
    g.write_video_ram(0x8001, 7);
    assert_eq!(g.read_video_ram(0x8001), 7);
    assert_eq!(g.read_video_ram(0xA001), 7);
    g.write_oam(0xFE9F, 3);
    assert_eq!(g.read_oam(0xFE9F), 3);
    assert_eq!(g.read_oam(0x009F), 3);
}

#[test]
fn cycle_totals_in_whole_lines_advance_lines() {
    let mut g = GPU::new();
    for c in [100u8, 14, 57, 57, 114, 200, 28] {
        g.run_cycle(c);
    }
    // 570 cycles: five lines
    assert_eq!(g.read_control(0xFF44), Ok(5));
}

#[test]
fn large_budget_advances_several_lines() {
    let mut g = GPU::new();
    g.run_cycle(113);
    g.run_cycle(255);
    // 368 cycles: three lines, 26 left over
    assert_eq!(g.read_control(0xFF44), Ok(3));
    g.run_cycle(87);
    assert_eq!(g.read_control(0xFF44), Ok(3));
    g.run_cycle(1);
    assert_eq!(g.read_control(0xFF44), Ok(4));
}

#[test]
fn vblank_interrupt_raised_only_on_entering_line_144() {
    let mut g = GPU::new();
    for _ in 0..143 {
        assert!(g.run_cycle(114).is_none());
    }
    assert_eq!(g.read_control(0xFF44), Ok(143));
    assert_eq!(g.interrupt_flags(), 0);
    let frame = g.run_cycle(114);
    assert_eq!(frame.map(|f| f.len()), Some(FRAME_LEN));
    assert_eq!(g.interrupt_flags(), 1);
    assert_eq!(g.read_control(0xFF44), Ok(144));
}

#[test]
fn one_frame_per_154_lines() {
    let mut g = GPU::new();
    let mut frames = 0;
    for _ in 0..(154 * 3) {
        if g.run_cycle(114).is_some() {
            frames += 1;
        }
    }
    assert_eq!(frames, 3);
    assert_eq!(g.read_control(0xFF44), Ok(0));
}

#[test]
fn background_line_uses_tile_planes_and_palette() {
    let mut g = GPU::new();
    assert_eq!(g.write_control(0xFF47, 0b1110_0100), Ok(()));
    // row 0 of tile 0: plane one 0b01, plane two 0b11
    g.write_video_ram(0x8000, 0b0000_0001);
    g.write_video_ram(0x8001, 0b0000_0011);
    let mut frame = None;
    for _ in 0..144 {
        if let Some(f) = g.run_cycle(114) {
            frame = Some(f);
        }
    }
    let frame = frame.unwrap();
    let at = |y: usize, x: usize| (y * 160 + x) * 3;
    // line 8 is row 0 of the second tile row
    assert_eq!(&frame[at(8, 0)..at(8, 0) + 3], &[0, 0, 0]);
    assert_eq!(&frame[at(8, 1)..at(8, 1) + 3], &[96, 96, 96]);
    assert_eq!(&frame[at(8, 2)..at(8, 2) + 3], &[255, 255, 255]);
    assert_eq!(frame[at(8, 8)], 0);
    // line 9 is row 1, whose planes are clear
    assert_eq!(frame[at(9, 0)], 255);
    // line 0 has not been drawn since power-on
    assert_eq!(frame[at(0, 0)], 0);
}

#[test]
fn scroll_shifts_background() {
    let mut g = GPU::new();
    assert_eq!(g.write_control(0xFF47, 0b1110_0100), Ok(()));
    assert_eq!(g.write_control(0xFF43, 1), Ok(()));
    g.write_video_ram(0x8000, 0b0000_0001);
    g.write_video_ram(0x8001, 0b0000_0011);
    let mut frame = None;
    for _ in 0..144 {
        if let Some(f) = g.run_cycle(114) {
            frame = Some(f);
        }
    }
    let frame = frame.unwrap();
    let at = |y: usize, x: usize| (y * 160 + x) * 3;
    assert_eq!(frame[at(8, 0)], 96);
    assert_eq!(frame[at(8, 1)], 255);
    assert_eq!(frame[at(8, 7)], 0);
}

#[test]
fn signed_mode_reads_tiles_from_upper_block() {
    let mut g = GPU::new();
    assert_eq!(g.write_control(0xFF40, 0x81), Ok(()));
    assert_eq!(g.write_control(0xFF47, 0b1110_0100), Ok(()));
    // tile 0 in signed mode lives at 0x9000
    g.write_video_ram(0x9000, 0b0000_0001);
    let mut frame = None;
    for _ in 0..144 {
        if let Some(f) = g.run_cycle(114) {
            frame = Some(f);
        }
    }
    let frame = frame.unwrap();
    let at = |y: usize, x: usize| (y * 160 + x) * 3;
    assert_eq!(frame[at(8, 0)], 192);
    assert_eq!(frame[at(8, 1)], 255);
}
