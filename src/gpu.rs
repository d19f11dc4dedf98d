use vstd::prelude::*;
use crate::error::MemoryError;

verus! {

/// Width of the visible picture, in pixels.
pub const SCREEN_WIDTH: usize = 160;

/// Height of the visible picture, in lines.
pub const SCREEN_HEIGHT: usize = 144;

/// Bytes in one frame buffer: three equal channels per pixel, row-major.
pub const FRAME_LEN: usize = 3 * SCREEN_WIDTH * SCREEN_HEIGHT;

/// Bytes of video memory.
pub const VIDEO_RAM_SIZE: usize = 0x2000;

/// Bytes of the sprite attribute table.
pub const OAM_SIZE: usize = 0xA0;

/// Processor cycles spent on one scanline.
pub const CYCLES_PER_LINE: u32 = 114;

/// Scanlines in one frame, vertical blank included.
pub const LINES_PER_FRAME: u8 = 154;

/// The first line of vertical blank; reaching it completes a frame.
pub const VBLANK_LINE: u8 = 144;

/// Background pixel engine: video memory, sprite table, display registers and the
/// frame being drawn.
pub struct GPU {
    next_screen_buffer: Vec<u8>,
    video_ram: Vec<u8>,
    bg_palette: u8,
    bg_palette_map: [u8; 4],
    obj_palette_0: u8,
    obj_palette_1: u8,
    oam: Vec<u8>,
    lcd_control: u8,
    stat: u8,
    scy: u8,
    scx: u8,
    win_y: u8,
    win_x: u8,
    ly: u8,
    render_clock: u32,
    /// Interrupt flags; bit 0 is the pending vertical-blank interrupt.
    pub interrupt: u8,
}

/// The state of a [`GPU`] as plain values.
pub struct GpuView {
    pub frame: Seq<u8>,
    pub video_ram: Seq<u8>,
    pub oam: Seq<u8>,
    pub bg_palette: u8,
    pub obj_palette_0: u8,
    pub obj_palette_1: u8,
    pub lcd_control: u8,
    pub stat: u8,
    pub scy: u8,
    pub scx: u8,
    pub win_y: u8,
    pub win_x: u8,
    pub ly: u8,
    pub render_clock: u32,
    pub interrupt: u8,
}

impl View for GPU {
    type V = GpuView;

    closed spec fn view(&self) -> GpuView {
        GpuView {
            frame: self.next_screen_buffer@,
            video_ram: self.video_ram@,
            oam: self.oam@,
            bg_palette: self.bg_palette,
            obj_palette_0: self.obj_palette_0,
            obj_palette_1: self.obj_palette_1,
            lcd_control: self.lcd_control,
            stat: self.stat,
            scy: self.scy,
            scx: self.scx,
            win_y: self.win_y,
            win_x: self.win_x,
            ly: self.ly,
            render_clock: self.render_clock,
            interrupt: self.interrupt,
        }
    }
}

/// The engine at power-on: cleared memory, display enabled with tile data at
/// `0x8000`, line 0 current and no interrupt pending.
pub open spec fn power_on_state() -> GpuView {
    GpuView {
        frame: blank_frame(),
        video_ram: Seq::new(VIDEO_RAM_SIZE as nat, |i: int| 0u8),
        oam: Seq::new(OAM_SIZE as nat, |i: int| 0u8),
        bg_palette: 0,
        obj_palette_0: 0,
        obj_palette_1: 0,
        lcd_control: 0x91,
        stat: 0,
        scy: 0,
        scx: 0,
        win_y: 0,
        win_x: 0,
        ly: 0,
        render_clock: 0,
        interrupt: 0,
    }
}

/// The shape every reachable engine state has.
pub open spec fn gpu_state_wf(s: GpuView) -> bool {
    &&& s.frame.len() == FRAME_LEN
    &&& s.video_ram.len() == VIDEO_RAM_SIZE
    &&& s.oam.len() == OAM_SIZE
    &&& s.ly < LINES_PER_FRAME
    &&& s.render_clock < CYCLES_PER_LINE
}

/// Index into the sprite table for an address: its low byte, wrapped to the table size.
pub open spec fn oam_index(addr: u16) -> int {
    ((addr & 0xFF) % 0xA0) as int
}

/// Index into video memory for an address: the address masked to the region size.
pub open spec fn video_ram_index(addr: u16) -> int {
    (addr % 0x2000) as int
}

/// Whether an address names a register of the display block served by the engine.
pub open spec fn is_control_register(addr: u16) -> bool {
    (0xFF40 <= addr <= 0xFF44) || (0xFF47 <= addr <= 0xFF4B)
}

/// What reading display register `addr` gives.
pub open spec fn control_read(s: GpuView, addr: u16) -> Result<u8, MemoryError> {
    if addr == 0xFF40 {
        Ok(s.lcd_control)
    } else if addr == 0xFF41 {
        Ok(s.stat)
    } else if addr == 0xFF42 {
        Ok(s.scy)
    } else if addr == 0xFF43 {
        Ok(s.scx)
    } else if addr == 0xFF44 {
        Ok(s.ly)
    } else if addr == 0xFF47 {
        Ok(s.bg_palette)
    } else if addr == 0xFF48 {
        Ok(s.obj_palette_0)
    } else if addr == 0xFF49 {
        Ok(s.obj_palette_1)
    } else if addr == 0xFF4A {
        Ok(s.win_y)
    } else if addr == 0xFF4B {
        Ok(s.win_x)
    } else {
        Err(MemoryError::InvalidControlRegister(addr))
    }
}

/// The state after writing `value` to display register `addr`; the current-line
/// register and addresses that name no register leave it as it was.
pub open spec fn control_written(s: GpuView, addr: u16, value: u8) -> GpuView {
    if addr == 0xFF40 {
        GpuView { lcd_control: value, ..s }
    } else if addr == 0xFF41 {
        GpuView { stat: value, ..s }
    } else if addr == 0xFF42 {
        GpuView { scy: value, ..s }
    } else if addr == 0xFF43 {
        GpuView { scx: value, ..s }
    } else if addr == 0xFF47 {
        GpuView { bg_palette: value, ..s }
    } else if addr == 0xFF48 {
        GpuView { obj_palette_0: value, ..s }
    } else if addr == 0xFF49 {
        GpuView { obj_palette_1: value, ..s }
    } else if addr == 0xFF4A {
        GpuView { win_y: value, ..s }
    } else if addr == 0xFF4B {
        GpuView { win_x: value, ..s }
    } else {
        s
    }
}

/// The result of writing to display register `addr`.
pub open spec fn control_write_result(addr: u16) -> Result<(), MemoryError> {
    if is_control_register(addr) {
        Ok(())
    } else {
        Err(MemoryError::InvalidControlRegister(addr))
    }
}

/// Intensity shown for a 2-bit shade value: brightest for 0, darkest for 3.
pub open spec fn shade_intensity(shade: u8) -> u8 {
    if shade == 0 {
        255
    } else if shade == 1 {
        192
    } else if shade == 2 {
        96
    } else {
        0
    }
}

/// The four intensities a palette byte selects, one per 2-bit color id.
pub open spec fn palette_map_of(palette: u8) -> Seq<u8> {
    seq![
        shade_intensity(palette & 3),
        shade_intensity((palette >> 2u8) & 3),
        shade_intensity((palette >> 4u8) & 3),
        shade_intensity(palette >> 6u8),
    ]
}

/// Maps a 2-bit shade value to a display intensity.
pub fn color_from_dot_data(dot_data: u8) -> (r: u8)
    ensures
        r == shade_intensity(dot_data),
{
    match dot_data {
        0 => 255,
        1 => 192,
        2 => 96,
        _ => 0,
    }
}

/// Decodes a palette byte into the intensities of color ids 0 to 3.
pub fn build_palette_map(palette_layout: u8) -> (r: [u8; 4])
    ensures
        r@ == palette_map_of(palette_layout),
{
    let r = [
        color_from_dot_data(palette_layout & 3),
        color_from_dot_data((palette_layout >> 2u8) & 3),
        color_from_dot_data((palette_layout >> 4u8) & 3),
        color_from_dot_data(palette_layout >> 6u8),
    ];
    assert(r@ =~= palette_map_of(palette_layout));
    r
}

/// Base address of the background tile map selected by LCD-control bit 3.
pub open spec fn tile_map_base(lcd_control: u8) -> int {
    if lcd_control & 0x08 != 0 {
        0x9C00
    } else {
        0x9800
    }
}

/// A tile number read as a signed 8-bit value.
pub open spec fn signed_tile_number(tile_number: u8) -> int {
    if tile_number < 128 {
        tile_number as int
    } else {
        tile_number - 256
    }
}

/// Address of a tile's pixel data. LCD-control bit 4 selects unsigned numbering
/// from `0x8000`; otherwise numbers are signed and the tiles span `0x8800..=0x97FF`.
pub open spec fn tile_address(lcd_control: u8, tile_number: u8) -> int {
    if lcd_control & 0x10 != 0 {
        0x8000 + tile_number * 16
    } else {
        0x8800 + (signed_tile_number(tile_number) + 128) * 16
    }
}

/// The 2-bit color id of the pixel at bit `bit` of a row's two bit planes.
pub open spec fn color_id(plane1: u8, plane2: u8, bit: u8) -> int {
    (if plane1 & (1u8 << bit) != 0 {
        1int
    } else {
        0int
    }) + (if plane2 & (1u8 << bit) != 0 {
        2int
    } else {
        0int
    })
}

/// The background intensity drawn at screen column `x` of line `y`.
pub open spec fn bg_pixel(s: GpuView, y: int, x: int) -> u8 {
    let row = (s.scy + y) % 256;
    let col = (s.scx + x) % 256;
    let map_addr = tile_map_base(s.lcd_control) + (row / 8) * 32 + col / 8;
    let tile_number = s.video_ram[map_addr % 0x2000];
    let line_addr = tile_address(s.lcd_control, tile_number) + (row % 8) * 2;
    let plane1 = s.video_ram[line_addr % 0x2000];
    let plane2 = s.video_ram[(line_addr + 1) % 0x2000];
    palette_map_of(s.bg_palette)[color_id(plane1, plane2, (col % 8) as u8)]
}

/// Offset in the frame buffer of the first byte of line `y`.
pub open spec fn line_start(y: int) -> int {
    y * (3 * SCREEN_WIDTH)
}

/// The state after drawing the background of the current line into the frame.
pub open spec fn render_line(s: GpuView) -> GpuView {
    let start = line_start(s.ly as int);
    GpuView {
        frame: Seq::new(
            s.frame.len(),
            |i: int|
                if start <= i < start + 3 * SCREEN_WIDTH {
                    bg_pixel(s, s.ly as int, (i - start) / 3)
                } else {
                    s.frame[i]
                },
        ),
        ..s
    }
}

/// A frame buffer with every byte cleared.
pub open spec fn blank_frame() -> Seq<u8> {
    Seq::new(FRAME_LEN as nat, |i: int| 0u8)
}

/// Whether advancing from this state's line enters vertical blank.
pub open spec fn enters_vblank(s: GpuView) -> bool {
    s.ly + 1 == VBLANK_LINE
}

/// The state after moving to the next line, before drawing it. Entering vertical
/// blank raises the interrupt bit and starts a blank frame.
pub open spec fn line_advanced(s: GpuView) -> GpuView {
    let ly = ((s.ly + 1) % (LINES_PER_FRAME as int)) as u8;
    if enters_vblank(s) {
        GpuView { ly, interrupt: s.interrupt | 1, frame: blank_frame(), ..s }
    } else {
        GpuView { ly, ..s }
    }
}

/// One full scanline: move to the next line and draw it if it is visible.
pub open spec fn line_step(s: GpuView) -> GpuView {
    let t = line_advanced(s);
    if t.ly < VBLANK_LINE {
        render_line(t)
    } else {
        t
    }
}

/// The state after `k` scanlines.
pub open spec fn lines_after(s: GpuView, k: nat) -> GpuView
    decreases k,
{
    if k == 0 {
        s
    } else {
        line_step(lines_after(s, (k - 1) as nat))
    }
}

/// The last frame completed during `k` scanlines, if any.
pub open spec fn frame_emitted(s: GpuView, k: nat) -> Option<Seq<u8>>
    decreases k,
{
    if k == 0 {
        None
    } else {
        let p = lines_after(s, (k - 1) as nat);
        if enters_vblank(p) {
            Some(p.frame)
        } else {
            frame_emitted(s, (k - 1) as nat)
        }
    }
}

/// Whether LCD-control bit 7 enables the display.
pub open spec fn lcd_enabled(s: GpuView) -> bool {
    s.lcd_control & 0x80 != 0
}

/// Scanlines completed when `cycles` more processor cycles elapse.
pub open spec fn lines_for(s: GpuView, cycles: u8) -> nat {
    ((s.render_clock + cycles) / (CYCLES_PER_LINE as int)) as nat
}

/// The state after `cycles` processor cycles.
pub open spec fn after_cycles(s: GpuView, cycles: u8) -> GpuView {
    if !lcd_enabled(s) {
        s
    } else {
        GpuView {
            render_clock: ((s.render_clock + cycles) % (CYCLES_PER_LINE as int)) as u32,
            ..lines_after(s, lines_for(s, cycles))
        }
    }
}

/// The frame handed out while `cycles` processor cycles elapse, if any.
pub open spec fn frame_after_cycles(s: GpuView, cycles: u8) -> Option<Seq<u8>> {
    if !lcd_enabled(s) {
        None
    } else {
        frame_emitted(s, lines_for(s, cycles))
    }
}

/// The contents of an optional frame buffer.
pub open spec fn frame_view(f: Option<Vec<u8>>) -> Option<Seq<u8>> {
    match f {
        Some(v) => Some(v@),
        None => None,
    }
}

/// Resolves the address of a tile's pixel data from the LCD-control byte and the
/// tile number.
pub fn tile_data_address(lcd_control: u8, tile_number: u8) -> (r: u16)
    ensures
        r == tile_address(lcd_control, tile_number),
{
    if lcd_control & 0x10 > 0 {
        0x8000 + (tile_number as u16) * 16
    } else {
        let signed: i16 = if tile_number < 128 {
            tile_number as i16
        } else {
            tile_number as i16 - 256
        };
        let adjusted: u16 = (signed + 128) as u16;
        0x8800 + adjusted * 16
    }
}

impl GPU {
    /// Well-formedness: buffer sizes, line and clock ranges, and the cached
    /// background palette map agreeing with the palette register.
    pub open spec fn wf(&self) -> bool {
        &&& gpu_state_wf(self@)
        &&& self.palette_in_sync()
    }

    /// The cached background palette map is the one the palette register selects.
    pub closed spec fn palette_in_sync(&self) -> bool {
        self.bg_palette_map@ == palette_map_of(self.bg_palette)
    }

    /// An engine with cleared memory, the display enabled and line 0 current.
    pub fn new() -> (r: Self)
        ensures
            r.wf(),
            r@ == power_on_state(),
    {
        let r = GPU {
            next_screen_buffer: vec![0u8; FRAME_LEN],
            video_ram: vec![0u8; VIDEO_RAM_SIZE],
            bg_palette: 0,
            bg_palette_map: build_palette_map(0),
            obj_palette_0: 0,
            obj_palette_1: 0,
            oam: vec![0u8; OAM_SIZE],
            lcd_control: 0x91,
            stat: 0,
            scy: 0,
            scx: 0,
            win_y: 0,
            win_x: 0,
            ly: 0,
            render_clock: 0,
            interrupt: 0,
        };
        assert(r@.frame =~= power_on_state().frame);
        assert(r@.video_ram =~= power_on_state().video_ram);
        assert(r@.oam =~= power_on_state().oam);
        r
    }

    /// The interrupt flags; bit 0 is a pending vertical blank.
    pub fn interrupt_flags(&self) -> (r: u8)
        ensures
            r == self@.interrupt,
    {
        self.interrupt
    }

    /// Reads the sprite table at the low byte of `addr`, wrapped to the table size.
    pub fn read_oam(&self, addr: u16) -> (r: u8)
        requires
            self.wf(),
        ensures
            r == self@.oam[oam_index(addr)],
    {
        self.oam[((addr & 0xFF) % 0xA0) as usize]
    }

    /// Writes the sprite table at the low byte of `addr`, wrapped to the table size.
    pub fn write_oam(&mut self, addr: u16, value: u8)
        requires
            old(self).wf(),
        ensures
            final(self).wf(),
            final(self)@ == (GpuView { oam: old(self)@.oam.update(oam_index(addr), value), ..old(self)@ }),
    {
        self.oam.set(((addr & 0xFF) % 0xA0) as usize, value);
    }

    /// Reads video memory at `addr` masked to its size.
    pub fn read_video_ram(&self, addr: u16) -> (r: u8)
        requires
            self.wf(),
        ensures
            r == self@.video_ram[video_ram_index(addr)],
    {
        self.read_byte_video_ram(addr)
    }

    /// Writes video memory at `addr` masked to its size.
    pub fn write_video_ram(&mut self, addr: u16, value: u8)
        requires
            old(self).wf(),
        ensures
            final(self).wf(),
            final(self)@ == (GpuView {
                video_ram: old(self)@.video_ram.update(video_ram_index(addr), value),
                ..old(self)@
            }),
    {
        proof {
            assert(addr & 0x1FFF == addr % 0x2000) by (bit_vector);
        }
        self.video_ram.set((addr & 0x1FFF) as usize, value);
    }

    fn read_byte_video_ram(&self, addr: u16) -> (r: u8)
        requires
            self.wf(),
        ensures
            r == self@.video_ram[video_ram_index(addr)],
    {
        proof {
            assert(addr & 0x1FFF == addr % 0x2000) by (bit_vector);
        }
        self.video_ram[(addr & 0x1FFF) as usize]
    }

    /// Reads display register `addr`.
    pub fn read_control(&self, addr: u16) -> (r: Result<u8, MemoryError>)
        ensures
            r == control_read(self@, addr),
    {
        match addr {
            0xFF40 => Ok(self.lcd_control),
            0xFF41 => Ok(self.stat),
            0xFF42 => Ok(self.scy),
            0xFF43 => Ok(self.scx),
            0xFF44 => Ok(self.ly),
            0xFF47 => Ok(self.bg_palette),
            0xFF48 => Ok(self.obj_palette_0),
            0xFF49 => Ok(self.obj_palette_1),
            0xFF4A => Ok(self.win_y),
            0xFF4B => Ok(self.win_x),
            _ => Err(MemoryError::InvalidControlRegister(addr)),
        }
    }

    /// Writes display register `addr`; a write to the background palette also
    /// rebuilds its cached map, and a write to the current line is ignored.
    pub fn write_control(&mut self, addr: u16, value: u8) -> (r: Result<(), MemoryError>)
        requires
            old(self).wf(),
        ensures
            final(self).wf(),
            final(self)@ == control_written(old(self)@, addr, value),
            r == control_write_result(addr),
    {
        match addr {
            0xFF40 => self.lcd_control = value,
            0xFF41 => self.stat = value,
            0xFF42 => self.scy = value,
            0xFF43 => self.scx = value,
            0xFF44 => {},
            0xFF47 => {
                self.bg_palette = value;
                self.bg_palette_map = build_palette_map(value);
            },
            0xFF48 => self.obj_palette_0 = value,
            0xFF49 => self.obj_palette_1 = value,
            0xFF4A => self.win_y = value,
            0xFF4B => self.win_x = value,
            _ => return Err(MemoryError::InvalidControlRegister(addr)),
        }
        Ok(())
    }
}

/// The state after each cycle count of `cycles` in turn.
pub open spec fn after_cycle_sequence(s: GpuView, cycles: Seq<u8>) -> GpuView
    decreases cycles.len(),
{
    if cycles.len() == 0 {
        s
    } else {
        after_cycle_sequence(after_cycles(s, cycles[0]), cycles.drop_first())
    }
}

/// The total of a sequence of cycle counts.
pub open spec fn cycle_sum(cycles: Seq<u8>) -> int
    decreases cycles.len(),
{
    if cycles.len() == 0 {
        0
    } else {
        cycles[0] + cycle_sum(cycles.drop_first())
    }
}

proof fn lemma_lines_after_line(s: GpuView, k: nat)
    requires
        s.ly < LINES_PER_FRAME,
    ensures
        lines_after(s, k).ly == (s.ly + k) % (LINES_PER_FRAME as int),
        lines_after(s, k).lcd_control == s.lcd_control,
        lines_after(s, k).render_clock == s.render_clock,
        gpu_state_wf(s) ==> gpu_state_wf(lines_after(s, k)),
    decreases k,
{
    if k > 0 {
        lemma_lines_after_line(s, (k - 1) as nat);
    }
}

proof fn lemma_cycle_sequence_timing(s: GpuView, cycles: Seq<u8>)
    requires
        gpu_state_wf(s),
        lcd_enabled(s),
    ensures
        after_cycle_sequence(s, cycles).ly == (s.ly + (s.render_clock + cycle_sum(cycles)) / 114) % 154,
        after_cycle_sequence(s, cycles).render_clock == (s.render_clock + cycle_sum(cycles)) % 114,
        after_cycle_sequence(s, cycles).lcd_control == s.lcd_control,
        after_cycle_sequence(s, cycles).ly < LINES_PER_FRAME,
    decreases cycles.len(),
{
    if cycles.len() > 0 {
        let c = cycles[0];
        let rest = cycles.drop_first();
        let s1 = after_cycles(s, c);
        lemma_lines_after_line(s, lines_for(s, c));
        assert(gpu_state_wf(s1) && lcd_enabled(s1)) by {
            assert(s1.lcd_control == s.lcd_control);
        }
        lemma_cycle_sequence_timing(s1, rest);
        let a = s.render_clock + c;
        let t = cycle_sum(rest);
        assert((a % 114 + t) / 114 + a / 114 == (a + t) / 114);
    }
}

/// For any cycle counts whose total is a multiple of 114, fed one after another to
/// an enabled display, the current line advances by exactly total / 114 lines,
/// modulo 154.
pub proof fn lemma_line_advance_matches_cycles(s: GpuView, cycles: Seq<u8>)
    requires
        gpu_state_wf(s),
        lcd_enabled(s),
        cycle_sum(cycles) % 114 == 0,
    ensures
        after_cycle_sequence(s, cycles).ly == (s.ly + cycle_sum(cycles) / 114) % 154,
{
    lemma_cycle_sequence_timing(s, cycles);
}

/// A scanline changes the interrupt flags only by raising bit 0, and does so
/// exactly when the new line is 144.
pub proof fn lemma_vblank_interrupt_step(s: GpuView)
    requires
        gpu_state_wf(s),
    ensures
        line_step(s).ly == VBLANK_LINE ==> line_step(s).interrupt & 1 == 1,
        line_step(s).ly == VBLANK_LINE ==> line_step(s).interrupt & 0xFE == s.interrupt & 0xFE,
        line_step(s).ly != VBLANK_LINE ==> line_step(s).interrupt == s.interrupt,
{
    let i = s.interrupt;
    assert((i | 1) & 1 == 1) by (bit_vector);
    assert((i | 1) & 0xFE == i & 0xFE) by (bit_vector);
}

/// Of any 154 consecutive scanlines, exactly one enters line 144, the only line
/// at which the vertical-blank interrupt is raised.
pub proof fn lemma_vblank_once_per_frame(s: GpuView)
    requires
        gpu_state_wf(s),
    ensures
        exists|i: nat| 1 <= i <= 154 && #[trigger] lines_after(s, i).ly == VBLANK_LINE,
        forall|i: nat, j: nat|
            1 <= i <= 154 && 1 <= j <= 154 && #[trigger] lines_after(s, i).ly == VBLANK_LINE
                && #[trigger] lines_after(s, j).ly == VBLANK_LINE ==> i == j,
{
    let w: nat = if s.ly < 144 {
        (144 - s.ly) as nat
    } else {
        (298 - s.ly) as nat
    };
    lemma_lines_after_line(s, w);
    assert forall|i: nat, j: nat|
        1 <= i <= 154 && 1 <= j <= 154 && #[trigger] lines_after(s, i).ly == VBLANK_LINE
            && #[trigger] lines_after(s, j).ly == VBLANK_LINE implies i == j by {
        lemma_lines_after_line(s, i);
        lemma_lines_after_line(s, j);
    }
}

/// Zero cycles change nothing and hand out no frame.
pub proof fn lemma_zero_cycles_no_op(s: GpuView)
    requires
        gpu_state_wf(s),
    ensures
        after_cycles(s, 0) == s,
        frame_after_cycles(s, 0) is None,
{
}

/// With the display disabled, any number of cycles changes nothing and hands out
/// no frame.
pub proof fn lemma_disabled_display_no_op(s: GpuView, cycles: u8)
    requires
        !lcd_enabled(s),
    ensures
        after_cycles(s, cycles) == s,
        frame_after_cycles(s, cycles) is None,
{
}

/// Writes to the current-line register leave what it reads unchanged, and the
/// LCD-control register reads back what was written to it.
pub proof fn lemma_register_write_read(s: GpuView, value: u8)
    ensures
        control_read(control_written(s, 0xFF44, value), 0xFF44) == control_read(s, 0xFF44),
        control_read(control_written(s, 0xFF40, value), 0xFF40) == Ok::<u8, MemoryError>(value),
{
}

/// A background palette written keeps selecting its map through writes to any
/// other register.
pub proof fn lemma_palette_kept(s: GpuView, palette: u8, addr: u16, value: u8)
    requires
        addr != 0xFF47,
    ensures
        control_written(control_written(s, 0xFF47, palette), addr, value).bg_palette == palette,
        control_read(control_written(control_written(s, 0xFF47, palette), addr, value), 0xFF47)
            == Ok::<u8, MemoryError>(palette),
{
}

impl GPU {
    /// Advances the engine by `cycles` processor cycles. Every 114 cycles move to
    /// the next line and draw it; entering line 144 raises the vertical-blank
    /// interrupt and hands out the completed frame. Nothing happens while the
    /// display is disabled.
    pub fn run_cycle(&mut self, cycles: u8) -> (r: Option<Vec<u8>>)
        requires
            old(self).wf(),
        ensures
            final(self).wf(),
            final(self)@ == after_cycles(old(self)@, cycles),
            frame_view(r) == frame_after_cycles(old(self)@, cycles),
    {
        if !self.is_lcd_on() {
            return None;
        }
        self.process_cycles(cycles as u32)
    }

    fn process_cycles(&mut self, cycles: u32) -> (r: Option<Vec<u8>>)
        requires
            old(self).wf(),
            cycles <= 255,
        ensures
            final(self).wf(),
            final(self)@ == (GpuView {
                render_clock: ((old(self)@.render_clock + cycles) % (CYCLES_PER_LINE as int)) as u32,
                ..lines_after(old(self)@, ((old(self)@.render_clock + cycles) / (CYCLES_PER_LINE as int)) as nat)
            }),
            frame_view(r) == frame_emitted(
                old(self)@,
                ((old(self)@.render_clock + cycles) / (CYCLES_PER_LINE as int)) as nat,
            ),
    {
        let ghost s0 = self@;
        let mut total: u32 = self.render_clock + cycles;
        let mut out: Option<Vec<u8>> = None;
        let ghost mut k: nat = 0;
        while total >= CYCLES_PER_LINE
            invariant
                self.wf(),
                total + k * CYCLES_PER_LINE == s0.render_clock + cycles,
                self@ == lines_after(s0, k),
                frame_view(out) == frame_emitted(s0, k),
            decreases total,
        {
            total = total - CYCLES_PER_LINE;
            let ghost prev = self@;
            let emitted = self.increment_line();
            if emitted.is_some() {
                out = emitted;
            }
            if self.ly < VBLANK_LINE {
                self.render_background();
            }
            proof {
                k = k + 1;
            }
        }
        self.render_clock = total;
        out
    }

    fn is_lcd_on(&self) -> (r: bool)
        ensures
            r == lcd_enabled(self@),
    {
        self.lcd_control & 0x80 > 0
    }

    fn increment_line(&mut self) -> (r: Option<Vec<u8>>)
        requires
            old(self).wf(),
        ensures
            final(self).wf(),
            final(self)@ == line_advanced(old(self)@),
            frame_view(r) == (if enters_vblank(old(self)@) {
                Some(old(self)@.frame)
            } else {
                None
            }),
    {
        self.ly = (self.ly + 1) % LINES_PER_FRAME;
        if self.ly == VBLANK_LINE {
            self.interrupt = self.interrupt | 1;
            Some(self.render_screen())
        } else {
            None
        }
    }

    /// Hands out the frame drawn so far and starts a blank one.
    fn render_screen(&mut self) -> (r: Vec<u8>)
        requires
            old(self).wf(),
        ensures
            final(self).wf(),
            r@ == old(self)@.frame,
            final(self)@ == (GpuView { frame: blank_frame(), ..old(self)@ }),
    {
        let mut frame = vec![0u8; FRAME_LEN];
        std::mem::swap(&mut frame, &mut self.next_screen_buffer);
        proof {
            assert(self@.frame =~= blank_frame());
        }
        frame
    }

    fn bg_tile_map_addr(&self) -> (r: u16)
        ensures
            r == tile_map_base(self@.lcd_control),
    {
        if self.lcd_control & 0x08 > 0 {
            0x9C00
        } else {
            0x9800
        }
    }

    /// The background intensity at column `x` of the current line.
    fn background_pixel(&self, x: usize) -> (r: u8)
        requires
            self.wf(),
            x < SCREEN_WIDTH,
        ensures
            r == bg_pixel(self@, self@.ly as int, x as int),
    {
        let map_base = self.bg_tile_map_addr();
        let bgy: u8 = self.scy.wrapping_add(self.ly);
        let bgy_tile: u16 = (bgy as u16) / 8;
        let bgy_pixel: u16 = (bgy as u16) % 8;
        let bgx: u8 = self.scx.wrapping_add(x as u8);
        let bgx_tile: u16 = (bgx as u16) / 8;
        let bgx_pixel: u8 = bgx % 8;
        let ghost row = (self@.scy + self@.ly) % 256;
        let ghost col = (self@.scx + x) % 256;
        assert(bgy == row && bgx == col);
        let map_addr: u16 = map_base + bgy_tile * 32 + bgx_tile;
        assert(map_addr == tile_map_base(self@.lcd_control) + (row / 8) * 32 + col / 8);
        let tile_number = self.read_byte_video_ram(map_addr);
        let tile_addr = tile_data_address(self.lcd_control, tile_number);
        let line_addr = tile_addr + bgy_pixel * 2;
        let plane1 = self.read_byte_video_ram(line_addr);
        let plane2 = self.read_byte_video_ram(line_addr + 1);
        let mask: u8 = 1u8 << bgx_pixel;
        let low: u8 = if plane1 & mask > 0 {
            1
        } else {
            0
        };
        let high: u8 = if plane2 & mask > 0 {
            2
        } else {
            0
        };
        let palette_color_id: u8 = low | high;
        proof {
            assert(low | high == low + high) by (bit_vector)
                requires
                    low == 0 || low == 1,
                    high == 0 || high == 2,
            ;
            assert(palette_color_id == color_id(plane1, plane2, (col % 8) as u8));
        }
        let color = self.bg_palette_map[palette_color_id as usize];
        color
    }

    fn render_background(&mut self)
        requires
            old(self).wf(),
            old(self)@.ly < VBLANK_LINE,
        ensures
            final(self).wf(),
            final(self)@ == render_line(old(self)@),
    {
        let ghost s0 = self@;
        let ghost start = line_start(s0.ly as int);
        let mut x: usize = 0;
        while x < SCREEN_WIDTH
            invariant
                self.wf(),
                x <= SCREEN_WIDTH,
                s0.ly < VBLANK_LINE,
                start == line_start(s0.ly as int),
                self@ == (GpuView { frame: self@.frame, ..s0 }),
                forall|i: int|
                    #![trigger self@.frame[i]]
                    0 <= i < FRAME_LEN ==> self@.frame[i] == (if start <= i < start + 3 * x {
                        bg_pixel(s0, s0.ly as int, (i - start) / 3)
                    } else {
                        s0.frame[i]
                    }),
            decreases SCREEN_WIDTH - x,
        {
            let color = self.background_pixel(x);
            self.set_pixel_color_next_screen_buffer(x, color);
            x = x + 1;
        }
        proof {
            assert(self@.frame =~= render_line(s0).frame);
        }
    }

    fn set_pixel_color_next_screen_buffer(&mut self, x_pixel: usize, color: u8)
        requires
            old(self).wf(),
            old(self)@.ly < VBLANK_LINE,
            x_pixel < SCREEN_WIDTH,
        ensures
            final(self).wf(),
            final(self)@ == (GpuView {
                frame: old(self)@.frame.update(line_start(old(self)@.ly as int) + 3 * x_pixel, color).update(
                    line_start(old(self)@.ly as int) + 3 * x_pixel + 1,
                    color,
                ).update(line_start(old(self)@.ly as int) + 3 * x_pixel + 2, color),
                ..old(self)@
            }),
    {
        let base = (self.ly as usize * SCREEN_WIDTH + x_pixel) * 3;
        self.next_screen_buffer.set(base, color);
        self.next_screen_buffer.set(base + 1, color);
        self.next_screen_buffer.set(base + 2, color);
    }
}

} // verus!
