use vstd::prelude::*;
use crate::error::MemoryError;
use crate::gpu::{after_cycles, control_read, control_write_result, control_written, frame_after_cycles, frame_view, gpu_state_wf, oam_index, power_on_state, video_ram_index, GpuView, GPU};
use crate::serial::{serial_read, serial_written, Serial};

verus! {

/// Bytes of working RAM.
pub const WRAM_SIZE: usize = 0x2000;

/// Bytes of zero-page RAM.
pub const ZRAM_SIZE: usize = 0x80;

/// What a read gives where nothing answers: all bits set, as on an open bus.
pub const OPEN_BUS: u8 = 0xFF;

/// The address bus: cartridge ROM, working RAM, zero-page RAM, the pixel engine and
/// the serial registers, each reached through its address range.
pub struct MMU {
    rom: Vec<u8>,
    wram: Vec<u8>,
    zram: Vec<u8>,
    gpu: GPU,
    serial: Serial,
}

/// The state of an [`MMU`] as plain values.
pub struct MmuView {
    pub rom: Seq<u8>,
    pub wram: Seq<u8>,
    pub zram: Seq<u8>,
    pub gpu: GpuView,
    pub serial: Serial,
}

impl View for MMU {
    type V = MmuView;

    closed spec fn view(&self) -> MmuView {
        MmuView {
            rom: self.rom@,
            wram: self.wram@,
            zram: self.zram@,
            gpu: self.gpu@,
            serial: self.serial,
        }
    }
}

/// The shape every reachable bus state has.
pub open spec fn mmu_state_wf(m: MmuView) -> bool {
    &&& m.wram.len() == WRAM_SIZE
    &&& m.zram.len() == ZRAM_SIZE
    &&& gpu_state_wf(m.gpu)
}

/// What reading the byte at `addr` gives.
pub open spec fn bus_read(m: MmuView, addr: u16) -> Result<u8, MemoryError> {
    if addr <= 0x7FFF {
        if addr < m.rom.len() {
            Ok(m.rom[addr as int])
        } else {
            Ok(OPEN_BUS)
        }
    } else if addr <= 0x9FFF {
        Ok(m.gpu.video_ram[video_ram_index(addr)])
    } else if addr <= 0xBFFF {
        Err(MemoryError::CartridgeRamUnsupported(addr))
    } else if addr <= 0xFDFF {
        Ok(m.wram[(addr % 0x2000) as int])
    } else if addr <= 0xFE9F {
        Ok(m.gpu.oam[oam_index(addr)])
    } else if 0xFF01 <= addr <= 0xFF02 {
        Ok(serial_read(m.serial, addr))
    } else if 0xFF40 <= addr <= 0xFF4B {
        control_read(m.gpu, addr)
    } else if 0xFF80 <= addr {
        Ok(m.zram[(addr % 0x80) as int])
    } else {
        Ok(OPEN_BUS)
    }
}

/// The state after writing `value` at `addr`. Writes past the end of the cartridge
/// image, to cartridge RAM, to read-only or unknown registers and to unmapped
/// addresses change nothing.
pub open spec fn bus_written(m: MmuView, addr: u16, value: u8) -> MmuView {
    if addr <= 0x7FFF {
        if addr < m.rom.len() {
            MmuView { rom: m.rom.update(addr as int, value), ..m }
        } else {
            m
        }
    } else if addr <= 0x9FFF {
        MmuView { gpu: GpuView { video_ram: m.gpu.video_ram.update(video_ram_index(addr), value), ..m.gpu }, ..m }
    } else if addr <= 0xBFFF {
        m
    } else if addr <= 0xFDFF {
        MmuView { wram: m.wram.update((addr % 0x2000) as int, value), ..m }
    } else if addr <= 0xFE9F {
        MmuView { gpu: GpuView { oam: m.gpu.oam.update(oam_index(addr), value), ..m.gpu }, ..m }
    } else if 0xFF01 <= addr <= 0xFF02 {
        MmuView { serial: serial_written(m.serial, addr, value), ..m }
    } else if 0xFF40 <= addr <= 0xFF4B {
        MmuView { gpu: control_written(m.gpu, addr, value), ..m }
    } else if 0xFF80 <= addr {
        MmuView { zram: m.zram.update((addr % 0x80) as int, value), ..m }
    } else {
        m
    }
}

/// The result of writing a byte at `addr`.
pub open spec fn bus_write_result(addr: u16) -> Result<(), MemoryError> {
    if 0xA000 <= addr <= 0xBFFF {
        Err(MemoryError::CartridgeRamUnsupported(addr))
    } else if 0xFF40 <= addr <= 0xFF4B {
        control_write_result(addr)
    } else {
        Ok(())
    }
}

/// The address after `addr`, wrapping at the top of the address space.
pub open spec fn next_address(addr: u16) -> u16 {
    ((addr + 1) % 0x10000) as u16
}

/// What reading the little-endian word at `addr` gives; the first failing byte
/// access decides the error.
pub open spec fn word_read(m: MmuView, addr: u16) -> Result<u16, MemoryError> {
    match bus_read(m, addr) {
        Err(e) => Err(e),
        Ok(lo) => match bus_read(m, next_address(addr)) {
            Err(e) => Err(e),
            Ok(hi) => Ok((lo + hi * 256) as u16),
        },
    }
}

/// The state after writing the little-endian word `value` at `addr`: the low byte
/// first, then the high byte unless the first write failed.
pub open spec fn word_written(m: MmuView, addr: u16, value: u16) -> MmuView {
    let m1 = bus_written(m, addr, (value % 256) as u8);
    if bus_write_result(addr) is Err {
        m1
    } else {
        bus_written(m1, next_address(addr), (value / 256) as u8)
    }
}

/// The result of writing a word at `addr`.
pub open spec fn word_write_result(addr: u16) -> Result<(), MemoryError> {
    match bus_write_result(addr) {
        Err(e) => Err(e),
        Ok(_) => bus_write_result(next_address(addr)),
    }
}

/// Whether the word at `addr` lies in memory that keeps what is written to it:
/// the loaded cartridge image, video memory, working RAM, the sprite table or
/// zero-page RAM.
pub open spec fn word_is_stored(m: MmuView, addr: u16) -> bool {
    ||| addr <= 0x7FFF && addr + 1 < m.rom.len()
    ||| 0x8000 <= addr <= 0x9FFF
    ||| 0xC000 <= addr <= 0xFDFF
    ||| 0xFE00 <= addr <= 0xFE9F
    ||| 0xFF80 <= addr
}

/// Writing a word at an even address of memory that keeps its contents, then
/// reading the word there, gives back the value written, low byte first.
pub proof fn lemma_word_round_trip(m: MmuView, addr: u16, value: u16)
    requires
        mmu_state_wf(m),
        addr % 2 == 0,
        word_is_stored(m, addr),
    ensures
        word_write_result(addr) is Ok,
        word_read(word_written(m, addr, value), addr) == Ok::<u16, MemoryError>(value),
{
    let next = next_address(addr);
    assert(next == addr + 1);
    if 0xFE00 <= addr <= 0xFE9F {
        assert(addr & 0xFF == addr - 0xFE00) by (bit_vector)
            requires
                0xFE00 <= addr <= 0xFE9F,
        ;
        assert(next & 0xFF == next - 0xFE00) by (bit_vector)
            requires
                0xFE00 <= next <= 0xFE9F,
        ;
    }
    let lo = (value % 256) as u8;
    let hi = (value / 256) as u8;
    let m1 = bus_written(m, addr, lo);
    let m2 = bus_written(m1, next, hi);
    assert(bus_read(m2, addr) == Ok::<u8, MemoryError>(lo));
    assert(bus_read(m2, next) == Ok::<u8, MemoryError>(hi));
}

impl MMU {
    /// Well-formedness: region sizes and a well-formed pixel engine.
    pub open spec fn wf(&self) -> bool {
        &&& mmu_state_wf(self@)
        &&& self.gpu_wf()
    }

    /// The pixel engine is well formed.
    pub closed spec fn gpu_wf(&self) -> bool {
        self.gpu.wf()
    }

    /// A bus over the cartridge image `rom`, with cleared RAM and a pixel engine at
    /// power-on.
    pub fn new(rom: Vec<u8>) -> (r: Self)
        ensures
            r.wf(),
            r@ == (MmuView {
                rom: rom@,
                wram: Seq::new(WRAM_SIZE as nat, |i: int| 0u8),
                zram: Seq::new(ZRAM_SIZE as nat, |i: int| 0u8),
                gpu: power_on_state(),
                serial: Serial { data: 0, control: 0 },
            }),
    {
        let r = MMU {
            rom,
            wram: vec![0u8; WRAM_SIZE],
            zram: vec![0u8; ZRAM_SIZE],
            gpu: GPU::new(),
            serial: Serial::new(),
        };
        assert(r@.wram =~= Seq::new(WRAM_SIZE as nat, |i: int| 0u8));
        assert(r@.zram =~= Seq::new(ZRAM_SIZE as nat, |i: int| 0u8));
        r
    }

    /// Hands `cpu_cycles` processor cycles to the pixel engine and returns the frame
    /// it completed meanwhile, if any.
    pub fn run_cycle(&mut self, cpu_cycles: u8) -> (r: Option<Vec<u8>>)
        requires
            old(self).wf(),
        ensures
            final(self).wf(),
            final(self)@ == (MmuView { gpu: after_cycles(old(self)@.gpu, cpu_cycles), ..old(self)@ }),
            frame_view(r) == frame_after_cycles(old(self)@.gpu, cpu_cycles),
    {
        self.gpu.run_cycle(cpu_cycles)
    }

    /// The pixel engine's interrupt flags; bit 0 is a pending vertical blank.
    pub fn interrupt_flags(&self) -> (r: u8)
        ensures
            r == self@.gpu.interrupt,
    {
        self.gpu.interrupt_flags()
    }

    /// Reads the byte at `addr`.
    pub fn read_byte(&mut self, addr: u16) -> (r: Result<u8, MemoryError>)
        requires
            old(self).wf(),
        ensures
            final(self).wf(),
            final(self)@ == old(self)@,
            r == bus_read(old(self)@, addr),
    {
        if addr <= 0x7FFF {
            if (addr as usize) < self.rom.len() {
                Ok(self.rom[addr as usize])
            } else {
                Ok(OPEN_BUS)
            }
        } else if addr <= 0x9FFF {
            Ok(self.gpu.read_video_ram(addr))
        } else if addr <= 0xBFFF {
            Err(MemoryError::CartridgeRamUnsupported(addr))
        } else if addr <= 0xFDFF {
            proof {
                assert(addr & 0x1FFF == addr % 0x2000) by (bit_vector);
            }
            Ok(self.wram[(addr & 0x1FFF) as usize])
        } else if addr <= 0xFE9F {
            Ok(self.gpu.read_oam(addr))
        } else if 0xFF01 <= addr && addr <= 0xFF02 {
            Ok(self.serial.read(addr))
        } else if 0xFF40 <= addr && addr <= 0xFF4B {
            self.gpu.read_control(addr)
        } else if 0xFF80 <= addr {
            proof {
                assert(addr & 0x7F == addr % 0x80) by (bit_vector);
            }
            Ok(self.zram[(addr & 0x7F) as usize])
        } else {
            Ok(OPEN_BUS)
        }
    }

    /// Reads the little-endian word at `addr` and the address after it.
    pub fn read_word(&mut self, addr: u16) -> (r: Result<u16, MemoryError>)
        requires
            old(self).wf(),
        ensures
            final(self).wf(),
            final(self)@ == old(self)@,
            r == word_read(old(self)@, addr),
    {
        let lo = match self.read_byte(addr) {
            Ok(b) => b,
            Err(e) => return Err(e),
        };
        let hi = match self.read_byte(addr.wrapping_add(1)) {
            Ok(b) => b,
            Err(e) => return Err(e),
        };
        Ok((lo as u16) + (hi as u16) * 256)
    }

    /// Writes `value` at `addr`.
    pub fn write_byte(&mut self, addr: u16, value: u8) -> (r: Result<(), MemoryError>)
        requires
            old(self).wf(),
        ensures
            final(self).wf(),
            final(self)@ == bus_written(old(self)@, addr, value),
            r == bus_write_result(addr),
    {
        if addr <= 0x7FFF {
            if (addr as usize) < self.rom.len() {
                self.rom.set(addr as usize, value);
            }
            Ok(())
        } else if addr <= 0x9FFF {
            self.gpu.write_video_ram(addr, value);
            Ok(())
        } else if addr <= 0xBFFF {
            Err(MemoryError::CartridgeRamUnsupported(addr))
        } else if addr <= 0xFDFF {
            proof {
                assert(addr & 0x1FFF == addr % 0x2000) by (bit_vector);
            }
            self.wram.set((addr & 0x1FFF) as usize, value);
            Ok(())
        } else if addr <= 0xFE9F {
            self.gpu.write_oam(addr, value);
            Ok(())
        } else if 0xFF01 <= addr && addr <= 0xFF02 {
            self.serial.write(addr, value);
            Ok(())
        } else if 0xFF40 <= addr && addr <= 0xFF4B {
            self.gpu.write_control(addr, value)
        } else if 0xFF80 <= addr {
            proof {
                assert(addr & 0x7F == addr % 0x80) by (bit_vector);
            }
            self.zram.set((addr & 0x7F) as usize, value);
            Ok(())
        } else {
            Ok(())
        }
    }

    /// Writes the little-endian word `value`: the low byte at `addr`, the high byte
    /// at the address after it.
    pub fn write_word(&mut self, addr: u16, value: u16) -> (r: Result<(), MemoryError>)
        requires
            old(self).wf(),
        ensures
            final(self).wf(),
            final(self)@ == word_written(old(self)@, addr, value),
            r == word_write_result(addr),
    {
        match self.write_byte(addr, (value % 256) as u8) {
            Ok(()) => self.write_byte(addr.wrapping_add(1), (value / 256) as u8),
            Err(e) => Err(e),
        }
    }
}

} // verus!
