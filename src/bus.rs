//! The CPU's view of memory: work RAM, the PPU's registers and program ROM, and
//! the clock that keeps the PPU three cycles ahead for each CPU cycle.
use crate::ppu::{
    after_address_write, after_control_write, after_data_read, after_data_write,
    after_oam_data_write, after_status_read, data_read_value, status_byte, tick_completes_frame,
    tick_spec, Ppu, PpuView,
};
use crate::rom::{Mirroring, Rom};
use vstd::prelude::*;

verus! {

/// Size of work RAM.
pub const WRAM_SIZE: usize = 0x800;

/// CPU cycles that an OAM DMA transfer takes.
pub const OAM_DMA_CYCLES: u16 = 513;

/// Address of the OAM DMA port.
pub const OAM_DMA: u16 = 0x4014;

/// A write the bus refuses.
#[derive(Clone, Copy, Debug, PartialEq, Eq, Structural)]
pub enum BusError {
    /// Program ROM (0x8000-0xFFFF) cannot be written.
    WriteToRom { address: u16 },
}

/// Everything the bus holds, as plain values.
pub struct BusView {
    pub wram: Seq<u8>,
    pub program: Seq<u8>,
    pub ppu: PpuView,
    /// CPU cycles so far, modulo 2^64
    pub cycles: u64,
    /// a frame was completed and not yet taken
    pub frame_ready: bool,
}

impl BusView {
    pub open spec fn wf(self) -> bool {
        &&& self.wram.len() == WRAM_SIZE
        &&& (self.program.len() == 0x4000 || self.program.len() == 0x8000)
        &&& self.ppu.wf()
    }
}

/// The index in program ROM behind an address in 0x8000-0xFFFF: a 16 KiB program
/// appears twice.
pub open spec fn prg_index(len: nat, address: u16) -> int {
    let offset = address - 0x8000;
    if len == 0x4000 { offset % 0x4000 } else { offset }
}

/// The register that an address in 0x2000-0x3FFF selects.
pub open spec fn ppu_register(address: u16) -> u16 {
    (0x2000 + address % 8) as u16
}

/// What a read of `address` returns.
#[verifier::opaque]
pub open spec fn read_value(b: BusView, address: u16) -> u8 {
    if address < 0x2000 {
        b.wram[(address % 0x800) as int]
    } else if address < 0x4000 {
        let reg = ppu_register(address);
        if reg == 0x2002 {
            status_byte(b.ppu)
        } else if reg == 0x2004 {
            b.ppu.oam[b.ppu.oam_addr as int]
        } else if reg == 0x2007 {
            data_read_value(b.ppu)
        } else {
            0
        }
    } else if address >= 0x8000 {
        b.program[prg_index(b.program.len(), address)]
    } else {
        0
    }
}

/// The bus after a read of `address`: only the status and data registers change
/// anything.
#[verifier::opaque]
pub open spec fn after_read(b: BusView, address: u16) -> BusView {
    if 0x2000 <= address < 0x4000 && ppu_register(address) == 0x2002 {
        BusView { ppu: after_status_read(b.ppu), ..b }
    } else if 0x2000 <= address < 0x4000 && ppu_register(address) == 0x2007 {
        BusView { ppu: after_data_read(b.ppu), ..b }
    } else {
        b
    }
}

/// The little-endian word that two reads from `address` return.
#[verifier::opaque]
pub open spec fn read_word_value(b: BusView, address: u16) -> u16 {
    let hi_address = ((address + 1) % 0x10000) as u16;
    (read_value(b, address) + 256 * read_value(after_read(b, address), hi_address)) as u16
}

/// The bus after reading a word from `address`.
#[verifier::opaque]
pub open spec fn after_read_word(b: BusView, address: u16) -> BusView {
    after_read(after_read(b, address), ((address + 1) % 0x10000) as u16)
}

/// What an OAM DMA transfer copies from `address`: work RAM or program ROM; the
/// register windows give 0.
pub open spec fn dma_source(b: BusView, address: int) -> u8 {
    if address < 0x2000 {
        b.wram[(address % 0x800) as int]
    } else if 0x8000 <= address < 0x10000 {
        b.program[prg_index(b.program.len(), address as u16)]
    } else {
        0
    }
}

/// The sprite memory after copying page `page`, starting at the OAM address.
pub open spec fn dma_oam(b: BusView, page: u8) -> Seq<u8> {
    Seq::new(
        0x100,
        |j: int| dma_source(b, page * 256 + (j - b.ppu.oam_addr + 256) % 256),
    )
}

/// The bus after `n` CPU cycles: three PPU cycles each.
pub open spec fn tick_bus(b: BusView, n: int) -> BusView {
    BusView {
        cycles: ((b.cycles + n) % 0x1_0000_0000_0000_0000) as u64,
        ppu: tick_spec(b.ppu, 3 * n),
        frame_ready: b.frame_ready || tick_completes_frame(b.ppu, 3 * n),
        ..b
    }
}

/// The bus after writing `v` to `address`, which lies below 0x8000.
#[verifier::opaque]
pub open spec fn after_write(b: BusView, address: u16, v: u8) -> BusView {
    if address < 0x2000 {
        BusView { wram: b.wram.update((address % 0x800) as int, v), ..b }
    } else if address < 0x4000 {
        let reg = ppu_register(address);
        if reg == 0x2000 {
            BusView { ppu: after_control_write(b.ppu, v), ..b }
        } else if reg == 0x2001 {
            BusView { ppu: PpuView { mask: v, ..b.ppu }, ..b }
        } else if reg == 0x2003 {
            BusView { ppu: PpuView { oam_addr: v, ..b.ppu }, ..b }
        } else if reg == 0x2004 {
            BusView { ppu: after_oam_data_write(b.ppu, v), ..b }
        } else if reg == 0x2005 {
            BusView { ppu: PpuView { scroll: v, ..b.ppu }, ..b }
        } else if reg == 0x2006 {
            BusView { ppu: after_address_write(b.ppu, v), ..b }
        } else if reg == 0x2007 {
            BusView { ppu: after_data_write(b.ppu, v), ..b }
        } else {
            b
        }
    } else if address == OAM_DMA {
        tick_bus(
            BusView { ppu: PpuView { oam: dma_oam(b, v), ..b.ppu }, ..b },
            OAM_DMA_CYCLES as int,
        )
    } else {
        b
    }
}

/// The bus at power-on: work RAM, name tables, palette and sprite memory cleared,
/// every register 0, the cursor at scanline 0, dot 0, and no cycles counted.
pub open spec fn power_on_bus(program: Seq<u8>, chr: Seq<u8>, mirroring: Mirroring) -> BusView {
    BusView {
        wram: Seq::new(0x800, |_i: int| 0u8),
        program,
        ppu: PpuView {
            chr,
            palette: Seq::new(0x20, |_i: int| 0u8),
            vram: Seq::new(0x800, |_i: int| 0u8),
            oam: Seq::new(0x100, |_i: int| 0u8),
            mirroring,
            ctrl: 0,
            mask: 0,
            vblank: false,
            sprite_zero_hit: false,
            sprite_overflow: false,
            oam_addr: 0,
            scroll: 0,
            addr: 0,
            latch_high: true,
            buffer: 0,
            scanline: 0,
            dot: 0,
            nmi: false,
        },
        cycles: 0,
        frame_ready: false,
    }
}

/// The memory bus.
pub struct Bus {
    wram: Vec<u8>,
    ppu: Ppu,
    program: Vec<u8>,
    cycles: u64,
    frame_ready: bool,
}

impl View for Bus {
    type V = BusView;

    closed spec fn view(&self) -> BusView {
        BusView {
            wram: self.wram@,
            program: self.program@,
            ppu: self.ppu@,
            cycles: self.cycles,
            frame_ready: self.frame_ready,
        }
    }
}

impl Bus {
    pub open spec fn wf(&self) -> bool {
        &&& self@.wf()
        &&& self.ppu_wf()
    }

    pub closed spec fn ppu_wf(&self) -> bool {
        self.ppu.wf()
    }

    /// A bus over the cartridge, with cleared work RAM and a fresh PPU.
    pub fn new(rom: &Rom) -> (r: Self)
        requires
            rom.wf(),
        ensures
            r.wf(),
            r@ == power_on_bus(rom.program@, rom.charactor@, rom.mirroring),
    {
        let ppu = Ppu::new(&rom.charactor, rom.mirroring);
        let mut wram: Vec<u8> = Vec::with_capacity(WRAM_SIZE);
        let mut i: usize = 0;
        while i < WRAM_SIZE
            invariant
                i <= WRAM_SIZE,
                wram@ == Seq::new(i as nat, |_i: int| 0u8),
            decreases WRAM_SIZE - i,
        {
            wram.push(0);
            i = i + 1;
            assert(wram@ =~= Seq::new(i as nat, |_i: int| 0u8));
        }
        Bus { wram, ppu, program: rom.program.clone(), cycles: 0, frame_ready: false }
    }

    /// Checks, at run time, what `wf` states.
    pub fn is_well_formed(&self) -> (r: bool)
        ensures
            r == self.wf(),
    {
        self.wram.len() == WRAM_SIZE && (self.program.len() == 0x4000 || self.program.len()
            == 0x8000) && self.ppu.is_well_formed()
    }

    /// The PPU, to be read between instructions (for drawing a frame).
    pub fn ppu(&self) -> (r: &Ppu)
        ensures
            r@ == self@.ppu,
    {
        &self.ppu
    }

    /// CPU cycles counted so far.
    pub fn cycles(&self) -> (r: u64)
        ensures
            r == self@.cycles,
    {
        self.cycles
    }

    /// Counts `cycles` CPU cycles and runs the PPU three cycles for each.
    pub fn tick(&mut self, cycles: u16)
        requires
            old(self).wf(),
        ensures
            final(self).wf(),
            final(self)@ == tick_bus(old(self)@, cycles as int),
    {
        self.cycles = self.cycles.wrapping_add(cycles as u64);
        let frame = self.ppu.tick(cycles as u32 * 3);
        if frame {
            self.frame_ready = true;
        }
    }

    /// Whether a frame was completed since the last call; clears the mark. This is the
    /// frame hook: the host calls it between instructions (from the run loop's
    /// callback) and draws from `ppu()` when it returns true.
    pub fn take_frame(&mut self) -> (r: bool)
        ensures
            r == old(self)@.frame_ready,
            final(self)@ == (BusView { frame_ready: false, ..old(self)@ }),
            final(self).wf() == old(self).wf(),
    {
        let r = self.frame_ready;
        self.frame_ready = false;
        r
    }

    fn read_program_rom_byte(&self, address: u16) -> (r: u8)
        requires
            self.wf(),
            address >= 0x8000,
        ensures
            r == self@.program[prg_index(self@.program.len(), address)],
    {
        let mut offset = address - 0x8000;
        if self.program.len() == 0x4000 && offset >= 0x4000 {
            offset = offset % 0x4000;
        }
        self.program[offset as usize]
    }

    pub fn read_memory_byte(&mut self, address: u16) -> (r: u8)
        requires
            old(self).wf(),
        ensures
            final(self).wf(),
            r == read_value(old(self)@, address),
            final(self)@ == after_read(old(self)@, address),
    {
        reveal(read_value);
        reveal(after_read);
        if address < 0x2000 {
            self.wram[(address % 0x800) as usize]
        } else if address < 0x4000 {
            let reg = 0x2000 + address % 8;
            if reg == 0x2002 {
                self.ppu.read_status()
            } else if reg == 0x2004 {
                self.ppu.read_oam_data()
            } else if reg == 0x2007 {
                self.ppu.read_data()
            } else {
                0
            }
        } else if address >= 0x8000 {
            self.read_program_rom_byte(address)
        } else {
            0
        }
    }

    /// Two reads, low byte first.
    pub fn read_memory_word(&mut self, address: u16) -> (r: u16)
        requires
            old(self).wf(),
        ensures
            final(self).wf(),
            r == read_word_value(old(self)@, address),
            final(self)@ == after_read_word(old(self)@, address),
    {
        reveal(read_word_value);
        reveal(after_read_word);
        let lo = self.read_memory_byte(address);
        let hi = self.read_memory_byte(address.wrapping_add(1));
        lo as u16 + 256 * hi as u16
    }

    /// Copies page `page` into sprite memory, then counts the transfer's cycles.
    fn oam_dma(&mut self, page: u8)
        requires
            old(self).wf(),
        ensures
            final(self).wf(),
            final(self)@ == tick_bus(
                BusView { ppu: PpuView { oam: dma_oam(old(self)@, page), ..old(self)@.ppu }, ..old(self)@ },
                OAM_DMA_CYCLES as int,
            ),
    {
        let ghost start = self@;
        let start_addr = self.ppu.oam_address_value();
        let mut i: u16 = 0;
        while i < 0x100
            invariant
                i <= 0x100,
                self.wf(),
                start.wf(),
                self@ == (BusView { ppu: self@.ppu, ..start }),
                self@.ppu == (PpuView { oam: self@.ppu.oam, oam_addr: self@.ppu.oam_addr, ..start.ppu }),
                start_addr == start.ppu.oam_addr,
                self@.ppu.oam_addr == (start_addr + i) % 256,
                forall|j: int| 0 <= j < i ==> #[trigger] self@.ppu.oam[(start_addr + j) % 256]
                    == dma_source(start, page * 256 + j),
                forall|k: int| 0 <= k < 256 && (k - start_addr + 256) % 256 >= i
                    ==> #[trigger] self@.ppu.oam[k] == start.ppu.oam[k],
            decreases 0x100 - i,
        {
            let address: u16 = page as u16 * 256 + i;
            let value = self.dma_read(address);
            self.ppu.write_to_oam_data(value);
            i = i + 1;
        }
        assert(self@.ppu.oam =~= dma_oam(start, page)) by {
            assert forall|k: int| 0 <= k < 256 implies #[trigger] self@.ppu.oam[k] == dma_oam(
                start,
                page,
            )[k] by {
                let j = (k - start_addr + 256) % 256;
                assert((start_addr + j) % 256 == k);
            }
        }
        self.tick(OAM_DMA_CYCLES);
    }

    /// What the DMA unit reads from `address`, without side effects.
    fn dma_read(&self, address: u16) -> (r: u8)
        requires
            self.wf(),
        ensures
            r == dma_source(self@, address as int),
    {
        if address < 0x2000 {
            self.wram[(address % 0x800) as usize]
        } else if address >= 0x8000 {
            self.read_program_rom_byte(address)
        } else {
            0
        }
    }

    /// Writes one byte; program ROM refuses it.
    pub fn write_memory_byte(&mut self, address: u16, value: u8) -> (r: Result<(), BusError>)
        requires
            old(self).wf(),
        ensures
            final(self).wf(),
            address >= 0x8000 ==> r == Err::<(), BusError>(BusError::WriteToRom { address })
                && final(self)@ == old(self)@,
            address < 0x8000 ==> r is Ok && final(self)@ == after_write(old(self)@, address, value),
    {
        reveal(after_write);
        if address < 0x2000 {
            self.wram[(address % 0x800) as usize] = value;
        } else if address < 0x4000 {
            let reg = 0x2000 + address % 8;
            if reg == 0x2000 {
                self.ppu.write_to_control(value);
            } else if reg == 0x2001 {
                self.ppu.write_to_mask(value);
            } else if reg == 0x2003 {
                self.ppu.write_to_oam_address(value);
            } else if reg == 0x2004 {
                self.ppu.write_to_oam_data(value);
            } else if reg == 0x2005 {
                self.ppu.write_to_scroll(value);
            } else if reg == 0x2006 {
                self.ppu.write_to_ppu_address(value);
            } else if reg == 0x2007 {
                self.ppu.write_to_data(value);
            }
        } else if address == OAM_DMA {
            self.oam_dma(value);
        } else if address >= 0x8000 {
            return Err(BusError::WriteToRom { address });
        }
        Ok(())
    }

    /// Two writes, low byte first.
    pub fn write_memory_word(&mut self, address: u16, value: u16) -> (r: Result<(), BusError>)
        requires
            old(self).wf(),
        ensures
            final(self).wf(),
            ({
                let hi_address = ((address + 1) % 0x10000) as u16;
                let lo = (value % 256) as u8;
                let hi = (value / 256) as u8;
                if address >= 0x8000 {
                    r == Err::<(), BusError>(BusError::WriteToRom { address })
                        && final(self)@ == old(self)@
                } else if hi_address >= 0x8000 {
                    r == Err::<(), BusError>(BusError::WriteToRom { address: hi_address })
                        && final(self)@ == after_write(old(self)@, address, lo)
                } else {
                    r is Ok && final(self)@ == after_write(
                        after_write(old(self)@, address, lo),
                        hi_address,
                        hi,
                    )
                }
            }),
    {
        let lo = (value % 256) as u8;
        let hi = (value / 256) as u8;
        let r = self.write_memory_byte(address, lo);
        if r.is_err() {
            return r;
        }
        self.write_memory_byte(address.wrapping_add(1), hi)
    }

    /// Returns the PPU's NMI latch and clears it.
    pub fn poll_nmi_status(&mut self) -> (r: bool)
        requires
            old(self).wf(),
        ensures
            final(self).wf(),
            r == old(self)@.ppu.nmi,
            final(self)@ == (BusView {
                ppu: PpuView { nmi: false, ..old(self)@.ppu },
                ..old(self)@
            }),
    {
        self.ppu.poll_nmi_status()
    }
}


/// Work RAM appears four times: a byte written anywhere in 0x0000-0x1FFF reads back
/// at every address with the same offset modulo 0x800.
pub proof fn lemma_wram_mirror(b: BusView, a: u16, a2: u16, v: u8)
    requires
        b.wf(),
        a < 0x2000,
        a2 < 0x2000,
        a % 0x800 == a2 % 0x800,
    ensures
        read_value(after_write(b, a, v), a2) == v,
{
    reveal(read_value);
    reveal(after_write);
}

/// The eight PPU registers repeat through 0x2000-0x3FFF: an access anywhere there
/// is an access to 0x2000 + (address mod 8).
pub proof fn lemma_ppu_register_mirror(b: BusView, a: u16, v: u8)
    requires
        0x2000 <= a < 0x4000,
    ensures
        read_value(b, a) == read_value(b, ppu_register(a)),
        after_read(b, a) == after_read(b, ppu_register(a)),
        after_write(b, a, v) == after_write(b, ppu_register(a), v),
{
    reveal(read_value);
    reveal(after_read);
    reveal(after_write);
}

/// A 16 KiB program appears twice: 0xC000-0xFFFF reads as 0x8000-0xBFFF.
pub proof fn lemma_program_mirror(b: BusView, a: u16)
    requires
        b.wf(),
        b.program.len() == 0x4000,
        0xc000 <= a,
    ensures
        read_value(b, a) == read_value(b, (a - 0x4000) as u16),
        after_read(b, a) == after_read(b, (a - 0x4000) as u16),
{
    reveal(read_value);
    reveal(after_read);
}

/// Reading work RAM returns the stored byte and changes nothing.
pub proof fn lemma_wram_read(b: BusView, a: u16)
    requires
        a < 0x2000,
    ensures
        read_value(b, a) == b.wram[(a % 0x800) as int],
        after_read(b, a) == b,
{
    reveal(read_value);
    reveal(after_read);
}

/// Writing work RAM changes that byte alone.
pub proof fn lemma_wram_write(b: BusView, a: u16, v: u8)
    requires
        a < 0x2000,
    ensures
        after_write(b, a, v) == (BusView { wram: b.wram.update((a % 0x800) as int, v), ..b }),
{
    reveal(after_write);
}

/// Reads leave work RAM, the program and the cycle count as they are.
pub broadcast proof fn lemma_read_keeps_memory(b: BusView, a: u16)
    ensures
        #![trigger after_read(b, a)]
        after_read(b, a).wram == b.wram,
        after_read(b, a).program == b.program,
        after_read(b, a).cycles == b.cycles,
{
    reveal(after_read);
}

/// Writes below 0x8000 other than to the DMA port leave the cycle count alone.
pub broadcast proof fn lemma_write_keeps_cycles(b: BusView, a: u16, v: u8)
    requires
        a != OAM_DMA,
    ensures
        #![trigger after_write(b, a, v)]
        after_write(b, a, v).cycles == b.cycles,
{
    reveal(after_write);
}

/// Word reads are two byte reads.
pub broadcast proof fn lemma_read_word_keeps_memory(b: BusView, a: u16)
    ensures
        #![trigger after_read_word(b, a)]
        after_read_word(b, a).wram == b.wram,
        after_read_word(b, a).program == b.program,
        after_read_word(b, a).cycles == b.cycles,
{
    reveal(after_read_word);
    lemma_read_keeps_memory(b, a);
    lemma_read_keeps_memory(after_read(b, a), ((a + 1) % 0x10000) as u16);
}

/// Reading program ROM returns its byte and changes nothing.
pub proof fn lemma_rom_read(b: BusView, a: u16)
    requires
        a >= 0x8000,
    ensures
        read_value(b, a) == b.program[prg_index(b.program.len(), a)],
        after_read(b, a) == b,
{
    reveal(read_value);
    reveal(after_read);
}

} // verus!
