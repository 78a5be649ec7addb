//! The picture-processing unit: its memory, its registers and the scanline clock
//! that raises the vertical-blank interrupt.
use crate::rom::Mirroring;
use vstd::prelude::*;

verus! {

/// PPU cycles per scanline.
pub const DOTS_PER_SCANLINE: u16 = 341;

/// Scanlines per frame.
pub const SCANLINES_PER_FRAME: u16 = 262;

/// The scanline at which vertical blank begins.
pub const VBLANK_SCANLINE: u16 = 241;

/// Everything the PPU holds, as plain values.
pub struct PpuView {
    /// pattern tables, 0x0000-0x1FFF
    pub chr: Seq<u8>,
    /// 32 palette bytes, 0x3F00-0x3F1F
    pub palette: Seq<u8>,
    /// 2 KiB of name-table memory
    pub vram: Seq<u8>,
    /// 256 bytes of sprite memory
    pub oam: Seq<u8>,
    pub mirroring: Mirroring,
    /// the control register as last written
    pub ctrl: u8,
    pub mask: u8,
    pub vblank: bool,
    pub sprite_zero_hit: bool,
    pub sprite_overflow: bool,
    pub oam_addr: u8,
    pub scroll: u8,
    /// the 14-bit address that 0x2007 reads and writes
    pub addr: u16,
    /// whether the next write to 0x2006 sets the high byte
    pub latch_high: bool,
    /// the read buffer of 0x2007
    pub buffer: u8,
    pub scanline: u16,
    pub dot: u16,
    /// the NMI latch
    pub nmi: bool,
}

impl PpuView {
    pub open spec fn wf(self) -> bool {
        &&& self.chr.len() == 0x2000
        &&& self.palette.len() == 0x20
        &&& self.vram.len() == 0x800
        &&& self.oam.len() == 0x100
        &&& self.addr < 0x4000
        &&& self.scanline < SCANLINES_PER_FRAME
        &&& self.dot < DOTS_PER_SCANLINE
    }
}

/// The index in name-table memory that a PPU address selects. The address is taken
/// modulo 0x1000, which maps 0x2000-0x2FFF and its mirror 0x3000-0x3EFF alike; the
/// four logical tables then fold onto two.
pub open spec fn mirror_spec(mirroring: Mirroring, address: u16) -> u16 {
    let index = address % 0x1000;
    let table = index / 0x400;
    match mirroring {
        Mirroring::Vertical => if table >= 2 { (index - 0x800) as u16 } else { index },
        Mirroring::Horizontal => if table == 0 {
            index
        } else if table == 3 {
            (index - 0x800) as u16
        } else {
            (index - 0x400) as u16
        },
        Mirroring::FourScreen => index % 0x800,
    }
}

/// The palette byte a PPU address selects: modulo 0x20, with 0x10, 0x14, 0x18 and
/// 0x1C aliasing 0x00, 0x04, 0x08 and 0x0C.
pub open spec fn palette_index_spec(address: u16) -> int {
    let i = address % 0x20;
    if i >= 0x10 && i % 4 == 0 { i - 0x10 } else { i as int }
}

/// How far 0x2007 moves the address: 32 when control bit 2 is set, else 1.
pub open spec fn stride_of(ctrl: u8) -> u16 {
    if ctrl & 0x04 == 0 { 1 } else { 32 }
}

/// Whether the control byte asks for an NMI at vertical blank (bit 7).
pub open spec fn generates_nmi(ctrl: u8) -> bool {
    ctrl & 0x80 == 0x80
}

/// The status byte: bit 7 vertical blank, bit 6 sprite-zero hit, bit 5 overflow.
pub open spec fn status_byte(v: PpuView) -> u8 {
    ((if v.vblank { 0x80int } else { 0 }) + (if v.sprite_zero_hit { 0x40int } else { 0 }) + (
    if v.sprite_overflow { 0x20int } else { 0 })) as u8
}

/// The address after one access through 0x2007.
pub open spec fn next_address(v: PpuView) -> u16 {
    ((v.addr + stride_of(v.ctrl)) % 0x4000) as u16
}

/// The byte of character or name-table memory behind the current address.
pub open spec fn underlying_byte(v: PpuView) -> u8 {
    if v.addr < 0x2000 {
        v.chr[v.addr as int]
    } else {
        v.vram[mirror_spec(v.mirroring, v.addr) as int]
    }
}

/// What a read of 0x2007 returns: the palette byte itself in the palette range,
/// else the buffered byte.
pub open spec fn data_read_value(v: PpuView) -> u8 {
    if v.addr >= 0x3f00 {
        v.palette[palette_index_spec(v.addr)]
    } else {
        v.buffer
    }
}

/// The PPU after a read of 0x2007: the buffer refilled, the address advanced.
pub open spec fn after_data_read(v: PpuView) -> PpuView {
    PpuView { buffer: underlying_byte(v), addr: next_address(v), ..v }
}

/// The PPU after writing `d` through 0x2007.
pub open spec fn after_data_write(v: PpuView, d: u8) -> PpuView {
    let a = v.addr;
    let w = PpuView { addr: next_address(v), ..v };
    if a < 0x2000 {
        PpuView { chr: v.chr.update(a as int, d), ..w }
    } else if a < 0x3f00 {
        PpuView { vram: v.vram.update(mirror_spec(v.mirroring, a) as int, d), ..w }
    } else {
        PpuView { palette: v.palette.update(palette_index_spec(a), d), ..w }
    }
}

/// The PPU after writing `d` to 0x2006.
pub open spec fn after_address_write(v: PpuView, d: u8) -> PpuView {
    let addr = if v.latch_high {
        (d % 64) * 256 + v.addr % 256
    } else {
        (v.addr / 256) * 256 + d
    };
    PpuView { addr: addr as u16, latch_high: !v.latch_high, ..v }
}

/// The PPU after writing `d` to the control register: enabling NMI during vertical
/// blank raises the latch at once.
pub open spec fn after_control_write(v: PpuView, d: u8) -> PpuView {
    PpuView {
        ctrl: d,
        nmi: v.nmi || (!generates_nmi(v.ctrl) && generates_nmi(d) && v.vblank),
        ..v
    }
}

/// The PPU after a read of the status register.
pub open spec fn after_status_read(v: PpuView) -> PpuView {
    PpuView { vblank: false, latch_high: true, ..v }
}

/// The PPU after writing `d` to OAM data: stored at the OAM address, which moves on.
pub open spec fn after_oam_data_write(v: PpuView, d: u8) -> PpuView {
    PpuView {
        oam: v.oam.update(v.oam_addr as int, d),
        oam_addr: ((v.oam_addr + 1) % 256) as u8,
        ..v
    }
}

/// The PPU after the dot counter passes the end of one scanline.
pub open spec fn next_line(v: PpuView) -> PpuView {
    let s = v.scanline + 1;
    if s == VBLANK_SCANLINE {
        PpuView { scanline: s as u16, vblank: true, nmi: v.nmi || generates_nmi(v.ctrl), ..v }
    } else if s == SCANLINES_PER_FRAME {
        PpuView { scanline: 0, vblank: false, sprite_zero_hit: false, nmi: false, ..v }
    } else {
        PpuView { scanline: s as u16, ..v }
    }
}

/// The PPU after `n` scanlines have ended.
pub open spec fn lines_after(v: PpuView, n: nat) -> PpuView
    decreases n,
{
    if n == 0 {
        v
    } else {
        next_line(lines_after(v, (n - 1) as nat))
    }
}

/// The PPU after `k` PPU cycles.
#[verifier::opaque]
pub open spec fn tick_spec(v: PpuView, k: int) -> PpuView {
    let total = v.dot + k;
    lines_after(PpuView { dot: (total % 341) as u16, ..v }, (total / 341) as nat)
}

/// Whether `k` PPU cycles from `v` complete a frame.
pub open spec fn tick_completes_frame(v: PpuView, k: int) -> bool {
    v.scanline + (v.dot + k) / 341 >= SCANLINES_PER_FRAME
}

/// The address written through 0x2006, high byte first.
pub struct AddressRegister {
    value_high: u8,
    value_low: u8,
    /// next write sets the high byte
    hi_ptr: bool,
}

impl AddressRegister {
    pub closed spec fn address(&self) -> u16 {
        (self.value_high * 256 + self.value_low) as u16
    }

    pub closed spec fn latch_high(&self) -> bool {
        self.hi_ptr
    }

    pub closed spec fn wf(&self) -> bool {
        self.value_high < 64
    }

    pub fn new() -> (r: Self)
        ensures
            r.wf(),
            r.address() == 0,
            r.latch_high(),
    {
        AddressRegister { value_high: 0, value_low: 0, hi_ptr: true }
    }

    fn set(&mut self, data: u16)
        requires
            data < 0x4000,
        ensures
            final(self).wf(),
            final(self).address() == data,
            final(self).latch_high() == old(self).latch_high(),
    {
        self.value_high = (data / 256) as u8;
        self.value_low = (data % 256) as u8;
    }

    /// Writes one byte: the high six bits or the low byte, by turns.
    pub fn update(&mut self, data: u8)
        requires
            old(self).wf(),
        ensures
            final(self).wf(),
            final(self).latch_high() == !old(self).latch_high(),
            final(self).address() == (if old(self).latch_high() {
                (data % 64) * 256 + old(self).address() % 256
            } else {
                (old(self).address() / 256) * 256 + data
            }),
    {
        if self.hi_ptr {
            self.value_high = data % 64;
        } else {
            self.value_low = data;
        }
        self.hi_ptr = !self.hi_ptr;
    }

    /// Moves the address on by `inc`, within the 14-bit space.
    pub fn increment(&mut self, inc: u8)
        requires
            old(self).wf(),
        ensures
            final(self).wf(),
            final(self).latch_high() == old(self).latch_high(),
            final(self).address() == (old(self).address() + inc) % 0x4000,
    {
        let next: u16 = (self.get() + inc as u16) % 0x4000;
        self.set(next);
    }

    pub fn reset_latch(&mut self)
        ensures
            final(self).latch_high(),
            final(self).address() == old(self).address(),
            final(self).wf() == old(self).wf(),
    {
        self.hi_ptr = true;
    }

    pub fn get(&self) -> (r: u16)
        requires
            self.wf(),
        ensures
            r == self.address(),
            r < 0x4000,
    {
        self.value_high as u16 * 256 + self.value_low as u16
    }
}

impl Default for AddressRegister {
    fn default() -> (r: Self)
        ensures
            r.wf(),
            r.address() == 0,
            r.latch_high(),
    {
        AddressRegister::new()
    }
}

/// The control register (0x2000).
pub struct ControlRegister {
    bits: u8,
}

impl ControlRegister {
    pub closed spec fn value(&self) -> u8 {
        self.bits
    }

    pub fn new() -> (r: Self)
        ensures
            r.value() == 0,
    {
        ControlRegister { bits: 0 }
    }

    /// 1, or 32 when bit 2 is set.
    pub fn vram_address_increment(&self) -> (r: u8)
        ensures
            r == stride_of(self.value()),
    {
        if self.bits & 0x04 == 0 {
            1
        } else {
            32
        }
    }

    pub fn update(&mut self, data: u8)
        ensures
            final(self).value() == data,
    {
        self.bits = data;
    }

    pub fn read(&self) -> (r: u8)
        ensures
            r == self.value(),
    {
        self.bits
    }

    pub fn read_generate_nmi(&self) -> (r: bool)
        ensures
            r == generates_nmi(self.value()),
    {
        self.bits & 0x80 == 0x80
    }
}

/// The status register (0x2002).
pub struct StatusRegister {
    sprite_overflow: bool,
    sprite_0_hit: bool,
    vertical_blank: bool,
}

impl StatusRegister {
    fn new() -> (r: Self)
        ensures
            !r.sprite_overflow,
            !r.sprite_0_hit,
            !r.vertical_blank,
    {
        StatusRegister { sprite_overflow: false, sprite_0_hit: false, vertical_blank: false }
    }

    fn is_vertical_blank(&self) -> (r: bool)
        ensures
            r == self.vertical_blank,
    {
        self.vertical_blank
    }

    fn set_vertical_blank(&mut self)
        ensures
            *final(self) == (StatusRegister { vertical_blank: true, ..*old(self) }),
    {
        self.vertical_blank = true;
    }

    fn reset_vertical_blank(&mut self)
        ensures
            *final(self) == (StatusRegister { vertical_blank: false, ..*old(self) }),
    {
        self.vertical_blank = false;
    }

    fn bits(&self) -> (r: u8)
        ensures
            r == ((if self.vertical_blank { 0x80int } else { 0 }) + (if self.sprite_0_hit {
                0x40int
            } else {
                0
            }) + (if self.sprite_overflow { 0x20int } else { 0 })) as u8,
    {
        let mut r: u8 = 0;
        if self.vertical_blank {
            r = r + 0x80;
        }
        if self.sprite_0_hit {
            r = r + 0x40;
        }
        if self.sprite_overflow {
            r = r + 0x20;
        }
        r
    }
}

/// The picture-processing unit.
pub struct Ppu {
    charactor_rom: Vec<u8>,
    palette_table: Vec<u8>,
    vram: Vec<u8>,
    oam_data: Vec<u8>,
    mirroring: Mirroring,
    control: ControlRegister,
    mask: u8,
    status: StatusRegister,
    oam_address: u8,
    scroll: u8,
    address: AddressRegister,
    internal_data_buf: u8,
    scanline: u16,
    cycles: u16,
    nmi_interrupt: bool,
}

impl View for Ppu {
    type V = PpuView;

    closed spec fn view(&self) -> PpuView {
        PpuView {
            chr: self.charactor_rom@,
            palette: self.palette_table@,
            vram: self.vram@,
            oam: self.oam_data@,
            mirroring: self.mirroring,
            ctrl: self.control.bits,
            mask: self.mask,
            vblank: self.status.vertical_blank,
            sprite_zero_hit: self.status.sprite_0_hit,
            sprite_overflow: self.status.sprite_overflow,
            oam_addr: self.oam_address,
            scroll: self.scroll,
            addr: self.address.address(),
            latch_high: self.address.hi_ptr,
            buffer: self.internal_data_buf,
            scanline: self.scanline,
            dot: self.cycles,
            nmi: self.nmi_interrupt,
        }
    }
}

/// A vector of `n` zero bytes.
fn zeroes(n: usize) -> (r: Vec<u8>)
    ensures
        r@ == Seq::new(n as nat, |_i: int| 0u8),
{
    let mut v: Vec<u8> = Vec::with_capacity(n);
    let mut i: usize = 0;
    while i < n
        invariant
            i <= n,
            v@ == Seq::new(i as nat, |_i: int| 0u8),
        decreases n - i,
    {
        v.push(0);
        i = i + 1;
        assert(v@ =~= Seq::new(i as nat, |_i: int| 0u8));
    }
    v
}

impl Ppu {
    pub open spec fn wf(&self) -> bool {
        &&& self@.wf()
        &&& self.registers_wf()
    }

    pub closed spec fn registers_wf(&self) -> bool {
        self.address.wf()
    }

    /// A PPU at scanline 0, dot 0, with cleared memories and registers.
    pub fn new(chr_rom_data: &Vec<u8>, mirroring: Mirroring) -> (r: Ppu)
        requires
            chr_rom_data@.len() == 0x2000,
        ensures
            r.wf(),
            r@.chr == chr_rom_data@,
            r@.mirroring == mirroring,
            r@.palette == Seq::new(0x20, |_i: int| 0u8),
            r@.vram == Seq::new(0x800, |_i: int| 0u8),
            r@.oam == Seq::new(0x100, |_i: int| 0u8),
            r@.ctrl == 0,
            r@.mask == 0,
            !r@.vblank,
            !r@.sprite_zero_hit,
            !r@.sprite_overflow,
            r@.oam_addr == 0,
            r@.scroll == 0,
            r@.addr == 0,
            r@.latch_high,
            r@.buffer == 0,
            r@.scanline == 0,
            r@.dot == 0,
            !r@.nmi,
    {
        Ppu {
            charactor_rom: chr_rom_data.clone(),
            palette_table: zeroes(0x20),
            vram: zeroes(0x800),
            oam_data: zeroes(0x100),
            mirroring,
            control: ControlRegister::new(),
            mask: 0,
            status: StatusRegister::new(),
            oam_address: 0,
            scroll: 0,
            address: AddressRegister::new(),
            internal_data_buf: 0,
            scanline: 0,
            cycles: 0,
            nmi_interrupt: false,
        }
    }

    /// Checks, at run time, what `wf` states.
    pub fn is_well_formed(&self) -> (r: bool)
        ensures
            r == self.wf(),
    {
        self.charactor_rom.len() == 0x2000 && self.palette_table.len() == 0x20
            && self.vram.len() == 0x800 && self.oam_data.len() == 0x100
            && self.address.value_high < 64 && self.scanline < SCANLINES_PER_FRAME
            && self.cycles < DOTS_PER_SCANLINE
    }

    /// Ends one scanline.
    fn advance_scanline(&mut self)
        requires
            old(self).wf(),
        ensures
            final(self).wf(),
            final(self)@ == next_line(old(self)@),
    {
        self.scanline = self.scanline + 1;
        if self.scanline == VBLANK_SCANLINE {
            self.status.set_vertical_blank();
            if self.control.read_generate_nmi() {
                self.nmi_interrupt = true;
            }
        } else if self.scanline == SCANLINES_PER_FRAME {
            self.scanline = 0;
            self.nmi_interrupt = false;
            self.status.reset_vertical_blank();
            self.status.sprite_0_hit = false;
        }
    }

    /// Advances the clock by `cycles` PPU cycles; true when a frame was completed.
    pub fn tick(&mut self, cycles: u32) -> (r: bool)
        requires
            old(self).wf(),
        ensures
            final(self).wf(),
            final(self)@ == tick_spec(old(self)@, cycles as int),
            r == tick_completes_frame(old(self)@, cycles as int),
    {
        reveal(tick_spec);
        let total: u64 = self.cycles as u64 + cycles as u64;
        let lines: u64 = total / 341;
        let start_scanline = self.scanline;
        self.cycles = (total % 341) as u16;
        let ghost start = self@;
        let mut i: u64 = 0;
        while i < lines
            invariant
                i <= lines,
                self.wf(),
                self@ == lines_after(start, i as nat),
            decreases lines - i,
        {
            self.advance_scanline();
            i = i + 1;
        }
        start_scanline as u64 + lines >= SCANLINES_PER_FRAME as u64
    }

    /// Returns the NMI latch and clears it.
    pub fn poll_nmi_status(&mut self) -> (r: bool)
        ensures
            r == old(self)@.nmi,
            final(self)@ == (PpuView { nmi: false, ..old(self)@ }),
            final(self).wf() == old(self).wf(),
    {
        let r = self.nmi_interrupt;
        self.nmi_interrupt = false;
        r
    }

    /// The NMI latch, left as it is.
    pub fn poll_nmi_interrupt(&self) -> (r: bool)
        ensures
            r == self@.nmi,
    {
        self.nmi_interrupt
    }

    pub fn write_to_ppu_address(&mut self, value: u8)
        requires
            old(self).wf(),
        ensures
            final(self).wf(),
            final(self)@ == after_address_write(old(self)@, value),
    {
        self.address.update(value);
    }

    pub fn write_to_control(&mut self, value: u8)
        ensures
            final(self).wf() == old(self).wf(),
            final(self)@ == after_control_write(old(self)@, value),
    {
        let before_nmi_status = self.control.read_generate_nmi();
        self.control.update(value);
        if !before_nmi_status && self.control.read_generate_nmi()
            && self.status.is_vertical_blank() {
            self.nmi_interrupt = true;
        }
    }

    pub fn write_to_mask(&mut self, value: u8)
        ensures
            final(self).wf() == old(self).wf(),
            final(self)@ == (PpuView { mask: value, ..old(self)@ }),
    {
        self.mask = value;
    }

    pub fn write_to_oam_address(&mut self, value: u8)
        ensures
            final(self).wf() == old(self).wf(),
            final(self)@ == (PpuView { oam_addr: value, ..old(self)@ }),
    {
        self.oam_address = value;
    }

    pub fn write_to_oam_data(&mut self, value: u8)
        requires
            old(self).wf(),
        ensures
            final(self).wf(),
            final(self)@ == after_oam_data_write(old(self)@, value),
    {
        self.oam_data[self.oam_address as usize] = value;
        self.oam_address = self.oam_address.wrapping_add(1);
    }

    pub fn read_oam_data(&self) -> (r: u8)
        requires
            self.wf(),
        ensures
            r == self@.oam[self@.oam_addr as int],
    {
        self.oam_data[self.oam_address as usize]
    }

    pub fn write_to_scroll(&mut self, value: u8)
        ensures
            final(self).wf() == old(self).wf(),
            final(self)@ == (PpuView { scroll: value, ..old(self)@ }),
    {
        self.scroll = value;
    }

    /// Reads the status register: vertical blank is cleared and the address latch
    /// goes back to the high byte.
    pub fn read_status(&mut self) -> (r: u8)
        ensures
            r == status_byte(old(self)@),
            final(self).wf() == old(self).wf(),
            final(self)@ == after_status_read(old(self)@),
    {
        let r = self.status.bits();
        self.status.reset_vertical_blank();
        self.address.reset_latch();
        r
    }

    /// Writes through 0x2007 at the current address, which then moves on.
    pub fn write_to_data(&mut self, value: u8)
        requires
            old(self).wf(),
        ensures
            final(self).wf(),
            final(self)@ == after_data_write(old(self)@, value),
    {
        let address = self.address.get();
        self.increment_vram_address();
        if address < 0x2000 {
            self.charactor_rom[address as usize] = value;
        } else if address < 0x3f00 {
            let i = self.mirror_vram_address(address);
            self.vram[i as usize] = value;
        } else {
            let i = palette_index(address);
            self.palette_table[i] = value;
        }
    }

    fn increment_vram_address(&mut self)
        requires
            old(self).wf(),
        ensures
            final(self).wf(),
            final(self)@ == (PpuView { addr: next_address(old(self)@), ..old(self)@ }),
    {
        let inc = self.control.vram_address_increment();
        self.address.increment(inc);
    }

    /// Reads through 0x2007: the buffered byte, or the palette byte itself in the
    /// palette range; the buffer is refilled and the address moves on.
    pub fn read_data(&mut self) -> (r: u8)
        requires
            old(self).wf(),
        ensures
            final(self).wf(),
            r == data_read_value(old(self)@),
            final(self)@ == after_data_read(old(self)@),
    {
        let address = self.address.get();
        self.increment_vram_address();
        if address < 0x2000 {
            let result = self.internal_data_buf;
            self.internal_data_buf = self.charactor_rom[address as usize];
            result
        } else if address < 0x3f00 {
            let result = self.internal_data_buf;
            let i = self.mirror_vram_address(address);
            self.internal_data_buf = self.vram[i as usize];
            result
        } else {
            let i = self.mirror_vram_address(address);
            self.internal_data_buf = self.vram[i as usize];
            self.palette_table[palette_index(address)]
        }
    }

    /// The index in name-table memory behind a PPU address.
    pub fn mirror_vram_address(&self, address: u16) -> (r: u16)
        ensures
            r == mirror_spec(self@.mirroring, address),
            r < 0x800,
    {
        let index = address % 0x1000;
        let name_table = index / 0x400;
        match self.mirroring {
            Mirroring::Vertical => if name_table >= 2 { index - 0x800 } else { index },
            Mirroring::Horizontal => if name_table == 0 {
                index
            } else if name_table == 3 {
                index - 0x800
            } else {
                index - 0x400
            },
            Mirroring::FourScreen => index % 0x800,
        }
    }

    /// 0x1000 when control bit 4 selects the upper pattern table, else 0.
    pub fn read_background_pattern_address(&self) -> (r: u16)
        ensures
            r == (if self@.ctrl & 0x10 == 0x10 { 0x1000u16 } else { 0u16 }),
    {
        if self.control.bits & 0x10 == 0x10 {
            0x1000
        } else {
            0x0000
        }
    }

    /// The control register as last written.
    pub fn control(&self) -> (r: u8)
        ensures
            r == self@.ctrl,
    {
        self.control.read()
    }

    /// The mask register as last written.
    pub fn mask(&self) -> (r: u8)
        ensures
            r == self@.mask,
    {
        self.mask
    }

    pub fn character_rom(&self) -> (r: &Vec<u8>)
        ensures
            r@ == self@.chr,
    {
        &self.charactor_rom
    }

    pub fn vram(&self) -> (r: &Vec<u8>)
        ensures
            r@ == self@.vram,
    {
        &self.vram
    }

    pub fn palette(&self) -> (r: &Vec<u8>)
        ensures
            r@ == self@.palette,
    {
        &self.palette_table
    }

    pub fn oam(&self) -> (r: &Vec<u8>)
        ensures
            r@ == self@.oam,
    {
        &self.oam_data
    }

    /// The OAM address register.
    pub fn oam_address_value(&self) -> (r: u8)
        ensures
            r == self@.oam_addr,
    {
        self.oam_address
    }

    /// The current scanline and dot.
    pub fn position(&self) -> (r: (u16, u16))
        ensures
            r == (self@.scanline, self@.dot),
    {
        (self.scanline, self.cycles)
    }
}

/// The index in palette memory behind a PPU address.
pub fn palette_index(address: u16) -> (r: usize)
    ensures
        r == palette_index_spec(address),
        r < 0x20,
{
    let i = (address % 0x20) as usize;
    if i >= 0x10 && i % 4 == 0 {
        i - 0x10
    } else {
        i
    }
}


/// Ending scanlines keeps the cursor in range.
pub proof fn lemma_lines_keep_cursor(v: PpuView, n: nat)
    requires
        v.wf(),
    ensures
        lines_after(v, n).wf(),
        lines_after(v, n).ctrl == v.ctrl,
        lines_after(v, n).dot == v.dot,
        lines_after(v, n).scanline == (v.scanline + n) % 262,
    decreases n,
{
    if n > 0 {
        lemma_lines_keep_cursor(v, (n - 1) as nat);
        vstd::arithmetic::div_mod::lemma_add_mod_noop(v.scanline + n - 1, 1, 262);
    }
}

/// Whatever number of cycles the PPU is advanced by, its cursor stays within
/// `dot < 341` and `scanline < 262`, and moves on by exactly that many dots around
/// the 262 * 341 dots of a frame.
pub proof fn lemma_tick_keeps_cursor(v: PpuView, k: int)
    requires
        v.wf(),
        k >= 0,
    ensures
        tick_spec(v, k).dot < 341,
        tick_spec(v, k).scanline < 262,
        tick_spec(v, k).wf(),
        tick_spec(v, k).scanline * 341 + tick_spec(v, k).dot == (v.scanline * 341 + v.dot + k)
            % (262 * 341int),
{
    reveal(tick_spec);
    let total = v.dot + k;
    let q = total / 341;
    let r = total % 341;
    lemma_lines_keep_cursor(PpuView { dot: r as u16, ..v }, q as nat);
    let t = v.scanline + q;
    let m = t / 262;
    let sl = t % 262;
    assert(v.scanline * 341 + total == m * (262 * 341) + (sl * 341 + r)) by (nonlinear_arith)
        requires
            total == q * 341 + r,
            t == v.scanline + q,
            t == m * 262 + sl,
    ;
    assert(sl * 341 + r < 262 * 341) by (nonlinear_arith)
        requires
            0 <= sl < 262,
            0 <= r < 341,
    ;
    vstd::arithmetic::div_mod::lemma_fundamental_div_mod_converse(
        v.scanline * 341 + total,
        262 * 341int,
        m,
        sl * 341 + r,
    );
}

/// The PPU after accesses through 0x2007, in order: `Some(d)` writes `d`, `None`
/// reads.
pub open spec fn data_accesses(v: PpuView, ops: Seq<Option<u8>>) -> PpuView
    decreases ops.len(),
{
    if ops.len() == 0 {
        v
    } else {
        let w = data_accesses(v, ops.drop_last());
        match ops.last() {
            Some(d) => after_data_write(w, d),
            None => after_data_read(w),
        }
    }
}

/// Each access through 0x2007 moves the address on by the stride, and none changes
/// the control register.
pub proof fn lemma_data_accesses_advance(v: PpuView, ops: Seq<Option<u8>>)
    requires
        v.addr < 0x4000,
        stride_of(v.ctrl) == 1,
    ensures
        data_accesses(v, ops).addr == (v.addr + ops.len()) % 0x4000,
        data_accesses(v, ops).ctrl == v.ctrl,
    decreases ops.len(),
{
    if ops.len() > 0 {
        let rest = ops.drop_last();
        lemma_data_accesses_advance(v, rest);
        let w = data_accesses(v, rest);
        vstd::arithmetic::div_mod::lemma_add_mod_noop(v.addr + rest.len(), 1, 0x4000);
        assert(w.addr + stride_of(w.ctrl) == (v.addr + rest.len()) % 0x4000 + 1);
    }
}

/// Two writes to 0x2006 (high byte, then low byte) set the address; with a stride of
/// 1, the accesses through 0x2007 that follow, reads and writes in any order, visit
/// consecutive addresses from there.
pub proof fn lemma_data_port_window(v: PpuView, hi: u8, lo: u8, ops: Seq<Option<u8>>)
    requires
        v.wf(),
        v.latch_high,
        stride_of(v.ctrl) == 1,
    ensures
        ({
            let start = after_address_write(after_address_write(v, hi), lo);
            &&& start.addr == (hi % 64) * 256 + lo
            &&& forall|i: int|
                0 <= i <= ops.len() ==> #[trigger] data_accesses(start, ops.take(i)).addr == (
                start.addr + i) % 0x4000
        }),
{
    let first = after_address_write(v, hi);
    let start = after_address_write(first, lo);
    assert(first.addr == (hi % 64) * 256 + v.addr % 256);
    assert(((hi % 64) * 256 + v.addr % 256) / 256 == hi % 64) by (nonlinear_arith)
        requires
            0 <= v.addr % 256 < 256,
            0 <= hi % 64 < 64,
    ;
    assert(start.addr == (hi % 64) * 256 + lo);
    assert forall|i: int| 0 <= i <= ops.len() implies #[trigger] data_accesses(
        start,
        ops.take(i),
    ).addr == (start.addr + i) % 0x4000 by {
        lemma_data_accesses_advance(start, ops.take(i));
    }
}

} // verus!
