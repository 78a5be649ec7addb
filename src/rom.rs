//! Cartridge images in the iNES format (NROM boards only).
use vstd::prelude::*;

verus! {

/// Size of one program bank.
pub const PRG_BANK_SIZE: usize = 0x4000;

/// Size of one character bank.
pub const CHR_BANK_SIZE: usize = 0x2000;

/// Length of the iNES header.
pub const HEADER_SIZE: usize = 16;

/// Length of the optional trainer that follows the header.
pub const TRAINER_SIZE: usize = 512;

/// How the four logical name tables fold onto the two physical ones.
#[derive(Clone, Copy, Debug, PartialEq, Eq, Structural)]
pub enum Mirroring {
    Vertical,
    Horizontal,
    FourScreen,
}

/// Reasons an image is refused.
#[derive(Clone, Copy, Debug, PartialEq, Eq, Structural)]
pub enum RomError {
    /// The first four bytes are not `4E 45 53 1A`.
    InvalidMagic,
    /// The mapper number is not 0 (NROM).
    UnsupportedMapper,
    /// The program size is not 16 or 32 KiB, or the character size is not 8 KiB.
    UnsupportedSize,
    /// The image is shorter than its header announces.
    Truncated,
}

/// Byte 6 of the header.
pub struct Flags6 {
    /// false: horizontal, true: vertical
    pub mirroring: bool,
    /// battery-backed program RAM present
    pub is_persistent_memory: bool,
    /// a 512-byte trainer precedes the program data
    pub is_trainer: bool,
    /// four-screen VRAM, overriding `mirroring`
    pub ignore_mirroring: bool,
    /// lower nybble of the mapper number
    pub lower_mapper: u8,
}

impl Flags6 {
    pub fn new(data: u8) -> (r: Flags6)
        ensures
            r.mirroring == (data & 0x01 == 0x01),
            r.is_persistent_memory == (data & 0x02 == 0x02),
            r.is_trainer == (data & 0x04 == 0x04),
            r.ignore_mirroring == (data & 0x08 == 0x08),
            r.lower_mapper == data >> 4,
    {
        Flags6 {
            mirroring: data & 0x01 == 0x01,
            is_persistent_memory: data & 0x02 == 0x02,
            is_trainer: data & 0x04 == 0x04,
            ignore_mirroring: data & 0x08 == 0x08,
            lower_mapper: data >> 4,
        }
    }
}

/// Byte 7 of the header.
pub struct Flags7 {
    pub vs_unisystem: bool,
    pub play_choice_10: bool,
    /// bytes 8-15 follow the NES 2.0 layout
    pub is_nes_2_0: bool,
    /// upper nybble of the mapper number
    pub upper_mapper: u8,
}

impl Flags7 {
    pub fn new(data: u8) -> (r: Flags7)
        ensures
            r.vs_unisystem == (data & 0x01 == 0x01),
            r.play_choice_10 == (data & 0x02 == 0x02),
            r.is_nes_2_0 == (data & 0x08 == 0x08),
            r.upper_mapper == data >> 4,
    {
        Flags7 {
            vs_unisystem: data & 0x01 == 0x01,
            play_choice_10: data & 0x02 == 0x02,
            is_nes_2_0: data & 0x08 == 0x08,
            upper_mapper: data >> 4,
        }
    }
}

/// Byte 8 of the header.
pub struct Flags8 {
    pub prg_ram_size: u8,
}

impl Flags8 {
    pub fn new(data: u8) -> (r: Flags8)
        ensures
            r.prg_ram_size == data,
    {
        Flags8 { prg_ram_size: data }
    }
}

/// Byte 9 of the header.
pub struct Flags9 {
    /// false: NTSC, true: PAL
    pub tv_system: bool,
}

impl Flags9 {
    pub fn new(data: u8) -> (r: Flags9)
        ensures
            r.tv_system == (data & 0x01 == 0x01),
    {
        Flags9 { tv_system: data & 0x01 == 0x01 }
    }
}

/// Byte 10 of the header.
pub struct Flags10 {
    /// 0: NTSC, 2: PAL
    pub tv_system: u8,
    pub is_not_prg_ram: bool,
    pub is_bus_conflicts: bool,
}

impl Flags10 {
    pub fn new(data: u8) -> (r: Flags10)
        ensures
            r.tv_system == data & 0x02,
            r.is_not_prg_ram == (data & 0x10 == 0x10),
            r.is_bus_conflicts == (data & 0x20 == 0x20),
    {
        Flags10 {
            tv_system: data & 0x02,
            is_not_prg_ram: data & 0x10 == 0x10,
            is_bus_conflicts: data & 0x20 == 0x20,
        }
    }
}

/// The 16-byte iNES header.
pub struct Header {
    pub constant: [u8; 4],
    /// program size in 16 KiB units
    pub prg_rom_size: u8,
    /// character size in 8 KiB units
    pub chr_rom_size: u8,
    pub flags6: Flags6,
    pub flags7: Flags7,
    pub flags8: Flags8,
    pub flags9: Flags9,
    pub flags10: Flags10,
    pub unused: [u8; 5],
}

/// The mirroring that header byte 6 selects: bit 3 asks for four screens, else bit 0
/// chooses vertical (1) or horizontal (0).
pub open spec fn mirroring_of(flags6: u8) -> Mirroring {
    if flags6 & 0x08 == 0x08 {
        Mirroring::FourScreen
    } else if flags6 & 0x01 == 0x01 {
        Mirroring::Vertical
    } else {
        Mirroring::Horizontal
    }
}

/// The mapper number spread over the high nybbles of bytes 6 and 7.
pub open spec fn mapper_of(flags6: u8, flags7: u8) -> int {
    (flags7 >> 4) * 16 + (flags6 >> 4)
}

impl Header {
    pub fn new(header_data: &[u8; 16]) -> (r: Header)
        ensures
            r.constant@ == header_data@.subrange(0, 4),
            r.prg_rom_size == header_data@[4],
            r.chr_rom_size == header_data@[5],
            r.flags6.mirroring == (header_data@[6] & 0x01 == 0x01),
            r.flags6.is_persistent_memory == (header_data@[6] & 0x02 == 0x02),
            r.flags6.is_trainer == (header_data@[6] & 0x04 == 0x04),
            r.flags6.ignore_mirroring == (header_data@[6] & 0x08 == 0x08),
            r.flags6.lower_mapper == header_data@[6] >> 4,
            r.flags7.vs_unisystem == (header_data@[7] & 0x01 == 0x01),
            r.flags7.play_choice_10 == (header_data@[7] & 0x02 == 0x02),
            r.flags7.is_nes_2_0 == (header_data@[7] & 0x08 == 0x08),
            r.flags7.upper_mapper == header_data@[7] >> 4,
            r.flags8.prg_ram_size == header_data@[8],
            r.flags9.tv_system == (header_data@[9] & 0x01 == 0x01),
            r.flags10.tv_system == header_data@[10] & 0x02,
            r.flags10.is_not_prg_ram == (header_data@[10] & 0x10 == 0x10),
            r.flags10.is_bus_conflicts == (header_data@[10] & 0x20 == 0x20),
            r.unused@ == header_data@.subrange(11, 16),
    {
        let constant = [header_data[0], header_data[1], header_data[2], header_data[3]];
        let unused = [header_data[11], header_data[12], header_data[13], header_data[14], header_data[15]];
        assert(constant@ =~= header_data@.subrange(0, 4));
        assert(unused@ =~= header_data@.subrange(11, 16));
        Header {
            constant,
            prg_rom_size: header_data[4],
            chr_rom_size: header_data[5],
            flags6: Flags6::new(header_data[6]),
            flags7: Flags7::new(header_data[7]),
            flags8: Flags8::new(header_data[8]),
            flags9: Flags9::new(header_data[9]),
            flags10: Flags10::new(header_data[10]),
            unused,
        }
    }

    /// The mirroring the header asks for.
    pub fn read_mirroring(&self) -> (r: Mirroring)
        ensures
            r == (if self.flags6.ignore_mirroring {
                Mirroring::FourScreen
            } else if self.flags6.mirroring {
                Mirroring::Vertical
            } else {
                Mirroring::Horizontal
            }),
    {
        if self.flags6.ignore_mirroring {
            Mirroring::FourScreen
        } else if self.flags6.mirroring {
            Mirroring::Vertical
        } else {
            Mirroring::Horizontal
        }
    }
}

/// A cartridge: program bytes, character bytes and the name-table mirroring.
pub struct Rom {
    pub header: Header,
    pub program: Vec<u8>,
    pub charactor: Vec<u8>,
    pub mirroring: Mirroring,
}

/// Whether the image holds a 512-byte trainer.
pub open spec fn has_trainer(data: Seq<u8>) -> bool {
    data[6] & 0x04 == 0x04
}

/// Where the program bytes start.
pub open spec fn program_start(data: Seq<u8>) -> int {
    HEADER_SIZE + if has_trainer(data) { TRAINER_SIZE as int } else { 0 }
}

/// Length of the program bytes the header announces.
pub open spec fn program_len(data: Seq<u8>) -> int {
    data[4] * PRG_BANK_SIZE
}

/// Length of the character bytes the header announces.
pub open spec fn character_len(data: Seq<u8>) -> int {
    data[5] * CHR_BANK_SIZE
}

/// The error an image gets, checked in this order, or none when it is accepted.
pub open spec fn rom_error_of(data: Seq<u8>) -> Option<RomError> {
    if data.len() < HEADER_SIZE {
        Some(RomError::Truncated)
    } else if data.subrange(0, 4) != seq![0x4eu8, 0x45u8, 0x53u8, 0x1au8] {
        Some(RomError::InvalidMagic)
    } else if mapper_of(data[6], data[7]) != 0 {
        Some(RomError::UnsupportedMapper)
    } else if !(data[4] == 1 || data[4] == 2) || data[5] != 1 {
        Some(RomError::UnsupportedSize)
    } else if data.len() < program_start(data) + program_len(data) + character_len(data) {
        Some(RomError::Truncated)
    } else {
        None
    }
}

impl Rom {
    /// A well-formed cartridge holds 16 or 32 KiB of program and 8 KiB of character bytes.
    pub open spec fn wf(&self) -> bool {
        &&& (self.program@.len() == 0x4000 || self.program@.len() == 0x8000)
        &&& self.charactor@.len() == 0x2000
    }

    /// Parses an iNES image.
    pub fn new(rom_data: &Vec<u8>) -> (r: Result<Rom, RomError>)
        ensures
            match rom_error_of(rom_data@) {
                Some(e) => r == Err::<Rom, RomError>(e),
                None => r is Ok,
            },
            r matches Ok(rom) ==> {
                let d = rom_data@;
                let ps = program_start(d);
                let pl = program_len(d);
                &&& rom.wf()
                &&& rom.program@ == d.subrange(ps, ps + pl)
                &&& rom.charactor@ == d.subrange(ps + pl, ps + pl + character_len(d))
                &&& rom.mirroring == mirroring_of(d[6])
            },
    {
        if rom_data.len() < HEADER_SIZE {
            return Err(RomError::Truncated);
        }
        let mut raw = [0u8; 16];
        let mut i: usize = 0;
        while i < HEADER_SIZE
            invariant
                i <= HEADER_SIZE,
                rom_data@.len() >= HEADER_SIZE,
                raw@.len() == 16,
                forall|j: int| 0 <= j < i ==> raw@[j] == rom_data@[j],
            decreases HEADER_SIZE - i,
        {
            raw[i] = rom_data[i];
            i = i + 1;
        }
        let header = Header::new(&raw);
        if !(raw[0] == 0x4e && raw[1] == 0x45 && raw[2] == 0x53 && raw[3] == 0x1a) {
            assert(rom_data@.subrange(0, 4)[0] == raw@[0]);
            assert(rom_data@.subrange(0, 4)[1] == raw@[1]);
            assert(rom_data@.subrange(0, 4)[2] == raw@[2]);
            assert(rom_data@.subrange(0, 4)[3] == raw@[3]);
            return Err(RomError::InvalidMagic);
        }
        assert(rom_data@.subrange(0, 4) =~= seq![0x4eu8, 0x45u8, 0x53u8, 0x1au8]);
        if header.flags6.lower_mapper != 0 || header.flags7.upper_mapper != 0 {
            return Err(RomError::UnsupportedMapper);
        }
        let prg_count = header.prg_rom_size;
        let chr_count = header.chr_rom_size;
        if !(prg_count == 1 || prg_count == 2) || chr_count != 1 {
            return Err(RomError::UnsupportedSize);
        }
        let program_start: usize = if header.flags6.is_trainer {
            HEADER_SIZE + TRAINER_SIZE
        } else {
            HEADER_SIZE
        };
        let program_len: usize = PRG_BANK_SIZE * prg_count as usize;
        let character_len: usize = CHR_BANK_SIZE;
        if rom_data.len() < program_start + program_len + character_len {
            return Err(RomError::Truncated);
        }
        let program = copy_range(rom_data, program_start, program_len);
        let charactor = copy_range(rom_data, program_start + program_len, character_len);
        let mirroring = header.read_mirroring();
        Ok(Rom { header, program, charactor, mirroring })
    }
}

/// The `len` bytes of `data` from `start` on.
fn copy_range(data: &Vec<u8>, start: usize, len: usize) -> (r: Vec<u8>)
    requires
        start + len <= data@.len(),
    ensures
        r@ == data@.subrange(start as int, start + len),
{
    let total = data.len();
    let mut out: Vec<u8> = Vec::with_capacity(len);
    let mut i: usize = 0;
    while i < len
        invariant
            i <= len,
            start + len <= data@.len(),
            total == data@.len(),
            out@ == data@.subrange(start as int, start + i),
        decreases len - i,
    {
        out.push(data[start + i]);
        i = i + 1;
        assert(out@ =~= data@.subrange(start as int, start + i));
    }
    out
}

} // verus!
