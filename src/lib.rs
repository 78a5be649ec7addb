//! The core of a Nintendo Entertainment System emulator: cartridge images, the
//! picture-processing unit, the memory bus and the 6502-derived CPU.
use vstd::prelude::*;

pub mod bus;
pub mod cpu;
pub mod opcode;
pub mod ppu;
pub mod rom;

use bus::{
    after_read_word, lemma_rom_read, power_on_bus, prg_index, read_word_value, Bus,
};
use cpu::{reset_registers, step_spec, Cpu, CpuError, CpuView, Registers, StepOutcome, RESET_VECTOR};
use rom::{character_len, mirroring_of, program_len, program_start, rom_error_of, Rom, RomError};

verus! {

/// The little-endian word at 0xFFFC of a program (a 16 KiB program appears twice).
pub open spec fn reset_vector_of(prg: Seq<u8>) -> u16 {
    (prg[prg_index(prg.len(), 0xfffc)] + 256 * prg[prg_index(prg.len(), 0xfffd)]) as u16
}

/// A console: a CPU that owns the bus, the PPU and the cartridge.
pub struct Nes {
    pub cpu: Cpu,
}

impl Nes {
    /// Loads an iNES image and resets the CPU.
    pub fn new(rom_data: &Vec<u8>) -> (r: Result<Nes, RomError>)
        ensures
            match rom_error_of(rom_data@) {
                Some(e) => r == Err::<Nes, RomError>(e),
                None => r is Ok,
            },
            r matches Ok(nes) ==> {
                let d = rom_data@;
                let prg = d.subrange(program_start(d), program_start(d) + program_len(d));
                let chr = d.subrange(
                    program_start(d) + program_len(d),
                    program_start(d) + program_len(d) + character_len(d),
                );
                &&& nes.cpu.wf()
                &&& nes.cpu@.bus == power_on_bus(prg, chr, mirroring_of(d[6]))
                &&& nes.cpu@.reg == (Registers {
                    pc: reset_vector_of(prg),
                    ..reset_registers()
                })
            },
    {
        let rom = Rom::new(rom_data)?;
        let bus = Bus::new(&rom);
        proof {
            lemma_rom_read(bus@, RESET_VECTOR);
            lemma_rom_read(bus@, (RESET_VECTOR + 1) as u16);
            assert(after_read_word(bus@, RESET_VECTOR) == bus@) by {
                reveal(after_read_word);
            }
            assert(read_word_value(bus@, RESET_VECTOR) == reset_vector_of(rom.program@)) by {
                reveal(read_word_value);
            }
        }
        Ok(Nes { cpu: Cpu::new(bus) })
    }

    /// Runs the CPU, calling `callback` before each instruction: `Ok` only after a
    /// step that executed BRK; an error from a step, or `InvalidState` when the
    /// callback left the machine unable to run, or `StepLimitReached`.
    pub fn run_with_callback<F: FnMut(&mut Cpu)>(&mut self, callback: F) -> (r: Result<(), CpuError>)
        requires
            old(self).cpu.wf(),
            forall|c: &mut Cpu| call_requires(callback, (c,)),
        ensures
            r is Ok ==> final(self).cpu.wf() && exists|s: CpuView|
                s.bus.wf() && step_spec(s) == (Ok::<StepOutcome, CpuError>(StepOutcome::Halted), final(self).cpu@),
            r matches Err(e) ==> e == CpuError::InvalidState || e == CpuError::StepLimitReached
                || (final(self).cpu.wf() && exists|s: CpuView|
                s.bus.wf() && step_spec(s) == (Err::<StepOutcome, CpuError>(e), final(self).cpu@)),
    {
        self.cpu.run_with_callback(callback)
    }
}

} // verus!
