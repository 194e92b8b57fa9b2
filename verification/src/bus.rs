//! The address space: work memory, the peripheral register window and
//! read-only program storage, with their mirroring rules.
use vstd::prelude::*;
use crate::cpu::mem::Mem;

verus! {

/// Number of physically backed work-memory bytes.
pub const RAM_SIZE: usize = 2048;

/// First address of work memory.
pub const RAM: u16 = 0x0000;

/// Last address at which work memory (or one of its echoes) answers.
pub const RAM_MIRROR_END: u16 = 0x1FFF;

/// First address of the peripheral register window.
pub const PPU_REGISTERS: u16 = 0x2000;

/// Last address of the peripheral register window.
pub const PPU_REGISTERS_END: u16 = 0x3FFF;

/// First address of program storage.
pub const PRG_ROM: u16 = 0x8000;

/// Size of one half of the program-storage window; storage of exactly this
/// size answers in both halves.
pub const PRG_ROM_BANK: usize = 0x4000;

/// The mathematical model of the address space: the backing bytes of work
/// memory and of program storage. The peripheral window has no state.
pub struct AddressSpace {
    pub ram: Seq<u8>,
    pub rom: Seq<u8>,
}

impl AddressSpace {
    /// Work memory has its physical size, and program storage answers at every
    /// address of its window: it is one bank (mirrored) or covers the window.
    pub open spec fn wf(self) -> bool {
        &&& self.ram.len() == 2048
        &&& (self.rom.len() == 0x4000 || self.rom.len() >= 0x8000)
    }

    /// The physical work-memory cell behind an address below `0x2000`: the
    /// address with every bit above bit 10 dropped.
    pub open spec fn ram_index(addr: u16) -> int {
        addr as int % 2048
    }

    /// The offset into program storage behind an address from `0x8000` up.
    pub open spec fn rom_index(self, addr: u16) -> int {
        let offset = addr as int - 0x8000;
        if self.rom.len() == 0x4000 && offset >= 0x4000 {
            offset % 0x4000
        } else {
            offset
        }
    }

    /// The byte a read at `addr` returns.
    pub open spec fn read(self, addr: u16) -> u8 {
        if addr <= RAM_MIRROR_END {
            self.ram[Self::ram_index(addr)]
        } else if addr < PRG_ROM {
            0
        } else {
            self.rom[self.rom_index(addr)]
        }
    }

    /// The little-endian word at `addr` and the address after it; the second
    /// address wraps within 16 bits.
    pub open spec fn read_u16(self, addr: u16) -> u16 {
        word(self.read(addr), self.read(addr.wrapping_add(1)))
    }

    /// Whether a write at `addr` is legal: program storage is read-only.
    pub open spec fn writable(addr: u16) -> bool {
        addr < PRG_ROM
    }

    /// The address space after a legal write: work memory takes the byte, the
    /// peripheral window and the unmapped range discard it.
    pub open spec fn write(self, addr: u16, data: u8) -> AddressSpace {
        if addr <= RAM_MIRROR_END {
            AddressSpace { ram: self.ram.update(Self::ram_index(addr), data), rom: self.rom }
        } else {
            self
        }
    }

    /// The address space after a little-endian word write: low byte at `addr`,
    /// high byte at the address after it.
    pub open spec fn write_u16(self, addr: u16, data: u16) -> AddressSpace {
        self.write(addr, low(data)).write(addr.wrapping_add(1), high(data))
    }

    /// The address space after the bytes of `image` were written one by one,
    /// in order, from `start` upwards.
    pub open spec fn stage(self, start: u16, image: Seq<u8>) -> AddressSpace
        decreases image.len(),
    {
        if image.len() == 0 {
            self
        } else {
            self.stage(start, image.drop_last()).write(
                (start + image.len() - 1) as u16,
                image.last(),
            )
        }
    }

    /// The offset in program storage of the low byte of the reset vector.
    pub open spec fn reset_vector_index(self) -> int {
        self.rom_index(0xFFFC)
    }

    /// The address space with the reset vector pointing at `target`.
    pub open spec fn with_reset_vector(self, target: u16) -> AddressSpace {
        AddressSpace {
            ram: self.ram,
            rom: self.rom.update(self.reset_vector_index(), low(target)).update(
                self.reset_vector_index() + 1,
                high(target),
            ),
        }
    }
}

/// The 16-bit word with the given low and high bytes.
pub open spec fn word(low: u8, high: u8) -> u16 {
    (high as int * 256 + low as int) as u16
}

/// The low byte of a word.
pub open spec fn low(w: u16) -> u8 {
    (w as int % 256) as u8
}

/// The high byte of a word.
pub open spec fn high(w: u16) -> u8 {
    (w as int / 256) as u8
}

/// Bit-level facts behind the byte and word arithmetic of the address space.
pub proof fn lemma_word_bits(lo: u8, hi: u8, w: u16)
    ensures
        ((hi as u16) << 8 | (lo as u16)) == word(lo, hi),
        (w & 0xFF) as u8 == low(w),
        (w >> 8) as u8 == high(w),
        w & 0x07FF == w % 2048,
        word(low(w), high(w)) == w,
        low(word(lo, hi)) == lo,
        high(word(lo, hi)) == hi,
{
    assert(((hi as u16) << 8 | (lo as u16)) == (hi as u16) * 256 + (lo as u16)) by (bit_vector);
    assert(w & 0xFF == w % 256 && w >> 8 == w / 256 && w & 0x07FF == w % 2048) by (bit_vector);
}

/// Combines two bytes into a little-endian word.
pub fn make_word(lo: u8, hi: u8) -> (w: u16)
    ensures
        w == word(lo, hi),
{
    proof {
        lemma_word_bits(lo, hi, 0);
    }
    (hi as u16) << 8 | (lo as u16)
}

/// The low byte of a word.
pub fn low_byte(w: u16) -> (b: u8)
    ensures
        b == low(w),
{
    proof {
        lemma_word_bits(0, 0, w);
    }
    (w & 0xFF) as u8
}

/// The high byte of a word.
pub fn high_byte(w: u16) -> (b: u8)
    ensures
        b == high(w),
{
    proof {
        lemma_word_bits(0, 0, w);
    }
    (w >> 8) as u8
}

/// The memory-mapped address space of the console.
pub struct Bus {
    cpu_vram: [u8; 2048],
    prg_rom: Vec<u8>,
}

impl Bus {
    /// Builds the address space around an already parsed program-storage
    /// image, with work memory cleared.
    pub fn new(prg_rom: Vec<u8>) -> (bus: Bus)
        requires
            prg_rom@.len() == 0x4000 || prg_rom@.len() >= 0x8000,
        ensures
            bus.space().wf(),
            bus.space().rom == prg_rom@,
            bus.space().ram == Seq::new(2048, |i: int| 0u8),
    {
        let bus = Bus { cpu_vram: [0u8; 2048], prg_rom };
        assert(bus.cpu_vram@ =~= Seq::new(2048, |i: int| 0u8));
        bus
    }

    /// Reads program storage at an address of its window, mirroring a single
    /// bank into both halves.
    pub fn read_prg_rom(&self, addr: u16) -> (data: u8)
        requires
            self.space().wf(),
            addr >= PRG_ROM,
        ensures
            data == self.space().read(addr),
    {
        let mut offset: u16 = addr - 0x8000;
        if self.prg_rom.len() == 0x4000 && offset >= 0x4000 {
            offset = offset % 0x4000;
        }
        self.prg_rom[offset as usize]
    }

    /// Points the reset vector at `target`. This is the host's way to stage a
    /// program; the emulated processor cannot write program storage.
    pub fn set_reset_vector(&mut self, target: u16)
        requires
            old(self).space().wf(),
        ensures
            final(self).space() == old(self).space().with_reset_vector(target),
            final(self).space().wf(),
            final(self).space().read_u16(0xFFFC) == target,
    {
        let index: usize = if self.prg_rom.len() == 0x4000 {
            0x3FFC
        } else {
            0x7FFC
        };
        let lo = low_byte(target);
        let hi = high_byte(target);
        self.prg_rom[index] = lo;
        self.prg_rom[index + 1] = hi;
        proof {
            lemma_word_bits(lo, hi, target);
            assert(self.space() =~= old(self).space().with_reset_vector(target));
        }
    }
}

impl Mem for Bus {
    closed spec fn space(&self) -> AddressSpace {
        AddressSpace { ram: self.cpu_vram@, rom: self.prg_rom@ }
    }

    fn mem_read(&self, addr: u16) -> (data: u8) {
        if addr <= RAM_MIRROR_END {
            let mirror_down_addr = addr & 0b0000_0111_1111_1111;
            proof {
                lemma_word_bits(0, 0, addr);
            }
            self.cpu_vram[mirror_down_addr as usize]
        } else if addr <= PPU_REGISTERS_END {
            0
        } else if addr >= PRG_ROM {
            self.read_prg_rom(addr)
        } else {
            0
        }
    }

    fn mem_write(&mut self, addr: u16, data: u8) {
        if addr <= RAM_MIRROR_END {
            let mirror_down_addr = addr & 0b0000_0111_1111_1111;
            proof {
                lemma_word_bits(0, 0, addr);
            }
            self.cpu_vram[mirror_down_addr as usize] = data;
            assert(self.space() =~= old(self).space().write(addr, data));
        }
    }
}

} // verus!
