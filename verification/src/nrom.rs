//! The fixed-mapping chip (mapper 0): address folding with no switching logic.

use vstd::prelude::*;

use crate::mapper::Mapper;
use crate::rom::{PRG_BANK_BYTES, Rom, RomView};

verus! {

/// Mathematical model of an [`Nrom`] chip: the ROM image is its whole state.
#[verifier::ext_equal]
pub ghost struct NromView {
    pub rom: RomView,
}

impl NromView {
    pub open spec fn inv(self) -> bool {
        self.rom.wf()
    }

    /// The byte a PRG load returns: addresses below $8000 read 0; above, a PRG
    /// image larger than 16 KB fills the whole 32 KB window, a 16 KB image is
    /// mirrored across it.
    pub open spec fn prg_load(self, addr: u16) -> u8 {
        if addr < 0x8000 {
            0
        } else if self.rom.prg.len() > PRG_BANK_BYTES {
            self.rom.prg[(addr & 0x7fff) as int]
        } else {
            self.rom.prg[(addr & 0x3fff) as int]
        }
    }

    /// The byte a CHR load returns: the CHR sequence indexed by the raw 13-bit
    /// address, 0 where the sequence is shorter.
    pub open spec fn chr_load(self, addr: u16) -> u8 {
        if (addr & 0x1fff) < self.rom.chr.len() {
            self.rom.chr[(addr & 0x1fff) as int]
        } else {
            0
        }
    }
}

/// The fixed-mapping chip. It owns the ROM image and no other state: PRG and
/// CHR are both ROM, so every store is a no-op.
pub struct Nrom {
    pub rom: Rom,
}

impl View for Nrom {
    type V = NromView;

    open spec fn view(&self) -> NromView {
        NromView { rom: self.rom@ }
    }
}

impl Nrom {
    pub fn new(rom: Rom) -> (m: Nrom)
        ensures
            m@ == (NromView { rom: rom@ }),
    {
        Nrom { rom }
    }
}

impl Mapper for Nrom {
    open spec fn inv(&self) -> bool {
        self@.inv()
    }

    open spec fn prg_load_spec(&self, addr: u16) -> u8 {
        self@.prg_load(addr)
    }

    open spec fn prg_store_spec(&self, addr: u16, val: u8) -> NromView {
        self@
    }

    open spec fn chr_load_spec(&self, addr: u16) -> u8 {
        self@.chr_load(addr)
    }

    open spec fn chr_store_spec(&self, addr: u16, val: u8) -> NromView {
        self@
    }

    fn prg_loadb(&mut self, addr: u16) -> (b: u8) {
        if addr < 0x8000 {
            0
        } else if self.rom.prg.len() > PRG_BANK_BYTES {
            let i = (addr & 0x7fff) as usize;
            proof {
                // More than one bank means at least two banks of bytes, so
                // the whole 32 KB window is in range.
                assert(addr & 0x7fff < 0x8000) by (bit_vector);
            }
            self.rom.prg[i]
        } else {
            let i = (addr & 0x3fff) as usize;
            proof {
                assert(addr & 0x3fff < 0x4000) by (bit_vector);
            }
            self.rom.prg[i]
        }
    }

    fn prg_storeb(&mut self, addr: u16, val: u8) {
    }

    fn chr_loadb(&mut self, addr: u16) -> (b: u8) {
        let i = (addr & 0x1fff) as usize;
        if i < self.rom.chr.len() {
            self.rom.chr[i]
        } else {
            0
        }
    }

    fn chr_storeb(&mut self, addr: u16, val: u8) {
    }
}

/// Below the PRG window the fixed-mapping chip reads 0, and no store at any
/// address ever changes it, so later loads are unaffected.
pub proof fn lemma_nrom_open_bus(m: Nrom, addr: u16, waddr: u16, val: u8)
    ensures
        addr < 0x8000 ==> m.prg_load_spec(addr) == 0,
        m.prg_store_spec(waddr, val) == m@,
        m.chr_store_spec(waddr, val) == m@,
{
}

/// With a single 16 KB PRG bank, the upper half of the 32 KB window mirrors
/// the lower half byte for byte.
pub proof fn lemma_nrom_16k_mirroring(m: NromView, k: u16)
    requires
        m.inv(),
        m.rom.prg.len() == PRG_BANK_BYTES,
        k < 0x4000,
    ensures
        m.prg_load((0x8000 + k) as u16) == m.prg_load((0xc000 + k) as u16),
{
    assert(((0x8000 + k) as u16) & 0x3fff == k) by (bit_vector)
        requires
            k < 0x4000,
    ;
    assert(((0xc000 + k) as u16) & 0x3fff == k) by (bit_vector)
        requires
            k < 0x4000,
    ;
}

} // verus!
