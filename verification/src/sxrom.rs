//! The shift-register banking chip (mapper 1): a serial 5-bit write protocol
//! feeding four internal registers that jointly select PRG/CHR banks and the
//! mirroring mode.

use vstd::prelude::*;

use crate::mapper::Mapper;
use crate::rom::{PRG_BANK_BYTES, Rom, RomView, zeroed};

verus! {

/// Bytes of PRG-RAM and of CHR-RAM the chip carries on board.
pub const SX_RAM_BYTES: usize = 8192;

/// Nametable mirroring mode selected by the low two bits of the control
/// register.
#[derive(Clone, Copy, Debug, PartialEq, Eq, Structural)]
pub enum Mirroring {
    OneScreenLower,
    OneScreenUpper,
    Vertical,
    Horizontal,
}

/// PRG bank mode selected by bits 2-3 of the control register. Encodings 0
/// and 1 both mean `Switch32K`.
#[derive(Clone, Copy, Debug, PartialEq, Eq, Structural)]
pub enum SxPrgBankMode {
    /// Switch 32 KB at $8000, ignoring the low bank bit.
    Switch32K,
    /// Fix the first bank at $8000, switch the 16 KB bank at $C000.
    FixFirstBank,
    /// Fix the last bank at $C000, switch the 16 KB bank at $8000.
    FixLastBank,
}

/// CHR bank mode selected by bit 4 of the control register.
#[derive(Clone, Copy, Debug, PartialEq, Eq, Structural)]
pub enum SxChrBankMode {
    /// Switch 8 KB at a time.
    Switch8K,
    /// Switch two separate 4 KB banks.
    SwitchTwo4K,
}

/// The bit-packed control register.
#[derive(Clone, Copy, Debug, PartialEq, Eq, Structural)]
pub struct SxCtrl(pub u8);

impl SxCtrl {
    /// The mirroring mode the low two bits encode.
    pub open spec fn spec_mirroring(self) -> Mirroring {
        if self.0 & 3 == 0 {
            Mirroring::OneScreenLower
        } else if self.0 & 3 == 1 {
            Mirroring::OneScreenUpper
        } else if self.0 & 3 == 2 {
            Mirroring::Vertical
        } else {
            Mirroring::Horizontal
        }
    }

    /// The PRG bank mode bits 2-3 encode.
    pub open spec fn spec_prg_rom_mode(self) -> SxPrgBankMode {
        if (self.0 >> 2) & 3 == 2 {
            SxPrgBankMode::FixFirstBank
        } else if (self.0 >> 2) & 3 == 3 {
            SxPrgBankMode::FixLastBank
        } else {
            SxPrgBankMode::Switch32K
        }
    }

    /// The CHR bank mode bit 4 encodes.
    pub open spec fn spec_chr_rom_mode(self) -> SxChrBankMode {
        if (self.0 >> 4) & 1 == 0 {
            SxChrBankMode::Switch8K
        } else {
            SxChrBankMode::SwitchTwo4K
        }
    }

    pub fn mirroring(self) -> (m: Mirroring)
        ensures
            m == self.spec_mirroring(),
    {
        let bits = self.0 & 3;
        if bits == 0 {
            Mirroring::OneScreenLower
        } else if bits == 1 {
            Mirroring::OneScreenUpper
        } else if bits == 2 {
            Mirroring::Vertical
        } else {
            Mirroring::Horizontal
        }
    }

    pub fn prg_rom_mode(self) -> (m: SxPrgBankMode)
        ensures
            m == self.spec_prg_rom_mode(),
    {
        let bits = (self.0 >> 2) & 3;
        if bits == 2 {
            SxPrgBankMode::FixFirstBank
        } else if bits == 3 {
            SxPrgBankMode::FixLastBank
        } else {
            SxPrgBankMode::Switch32K
        }
    }

    pub fn chr_rom_mode(self) -> (m: SxChrBankMode)
        ensures
            m == self.spec_chr_rom_mode(),
    {
        if (self.0 >> 4) & 1 == 0 {
            SxChrBankMode::Switch8K
        } else {
            SxChrBankMode::SwitchTwo4K
        }
    }
}

/// The chip's four internal registers, each written through the serial
/// shift-register protocol.
#[derive(Clone, Copy, Debug, PartialEq, Eq, Structural)]
pub struct SxRegs {
    /// Control register, committed by writes to $8000-$9FFF.
    pub ctrl: SxCtrl,
    /// CHR bank 0 register, committed by writes to $A000-$BFFF.
    pub chr_bank_0: u8,
    /// CHR bank 1 register, committed by writes to $C000-$DFFF.
    pub chr_bank_1: u8,
    /// PRG bank register, committed by writes to $E000-$FFFF.
    pub prg_bank: u8,
}

/// Mathematical model of an [`SxRom`] chip.
#[verifier::ext_equal]
pub ghost struct SxRomView {
    pub rom: RomView,
    pub regs: SxRegs,
    pub accum: u8,
    pub write_count: u8,
    pub prg_ram: Seq<u8>,
    pub chr_ram: Seq<u8>,
}

impl SxRomView {
    pub open spec fn inv(self) -> bool {
        &&& self.rom.wf()
        &&& self.write_count < 5
        &&& self.prg_ram.len() == SX_RAM_BYTES
        &&& self.chr_ram.len() == SX_RAM_BYTES
    }

    /// The chip state right after construction: mirroring and CHR mode bits 0,
    /// PRG mode forced to fix-last-bank, everything else zero.
    pub open spec fn init(rom: RomView) -> SxRomView {
        SxRomView {
            rom,
            regs: SxRegs { ctrl: SxCtrl(3u8 << 2), chr_bank_0: 0, chr_bank_1: 0, prg_bank: 0 },
            accum: 0,
            write_count: 0,
            prg_ram: Seq::new(SX_RAM_BYTES as nat, |i: int| 0u8),
            chr_ram: Seq::new(SX_RAM_BYTES as nat, |i: int| 0u8),
        }
    }

    /// The 16 KB PRG bank a load resolves to, before reduction modulo the
    /// bank count: below $C000 the switched (or fixed-first) bank, above it
    /// the paired odd bank, the switched bank, or the last physical bank.
    pub open spec fn prg_bank_at(self, addr: u16) -> u8 {
        if addr < 0xc000 {
            match self.regs.ctrl.spec_prg_rom_mode() {
                SxPrgBankMode::Switch32K => self.regs.prg_bank & 0xfe,
                SxPrgBankMode::FixFirstBank => 0,
                SxPrgBankMode::FixLastBank => self.regs.prg_bank,
            }
        } else {
            match self.regs.ctrl.spec_prg_rom_mode() {
                SxPrgBankMode::Switch32K => (self.regs.prg_bank & 0xfe) | 1,
                SxPrgBankMode::FixFirstBank => self.regs.prg_bank,
                SxPrgBankMode::FixLastBank => (self.rom.prg_rom_size - 1) as u8,
            }
        }
    }

    /// The byte a PRG load returns: addresses below $8000 read 0; above, the
    /// selected 16 KB bank, reduced modulo the bank count, indexed by the low
    /// 14 address bits.
    pub open spec fn prg_load(self, addr: u16) -> u8 {
        if addr < 0x8000 {
            0
        } else {
            let bank = self.prg_bank_at(addr) as int % self.rom.prg_rom_size as int;
            self.rom.prg[bank * PRG_BANK_BYTES as int + (addr & 0x3fff) as int]
        }
    }

    /// The registers after the fifth qualifying write commits the accumulator
    /// `acc` into the register the write address selects.
    pub open spec fn commit(self, addr: u16, acc: u8) -> SxRegs {
        if addr <= 0x9fff {
            SxRegs { ctrl: SxCtrl(acc), ..self.regs }
        } else if addr <= 0xbfff {
            SxRegs { chr_bank_0: acc, ..self.regs }
        } else if addr <= 0xdfff {
            SxRegs { chr_bank_1: acc, ..self.regs }
        } else {
            SxRegs { prg_bank: acc, ..self.regs }
        }
    }

    /// The chip state a PRG store leaves behind. Writes below $8000 are
    /// ignored. A value with the high bit set resets the shift sequence and
    /// forces the PRG mode to fix-last-bank. Otherwise the value's low bit is
    /// shifted into the accumulator; the fifth such write commits the
    /// accumulator into the register its address selects and clears the
    /// sequence.
    pub open spec fn prg_store(self, addr: u16, val: u8) -> SxRomView {
        if addr < 0x8000 {
            self
        } else if val & 0x80 != 0 {
            SxRomView {
                regs: SxRegs { ctrl: SxCtrl(self.regs.ctrl.0 | (3u8 << 2)), ..self.regs },
                accum: 0,
                write_count: 0,
                ..self
            }
        } else {
            let acc = self.accum | ((val & 1) << self.write_count);
            if self.write_count == 4 {
                SxRomView { regs: self.commit(addr, acc), accum: 0, write_count: 0, ..self }
            } else {
                SxRomView { accum: acc, write_count: (self.write_count + 1) as u8, ..self }
            }
        }
    }

    /// The byte a CHR load returns: the on-board CHR-RAM indexed by the raw
    /// 13-bit address.
    pub open spec fn chr_load(self, addr: u16) -> u8 {
        self.chr_ram[(addr & 0x1fff) as int]
    }

    /// The chip state a CHR store leaves behind: the same RAM cell updated.
    pub open spec fn chr_store(self, addr: u16, val: u8) -> SxRomView {
        SxRomView { chr_ram: self.chr_ram.update((addr & 0x1fff) as int, val), ..self }
    }
}

/// The shift-register banking chip. Besides the ROM image it owns the four
/// registers, the serial write accumulator with its write count, and 8 KB
/// each of PRG-RAM and CHR-RAM.
pub struct SxRom {
    pub rom: Rom,
    pub regs: SxRegs,
    /// The internal accumulator the serial protocol shifts low bits into.
    pub accum: u8,
    /// Writes accumulated so far; the fifth write commits a register.
    pub write_count: u8,
    pub prg_ram: Vec<u8>,
    pub chr_ram: Vec<u8>,
}

impl View for SxRom {
    type V = SxRomView;

    open spec fn view(&self) -> SxRomView {
        SxRomView {
            rom: self.rom@,
            regs: self.regs,
            accum: self.accum,
            write_count: self.write_count,
            prg_ram: self.prg_ram@,
            chr_ram: self.chr_ram@,
        }
    }
}

impl SxRom {
    pub fn new(rom: Rom) -> (m: SxRom)
        ensures
            m@ == SxRomView::init(rom@),
    {
        let m = SxRom {
            rom,
            regs: SxRegs { ctrl: SxCtrl(3u8 << 2), chr_bank_0: 0, chr_bank_1: 0, prg_bank: 0 },
            accum: 0,
            write_count: 0,
            prg_ram: zeroed(SX_RAM_BYTES),
            chr_ram: zeroed(SX_RAM_BYTES),
        };
        proof {
            assert(m@ =~= SxRomView::init(rom@));
        }
        m
    }
}

impl Mapper for SxRom {
    open spec fn inv(&self) -> bool {
        self@.inv()
    }

    open spec fn prg_load_spec(&self, addr: u16) -> u8 {
        self@.prg_load(addr)
    }

    open spec fn prg_store_spec(&self, addr: u16, val: u8) -> SxRomView {
        self@.prg_store(addr, val)
    }

    open spec fn chr_load_spec(&self, addr: u16) -> u8 {
        self@.chr_load(addr)
    }

    open spec fn chr_store_spec(&self, addr: u16, val: u8) -> SxRomView {
        self@.chr_store(addr, val)
    }

    fn prg_loadb(&mut self, addr: u16) -> (b: u8) {
        if addr < 0x8000 {
            return 0;
        }
        let bank: u8 = if addr < 0xc000 {
            match self.regs.ctrl.prg_rom_mode() {
                SxPrgBankMode::Switch32K => self.regs.prg_bank & 0xfe,
                SxPrgBankMode::FixFirstBank => 0,
                SxPrgBankMode::FixLastBank => self.regs.prg_bank,
            }
        } else {
            match self.regs.ctrl.prg_rom_mode() {
                SxPrgBankMode::Switch32K => (self.regs.prg_bank & 0xfe) | 1,
                SxPrgBankMode::FixFirstBank => self.regs.prg_bank,
                SxPrgBankMode::FixLastBank => self.rom.prg_rom_size - 1,
            }
        };
        let size = self.rom.prg_rom_size as usize;
        let bank_idx = (bank as usize) % size;
        let low = (addr & 0x3fff) as usize;
        let off = bank_idx * PRG_BANK_BYTES + low;
        proof {
            assert(addr & 0x3fff < 0x4000) by (bit_vector);
            assert(bank_idx * PRG_BANK_BYTES as int + low < size * PRG_BANK_BYTES as int)
                by (nonlinear_arith)
                requires
                    bank_idx < size,
                    low < PRG_BANK_BYTES as int,
            ;
        }
        self.rom.prg[off]
    }

    fn prg_storeb(&mut self, addr: u16, val: u8) {
        if addr < 0x8000 {
            return;
        }
        // A write with the high bit set resets the shift sequence and forces
        // the PRG mode bits to fix-last-bank.
        if val & 0x80 != 0 {
            self.write_count = 0;
            self.accum = 0;
            self.regs.ctrl = SxCtrl(self.regs.ctrl.0 | (3u8 << 2));
            return;
        }
        // Shift the value's low bit into the accumulator.
        let acc = self.accum | ((val & 1) << self.write_count);
        if self.write_count == 4 {
            // Fifth write: commit into the register the address selects.
            self.write_count = 0;
            self.accum = 0;
            if addr <= 0x9fff {
                self.regs.ctrl = SxCtrl(acc);
            } else if addr <= 0xbfff {
                self.regs.chr_bank_0 = acc;
            } else if addr <= 0xdfff {
                self.regs.chr_bank_1 = acc;
            } else {
                self.regs.prg_bank = acc;
            }
        } else {
            self.accum = acc;
            self.write_count = self.write_count + 1;
        }
    }

    fn chr_loadb(&mut self, addr: u16) -> (b: u8) {
        let i = (addr & 0x1fff) as usize;
        proof {
            assert(addr & 0x1fff < 0x2000) by (bit_vector);
        }
        self.chr_ram[i]
    }

    fn chr_storeb(&mut self, addr: u16, val: u8) {
        let i = (addr & 0x1fff) as usize;
        proof {
            assert(addr & 0x1fff < 0x2000) by (bit_vector);
        }
        self.chr_ram[i] = val;
        proof {
            assert(self@ =~= old(self)@.chr_store(addr, val));
        }
    }
}

/// The 5-bit value five qualifying writes assemble: the low bit of each
/// write, in arrival order, from bit 0 up to bit 4.
pub open spec fn sx_serial_value(v0: u8, v1: u8, v2: u8, v3: u8, v4: u8) -> u8 {
    (v0 & 1) | ((v1 & 1) << 1) | ((v2 & 1) << 2) | ((v3 & 1) << 3) | ((v4 & 1) << 4)
}

/// Five consecutive qualifying writes commit the assembled 5-bit value into
/// the register the fifth write's address selects, leave the other registers
/// and both RAMs alone, and return the write count and accumulator to 0.
pub proof fn lemma_sx_five_writes_commit(
    s: SxRomView,
    a0: u16,
    a1: u16,
    a2: u16,
    a3: u16,
    a4: u16,
    v0: u8,
    v1: u8,
    v2: u8,
    v3: u8,
    v4: u8,
)
    requires
        s.write_count == 0,
        s.accum == 0,
        a0 >= 0x8000 && a1 >= 0x8000 && a2 >= 0x8000 && a3 >= 0x8000 && a4 >= 0x8000,
        v0 & 0x80 == 0 && v1 & 0x80 == 0 && v2 & 0x80 == 0 && v3 & 0x80 == 0 && v4 & 0x80 == 0,
    ensures
        ({
            let t = s.prg_store(a0, v0).prg_store(a1, v1).prg_store(a2, v2).prg_store(
                a3,
                v3,
            ).prg_store(a4, v4);
            let b = sx_serial_value(v0, v1, v2, v3, v4);
            &&& t.write_count == 0
            &&& t.accum == 0
            &&& t.regs == s.commit(a4, b)
            &&& t.rom == s.rom
            &&& t.prg_ram == s.prg_ram
            &&& t.chr_ram == s.chr_ram
        }),
{
    assert(((((0u8 | ((v0 & 1) << 0u8)) | ((v1 & 1) << 1u8)) | ((v2 & 1) << 2u8)) | ((v3 & 1)
        << 3u8)) | ((v4 & 1) << 4u8) == sx_serial_value(v0, v1, v2, v3, v4)) by (bit_vector);
}

/// A write with the high bit set, at any point in the shift sequence, clears
/// the write count and the accumulator, forces the PRG mode to fix-last-bank,
/// and preserves the mirroring and CHR-mode bits and all other registers.
pub proof fn lemma_sx_reset_write(s: SxRomView, addr: u16, val: u8)
    requires
        addr >= 0x8000,
        val & 0x80 != 0,
    ensures
        ({
            let t = s.prg_store(addr, val);
            &&& t.write_count == 0
            &&& t.accum == 0
            &&& t.regs.ctrl.spec_prg_rom_mode() == SxPrgBankMode::FixLastBank
            &&& t.regs.ctrl.spec_mirroring() == s.regs.ctrl.spec_mirroring()
            &&& t.regs.ctrl.spec_chr_rom_mode() == s.regs.ctrl.spec_chr_rom_mode()
            &&& t.regs.chr_bank_0 == s.regs.chr_bank_0
            &&& t.regs.chr_bank_1 == s.regs.chr_bank_1
            &&& t.regs.prg_bank == s.regs.prg_bank
            &&& t.rom == s.rom
            &&& t.prg_ram == s.prg_ram
            &&& t.chr_ram == s.chr_ram
        }),
{
    let c = s.regs.ctrl.0;
    assert(((c | (3u8 << 2)) >> 2) & 3 == 3) by (bit_vector);
    assert((c | (3u8 << 2)) & 3 == c & 3) by (bit_vector);
    assert(((c | (3u8 << 2)) >> 4) & 1 == (c >> 4) & 1) by (bit_vector);
}

/// CHR-RAM round trip: a store at `addr` is read back by a load at any
/// address with the same low 13 bits, and leaves every other RAM cell as it
/// was.
pub proof fn lemma_sx_chr_ram_round_trip(s: SxRomView, addr: u16, other: u16, val: u8)
    requires
        s.inv(),
    ensures
        s.chr_store(addr, val).chr_load(addr) == val,
        addr & 0x1fff != other & 0x1fff ==> s.chr_store(addr, val).chr_load(other) == s.chr_load(
            other,
        ),
{
    assert(addr & 0x1fff < 0x2000) by (bit_vector);
    assert(other & 0x1fff < 0x2000) by (bit_vector);
}

} // verus!
