//! The indexed banking chip (mapper 4): an address/data register pair that
//! selects among eight independently swappable bank slots, plus fixed-position
//! PRG banks implied by a mode bit.

use vstd::prelude::*;

use crate::mapper::Mapper;
use crate::rom::{Rom, RomView, zeroed};

verus! {

/// Bytes of PRG-RAM the chip carries on board.
pub const TX_RAM_BYTES: usize = 8192;

/// Number of bytes in one 8 KB PRG bank, the unit this chip switches in.
pub const TX_PRG_BANK_BYTES: usize = 8192;

/// Which 16 KB-ish PRG window the swappable bank appears in, selected by bit 6
/// of the bank-select register.
#[derive(Clone, Copy, Debug, PartialEq, Eq, Structural)]
pub enum TxPrgBankMode {
    /// $8000-$9FFF is swappable; $C000-$DFFF is fixed to the second-to-last
    /// bank.
    Swappable8000,
    /// $C000-$DFFF is swappable; $8000-$9FFF is fixed to the second-to-last
    /// bank.
    SwappableC000,
}

/// The bit-packed bank-select register, written at even addresses in
/// $8000-$9FFF.
#[derive(Clone, Copy, Debug, PartialEq, Eq, Structural)]
pub struct TxBankSelect(pub u8);

impl TxBankSelect {
    /// Which of the eight bank slots the next data write targets (low 3 bits).
    pub open spec fn spec_bank_update_select(self) -> u8 {
        self.0 & 0x7
    }

    /// The PRG bank mode bit 6 encodes.
    pub open spec fn spec_prg_bank_mode(self) -> TxPrgBankMode {
        if self.0 & 0x40 == 0 {
            TxPrgBankMode::Swappable8000
        } else {
            TxPrgBankMode::SwappableC000
        }
    }

    pub fn bank_update_select(self) -> (s: u8)
        ensures
            s == self.spec_bank_update_select(),
    {
        self.0 & 0x7
    }

    pub fn prg_bank_mode(self) -> (m: TxPrgBankMode)
        ensures
            m == self.spec_prg_bank_mode(),
    {
        if self.0 & 0x40 == 0 {
            TxPrgBankMode::Swappable8000
        } else {
            TxPrgBankMode::SwappableC000
        }
    }
}

/// The chip's directly written register.
#[derive(Clone, Copy, Debug, PartialEq, Eq, Structural)]
pub struct TxRegs {
    /// Bank select, written at even addresses in $8000-$9FFF.
    pub bank_select: TxBankSelect,
}

/// Mathematical model of a [`TxRom`] chip.
#[verifier::ext_equal]
pub ghost struct TxRomView {
    pub rom: RomView,
    pub regs: TxRegs,
    pub prg_ram: Seq<u8>,
    pub chr_banks_2k: Seq<u8>,
    pub chr_banks_1k: Seq<u8>,
    pub prg_banks: Seq<u8>,
}

impl TxRomView {
    pub open spec fn inv(self) -> bool {
        &&& self.rom.wf()
        &&& self.prg_ram.len() == TX_RAM_BYTES
        &&& self.chr_banks_2k.len() == 2
        &&& self.chr_banks_1k.len() == 4
        &&& self.prg_banks.len() == 2
    }

    /// The chip state right after construction: bank select 0, every bank
    /// slot 0, PRG-RAM zero-filled.
    pub open spec fn init(rom: RomView) -> TxRomView {
        TxRomView {
            rom,
            regs: TxRegs { bank_select: TxBankSelect(0) },
            prg_ram: Seq::new(TX_RAM_BYTES as nat, |i: int| 0u8),
            chr_banks_2k: seq![0u8, 0u8],
            chr_banks_1k: seq![0u8, 0u8, 0u8, 0u8],
            prg_banks: seq![0u8, 0u8],
        }
    }

    /// Total number of 8 KB PRG banks the image holds: twice the header's
    /// 16 KB bank count.
    pub open spec fn prg_bank_count(self) -> int {
        self.rom.prg_rom_size as int * 2
    }

    /// The 8 KB PRG bank a load at or above $8000 resolves to, reduced modulo
    /// the bank count: per window either the slot the registers select or a
    /// fixed position near the end of the image.
    pub open spec fn prg_bank_at(self, addr: u16) -> int {
        if addr < 0xa000 {
            match self.regs.bank_select.spec_prg_bank_mode() {
                TxPrgBankMode::Swappable8000 => self.prg_banks[0] as int % self.prg_bank_count(),
                TxPrgBankMode::SwappableC000 => self.prg_bank_count() - 2,
            }
        } else if addr < 0xc000 {
            self.prg_banks[1] as int % self.prg_bank_count()
        } else if addr < 0xe000 {
            match self.regs.bank_select.spec_prg_bank_mode() {
                TxPrgBankMode::Swappable8000 => self.prg_bank_count() - 2,
                TxPrgBankMode::SwappableC000 => self.prg_banks[0] as int % self.prg_bank_count(),
            }
        } else {
            self.prg_bank_count() - 1
        }
    }

    /// The byte a PRG load returns: addresses below $6000 read 0, $6000-$7FFF
    /// is PRG-RAM, and above that the selected 8 KB bank indexed by the low 13
    /// address bits.
    pub open spec fn prg_load(self, addr: u16) -> u8 {
        if addr < 0x6000 {
            0
        } else if addr < 0x8000 {
            self.prg_ram[(addr & 0x1fff) as int]
        } else {
            self.rom.prg[self.prg_bank_at(addr) * TX_PRG_BANK_BYTES as int + (addr & 0x1fff) as int]
        }
    }

    /// The bank slots after a data write of `val`: the current
    /// bank-update-select value picks one slot in one of the three arrays and
    /// leaves the other arrays alone.
    pub open spec fn bank_data_store(self, val: u8) -> TxRomView {
        let sel = self.regs.bank_select.spec_bank_update_select();
        if sel < 2 {
            TxRomView { chr_banks_2k: self.chr_banks_2k.update(sel as int, val), ..self }
        } else if sel < 6 {
            TxRomView { chr_banks_1k: self.chr_banks_1k.update(sel as int - 2, val), ..self }
        } else {
            TxRomView { prg_banks: self.prg_banks.update(sel as int - 6, val), ..self }
        }
    }

    /// The chip state a PRG store leaves behind. Writes below $6000 are
    /// ignored; $6000-$7FFF writes PRG-RAM; in $8000-$9FFF an even address
    /// replaces the bank-select register and an odd address is a data write
    /// into the selected bank slot; $A000 and above is the real chip's
    /// IRQ/mirroring space, accepted and ignored here.
    pub open spec fn prg_store(self, addr: u16, val: u8) -> TxRomView {
        if addr < 0x6000 {
            self
        } else if addr < 0x8000 {
            TxRomView { prg_ram: self.prg_ram.update((addr & 0x1fff) as int, val), ..self }
        } else if addr < 0xa000 {
            if addr & 1 == 0 {
                TxRomView { regs: TxRegs { bank_select: TxBankSelect(val) }, ..self }
            } else {
                self.bank_data_store(val)
            }
        } else {
            self
        }
    }

    /// The byte a CHR load returns: the ROM's CHR sequence by raw address,
    /// ignoring the CHR bank slots, 0 where the sequence is shorter. Applying
    /// the CHR slots is a documented limitation of this chip model.
    pub open spec fn chr_load(self, addr: u16) -> u8 {
        if addr < self.rom.chr.len() {
            self.rom.chr[addr as int]
        } else {
            0
        }
    }
}

/// The indexed banking chip. Besides the ROM image it owns the bank-select
/// register, the eight bank slots it indexes, and 8 KB of PRG-RAM.
pub struct TxRom {
    pub rom: Rom,
    pub regs: TxRegs,
    pub prg_ram: Vec<u8>,
    /// Two 2 KB CHR bank slots (data-write targets 0-1).
    pub chr_banks_2k: Vec<u8>,
    /// Four 1 KB CHR bank slots (data-write targets 2-5).
    pub chr_banks_1k: Vec<u8>,
    /// Two 8 KB PRG bank slots (data-write targets 6-7).
    pub prg_banks: Vec<u8>,
}

impl View for TxRom {
    type V = TxRomView;

    open spec fn view(&self) -> TxRomView {
        TxRomView {
            rom: self.rom@,
            regs: self.regs,
            prg_ram: self.prg_ram@,
            chr_banks_2k: self.chr_banks_2k@,
            chr_banks_1k: self.chr_banks_1k@,
            prg_banks: self.prg_banks@,
        }
    }
}

impl TxRom {
    pub fn new(rom: Rom) -> (m: TxRom)
        ensures
            m@ == TxRomView::init(rom@),
    {
        let m = TxRom {
            rom,
            regs: TxRegs { bank_select: TxBankSelect(0) },
            prg_ram: zeroed(TX_RAM_BYTES),
            chr_banks_2k: zeroed(2),
            chr_banks_1k: zeroed(4),
            prg_banks: zeroed(2),
        };
        proof {
            assert(m@.chr_banks_2k =~= TxRomView::init(rom@).chr_banks_2k);
            assert(m@.chr_banks_1k =~= TxRomView::init(rom@).chr_banks_1k);
            assert(m@.prg_banks =~= TxRomView::init(rom@).prg_banks);
            assert(m@ =~= TxRomView::init(rom@));
        }
        m
    }

    /// Total number of 8 KB PRG banks the image holds.
    pub fn prg_bank_count(&self) -> (n: usize)
        ensures
            n == self@.prg_bank_count(),
    {
        (self.rom.prg_rom_size as usize) * 2
    }
}

impl Mapper for TxRom {
    open spec fn inv(&self) -> bool {
        self@.inv()
    }

    open spec fn prg_load_spec(&self, addr: u16) -> u8 {
        self@.prg_load(addr)
    }

    open spec fn prg_store_spec(&self, addr: u16, val: u8) -> TxRomView {
        self@.prg_store(addr, val)
    }

    open spec fn chr_load_spec(&self, addr: u16) -> u8 {
        self@.chr_load(addr)
    }

    open spec fn chr_store_spec(&self, addr: u16, val: u8) -> TxRomView {
        self@
    }

    fn prg_loadb(&mut self, addr: u16) -> (b: u8) {
        if addr < 0x6000 {
            return 0;
        }
        if addr < 0x8000 {
            let i = (addr & 0x1fff) as usize;
            proof {
                assert(addr & 0x1fff < 0x2000) by (bit_vector);
            }
            return self.prg_ram[i];
        }
        let count = self.prg_bank_count();
        let bank: usize = if addr < 0xa000 {
            match self.regs.bank_select.prg_bank_mode() {
                TxPrgBankMode::Swappable8000 => (self.prg_banks[0] as usize) % count,
                TxPrgBankMode::SwappableC000 => count - 2,
            }
        } else if addr < 0xc000 {
            (self.prg_banks[1] as usize) % count
        } else if addr < 0xe000 {
            match self.regs.bank_select.prg_bank_mode() {
                TxPrgBankMode::Swappable8000 => count - 2,
                TxPrgBankMode::SwappableC000 => (self.prg_banks[0] as usize) % count,
            }
        } else {
            count - 1
        };
        let low = (addr & 0x1fff) as usize;
        let off = bank * TX_PRG_BANK_BYTES + low;
        proof {
            assert(addr & 0x1fff < 0x2000) by (bit_vector);
            assert(bank * TX_PRG_BANK_BYTES as int + low < count * TX_PRG_BANK_BYTES as int)
                by (nonlinear_arith)
                requires
                    bank < count,
                    low < TX_PRG_BANK_BYTES as int,
            ;
        }
        self.rom.prg[off]
    }

    fn prg_storeb(&mut self, addr: u16, val: u8) {
        if addr < 0x6000 {
            return;
        }
        if addr < 0x8000 {
            let i = (addr & 0x1fff) as usize;
            proof {
                assert(addr & 0x1fff < 0x2000) by (bit_vector);
            }
            self.prg_ram[i] = val;
            proof {
                assert(self@ =~= old(self)@.prg_store(addr, val));
            }
        } else if addr < 0xa000 {
            if addr & 1 == 0 {
                // Bank select.
                self.regs.bank_select = TxBankSelect(val);
            } else {
                // Bank data: the selected slot takes the written value.
                let sel = self.regs.bank_select.bank_update_select();
                proof {
                    let s0 = self.regs.bank_select.0;
                    assert(s0 & 0x7 < 8) by (bit_vector);
                }
                if sel < 2 {
                    self.chr_banks_2k[sel as usize] = val;
                } else if sel < 6 {
                    self.chr_banks_1k[(sel - 2) as usize] = val;
                } else {
                    self.prg_banks[(sel - 6) as usize] = val;
                }
                proof {
                    assert(self@ =~= old(self)@.prg_store(addr, val));
                }
            }
        } else {
            // IRQ and mirroring configuration in the real chip; not modelled.
        }
    }

    fn chr_loadb(&mut self, addr: u16) -> (b: u8) {
        let i = addr as usize;
        if i < self.rom.chr.len() {
            self.rom.chr[i]
        } else {
            0
        }
    }

    fn chr_storeb(&mut self, addr: u16, val: u8) {
        // CHR is served straight from the ROM image: stores are ignored.
    }
}

/// Selecting a bank slot and then writing data through an odd address updates
/// exactly that slot: targets 6 and 7 set the two PRG banks, targets 0-5 set
/// the CHR slot arrays, and no write crosses into the other arrays, the
/// bank-select register, the RAM, or the ROM.
pub proof fn lemma_tx_select_then_data(t: TxRomView, a_sel: u16, a_data: u16, sel: u8, v: u8)
    requires
        t.inv(),
        0x8000 <= a_sel < 0xa000 && a_sel & 1 == 0,
        0x8000 <= a_data < 0xa000 && a_data & 1 == 1,
    ensures
        ({
            let u = t.prg_store(a_sel, sel).prg_store(a_data, v);
            &&& (sel & 7 == 6 ==> u.prg_banks == t.prg_banks.update(0, v))
            &&& (sel & 7 == 7 ==> u.prg_banks == t.prg_banks.update(1, v))
            &&& (sel & 7 < 6 ==> u.prg_banks == t.prg_banks)
            &&& (sel & 7 < 2 ==> u.chr_banks_2k == t.chr_banks_2k.update((sel & 7) as int, v))
            &&& (sel & 7 >= 2 ==> u.chr_banks_2k == t.chr_banks_2k)
            &&& (2 <= sel & 7 < 6 ==> u.chr_banks_1k == t.chr_banks_1k.update(
                (sel & 7) as int - 2,
                v,
            ))
            &&& (sel & 7 < 2 || sel & 7 >= 6 ==> u.chr_banks_1k == t.chr_banks_1k)
            &&& u.regs.bank_select == TxBankSelect(sel)
            &&& u.prg_ram == t.prg_ram
            &&& u.rom == t.rom
        }),
{
    assert(sel & 7 < 8) by (bit_vector);
}

/// The window opposite the swappable one is pinned: with mode swappable-at-
/// $8000 every load in $C000-$DFFF resolves to the second-to-last physical
/// bank whatever the bank slots hold, and with mode swappable-at-$C000 the
/// same holds of $8000-$9FFF.
pub proof fn lemma_tx_fixed_window(t: TxRomView, addr: u16)
    requires
        t.inv(),
    ensures
        t.regs.bank_select.spec_prg_bank_mode() == TxPrgBankMode::Swappable8000 && 0xc000 <= addr
            < 0xe000 ==> t.prg_load(addr) == t.rom.prg[(t.prg_bank_count() - 2)
            * TX_PRG_BANK_BYTES as int + (addr & 0x1fff) as int],
        t.regs.bank_select.spec_prg_bank_mode() == TxPrgBankMode::SwappableC000 && 0x8000 <= addr
            < 0xa000 ==> t.prg_load(addr) == t.rom.prg[(t.prg_bank_count() - 2)
            * TX_PRG_BANK_BYTES as int + (addr & 0x1fff) as int],
{
}

/// Loads in $E000-$FFFF always resolve to the last physical bank: the result
/// does not depend on the registers or bank slots at all, only on the ROM.
pub proof fn lemma_tx_last_bank_fixed(t1: TxRomView, t2: TxRomView, addr: u16)
    requires
        t1.inv(),
        t1.rom == t2.rom,
        addr >= 0xe000,
    ensures
        t1.prg_load(addr) == t1.rom.prg[(t1.prg_bank_count() - 1) * TX_PRG_BANK_BYTES as int + (addr
            & 0x1fff) as int],
        t1.prg_load(addr) == t2.prg_load(addr),
{
}

} // verus!
