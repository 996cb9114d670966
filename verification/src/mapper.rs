//! The mapper capability: the four-operation seam CPU and PPU emulation bind
//! to, and the factory that picks the chip a loaded ROM asks for.

use vstd::prelude::*;

use crate::nrom::{Nrom, NromView};
use crate::rom::Rom;
use crate::sxrom::{SxRom, SxRomView};
use crate::txrom::{TxRom, TxRomView};

verus! {

/// The capability every cartridge mapper chip implements.
///
/// `prg_loadb`/`prg_storeb` cover the CPU-visible PRG address space,
/// `chr_loadb`/`chr_storeb` the PPU-visible pattern-table space. No operation
/// may fail for any 16-bit address: out-of-window addresses read 0 and ignore
/// writes. A store is the only path by which chip registers change; loads
/// never have a side effect.
pub trait Mapper: Sized + View {
    /// The chip's internal invariant, established at construction and
    /// preserved by every store.
    spec fn inv(&self) -> bool;

    /// The byte a PRG load at `addr` returns.
    spec fn prg_load_spec(&self, addr: u16) -> u8;

    /// The chip state a PRG store of `val` at `addr` leaves behind.
    spec fn prg_store_spec(&self, addr: u16, val: u8) -> Self::V;

    /// The byte a CHR load at `addr` returns.
    spec fn chr_load_spec(&self, addr: u16) -> u8;

    /// The chip state a CHR store of `val` at `addr` leaves behind.
    spec fn chr_store_spec(&self, addr: u16, val: u8) -> Self::V;

    /// Read from the CPU-visible PRG address space.
    fn prg_loadb(&mut self, addr: u16) -> (b: u8)
        requires
            old(self).inv(),
        ensures
            *final(self) == *old(self),
            b == old(self).prg_load_spec(addr),
    ;

    /// Write to the CPU-visible PRG address space.
    fn prg_storeb(&mut self, addr: u16, val: u8)
        requires
            old(self).inv(),
        ensures
            final(self).inv(),
            final(self)@ == old(self).prg_store_spec(addr, val),
    ;

    /// Read from the PPU-visible pattern-table address space.
    fn chr_loadb(&mut self, addr: u16) -> (b: u8)
        requires
            old(self).inv(),
        ensures
            *final(self) == *old(self),
            b == old(self).chr_load_spec(addr),
    ;

    /// Write to the PPU-visible pattern-table address space.
    fn chr_storeb(&mut self, addr: u16, val: u8)
        requires
            old(self).inv(),
        ensures
            final(self).inv(),
            final(self)@ == old(self).chr_store_spec(addr, val),
    ;
}

/// Load-time failure of the factory.
#[derive(Clone, Copy, Debug, PartialEq, Eq, Structural)]
pub enum MapperError {
    /// The ROM declares a mapper id outside the implemented set {0, 1, 4}.
    UnsupportedMapper,
}

/// Mathematical model of a [`MapperChip`]: the live variant's model.
#[verifier::ext_equal]
pub ghost enum MapperChipView {
    Nrom(NromView),
    SxRom(SxRomView),
    TxRom(TxRomView),
}

/// The chip variants the factory can construct, behind one owned value. CPU
/// and PPU emulation drive it through the [`Mapper`] capability and never
/// learn which chip is live.
pub enum MapperChip {
    Nrom(Nrom),
    SxRom(SxRom),
    TxRom(TxRom),
}

impl View for MapperChip {
    type V = MapperChipView;

    open spec fn view(&self) -> MapperChipView {
        match self {
            MapperChip::Nrom(m) => MapperChipView::Nrom(m@),
            MapperChip::SxRom(m) => MapperChipView::SxRom(m@),
            MapperChip::TxRom(m) => MapperChipView::TxRom(m@),
        }
    }
}

impl Mapper for MapperChip {
    open spec fn inv(&self) -> bool {
        match self {
            MapperChip::Nrom(m) => m.inv(),
            MapperChip::SxRom(m) => m.inv(),
            MapperChip::TxRom(m) => m.inv(),
        }
    }

    open spec fn prg_load_spec(&self, addr: u16) -> u8 {
        match self {
            MapperChip::Nrom(m) => m.prg_load_spec(addr),
            MapperChip::SxRom(m) => m.prg_load_spec(addr),
            MapperChip::TxRom(m) => m.prg_load_spec(addr),
        }
    }

    open spec fn prg_store_spec(&self, addr: u16, val: u8) -> MapperChipView {
        match self {
            MapperChip::Nrom(m) => MapperChipView::Nrom(m.prg_store_spec(addr, val)),
            MapperChip::SxRom(m) => MapperChipView::SxRom(m.prg_store_spec(addr, val)),
            MapperChip::TxRom(m) => MapperChipView::TxRom(m.prg_store_spec(addr, val)),
        }
    }

    open spec fn chr_load_spec(&self, addr: u16) -> u8 {
        match self {
            MapperChip::Nrom(m) => m.chr_load_spec(addr),
            MapperChip::SxRom(m) => m.chr_load_spec(addr),
            MapperChip::TxRom(m) => m.chr_load_spec(addr),
        }
    }

    open spec fn chr_store_spec(&self, addr: u16, val: u8) -> MapperChipView {
        match self {
            MapperChip::Nrom(m) => MapperChipView::Nrom(m.chr_store_spec(addr, val)),
            MapperChip::SxRom(m) => MapperChipView::SxRom(m.chr_store_spec(addr, val)),
            MapperChip::TxRom(m) => MapperChipView::TxRom(m.chr_store_spec(addr, val)),
        }
    }

    fn prg_loadb(&mut self, addr: u16) -> (b: u8) {
        match self {
            MapperChip::Nrom(m) => m.prg_loadb(addr),
            MapperChip::SxRom(m) => m.prg_loadb(addr),
            MapperChip::TxRom(m) => m.prg_loadb(addr),
        }
    }

    fn prg_storeb(&mut self, addr: u16, val: u8) {
        match self {
            MapperChip::Nrom(m) => m.prg_storeb(addr, val),
            MapperChip::SxRom(m) => m.prg_storeb(addr, val),
            MapperChip::TxRom(m) => m.prg_storeb(addr, val),
        }
    }

    fn chr_loadb(&mut self, addr: u16) -> (b: u8) {
        match self {
            MapperChip::Nrom(m) => m.chr_loadb(addr),
            MapperChip::SxRom(m) => m.chr_loadb(addr),
            MapperChip::TxRom(m) => m.chr_loadb(addr),
        }
    }

    fn chr_storeb(&mut self, addr: u16, val: u8) {
        match self {
            MapperChip::Nrom(m) => m.chr_storeb(addr, val),
            MapperChip::SxRom(m) => m.chr_storeb(addr, val),
            MapperChip::TxRom(m) => m.chr_storeb(addr, val),
        }
    }
}

/// The live chip variant never changes: a store reconfigures registers inside
/// the variant the factory selected, never the selection itself.
pub proof fn lemma_store_preserves_variant(c: MapperChip, addr: u16, val: u8)
    ensures
        c@ is Nrom <==> c.prg_store_spec(addr, val) is Nrom,
        c@ is SxRom <==> c.prg_store_spec(addr, val) is SxRom,
        c@ is TxRom <==> c.prg_store_spec(addr, val) is TxRom,
        c@ is Nrom <==> c.chr_store_spec(addr, val) is Nrom,
        c@ is SxRom <==> c.chr_store_spec(addr, val) is SxRom,
        c@ is TxRom <==> c.chr_store_spec(addr, val) is TxRom,
{
}

/// Constructs the chip the ROM's declared mapper id asks for, consuming the
/// image: id 0 builds the fixed-mapping chip, id 1 the shift-register banking
/// chip, id 4 the indexed banking chip, and exactly every other id fails with
/// the unsupported-configuration error, so loading can abort.
pub fn create_mapper(rom: Rom) -> (r: Result<MapperChip, MapperError>)
    requires
        rom@.wf(),
    ensures
        r is Ok <==> (rom.mapper == 0 || rom.mapper == 1 || rom.mapper == 4),
        rom.mapper == 0 ==> (r matches Ok(c) && c@ == MapperChipView::Nrom(
            NromView { rom: rom@ },
        )),
        rom.mapper == 1 ==> (r matches Ok(c) && c@ == MapperChipView::SxRom(
            SxRomView::init(rom@),
        )),
        rom.mapper == 4 ==> (r matches Ok(c) && c@ == MapperChipView::TxRom(
            TxRomView::init(rom@),
        )),
        r matches Ok(c) ==> c.inv(),
        !(rom.mapper == 0 || rom.mapper == 1 || rom.mapper == 4) ==> r == Err::<
            MapperChip,
            MapperError,
        >(MapperError::UnsupportedMapper),
{
    match rom.mapper {
        0 => Ok(MapperChip::Nrom(Nrom::new(rom))),
        1 => Ok(MapperChip::SxRom(SxRom::new(rom))),
        4 => Ok(MapperChip::TxRom(TxRom::new(rom))),
        _ => Err(MapperError::UnsupportedMapper),
    }
}

} // verus!
