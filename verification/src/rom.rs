//! The parsed cartridge image that every mapper chip owns.

use vstd::prelude::*;

verus! {

/// Number of bytes in one 16 KB PRG bank, the unit the header counts in.
pub const PRG_BANK_BYTES: usize = 16384;

/// Mathematical model of a [`Rom`]: the byte sequences plus the header fields.
#[verifier::ext_equal]
pub ghost struct RomView {
    pub prg: Seq<u8>,
    pub chr: Seq<u8>,
    pub mapper: u8,
    pub prg_rom_size: u8,
    pub mirroring_hint: u8,
}

impl RomView {
    /// The header agrees with the PRG image: a positive number of banks,
    /// and exactly that many 16 KB banks of PRG bytes.
    pub open spec fn wf(self) -> bool {
        &&& self.prg_rom_size >= 1
        &&& self.prg.len() == self.prg_rom_size as int * PRG_BANK_BYTES as int
    }
}

/// A parsed cartridge image: PRG bytes, CHR bytes and the header metadata the
/// mappers read. Produced by the ROM-loading collaborator and immutable
/// afterwards; a mapper chip takes it by ownership at construction.
pub struct Rom {
    /// PRG ROM bytes; the length is a positive multiple of 16384.
    pub prg: Vec<u8>,
    /// CHR ROM bytes; any length.
    pub chr: Vec<u8>,
    /// Mapper id declared by the header.
    pub mapper: u8,
    /// Number of 16 KB PRG banks; `prg` holds exactly this many.
    pub prg_rom_size: u8,
    /// Header-declared nametable mirroring hint.
    pub mirroring_hint: u8,
}

impl View for Rom {
    type V = RomView;

    open spec fn view(&self) -> RomView {
        RomView {
            prg: self.prg@,
            chr: self.chr@,
            mapper: self.mapper,
            prg_rom_size: self.prg_rom_size,
            mirroring_hint: self.mirroring_hint,
        }
    }
}

impl Rom {
    /// Builds a well-formed image from raw bytes, deriving the bank count from
    /// the PRG length. Returns `None` exactly when the PRG length is not a
    /// positive multiple of 16384, or holds more banks than the header field
    /// can count.
    pub fn new(prg: Vec<u8>, chr: Vec<u8>, mapper: u8, mirroring_hint: u8) -> (r: Option<Rom>)
        ensures
            r is Some <==> {
                &&& prg@.len() >= PRG_BANK_BYTES
                &&& prg@.len() as int % (PRG_BANK_BYTES as int) == 0
                &&& prg@.len() <= 255 * PRG_BANK_BYTES
            },
            r matches Some(rom) ==> {
                &&& rom@ == (RomView {
                    prg: prg@,
                    chr: chr@,
                    mapper,
                    prg_rom_size: (prg@.len() as int / (PRG_BANK_BYTES as int)) as u8,
                    mirroring_hint,
                })
                &&& rom@.wf()
            },
    {
        let len = prg.len();
        if len == 0 || len % PRG_BANK_BYTES != 0 || len / PRG_BANK_BYTES > 255 {
            None
        } else {
            let banks = len / PRG_BANK_BYTES;
            proof {
                vstd::arithmetic::div_mod::lemma_fundamental_div_mod(
                    len as int,
                    PRG_BANK_BYTES as int,
                );
            }
            Some(Rom { prg, chr, mapper, prg_rom_size: banks as u8, mirroring_hint })
        }
    }
}

/// A zero-filled byte vector: the initial contents of a chip's PRG-RAM or
/// CHR-RAM backing store.
pub fn zeroed(n: usize) -> (v: Vec<u8>)
    ensures
        v@ == Seq::new(n as nat, |i: int| 0u8),
{
    let mut v: Vec<u8> = Vec::new();
    let mut k: usize = 0;
    while k < n
        invariant
            k <= n,
            v@.len() == k,
            forall|i: int| 0 <= i < k ==> v@[i] == 0u8,
        decreases n - k,
    {
        v.push(0);
        k = k + 1;
    }
    proof {
        assert(v@ =~= Seq::new(n as nat, |i: int| 0u8));
    }
    v
}

} // verus!
