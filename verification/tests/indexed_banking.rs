use nes_mappers::mapper::Mapper;
use nes_mappers::rom::Rom;
use nes_mappers::txrom::{TxBankSelect, TxPrgBankMode, TxRom};

fn patterned(len: usize) -> Vec<u8> {
    let mut v = vec![0u8; len];
    let mut i = 0;
    while i < len {
        v[i] = (i % 251) as u8;
        i += 1;
    }
    v
}

fn tx_with(prg_len: usize, chr: Vec<u8>) -> TxRom {
    TxRom::new(Rom::new(patterned(prg_len), chr, 4, 0).unwrap())
}

fn select_then_write(m: &mut TxRom, sel: u8, val: u8) {
    m.prg_storeb(0x8000, sel);
    m.prg_storeb(0x8001, val);
}

#[test]
fn bank_select_decoders() {
    assert_eq!(TxBankSelect(0x05).bank_update_select(), 5);
    assert_eq!(TxBankSelect(0xff).bank_update_select(), 7);
    assert_eq!(TxBankSelect(0x00).prg_bank_mode(), TxPrgBankMode::Swappable8000);
    assert_eq!(TxBankSelect(0x40).prg_bank_mode(), TxPrgBankMode::SwappableC000);
    assert_eq!(TxBankSelect(0xbf).prg_bank_mode(), TxPrgBankMode::Swappable8000);
}

#[test]
fn data_writes_reach_exactly_the_selected_slot() {
    let mut m = tx_with(32768, Vec::new());
    select_then_write(&mut m, 6, 0x11);
    assert_eq!(m.prg_banks, vec![0x11, 0x00]);
    select_then_write(&mut m, 7, 0x22);
    assert_eq!(m.prg_banks, vec![0x11, 0x22]);
    select_then_write(&mut m, 0, 0x33);
    select_then_write(&mut m, 1, 0x44);
    assert_eq!(m.chr_banks_2k, vec![0x33, 0x44]);
    select_then_write(&mut m, 2, 0x55);
    select_then_write(&mut m, 5, 0x66);
    assert_eq!(m.chr_banks_1k, vec![0x55, 0x00, 0x00, 0x66]);
    // CHR slot writes never bleed into PRG bank state, nor the reverse.
    assert_eq!(m.prg_banks, vec![0x11, 0x22]);
    select_then_write(&mut m, 6, 0x77);
    assert_eq!(m.chr_banks_2k, vec![0x33, 0x44]);
    assert_eq!(m.chr_banks_1k, vec![0x55, 0x00, 0x00, 0x66]);
}

#[test]
fn prg_ram_round_trip() {
    let mut m = tx_with(32768, Vec::new());
    assert_eq!(m.prg_loadb(0x6000), 0);
    m.prg_storeb(0x6000, 0xab);
    m.prg_storeb(0x7fff, 0xcd);
    assert_eq!(m.prg_loadb(0x6000), 0xab);
    assert_eq!(m.prg_loadb(0x7fff), 0xcd);
    assert_eq!(m.prg_loadb(0x6001), 0);
}

#[test]
fn loads_below_window_read_zero_and_low_stores_are_ignored() {
    let mut m = tx_with(32768, Vec::new());
    m.prg_storeb(0x5fff, 0xee);
    assert_eq!(m.prg_loadb(0x0000), 0);
    assert_eq!(m.prg_loadb(0x5fff), 0);
}

#[test]
fn swappable_8000_window() {
    // Four 8 KB banks. Mode bit clear: $8000 follows prg_banks[0].
    let mut m = tx_with(32768, Vec::new());
    select_then_write(&mut m, 6, 1);
    assert_eq!(m.prg_loadb(0x8000), m.rom.prg[8192]);
    // $C000 is pinned to the second-to-last bank whatever the slots hold.
    assert_eq!(m.prg_loadb(0xc000), m.rom.prg[2 * 8192]);
    select_then_write(&mut m, 6, 3);
    assert_eq!(m.prg_loadb(0x8000), m.rom.prg[3 * 8192]);
    assert_eq!(m.prg_loadb(0xc000), m.rom.prg[2 * 8192]);
}

#[test]
fn swappable_c000_window() {
    // Mode bit set: the windows trade places.
    let mut m = tx_with(32768, Vec::new());
    m.prg_storeb(0x8000, 0x46);  // select slot 6, mode swappable-at-C000
    m.prg_storeb(0x8001, 1);
    assert_eq!(m.prg_loadb(0xc000), m.rom.prg[8192]);
    assert_eq!(m.prg_loadb(0x8000), m.rom.prg[2 * 8192]);
}

#[test]
fn a000_window_always_follows_second_slot() {
    let mut m = tx_with(32768, Vec::new());
    select_then_write(&mut m, 7, 2);
    assert_eq!(m.prg_loadb(0xa000), m.rom.prg[2 * 8192]);
    m.prg_storeb(0x8000, 0x47);
    m.prg_storeb(0x8001, 0);
    assert_eq!(m.prg_loadb(0xa000), m.rom.prg[0]);
}

#[test]
fn e000_window_always_reads_the_last_bank() {
    let mut m = tx_with(32768, Vec::new());
    let last = 3 * 8192;
    assert_eq!(m.prg_loadb(0xe000), m.rom.prg[last]);
    assert_eq!(m.prg_loadb(0xffff), m.rom.prg[last + 0x1fff]);
    // No register write moves it.
    select_then_write(&mut m, 6, 2);
    select_then_write(&mut m, 7, 1);
    m.prg_storeb(0x8000, 0x40);
    assert_eq!(m.prg_loadb(0xe000), m.rom.prg[last]);
}

#[test]
fn out_of_range_8k_bank_wraps_modulo() {
    let mut m = tx_with(16384, Vec::new());
    // Two 8 KB banks; slot value 5 folds to 5 % 2 = 1.
    select_then_write(&mut m, 6, 5);
    assert_eq!(m.prg_loadb(0x8000), m.rom.prg[8192]);
}

#[test]
fn high_writes_are_accepted_and_ignored() {
    let mut m = tx_with(32768, Vec::new());
    let before = m.prg_loadb(0x8000);
    m.prg_storeb(0xa000, 0xff);
    m.prg_storeb(0xe001, 0x12);
    assert_eq!(m.prg_loadb(0x8000), before);
    assert_eq!(m.regs.bank_select.0, 0);
}

#[test]
fn chr_reads_rom_and_ignores_stores() {
    let mut chr = vec![0u8; 8192];
    chr[5] = 0x99;
    let mut m = tx_with(16384, chr);
    assert_eq!(m.chr_loadb(5), 0x99);
    m.chr_storeb(5, 0x00);
    assert_eq!(m.chr_loadb(5), 0x99);
    // Beyond the CHR image reads 0.
    assert_eq!(m.chr_loadb(0x2000), 0);
}
