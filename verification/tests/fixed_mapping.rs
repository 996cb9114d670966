use nes_mappers::mapper::Mapper;
use nes_mappers::nrom::Nrom;
use nes_mappers::rom::Rom;

fn patterned(len: usize) -> Vec<u8> {
    let mut v = vec![0u8; len];
    let mut i = 0;
    while i < len {
        v[i] = (i % 251) as u8;
        i += 1;
    }
    v
}

fn nrom_with(prg_len: usize, chr: Vec<u8>) -> Nrom {
    Nrom::new(Rom::new(patterned(prg_len), chr, 0, 0).unwrap())
}

#[test]
fn low_addresses_read_zero() {
    let mut m = nrom_with(16384, Vec::new());
    assert_eq!(m.prg_loadb(0x0000), 0);
    assert_eq!(m.prg_loadb(0x6000), 0);
    assert_eq!(m.prg_loadb(0x7fff), 0);
}

#[test]
fn prg_store_is_a_no_op() {
    let mut m = nrom_with(16384, Vec::new());
    let before = m.prg_loadb(0x8123);
    m.prg_storeb(0x8123, 0xff);
    m.prg_storeb(0x0123, 0xff);
    assert_eq!(m.prg_loadb(0x8123), before);
}

#[test]
fn mirroring_of_16k_image() {
    let mut m = nrom_with(16384, Vec::new());
    for k in [0u16, 1, 0x1234, 0x3ffe, 0x3fff] {
        assert_eq!(m.prg_loadb(0x8000 + k), m.prg_loadb(0xc000 + k));
    }
    assert_eq!(m.prg_loadb(0x8000), m.rom.prg[0]);
    assert_eq!(m.prg_loadb(0xc000), m.rom.prg[0]);
}

#[test]
fn large_image_fills_whole_window() {
    let mut m = nrom_with(32768, Vec::new());
    assert_eq!(m.prg_loadb(0x8000), m.rom.prg[0]);
    assert_eq!(m.prg_loadb(0xc000), m.rom.prg[0x4000]);
    assert_eq!(m.prg_loadb(0xffff), m.rom.prg[0x7fff]);
}

#[test]
fn chr_reads_rom_bytes() {
    let mut chr = vec![0u8; 8192];
    chr[0] = 0xaa;
    chr[0x1fff] = 0x55;
    let mut m = nrom_with(16384, chr);
    assert_eq!(m.chr_loadb(0x0000), 0xaa);
    assert_eq!(m.chr_loadb(0x1fff), 0x55);
}

#[test]
fn chr_store_is_a_no_op() {
    let mut m = nrom_with(16384, vec![7u8; 8192]);
    m.chr_storeb(0x0010, 0xff);
    assert_eq!(m.chr_loadb(0x0010), 7);
}

#[test]
fn chr_beyond_image_reads_zero() {
    let mut m = nrom_with(16384, vec![7u8; 16]);
    assert_eq!(m.chr_loadb(0x0008), 7);
    assert_eq!(m.chr_loadb(0x0010), 0);
    let mut empty = nrom_with(16384, Vec::new());
    assert_eq!(empty.chr_loadb(0), 0);
}
