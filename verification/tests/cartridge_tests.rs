use nes_core::cartridge::Cartridge;
use nes_core::cartridge::INesHeader;
use nes_core::error::Error;
use nes_core::error::ParseError;
use nes_core::mapper::Mapper;
use nes_core::rom::Rom;

fn header(nprg: u8, nchr: u8, control1: u8, control2: u8, nram: u8) -> Vec<u8> {
    let mut v = vec![0x4eu8, 0x45, 0x53, 0x1a, nprg, nchr, control1, control2, nram];
    while v.len() < 16 {
        v.push(0);
    }
    v
}

fn simple_rom() -> Vec<u8> {
    let mut v = header(1, 1, 0, 0, 0);
    let mut prg = vec![0u8; 16384];
    prg[0] = 0xab;
    prg[16383] = 0xcd;
    v.extend_from_slice(&prg);
    let mut chr = vec![0u8; 8192];
    chr[0] = 0x11;
    v.extend_from_slice(&chr);
    v
}

#[test]
fn parse_valid_rom() {
    let c = Cartridge::new(simple_rom()).unwrap();
    assert_eq!(c.read(0x8000), Ok(0xab));
    assert_eq!(c.read(0x0000), Ok(0x11));
}

#[test]
fn parse_short_header() {
    assert_eq!(
        Cartridge::new(vec![0x4e, 0x45, 0x53]).map(|_| ()),
        Err(Error::Parse(ParseError::ShortHeader))
    );
}

#[test]
fn parse_bad_magic() {
    let mut v = simple_rom();
    v[3] = 0x00;
    assert_eq!(Cartridge::new(v).map(|_| ()), Err(Error::Parse(ParseError::BadMagic)));
}

#[test]
fn parse_short_trainer() {
    // Trainer flag set, but only the 16-byte header present.
    let v = header(1, 1, 0b100, 0, 0);
    assert_eq!(Cartridge::new(v).map(|_| ()), Err(Error::Parse(ParseError::ShortTrainer)));
}

#[test]
fn parse_trainer_skipped() {
    // 512 trainer bytes sit between the header and the PRG data.
    let mut v = header(1, 1, 0b100, 0, 0);
    v.extend_from_slice(&vec![0xeeu8; 512]);
    let mut prg = vec![0u8; 16384];
    prg[0] = 0x42;
    v.extend_from_slice(&prg);
    v.extend_from_slice(&vec![0u8; 8192]);
    let c = Cartridge::new(v).unwrap();
    assert_eq!(c.read(0x8000), Ok(0x42));
}

#[test]
fn parse_short_prg() {
    let mut v = header(1, 1, 0, 0, 0);
    v.extend_from_slice(&vec![0u8; 1000]);
    assert_eq!(Cartridge::new(v).map(|_| ()), Err(Error::Parse(ParseError::ShortPrg)));
}

#[test]
fn parse_short_chr() {
    let mut v = header(1, 1, 0, 0, 0);
    v.extend_from_slice(&vec![0u8; 16384]);
    v.extend_from_slice(&vec![0u8; 100]);
    assert_eq!(Cartridge::new(v).map(|_| ()), Err(Error::Parse(ParseError::ShortChr)));
}

#[test]
fn parse_unknown_mapper() {
    // Mapper number 2: low nibble from control1's high nibble.
    let mut v = header(1, 1, 0x20, 0, 0);
    v.extend_from_slice(&vec![0u8; 16384 + 8192]);
    assert_eq!(
        Cartridge::new(v).map(|_| ()),
        Err(Error::Parse(ParseError::UnknownMapper(2)))
    );
}

#[test]
fn header_mapper_number() {
    let h = INesHeader { nprg: 1, nchr: 1, control1: 0x10, control2: 0x00, nram: 0 };
    assert!(matches!(h.mapper(), Ok(Mapper::Mmc1(_))));
    let h = INesHeader { nprg: 2, nchr: 1, control1: 0x00, control2: 0x00, nram: 0 };
    assert!(matches!(h.mapper(), Ok(Mapper::Nrom(m)) if m.nprg == 2));
    let h = INesHeader { nprg: 1, nchr: 1, control1: 0x30, control2: 0x10, nram: 0 };
    assert_eq!(h.mapper(), Err(Error::Parse(ParseError::UnknownMapper(0x13))));
}

#[test]
fn header_trainer_flag() {
    let h = INesHeader { nprg: 1, nchr: 1, control1: 0b100, control2: 0, nram: 0 };
    assert!(h.has_trainer());
    let h = INesHeader { nprg: 1, nchr: 1, control1: 0b011, control2: 0, nram: 0 };
    assert!(!h.has_trainer());
}

#[test]
fn header_sram_sizes() {
    let h = INesHeader { nprg: 1, nchr: 1, control1: 0, control2: 0, nram: 0 };
    assert_eq!(h.sram().len(), 8192);
    let h = INesHeader { nprg: 1, nchr: 1, control1: 0, control2: 0, nram: 3 };
    assert_eq!(h.sram().len(), 3 * 8192);
}

#[test]
fn cartridge_sram_round_trip() {
    let mut c = Cartridge::new(simple_rom()).unwrap();
    assert_eq!(c.write(0x6123, 0x77), Ok(()));
    assert_eq!(c.read(0x6123), Ok(0x77));
}

#[test]
fn cartridge_bus_error() {
    let c = Cartridge::new(simple_rom()).unwrap();
    assert_eq!(c.read(0x3000), Err(Error::Bus(0x3000)));
}

#[test]
fn nrom_prg_mirroring() {
    // One 16 KiB bank mirrors across the whole 0x8000-0xFFFF window.
    let c = Cartridge::new(simple_rom()).unwrap();
    assert_eq!(c.read(0x8000), c.read(0xc000));
    assert_eq!(c.read(0xbfff), c.read(0xffff));
    assert_eq!(c.read(0xffff), Ok(0xcd));
}

#[test]
fn rom_from_bytes_short() {
    assert!(Rom::from_bytes(vec![0; 9]).is_none());
}

#[test]
fn rom_from_bytes_payload() {
    let mut v = vec![0u8; 9];
    v.push(0x5a);
    v.push(0x5b);
    let r = Rom::from_bytes(v).unwrap();
    assert_eq!(r.data, vec![0x5a, 0x5b]);
}

#[test]
fn prg_writes_never_stick() {
    // A store into the PRG window is forwarded for mapper latching and
    // leaves the ROM bytes as the container delivered them.
    let mut c = Cartridge::new(simple_rom()).unwrap();
    assert_eq!(c.write(0x8000, 0x00), Ok(()));
    assert_eq!(c.read(0x8000), Ok(0xab));
    assert_eq!(c.write(0xffff, 0x00), Ok(()));
    assert_eq!(c.read(0xffff), Ok(0xcd));
}
