use nes_core::cartridge::Cartridge;
use nes_core::error::Error;
use nes_core::interconnect::Interconnect;
use nes_core::memory::Memory;

fn simple_rom() -> Vec<u8> {
    let mut v = vec![0x4eu8, 0x45, 0x53, 0x1a, 1, 1, 0, 0, 0, 0, 0, 0, 0, 0, 0, 0];
    v.extend_from_slice(&vec![0u8; 16384]);
    v.extend_from_slice(&vec![0u8; 8192]);
    v
}

fn interconnect() -> Interconnect {
    Interconnect::new(Cartridge::new(simple_rom()).unwrap())
}

#[test]
fn ram_mirroring_concrete() {
    // Writing anywhere in 0x0000-0x1FFF is visible at every address
    // that folds to the same RAM cell.
    let mut ic = interconnect();
    assert_eq!(ic.cpu_write(0x0005, 0x99), Ok(()));
    assert_eq!(ic.cpu_read(0x0005), Ok(0x99));
    assert_eq!(ic.cpu_read(0x0805), Ok(0x99));
    assert_eq!(ic.cpu_read(0x1005), Ok(0x99));
    assert_eq!(ic.cpu_read(0x1805), Ok(0x99));
    assert_eq!(ic.cpu_write(0x1fff, 0x41), Ok(()));
    assert_eq!(ic.cpu_read(0x07ff), Ok(0x41));
}

#[test]
fn ppu_address_latch_and_data() {
    let mut ic = interconnect();
    // Shift 0x2108 into the address latch, store through it, then read
    // the video memory back directly.
    assert_eq!(ic.cpu_write(0x2006, 0x21), Ok(()));
    assert_eq!(ic.cpu_write(0x2006, 0x08), Ok(()));
    assert_eq!(ic.cpu_write(0x2007, 0xab), Ok(()));
    assert_eq!(ic.ppu_read(0x2108), 0xab);
}

#[test]
fn ppu_register_fold() {
    // 0x3FFE folds to register 6, the address latch.
    let mut ic = interconnect();
    assert_eq!(ic.cpu_write(0x3ffe, 0x21), Ok(()));
    assert_eq!(ic.cpu_write(0x3ffe, 0x08), Ok(()));
    assert_eq!(ic.cpu_write(0x2007, 0xcd), Ok(()));
    assert_eq!(ic.ppu_read(0x2108), 0xcd);
}

#[test]
fn write_only_registers_reject_reads() {
    let mut ic = interconnect();
    assert_eq!(ic.cpu_read(0x2000), Err(Error::Bus(0x2000)));
    assert_eq!(ic.cpu_read(0x2001), Err(Error::Bus(0x2001)));
    assert_eq!(ic.cpu_read(0x4014), Err(Error::Bus(0x4014)));
}

#[test]
fn read_only_status_rejects_writes() {
    let mut ic = interconnect();
    assert_eq!(ic.cpu_write(0x2002, 0), Err(Error::Bus(0x2002)));
}

#[test]
fn unimplemented_regions_are_fatal() {
    let mut ic = interconnect();
    assert_eq!(ic.cpu_read(0x4000), Err(Error::Bus(0x4000)));
    assert_eq!(ic.cpu_read(0x4017), Err(Error::Bus(0x4017)));
    assert_eq!(ic.cpu_read(0x5000), Err(Error::Bus(0x5000)));
    assert_eq!(ic.cpu_write(0x4020, 1), Err(Error::Bus(0x4020)));
}

#[test]
fn status_read_and_peek_agree() {
    let mut ic = interconnect();
    assert_eq!(ic.cpu_peek(0x2002), Ok(0));
    assert_eq!(ic.cpu_read(0x2002), Ok(0));
}

#[test]
fn sram_through_bus() {
    let mut ic = interconnect();
    assert_eq!(ic.cpu_write(0x6000, 0x09), Ok(()));
    assert_eq!(ic.cpu_read(0x6000), Ok(0x09));
}

#[test]
fn read_u16_little_endian() {
    let mut ic = interconnect();
    assert_eq!(ic.cpu_write(0x0010, 0x34), Ok(()));
    assert_eq!(ic.cpu_write(0x0011, 0x12), Ok(()));
    assert_eq!(ic.cpu_read_u16(0x0010), Ok(0x1234));
}

#[test]
fn memory_map_ppu_region_is_flat() {
    // The flat map exposes the byte-addressable video view in the PPU
    // region, with no register side effects.
    let mut m = Memory::new(Cartridge::new(simple_rom()).unwrap());
    assert_eq!(m.write(0x2000, 0xaa), Ok(()));
    assert_eq!(m.read(0x2000), Ok(0xaa));
    assert_eq!(m.write(0x4014, 0x05), Ok(()));
    assert_eq!(m.read(0x4014), Ok(0x05));
    assert_eq!(m.read(0x4000), Err(Error::Bus(0x4000)));
}

#[test]
fn dma_pending_flag() {
    let mut ic = interconnect();
    assert!(!ic.dma());
    ic.set_dma(true);
    assert!(ic.dma());
    ic.set_dma(false);
    assert!(!ic.dma());
}

#[test]
fn data_register_read_advances_latch() {
    // Two authoritative reads of 0x2007 walk the address latch forward.
    let mut ic = interconnect();
    assert_eq!(ic.cpu_write(0x2006, 0x21), Ok(()));
    assert_eq!(ic.cpu_write(0x2006, 0x00), Ok(()));
    assert_eq!(ic.cpu_write(0x2007, 0x11), Ok(()));
    // The store did not advance the latch; point it back and read twice.
    assert_eq!(ic.cpu_write(0x2006, 0x21), Ok(()));
    assert_eq!(ic.cpu_write(0x2006, 0x00), Ok(()));
    assert_eq!(ic.cpu_read(0x2007), Ok(0x11));
    assert_eq!(ic.cpu_read(0x2007), Ok(0x00));
}

#[test]
fn peek_does_not_advance_latch() {
    // The observational path reads the same byte any number of times.
    let mut ic = interconnect();
    assert_eq!(ic.cpu_write(0x2006, 0x21), Ok(()));
    assert_eq!(ic.cpu_write(0x2006, 0x00), Ok(()));
    assert_eq!(ic.cpu_write(0x2007, 0x11), Ok(()));
    assert_eq!(ic.cpu_write(0x2006, 0x21), Ok(()));
    assert_eq!(ic.cpu_write(0x2006, 0x00), Ok(()));
    assert_eq!(ic.cpu_peek(0x2007), Ok(0x11));
    assert_eq!(ic.cpu_peek(0x2007), Ok(0x11));
    assert_eq!(ic.cpu_read(0x2007), Ok(0x11));
}

#[test]
fn control_register_decodes() {
    let mut ic = interconnect();
    assert_eq!(ic.cpu_write(0x2000, 0b1000_0111), Ok(()));
    let ppu = ic.ppu_interface_ref();
    assert_eq!(ppu.control().name_table_address, 0x2c00);
    assert_eq!(ppu.control().addr_inc, 32);
    assert!(ppu.control().nmi);
}

#[test]
fn mask_register_decodes() {
    let mut ic = interconnect();
    assert_eq!(ic.cpu_write(0x2001, 0b0001_1000), Ok(()));
    let ppu = ic.ppu_interface_ref();
    assert!(ppu.mask().background);
    assert!(ppu.mask().sprites);
    assert!(!ppu.mask().red);
}

#[test]
fn sprite_address_and_store() {
    let mut ic = interconnect();
    assert_eq!(ic.cpu_write(0x2003, 0x10), Ok(()));
    assert_eq!(ic.cpu_write(0x2004, 0xbe), Ok(()));
    assert_eq!(ic.ppu_interface_ref().read_spr(0x10), 0xbe);
}

#[test]
fn failed_dma_commits_nothing() {
    // A DMA from the PPU register page fails on its first read and
    // leaves the machine untouched: no sprite byte, no pending flag.
    let mut ic = interconnect();
    assert_eq!(ic.cpu_write(0x2003, 0x00), Ok(()));
    assert_eq!(ic.cpu_write(0x2004, 0x77), Ok(()));
    assert_eq!(ic.cpu_write(0x4014, 0x20), Err(Error::Bus(0x2000)));
    assert!(!ic.dma());
    assert_eq!(ic.ppu_interface_ref().read_spr(0), 0x77);
    assert_eq!(ic.ppu_interface_ref().read_spr(1), 0x00);

    // The same from the unimplemented I/O page.
    assert_eq!(ic.cpu_write(0x4014, 0x40), Err(Error::Bus(0x4000)));
    assert!(!ic.dma());
}

#[test]
fn dma_from_sram_page() {
    // SRAM pages are readable, so a DMA from 0x6000 succeeds.
    let mut ic = interconnect();
    assert_eq!(ic.cpu_write(0x6000, 0x12), Ok(()));
    assert_eq!(ic.cpu_write(0x60ff, 0x34), Ok(()));
    assert_eq!(ic.cpu_write(0x4014, 0x60), Ok(()));
    assert!(ic.dma());
    assert_eq!(ic.ppu_interface_ref().read_spr(0), 0x12);
    assert_eq!(ic.ppu_interface_ref().read_spr(255), 0x34);
}

#[test]
fn status_read_resets_address_latch() {
    // After an authoritative 0x2002 read the latch starts over, so the
    // next data read comes from video address zero.
    let mut ic = interconnect();
    assert_eq!(ic.cpu_write(0x2006, 0x21), Ok(()));
    assert_eq!(ic.cpu_write(0x2006, 0x08), Ok(()));
    assert_eq!(ic.cpu_write(0x2007, 0xab), Ok(()));
    assert_eq!(ic.cpu_write(0x2006, 0x00), Ok(()));
    assert_eq!(ic.cpu_write(0x2006, 0x00), Ok(()));
    assert_eq!(ic.cpu_write(0x2007, 0xcd), Ok(()));
    // Point the latch at 0x2108 again, then read status: latch resets.
    assert_eq!(ic.cpu_write(0x2006, 0x21), Ok(()));
    assert_eq!(ic.cpu_write(0x2006, 0x08), Ok(()));
    assert_eq!(ic.cpu_read(0x2002), Ok(0));
    assert_eq!(ic.cpu_read(0x2007), Ok(0xcd));
}

#[test]
fn status_peek_leaves_address_latch() {
    // The observational status read must not reset the latch.
    let mut ic = interconnect();
    assert_eq!(ic.cpu_write(0x2006, 0x21), Ok(()));
    assert_eq!(ic.cpu_write(0x2006, 0x08), Ok(()));
    assert_eq!(ic.cpu_write(0x2007, 0xab), Ok(()));
    assert_eq!(ic.cpu_write(0x2006, 0x21), Ok(()));
    assert_eq!(ic.cpu_write(0x2006, 0x08), Ok(()));
    assert_eq!(ic.cpu_peek(0x2002), Ok(0));
    assert_eq!(ic.cpu_read(0x2007), Ok(0xab));
}
