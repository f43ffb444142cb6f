use nes_emu::error::EmuError;
use nes_emu::rom::mapper::{join_word, split_word, Mapper, NRom, MMC3, NROM};
use nes_emu::rom::{Cartridge, CartridgeInfo, MirrorType};

fn header(prg: u8, chr: u8, flags6: u8, flags7: u8) -> [u8; 16] {
    [0x4e, 0x45, 0x53, 0x1a, prg, chr, flags6, flags7, 0, 0, 0, 0, 0, 0, 0, 0]
}

/// An image whose PRG byte at offset `i` is `i % 251`, and whose CHR byte
/// at offset `i` is `i % 241`.
fn image(prg: u8, chr: u8, flags6: u8, flags7: u8) -> Vec<u8> {
    let mut image = header(prg, chr, flags6, flags7).to_vec();
    if flags6 & 0b100 != 0 {
        image.extend(std::iter::repeat(0xee).take(512));
    }
    for i in 0..(prg as usize * 0x4000) {
        image.push((i % 251) as u8);
    }
    for i in 0..(chr as usize * 0x2000) {
        image.push((i % 241) as u8);
    }
    image
}

#[test]
fn cartridge_test() {
    let cart = Cartridge::new(&image(1, 1, 0, 0));
    println!("trest");
    let cart = cart.unwrap();
    assert_eq!(cart.info().prg, 1);
    assert_eq!(cart.info().chr, 1);
    assert_eq!(cart.info().mapper, NROM);
    assert_eq!(cart.read(0x8000), 0);
    assert_eq!(cart.read(0x8005), 5);
}

#[test]
fn parse_header_reads_every_field() {
    let info = CartridgeInfo::parse_header(header(2, 1, 0b0000_0000, 0)).unwrap();
    assert_eq!(
        info,
        CartridgeInfo {
            prg: 2,
            chr: 1,
            mapper: 0,
            mirror_type: MirrorType::Horizontal,
            has_backed: false,
            data_start: 16,
        }
    );
    let info = CartridgeInfo::parse_header(header(255, 0, 0b1111_0111, 0b1010_0000)).unwrap();
    assert_eq!(
        info,
        CartridgeInfo {
            prg: 255,
            chr: 0,
            mapper: 0xaf,
            mirror_type: MirrorType::Vertical,
            has_backed: true,
            data_start: 16 + 512,
        }
    );
}

#[test]
fn parse_header_mirroring() {
    let mirror = |flags6: u8| {
        CartridgeInfo::parse_header(header(1, 1, flags6, 0))
            .unwrap()
            .mirror_type
    };
    assert_eq!(mirror(0b0000), MirrorType::Horizontal);
    assert_eq!(mirror(0b0001), MirrorType::Vertical);
    assert_eq!(mirror(0b1000), MirrorType::FourScreen);
    assert_eq!(mirror(0b1001), MirrorType::Vertical);
    assert_eq!(mirror(0b0110), MirrorType::Horizontal);
}

#[test]
fn parse_header_mapper_id_joins_two_nibbles() {
    let mapper = |flags6: u8, flags7: u8| {
        CartridgeInfo::parse_header(header(1, 1, flags6, flags7))
            .unwrap()
            .mapper
    };
    assert_eq!(mapper(0x00, 0x00), 0);
    assert_eq!(mapper(0x10, 0x00), 1);
    assert_eq!(mapper(0x40, 0x00), 4);
    assert_eq!(mapper(0x0f, 0x0f), 0);
    assert_eq!(mapper(0x00, 0x10), 16);
    assert_eq!(mapper(0xf0, 0xf0), 255);
    assert_eq!(mapper(0x2f, 0x4f), 0x42);
}

#[test]
fn parse_header_battery_and_trainer() {
    let info = CartridgeInfo::parse_header(header(1, 1, 0b0010, 0)).unwrap();
    assert!(info.has_backed);
    assert_eq!(info.data_start, 16);
    let info = CartridgeInfo::parse_header(header(1, 1, 0b0100, 0)).unwrap();
    assert!(!info.has_backed);
    assert_eq!(info.data_start, 528);
}

fn check_bad_magic(error: EmuError) {
    assert_eq!(error.reason(), "magic check failed ,invalid ines file");
    assert_eq!(error.file_name(), "rom::cartridge");
    assert_eq!(error.line(), 0);
}

#[test]
fn parse_header_rejects_a_wrong_magic() {
    for i in 0..4 {
        let mut buf = header(1, 1, 0, 0);
        buf[i] ^= 0x01;
        check_bad_magic(CartridgeInfo::parse_header(buf).unwrap_err());
    }
    check_bad_magic(CartridgeInfo::parse_header([0; 16]).unwrap_err());
}

#[test]
fn load_rejects_a_wrong_magic() {
    let mut bytes = image(1, 1, 0, 0);
    bytes[3] = 0x1b;
    check_bad_magic(Cartridge::new(&bytes).err().unwrap());
    check_bad_magic(Cartridge::new(&[]).err().unwrap());
    check_bad_magic(Cartridge::new(&[0x4e, 0x45, 0x53]).err().unwrap());
}

#[test]
fn load_rejects_an_unsupported_mapper() {
    let error = Cartridge::new(&image(1, 1, 0x40, 0)).err().unwrap();
    assert_eq!(error.reason(), "unsupported mapper type");
    assert_eq!(error.file_name(), "rom::cartridge");
    assert_eq!(error.line(), 0);
    assert!(Cartridge::new(&image(1, 1, 0x00, 0x10)).is_err());
    assert!(Cartridge::new(&image(1, 1, 0x10, 0x00)).is_err());
}

#[test]
fn single_bank_is_mirrored() {
    let cart = Cartridge::new(&image(1, 1, 0, 0)).unwrap();
    for offset in 0..0x4000u16 {
        let low = cart.read(0x8000 + offset);
        assert_eq!(low, (offset as usize % 251) as u8);
        assert_eq!(low, cart.read(0xc000 + offset));
    }
}

#[test]
fn two_banks_fill_the_window() {
    let cart = Cartridge::new(&image(2, 1, 0, 0)).unwrap();
    assert_eq!(cart.read(0x8000), 0);
    assert_eq!(cart.read(0xbfff), (0x3fff % 251) as u8);
    assert_eq!(cart.read(0xc000), (0x4000 % 251) as u8);
    assert_eq!(cart.read(0xffff), (0x7fff % 251) as u8);
}

#[test]
fn mirroring_flag_keeps_reads_in_the_first_bank() {
    let cart = Cartridge::new(&image(2, 1, 0b0001, 0)).unwrap();
    assert_eq!(cart.read(0x8000), 0);
    assert_eq!(cart.read(0xbfff), (0x3fff % 251) as u8);
    assert_eq!(cart.read(0xc000), 0);
    assert_eq!(cart.read(0xffff), (0x3fff % 251) as u8);
    let cart = Cartridge::new(&image(2, 1, 0b1000, 0)).unwrap();
    assert_eq!(cart.read(0xc001), 1);
}

#[test]
fn trainer_moves_the_data() {
    let cart = Cartridge::new(&image(1, 1, 0b0100, 0)).unwrap();
    assert_eq!(cart.info().data_start, 528);
    assert_eq!(cart.read(0x8000), 0);
    assert_eq!(cart.read(0x8001), 1);
    assert_eq!(cart.read(0x0001), 1);
}

#[test]
fn chr_follows_prg() {
    let cart = Cartridge::new(&image(2, 2, 0, 0)).unwrap();
    assert_eq!(cart.read(0x0000), 0);
    assert_eq!(cart.read(0x1fff), (0x1fff % 241) as u8);
    assert_eq!(cart.read(0x2000), (0x2000 % 241) as u8);
}

#[test]
fn absent_chr_reads_as_zero() {
    let cart = Cartridge::new(&image(1, 0, 0, 0)).unwrap();
    for address in [0x0000u16, 0x0001, 0x1000, 0x1fff] {
        assert_eq!(cart.read(address), 0);
    }
}

#[test]
fn short_image_reads_as_zero_past_its_end() {
    let mut bytes = image(1, 1, 0, 0);
    bytes.truncate(16 + 0x100);
    let cart = Cartridge::new(&bytes).unwrap();
    assert_eq!(cart.read(0x80ff), (0xff % 251) as u8);
    assert_eq!(cart.read(0x8100), 0);
    assert_eq!(cart.read(0xc0ff), (0xff % 251) as u8);
    assert_eq!(cart.read(0x0000), 0);
    let cart = Cartridge::new(&[0x4e, 0x45, 0x53, 0x1a]).unwrap();
    assert_eq!(cart.info().prg, 0);
    assert_eq!(cart.read(0x8000), 0);
    assert_eq!(cart.read(0xffff), 0);
}

#[test]
fn only_program_ram_takes_writes() {
    let mut cart = Cartridge::new(&image(1, 1, 0, 0)).unwrap();
    assert_eq!(cart.read(0x6000), 0);
    cart.write(0x6000, 0x11);
    cart.write(0x7fff, 0x22);
    assert_eq!(cart.read(0x6000), 0x11);
    assert_eq!(cart.read(0x7fff), 0x22);
    assert_eq!(cart.read(0x6001), 0);
    cart.write(0x8005, 0x99);
    assert_eq!(cart.read(0x8005), 5);
    assert_eq!(cart.read(0xc005), 5);
    cart.write(0x0005, 0x99);
    assert_eq!(cart.read(0x0005), 5);
}

#[test]
fn nrom_new_pads_and_mirrors() {
    let rom = NRom::new(vec![1, 2, 3], vec![], false);
    assert_eq!(rom.read(0x8000), 1);
    assert_eq!(rom.read(0x8002), 3);
    assert_eq!(rom.read(0x8003), 0);
    assert_eq!(rom.read(0xbfff), 0);
    assert_eq!(rom.read(0xc000), 1);
    assert_eq!(rom.read(0xc002), 3);
    assert_eq!(rom.read(0xc003), 0);
    assert_eq!(rom.read(0x0000), 0);
    assert_eq!(rom.read(0x1fff), 0);
    assert_eq!(rom.read(0x6000), 0);
    let rom = NRom::new(vec![], vec![7; 0x2000], true);
    assert_eq!(rom.read(0x8000), 0);
    assert_eq!(rom.read(0xffff), 0);
    assert_eq!(rom.read(0x1fff), 7);
}

#[test]
fn nrom_words_and_references() {
    let mut prg = vec![0u8; 0x8000];
    prg[0x0010] = 0x34;
    prg[0x0011] = 0x12;
    let mut rom = NRom::new(prg, vec![5; 0x4000], false);
    assert_eq!(rom.read_word(0x8010), 0x1234);
    assert_eq!(*rom.data_ref(0x8011), 0x12);
    assert_eq!(*rom.data_ref(0x2000), 5);
    rom.write_word(0x6100, 0xbeef);
    assert_eq!(rom.read(0x6100), 0xef);
    assert_eq!(rom.read(0x6101), 0xbe);
    assert_eq!(rom.read_word(0x6100), 0xbeef);
    rom.write_word(0x8010, 0xffff);
    assert_eq!(rom.read_word(0x8010), 0x1234);
    rom.write_word(0x7fff, 0xa1b2);
    assert_eq!(rom.read(0x7fff), 0xb2);
    assert_eq!(rom.read(0x8000), 0);
    *rom.data_ref_mut(0x6200) = 0x77;
    assert_eq!(rom.read(0x6200), 0x77);
}

#[test]
fn split_word_gives_high_then_low() {
    assert_eq!(split_word(0x1234), (0x12, 0x34));
    assert_eq!(split_word(0x00ff), (0x00, 0xff));
    assert_eq!(split_word(0xff00), (0xff, 0x00));
    assert_eq!(join_word(0x34, 0x12), 0x1234);
    assert_eq!(join_word(0xff, 0x00), 0x00ff);
    for data in [0u16, 1, 0x80, 0x100, 0x7fff, 0x8000, 0xffff] {
        let (high, low) = split_word(data);
        assert_eq!(join_word(low, high), data);
    }
}

#[test]
fn mirror_type_conversions() {
    assert!(!bool::from(MirrorType::Horizontal));
    assert!(bool::from(MirrorType::Vertical));
    assert!(bool::from(MirrorType::FourScreen));
    assert_eq!(MirrorType::from(true), MirrorType::Vertical);
    assert_eq!(MirrorType::from(false), MirrorType::Horizontal);
}

#[test]
fn mapper_ids() {
    assert_eq!(NROM, 0);
    assert_eq!(nes_emu::rom::mapper::MMC3, 4);
    assert_eq!(std::mem::size_of::<MMC3>(), 8);
}

#[test]
fn error_keeps_what_it_was_given() {
    let error = EmuError::new("reason".to_string(), "file".to_string(), 7);
    assert_eq!(error.reason(), "reason");
    assert_eq!(error.file_name(), "file");
    assert_eq!(error.line(), 7);
}
