use romboss::error::DecodeError;
use romboss::platform::snes::{
    copier_header_offset, find_rom_header, kilobytes_to_storage, lookup_description, read_header_at,
    rom_from_window, StorageSize, HEADER_WINDOW_SIZE, HIROM_IN_WINDOW,
};
use romboss::snes::{self as snes_locate, HeaderType};

fn header_bytes(name: &[u8], map_mode: u8, cartridge: u8, rom_size: u8, sram_size: u8, dest: u8) -> Vec<u8> {
    let mut h = vec![0u8; 48];
    h[0] = b'0';
    h[1] = b'1';
    h[2..6].copy_from_slice(b"ABCD");
    for i in 16..37 {
        h[i] = b' ';
    }
    h[16..16 + name.len()].copy_from_slice(name);
    h[15] = cartridge;
    h[37] = map_mode;
    h[39] = rom_size;
    h[40] = sram_size;
    h[41] = dest;
    h[42] = 0x33;
    h[44] = 0x12;
    h[45] = 0x34;
    h[46] = 0xED;
    h[47] = 0xCB;
    h
}

fn window_with(lo: Option<&[u8]>, hi: Option<&[u8]>) -> Vec<u8> {
    let mut w = vec![0xFFu8; HEADER_WINDOW_SIZE];
    if let Some(h) = lo {
        w[0..48].copy_from_slice(h);
    }
    if let Some(h) = hi {
        w[HIROM_IN_WINDOW..HIROM_IN_WINDOW + 48].copy_from_slice(h);
    }
    w
}

#[test]
fn lorom_header_is_found_and_described() {
    let h = header_bytes(b"HELLO WORLD", 0x20, 0x02, 5, 3, 0x01);
    let w = window_with(Some(&h), None);
    let rom = rom_from_window(&w, 32768).unwrap();
    assert_eq!(rom.title, "HELLO WORLD");
    assert_eq!(rom.map_mode, "2.68MHz LoROM");
    assert_eq!(rom.cartridge_type, "ROM, RAM and battery");
    assert_eq!(rom.target_market, "North America");
    assert!(!rom.has_smc_header);
    assert_eq!(rom.rom_size, StorageSize { bytes: 32768, kilobytes: 32, kilobits: 256 });
    assert_eq!(rom.sram_size, Some(StorageSize { bytes: 8192, kilobytes: 8, kilobits: 64 }));
}

#[test]
fn copier_prefix_is_detected() {
    let h = header_bytes(b"PREFIXED", 0x30, 0x00, 5, 0, 0x02);
    let w = window_with(Some(&h), None);
    let rom = rom_from_window(&w, 32768 + 512).unwrap();
    assert!(rom.has_smc_header);
    assert_eq!(rom.map_mode, "3.58MHz LoROM");
    assert_eq!(rom.cartridge_type, "ROM only");
    assert_eq!(rom.target_market, "Europe");
    assert_eq!(rom.rom_size.bytes, 32768);
}

#[test]
fn copier_offset_rules() {
    assert_eq!(copier_header_offset(1024 * 512), Ok(0));
    assert_eq!(copier_header_offset(1024 * 512 + 512), Ok(512));
    assert_eq!(copier_header_offset(1024 * 512 + 100), Err(DecodeError::MalformedLength));
}

#[test]
fn malformed_length_fails_before_location() {
    let h = header_bytes(b"X", 0x20, 0x00, 5, 0, 0);
    let w = window_with(Some(&h), None);
    assert_eq!(rom_from_window(&w, 32768 + 100).unwrap_err(), DecodeError::MalformedLength);
}

#[test]
fn hirom_header_is_found_when_lorom_fails() {
    let lo = header_bytes(b"WRONG", 0x20, 0x00, 6, 0, 0);
    let mut lo_bad = lo.clone();
    lo_bad[8] = 0x01;
    let hi = header_bytes(b"RIGHT", 0x21, 0x01, 6, 0, 0x00);
    let w = window_with(Some(&lo_bad), Some(&hi));
    let (header, placement) = snes_locate::find_rom_header(&w, 65536, 0).unwrap();
    assert_eq!(placement, HeaderType::HiRom);
    assert_eq!(header.name, "RIGHT");
    assert_eq!(header.map_mode_description(), "2.68MHz HiROM");
    assert_eq!(header.destination_code_description(), "Japan");
    assert_eq!(header.checksum, 0xEDCB);
    assert_eq!(header.complement_check, 0x1234);
}

#[test]
fn lorom_wins_when_both_candidates_check_out() {
    let lo = header_bytes(b"FIRST", 0x20, 0x00, 6, 0, 0);
    let hi = header_bytes(b"SECOND", 0x21, 0x00, 6, 0, 0);
    let w = window_with(Some(&lo), Some(&hi));
    let (header, placement) = snes_locate::find_rom_header(&w, 65536, 0).unwrap();
    assert_eq!(placement, HeaderType::LoRom);
    assert_eq!(header.name, "FIRST");
}

#[test]
fn location_is_deterministic() {
    let lo = header_bytes(b"SAME", 0x20, 0x00, 6, 0, 0);
    let hi = header_bytes(b"SAME", 0x21, 0x00, 6, 0, 0);
    let w = window_with(Some(&lo), Some(&hi));
    let a = snes_locate::find_rom_header(&w, 65536, 0).unwrap();
    let b = snes_locate::find_rom_header(&w, 65536, 0).unwrap();
    assert_eq!(a.1, b.1);
    assert_eq!(a.0.name, b.0.name);
}

#[test]
fn size_mismatch_fails_even_with_clear_sentinel() {
    let lo = header_bytes(b"LIAR", 0x20, 0x00, 7, 0, 0);
    let hi = header_bytes(b"LIAR", 0x21, 0x00, 8, 0, 0);
    let w = window_with(Some(&lo), Some(&hi));
    assert_eq!(find_rom_header(&w, 65536, 0).unwrap_err(), DecodeError::HeaderNotFound);
}

#[test]
fn short_window_is_truncated() {
    let w = vec![0u8; 10];
    assert_eq!(find_rom_header(&w, 32768, 0).unwrap_err(), DecodeError::Truncated);
    assert_eq!(read_header_at(&w, 0).unwrap_err(), DecodeError::Truncated);
    assert_eq!(read_header_at(&vec![0u8; 60], 20).unwrap_err(), DecodeError::Truncated);
    let lo = header_bytes(b"NOPE", 0x20, 0x00, 9, 0, 0);
    let mut short = vec![0u8; 100];
    short[0..48].copy_from_slice(&lo);
    assert_eq!(rom_from_window(&short, 32768).unwrap_err(), DecodeError::Truncated);
}

#[test]
fn unknown_codes_are_labelled_with_their_value() {
    let h = header_bytes(b"ODD", 0x42, 0x99, 5, 0, 0x0E);
    let w = window_with(Some(&h), None);
    let rom = rom_from_window(&w, 32768).unwrap();
    assert_eq!(rom.map_mode, "Unknown 0x42");
    assert_eq!(rom.cartridge_type, "Unknown 0x99");
    assert_eq!(rom.target_market, "Unknown 0xe");
    assert_eq!(lookup_description(0, None), "Unknown 0x0");
    assert_eq!(lookup_description(0xAB, None), "Unknown 0xab");
    assert_eq!(lookup_description(7, Some("Label")), "Label");
}

#[test]
fn storage_units_agree() {
    let s = kilobytes_to_storage(8);
    assert_eq!(s, StorageSize { bytes: 8192, kilobytes: 8, kilobits: 64 });
    assert_eq!(s.bytes, s.kilobytes * 1024);
    assert_eq!(s.bytes, s.kilobits * 128);
}

#[test]
fn huge_sram_exponent_has_no_size() {
    let h = header_bytes(b"BIG", 0x20, 0x00, 5, 60, 0);
    let w = window_with(Some(&h), None);
    let rom = rom_from_window(&w, 32768).unwrap();
    assert_eq!(rom.sram_size, None);
}

#[test]
fn euc_jp_title_is_decoded_and_trimmed() {
    let h = header_bytes(&[0xA5, 0xC6, 0xA5, 0xB9, 0xA5, 0xC8], 0x20, 0x00, 5, 0, 0);
    let w = window_with(Some(&h), None);
    let rom = rom_from_window(&w, 32768).unwrap();
    assert_eq!(rom.title, "テスト");
}

#[test]
fn decoding_twice_gives_the_same_record() {
    let h = header_bytes(b"TWICE", 0x31, 0x34, 5, 2, 0x11);
    let w = window_with(Some(&h), None);
    let a = rom_from_window(&w, 32768).unwrap();
    let b = rom_from_window(&w, 32768).unwrap();
    assert_eq!(format!("{:?}", a), format!("{:?}", b));
    assert_eq!(a.target_market, "Australia");
    assert_eq!(a.cartridge_type, "ROM, SA-1 and RAM");
}
