use romboss::error::DecodeError;
use romboss::platform::nds::{read_header, rom_from_bytes, Device, HEADER_SIZE};

fn header(title: &[u8], unit_code: u8) -> Vec<u8> {
    let mut b = vec![0u8; HEADER_SIZE];
    b[..title.len()].copy_from_slice(title);
    b[12..16].copy_from_slice(b"ADAE");
    b[16..18].copy_from_slice(b"01");
    b[18] = unit_code;
    b[20] = 7;
    b
}

#[test]
fn nds_header_is_decoded() {
    let rom = rom_from_bytes(&header(b"POKEMON D", 0)).unwrap();
    assert_eq!(rom.software_title, "POKEMON D");
    assert_eq!(rom.game_code, "ADAE");
    assert_eq!(rom.maker_code, "01");
    assert_eq!(rom.supported_devices, vec![Device::DS]);
    assert_eq!(read_header(&header(b"X", 0)).unwrap().card_size, 7);
}

#[test]
fn unit_codes_name_devices() {
    let devices = |u: u8| rom_from_bytes(&header(b"T", u)).unwrap().supported_devices;
    assert_eq!(devices(3), vec![Device::DSi]);
    assert_eq!(devices(2), vec![Device::DS, Device::DSi]);
    assert_eq!(devices(1), vec![Device::DS]);
    assert_eq!(devices(0), vec![Device::DS]);
}

#[test]
fn trailing_spaces_then_nuls_are_trimmed() {
    let rom = rom_from_bytes(&header(b"GAME  \0\0", 0)).unwrap();
    assert_eq!(rom.software_title, "GAME  ");
    let rom = rom_from_bytes(&header(b"GAME\0\0  ", 0)).unwrap();
    assert_eq!(rom.software_title, "GAME\0\0  ");
}

#[test]
fn invalid_utf8_is_replaced() {
    let rom = rom_from_bytes(&header(&[b'A', 0xFF, b'B'], 0)).unwrap();
    assert_eq!(rom.software_title, "A\u{FFFD}B");
}

#[test]
fn short_nds_buffer_is_truncated() {
    assert_eq!(rom_from_bytes(&[0u8; 29]).unwrap_err(), DecodeError::Truncated);
}
