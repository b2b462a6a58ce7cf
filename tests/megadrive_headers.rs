use romboss::error::DecodeError;
use romboss::platform::megadrive::{new_region_code, old_region_code, read_header, rom_from_bytes, Region, HEADER_SIZE};

fn put(buf: &mut [u8], at: usize, len: usize, text: &[u8]) {
    for i in 0..len {
        buf[at + i] = b' ';
    }
    buf[at..at + text.len()].copy_from_slice(text);
}

fn header(title: &[u8], software_type: &[u8], devices: &[u8], regions: &[u8; 3], year: &[u8], month: &[u8]) -> Vec<u8> {
    let mut b = vec![b' '; HEADER_SIZE];
    put(&mut b, 0, 16, b"SEGA MEGA DRIVE");
    put(&mut b, 19, 4, b"SEGA");
    put(&mut b, 24, 4, year);
    put(&mut b, 29, 3, month);
    put(&mut b, 32, 48, title);
    put(&mut b, 80, 48, b"OVERSEAS   TITLE");
    put(&mut b, 128, 2, software_type);
    put(&mut b, 131, 8, b"00001009");
    put(&mut b, 140, 2, b"00");
    b[142] = 0xAB;
    b[143] = 0xCD;
    put(&mut b, 144, 16, devices);
    for i in 160..176 {
        b[i] = 0;
    }
    b[163] = 0x00;
    b[164] = 0x00;
    b[165] = 0x07;
    b[166] = 0xFF;
    b[167] = 0xFF;
    b[240..243].copy_from_slice(regions);
    b
}

fn regions_for(field: &[u8; 3]) -> Vec<Region> {
    let b = header(b"T", b"GM", b"J", field, b"1991", b"JUN");
    read_header(&b).unwrap().supported_regions()
}

#[test]
fn full_header_is_decoded() {
    let b = header(b"SONIC  THE   HEDGEHOG", b"GM", b"J6", b"JUE", b"1991", b"JUN");
    let rom = rom_from_bytes(&b).unwrap();
    assert_eq!(rom.software_title.domestic, "SONIC THE HEDGEHOG");
    assert_eq!(rom.software_title.overseas, "OVERSEAS TITLE");
    assert_eq!(rom.software_type, "Game");
    assert_eq!(rom.supported_devices, vec!["3-button controller", "6-button controller"]);
    assert_eq!(rom.supported_regions, vec![Region::Japan, Region::Americas, Region::Europe]);
    assert_eq!(rom.system_type, "SEGA MEGA DRIVE");
    assert_eq!(rom.release_date.year, Some(1991));
    assert_eq!(rom.release_date.month, 5);
    assert_eq!(rom.serial_number, "00001009");
    assert_eq!(rom.revision, "00");
    let h = read_header(&b).unwrap();
    assert_eq!(h.checksum, 0xABCD);
    assert_eq!(h.rom_end_address, 0x0007FFFF);
    assert_eq!(h.publisher, "SEGA");
}

#[test]
fn legacy_region_letters_in_any_order() {
    assert_eq!(regions_for(b"JUE"), vec![Region::Japan, Region::Americas, Region::Europe]);
    assert_eq!(regions_for(b"UEJ"), vec![Region::Japan, Region::Americas, Region::Europe]);
    assert_eq!(regions_for(b"JEU"), vec![Region::Japan, Region::Americas, Region::Europe]);
    assert_eq!(regions_for(b"UJ "), vec![Region::Japan, Region::Americas]);
    assert_eq!(regions_for(b"U  "), vec![Region::Americas]);
    assert_eq!(regions_for(b"JJ "), vec![Region::Japan]);
    assert_eq!(regions_for(b"   "), vec![]);
}

#[test]
fn hex_region_digit_is_a_bitmask() {
    assert_eq!(regions_for(b"4  "), vec![Region::Americas]);
    assert_eq!(regions_for(b"1  "), vec![Region::Japan]);
    assert_eq!(regions_for(b"8  "), vec![Region::Europe]);
    assert_eq!(regions_for(b"F  "), vec![Region::Japan, Region::Americas, Region::Europe]);
    assert_eq!(regions_for(b"2  "), vec![]);
    assert_eq!(regions_for(b"D  "), vec![Region::Japan, Region::Americas, Region::Europe]);
    // A leading E is the hexadecimal digit 14: bits 2 and 3.
    assert_eq!(regions_for(b"E  "), vec![Region::Americas, Region::Europe]);
    assert_eq!(regions_for(b"EUJ"), vec![Region::Americas, Region::Europe]);
}

#[test]
fn spaced_e_is_the_europe_marker() {
    assert_eq!(regions_for(b" E "), vec![Region::Europe]);
}

#[test]
fn region_helpers() {
    assert_eq!(new_region_code(0x05), vec![Region::Japan, Region::Americas]);
    assert_eq!(new_region_code(0x0C), vec![Region::Americas, Region::Europe]);
    assert_eq!(old_region_code(b"EJ"), vec![Region::Japan, Region::Europe]);
}

#[test]
fn software_types() {
    let cases: [(&[u8], &str); 5] = [
        (b"GM", "Game"),
        (b"AI", "Aid"),
        (b"OS", "Boot ROM (TMSS)"),
        (b"BR", "Boot ROM (Sega CD)"),
        (b"XX", "Unknown 'XX'"),
    ];
    for (code, label) in cases {
        let b = header(b"T", code, b"J", b"JUE", b"1991", b"JAN");
        assert_eq!(read_header(&b).unwrap().software_type(), label);
    }
}

#[test]
fn release_month_positions() {
    let month = |m: &[u8]| read_header(&header(b"T", b"GM", b"J", b"JUE", b"1991", m)).unwrap().release_month();
    assert_eq!(month(b"JAN"), 0);
    assert_eq!(month(b"FEB"), 1);
    assert_eq!(month(b"DEC"), 11);
    assert_eq!(month(b"XYZ"), 0);
}

#[test]
fn release_year_parsing() {
    let year = |y: &[u8]| read_header(&header(b"T", b"GM", b"J", b"JUE", y, b"JAN")).unwrap().release_year();
    assert_eq!(year(b"1991"), Some(1991));
    assert_eq!(year(b"0042"), Some(42));
    assert_eq!(year(b"19X1"), None);
    assert_eq!(year(b"    "), None);
    assert_eq!(year(b"+12"), Some(12));
}

#[test]
fn unknown_device_characters_are_skipped() {
    let b = header(b"T", b"GM", b"J xM?Z4", b"JUE", b"1991", b"JAN");
    let rom = rom_from_bytes(&b).unwrap();
    assert_eq!(rom.supported_devices, vec!["3-button controller", "Mouse", "Multitap"]);
}

#[test]
fn shift_jis_title_is_decoded() {
    let b = header(&[0x83, 0x4A, b' ', b' ', 0x83, 0x4A], b"GM", b"J", b"JUE", b"1991", b"JAN");
    let rom = rom_from_bytes(&b).unwrap();
    assert_eq!(rom.software_title.domestic, "カ カ");
}

#[test]
fn short_megadrive_buffer_is_truncated() {
    let b = vec![b' '; HEADER_SIZE - 1];
    assert_eq!(rom_from_bytes(&b).unwrap_err(), DecodeError::Truncated);
    assert_eq!(read_header(&[]).unwrap_err(), DecodeError::Truncated);
}

#[test]
fn megadrive_decoding_twice_agrees() {
    let b = header(b"AGAIN", b"GM", b"J", b"4  ", b"1993", b"MAR");
    let x = rom_from_bytes(&b).unwrap();
    let y = rom_from_bytes(&b).unwrap();
    assert_eq!(format!("{:?}", x), format!("{:?}", y));
}
