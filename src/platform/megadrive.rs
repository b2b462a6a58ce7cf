//! Mega Drive / Genesis: the header at 0x100, with text fields in Shift JIS.
use crate::error::DecodeError;
use crate::text::{collapse_spaces, collapsed, decode_windows_31j, str_equals, trim_end, trimmed_end, windows_31j_text};
use vstd::prelude::*;
use vstd::slice::{slice_subrange, slice_to_vec};

verus! {

/// Where the header starts in the image.
pub const HEADER_START: u64 = 0x100;

/// Length of the header, up to the end of the region field.
pub const HEADER_SIZE: usize = 243;

/// A market that a cartridge is made for.
#[derive(Debug, Clone, Copy, PartialEq, Eq, Structural)]
pub enum Region {
    Japan,
    Americas,
    Europe,
}

#[derive(Debug)]
pub struct SoftwareTitle {
    pub domestic: String,
    pub overseas: String,
}

#[derive(Debug)]
pub struct ReleaseDate {
    /// The month's place in the list of abbreviations, from 0; 0 where unknown.
    pub month: u8,
    /// `None` where the year field is not a decimal number.
    pub year: Option<u16>,
}

/// What a decoded Mega Drive image describes.
#[derive(Debug)]
pub struct Rom {
    pub software_title: SoftwareTitle,
    pub software_type: String,
    pub supported_devices: Vec<&'static str>,
    pub supported_regions: Vec<Region>,
    pub system_type: String,
    pub release_date: ReleaseDate,
    pub serial_number: String,
    pub revision: String,
}

/// The header fields; text fields are decoded and tidied.
#[derive(Debug)]
pub struct RomHeader {
    pub system_type: String,
    pub publisher: String,
    pub release_year: String,
    pub release_month: String,
    pub game_title_domestic: String,
    pub game_title_overseas: String,
    pub software_type: String,
    pub serial_number: String,
    pub revision: String,
    pub checksum: u16,
    pub supported_devices: String,
    pub rom_start_address: u32,
    pub rom_end_address: u32,
    pub ram_start_address: u32,
    pub ram_end_address: u32,
    pub extra_memory: Vec<u8>,
    pub modem_support: String,
    /// Kept as stored: where its spaces stand tells the two formats apart.
    pub supported_regions: Vec<u8>,
}

/// A text field: Shift JIS, without trailing white space, with inner runs of
/// white space made single spaces.
pub open spec fn field_text(b: Seq<u8>) -> Seq<char> {
    collapsed(trimmed_end(windows_31j_text(b)))
}

pub open spec fn be16(b: Seq<u8>, i: int) -> int {
    b[i] as int * 0x100 + b[i + 1] as int
}

pub open spec fn be32(b: Seq<u8>, i: int) -> int {
    b[i] as int * 0x1000000 + b[i + 1] as int * 0x10000 + b[i + 2] as int * 0x100 + b[i + 3] as int
}

/// `h` holds the fields of the header bytes `b`.
pub open spec fn header_read_from(h: RomHeader, b: Seq<u8>) -> bool {
    &&& h.system_type@ == field_text(b.subrange(0, 16))
    &&& h.publisher@ == field_text(b.subrange(19, 23))
    &&& h.release_year@ == field_text(b.subrange(24, 28))
    &&& h.release_month@ == field_text(b.subrange(29, 32))
    &&& h.game_title_domestic@ == field_text(b.subrange(32, 80))
    &&& h.game_title_overseas@ == field_text(b.subrange(80, 128))
    &&& h.software_type@ == field_text(b.subrange(128, 130))
    &&& h.serial_number@ == field_text(b.subrange(131, 139))
    &&& h.revision@ == field_text(b.subrange(140, 142))
    &&& h.checksum == be16(b, 142)
    &&& h.supported_devices@ == field_text(b.subrange(144, 160))
    &&& h.rom_start_address == be32(b, 160)
    &&& h.rom_end_address == be32(b, 164)
    &&& h.ram_start_address == be32(b, 168)
    &&& h.ram_end_address == be32(b, 172)
    &&& h.extra_memory@ == b.subrange(176, 188)
    &&& h.modem_support@ == field_text(b.subrange(188, 200))
    &&& h.supported_regions@ == b.subrange(240, 243)
}

/// A text field, decoded and tidied.
pub fn bytes_to_stripped_string(bytes: &[u8]) -> (r: String)
    ensures
        r@ == field_text(bytes@),
{
    let s = decode_windows_31j(bytes);
    let trimmed = trim_end(s.as_str());
    collapse_spaces(trimmed.as_str())
}

fn field(b: &[u8], from: usize, to: usize) -> (r: String)
    requires
        from <= to <= b@.len(),
    ensures
        r@ == field_text(b@.subrange(from as int, to as int)),
{
    bytes_to_stripped_string(slice_subrange(b, from, to))
}

fn read_be16(b: &[u8], i: usize) -> (r: u16)
    requires
        i + 1 < b@.len(),
    ensures
        r == be16(b@, i as int),
{
    (b[i] as u16) * 0x100 + (b[i + 1] as u16)
}

fn read_be32(b: &[u8], i: usize) -> (r: u32)
    requires
        i + 3 < b@.len(),
    ensures
        r == be32(b@, i as int),
{
    (b[i] as u32) * 0x1000000 + (b[i + 1] as u32) * 0x10000 + (b[i + 2] as u32) * 0x100 + (
    b[i + 3] as u32)
}

/// Reads the header from `buffer`, the image's bytes from the header's start.
pub fn read_header(buffer: &[u8]) -> (r: Result<RomHeader, DecodeError>)
    ensures
        r.is_err() <==> buffer@.len() < HEADER_SIZE,
        r.is_err() ==> r == Err::<RomHeader, DecodeError>(DecodeError::Truncated),
        r matches Ok(h) ==> header_read_from(h, buffer@),
{
    if buffer.len() < HEADER_SIZE {
        return Err(DecodeError::Truncated);
    }
    let b = buffer;
    let h = RomHeader {
        system_type: field(b, 0, 16),
        publisher: field(b, 19, 23),
        release_year: field(b, 24, 28),
        release_month: field(b, 29, 32),
        game_title_domestic: field(b, 32, 80),
        game_title_overseas: field(b, 80, 128),
        software_type: field(b, 128, 130),
        serial_number: field(b, 131, 139),
        revision: field(b, 140, 142),
        checksum: read_be16(b, 142),
        supported_devices: field(b, 144, 160),
        rom_start_address: read_be32(b, 160),
        rom_end_address: read_be32(b, 164),
        ram_start_address: read_be32(b, 168),
        ram_end_address: read_be32(b, 172),
        extra_memory: slice_to_vec(slice_subrange(b, 176, 188)),
        modem_support: field(b, 188, 200),
        supported_regions: slice_to_vec(slice_subrange(b, 240, 243)),
    };
    Ok(h)
}

/// The regions among Japan, the Americas and Europe that the flags select, in that order.
pub open spec fn region_list(japan: bool, americas: bool, europe: bool) -> Seq<Region> {
    (if japan { seq![Region::Japan] } else { seq![] }) + (if americas {
        seq![Region::Americas]
    } else {
        seq![]
    }) + (if europe { seq![Region::Europe] } else { seq![] })
}

/// The value of an upper-case hexadecimal digit.
pub open spec fn hex_value(c: u8) -> Option<u8> {
    if 0x30 <= c <= 0x39 {
        Some((c - 0x30) as u8)
    } else if 0x41 <= c <= 0x46 {
        Some((c - 0x41 + 10) as u8)
    } else {
        None
    }
}

/// The regions that a bitmask names: bit 0 Japan, bit 2 the Americas, bit 3
/// Europe; bit 1 is unused.
pub open spec fn bitmask_regions(code: u8) -> Seq<Region> {
    region_list(code % 2 == 1, (code / 4) % 2 == 1, (code / 8) % 2 == 1)
}

/// The legacy Europe marker: space, `E`, space.
pub open spec fn europe_marker() -> Seq<u8> {
    seq![0x20u8, 0x45u8, 0x20u8]
}

/// The regions that a region field names.
pub open spec fn regions_of(field: Seq<u8>) -> Seq<Region> {
    if field == europe_marker() {
        seq![Region::Europe]
    } else if field.len() > 0 && hex_value(field[0]) is Some {
        bitmask_regions(hex_value(field[0])->Some_0)
    } else {
        region_list(field.contains(0x4Au8), field.contains(0x55u8), field.contains(0x45u8))
    }
}

fn push_regions(japan: bool, americas: bool, europe: bool) -> (r: Vec<Region>)
    ensures
        r@ == region_list(japan, americas, europe),
{
    let mut result = Vec::new();
    if japan {
        result.push(Region::Japan);
    }
    if americas {
        result.push(Region::Americas);
    }
    if europe {
        result.push(Region::Europe);
    }
    assert(result@ =~= region_list(japan, americas, europe));
    result
}

fn contains_byte(b: &[u8], x: u8) -> (r: bool)
    ensures
        r == b@.contains(x),
{
    let mut i: usize = 0;
    while i < b.len()
        invariant
            i <= b@.len(),
            forall|j: int| 0 <= j < i ==> b@[j] != x,
        decreases b@.len() - i,
    {
        if b[i] == x {
            return true;
        }
        i = i + 1;
    }
    false
}

/// The legacy region format: `J`, `U` and `E`, in any order.
pub fn old_region_code(codes: &[u8]) -> (r: Vec<Region>)
    ensures
        r@ == region_list(codes@.contains(0x4Au8), codes@.contains(0x55u8), codes@.contains(0x45u8)),
{
    let japan = contains_byte(codes, 0x4A);
    let americas = contains_byte(codes, 0x55);
    let europe = contains_byte(codes, 0x45);
    push_regions(japan, americas, europe)
}

/// The newer region format: one hexadecimal digit whose bit 0 stands for
/// Japan, bit 2 for the Americas and bit 3 for Europe; bit 1 is unused.
pub fn new_region_code(code: u8) -> (r: Vec<Region>)
    ensures
        r@ == bitmask_regions(code),
{
    assert((code & 0x01 != 0) == (code % 2 == 1)) by (bit_vector);
    assert((code & 0x04 != 0) == ((code / 4) % 2 == 1)) by (bit_vector);
    assert((code & 0x08 != 0) == ((code / 8) % 2 == 1)) by (bit_vector);
    push_regions(code & 0x01 != 0, code & 0x04 != 0, code & 0x08 != 0)
}

fn hex_digit_value(c: u8) -> (r: Option<u8>)
    ensures
        r == hex_value(c),
{
    if 0x30 <= c && c <= 0x39 {
        Some(c - 0x30)
    } else if 0x41 <= c && c <= 0x46 {
        Some(c - 0x41 + 10)
    } else {
        None
    }
}

pub open spec fn device_name(c: char) -> Option<Seq<char>> {
    if c == 'J' {
        Some("3-button controller"@)
    } else if c == '6' {
        Some("6-button controller"@)
    } else if c == '0' {
        Some("Master System controller"@)
    } else if c == 'A' {
        Some("Analog joystick"@)
    } else if c == '4' {
        Some("Multitap"@)
    } else if c == 'G' {
        Some("Lightgun"@)
    } else if c == 'L' {
        Some("Activator"@)
    } else if c == 'M' {
        Some("Mouse"@)
    } else if c == 'B' {
        Some("Trackball"@)
    } else if c == 'T' {
        Some("Tablet"@)
    } else if c == 'V' {
        Some("Paddle"@)
    } else if c == 'K' {
        Some("Keyboard"@)
    } else if c == 'R' {
        Some("RS-232 (Serial)"@)
    } else if c == 'P' {
        Some("Printer"@)
    } else if c == 'C' {
        Some("CD-ROM (Sega CD)"@)
    } else if c == 'F' {
        Some("Floppy drive"@)
    } else if c == 'D' {
        Some("Download"@)
    } else {
        None
    }
}

fn device_label(c: char) -> (r: Option<&'static str>)
    ensures
        match r {
            Some(s) => device_name(c) == Some(s@),
            None => device_name(c) is None,
        },
{
    match c {
        'J' => Some("3-button controller"),
        '6' => Some("6-button controller"),
        '0' => Some("Master System controller"),
        'A' => Some("Analog joystick"),
        '4' => Some("Multitap"),
        'G' => Some("Lightgun"),
        'L' => Some("Activator"),
        'M' => Some("Mouse"),
        'B' => Some("Trackball"),
        'T' => Some("Tablet"),
        'V' => Some("Paddle"),
        'K' => Some("Keyboard"),
        'R' => Some("RS-232 (Serial)"),
        'P' => Some("Printer"),
        'C' => Some("CD-ROM (Sega CD)"),
        'F' => Some("Floppy drive"),
        'D' => Some("Download"),
        _ => None,
    }
}

/// The devices that the characters of a device field name, in their order;
/// characters that name no device are skipped.
pub open spec fn devices_of(s: Seq<char>) -> Seq<Seq<char>>
    decreases s.len(),
{
    if s.len() == 0 {
        seq![]
    } else {
        devices_of(s.drop_last()) + match device_name(s.last()) {
            Some(d) => seq![d],
            None => seq![],
        }
    }
}

/// The characters of each label.
pub open spec fn labels_view(v: Seq<&'static str>) -> Seq<Seq<char>> {
    v.map_values(|l: &'static str| l@)
}

pub open spec fn software_type_name(code: Seq<char>) -> Seq<char> {
    if code == "GM"@ {
        "Game"@
    } else if code == "AI"@ {
        "Aid"@
    } else if code == "OS"@ {
        "Boot ROM (TMSS)"@
    } else if code == "BR"@ {
        "Boot ROM (Sega CD)"@
    } else {
        "Unknown '"@ + code + "'"@
    }
}

/// The place of `s` among the three-letter month abbreviations, in calendar
/// order from 0; 0 where it is none of them.
pub open spec fn month_index(s: Seq<char>) -> u8 {
    if s == "JAN"@ {
        0
    } else if s == "FEB"@ {
        1
    } else if s == "MAR"@ {
        2
    } else if s == "APR"@ {
        3
    } else if s == "MAY"@ {
        4
    } else if s == "JUN"@ {
        5
    } else if s == "JUL"@ {
        6
    } else if s == "AUG"@ {
        7
    } else if s == "SEP"@ {
        8
    } else if s == "OCT"@ {
        9
    } else if s == "NOV"@ {
        10
    } else if s == "DEC"@ {
        11
    } else {
        0
    }
}

/// The value of a string of decimal digits.
pub open spec fn digits_value(s: Seq<char>) -> int
    decreases s.len(),
{
    if s.len() == 0 {
        0
    } else {
        digits_value(s.drop_last()) * 10 + (s.last() as u32 - '0' as u32)
    }
}

pub open spec fn all_digits(s: Seq<char>) -> bool {
    forall|i: int| 0 <= i < s.len() ==> '0' <= #[trigger] s[i] <= '9'
}

/// `s` read as a `u16` in decimal, with an optional leading `+`.
pub open spec fn parsed_u16(s: Seq<char>) -> Option<u16> {
    let d = if s.len() > 0 && s[0] == '+' { s.drop_first() } else { s };
    if d.len() > 0 && all_digits(d) && digits_value(d) <= u16::MAX {
        Some(digits_value(d) as u16)
    } else {
        None
    }
}

proof fn lemma_digits_value_grows(s: Seq<char>, k: int, j: int)
    requires
        0 <= k <= j <= s.len(),
        all_digits(s),
    ensures
        digits_value(s.subrange(0, k)) <= digits_value(s.subrange(0, j)),
    decreases j - k,
{
    if k < j {
        lemma_digits_value_grows(s, k, j - 1);
        assert(s.subrange(0, j).drop_last() =~= s.subrange(0, j - 1));
        assert(digits_value(s.subrange(0, j - 1)) >= 0) by {
            lemma_digits_value_nonneg(s.subrange(0, j - 1));
        }
    }
}

proof fn lemma_digits_value_nonneg(s: Seq<char>)
    requires
        all_digits(s),
    ensures
        digits_value(s) >= 0,
    decreases s.len(),
{
    if s.len() > 0 {
        lemma_digits_value_nonneg(s.drop_last());
    }
}

/// Reads `s` as a decimal `u16`, as `str::parse::<u16>` does.
pub fn parse_u16(s: &str) -> (r: Option<u16>)
    ensures
        r == parsed_u16(s@),
{
    let n = s.unicode_len();
    let mut i: usize = 0;
    if n > 0 && s.get_char(0) == '+' {
        i = 1;
    }
    let start = i;
    let ghost d = s@.subrange(start as int, n as int);
    assert(d =~= (if s@.len() > 0 && s@[0] == '+' { s@.drop_first() } else { s@ }));
    if start == n {
        return None;
    }
    let mut value: u32 = 0;
    while i < n
        invariant
            start <= i <= n,
            n == s@.len(),
            d == s@.subrange(start as int, n as int),
            d == (if s@.len() > 0 && s@[0] == '+' { s@.drop_first() } else { s@ }),
            start < n,
            all_digits(d.subrange(0, i - start)),
            value == digits_value(d.subrange(0, i - start)),
            value <= u16::MAX,
        decreases n - i,
    {
        let c = s.get_char(i);
        if c < '0' || c > '9' {
            assert(d[i - start] == c);
            assert(!all_digits(d));
            return None;
        }
        proof {
            assert(d[i - start] == c);
            assert(d.subrange(0, i + 1 - start).last() == c);
            assert(d.subrange(0, i + 1 - start).drop_last() =~= d.subrange(0, i - start));
            assert(all_digits(d.subrange(0, i + 1 - start)));
        }
        value = value * 10 + (c as u32 - '0' as u32);
        i = i + 1;
        if value > 0xFFFF {
            proof {
                if all_digits(d) {
                    lemma_digits_value_grows(d, i - start, d.len() as int);
                    assert(d.subrange(0, d.len() as int) =~= d);
                }
            }
            return None;
        }
    }
    assert(d.subrange(0, n - start) =~= d);
    Some(value as u16)
}

impl RomHeader {
    /// The devices that the header names, in the order of the field.
    pub fn supported_devices(&self) -> (r: Vec<&'static str>)
        ensures
            labels_view(r@) == devices_of(self.supported_devices@),
    {
        let s = self.supported_devices.as_str();
        let n = s.unicode_len();
        let mut result: Vec<&'static str> = Vec::new();
        let mut i: usize = 0;
        while i < n
            invariant
                i <= n,
                n == s@.len(),
                s@ == self.supported_devices@,
                labels_view(result@) == devices_of(s@.subrange(0, i as int)),
            decreases n - i,
        {
            let c = s.get_char(i);
            let ghost before = result@;
            proof {
                assert(s@.subrange(0, i + 1).drop_last() =~= s@.subrange(0, i as int));
            }
            match device_label(c) {
                Some(desc) => {
                    result.push(desc);
                    assert(labels_view(result@) =~= labels_view(before) + seq![desc@]);
                },
                None => {
                    assert(labels_view(result@) =~= labels_view(before) + seq![]);
                },
            }
            i = i + 1;
        }
        assert(s@.subrange(0, n as int) =~= s@);
        result
    }

    /// The regions that the header names. The field ` E ` is the legacy
    /// Europe marker; a field that starts with an upper-case hexadecimal digit
    /// is a bitmask; any other is read as legacy letters.
    pub fn supported_regions(&self) -> (r: Vec<Region>)
        ensures
            r@ == regions_of(self.supported_regions@),
    {
        let field = self.supported_regions.as_slice();
        if field.len() == 3 && field[0] == 0x20 && field[1] == 0x45 && field[2] == 0x20 {
            let mut result = Vec::new();
            result.push(Region::Europe);
            assert(field@ =~= europe_marker());
            assert(result@ =~= seq![Region::Europe]);
            return result;
        }
        assert(field@ != europe_marker());
        if field.len() > 0 {
            match hex_digit_value(field[0]) {
                Some(v) => {
                    return new_region_code(v);
                },
                None => {},
            }
        }
        old_region_code(field)
    }

    pub fn software_type(&self) -> (r: String)
        ensures
            r@ == software_type_name(self.software_type@),
    {
        let code = self.software_type.as_str();
        if str_equals(code, "GM") {
            String::from_str("Game")
        } else if str_equals(code, "AI") {
            String::from_str("Aid")
        } else if str_equals(code, "OS") {
            String::from_str("Boot ROM (TMSS)")
        } else if str_equals(code, "BR") {
            String::from_str("Boot ROM (Sega CD)")
        } else {
            let mut s = String::from_str("Unknown '");
            s.append(code);
            s.append("'");
            s
        }
    }

    /// The release year; `None` where the field is not a decimal number.
    pub fn release_year(&self) -> (r: Option<u16>)
        ensures
            r == parsed_u16(self.release_year@),
    {
        parse_u16(self.release_year.as_str())
    }

    /// The release month's place in the list of abbreviations, from 0 for
    /// `JAN`; 0 where the field is none of them.
    pub fn release_month(&self) -> (r: u8)
        ensures
            r == month_index(self.release_month@),
    {
        let m = self.release_month.as_str();
        if str_equals(m, "JAN") {
            0
        } else if str_equals(m, "FEB") {
            1
        } else if str_equals(m, "MAR") {
            2
        } else if str_equals(m, "APR") {
            3
        } else if str_equals(m, "MAY") {
            4
        } else if str_equals(m, "JUN") {
            5
        } else if str_equals(m, "JUL") {
            6
        } else if str_equals(m, "AUG") {
            7
        } else if str_equals(m, "SEP") {
            8
        } else if str_equals(m, "OCT") {
            9
        } else if str_equals(m, "NOV") {
            10
        } else if str_equals(m, "DEC") {
            11
        } else {
            0
        }
    }
}

/// `rom` describes the header `h`.
pub open spec fn rom_describes(rom: Rom, h: RomHeader) -> bool {
    &&& rom.software_title.domestic@ == h.game_title_domestic@
    &&& rom.software_title.overseas@ == h.game_title_overseas@
    &&& rom.software_type@ == software_type_name(h.software_type@)
    &&& labels_view(rom.supported_devices@) == devices_of(h.supported_devices@)
    &&& rom.supported_regions@ == regions_of(h.supported_regions@)
    &&& rom.system_type@ == h.system_type@
    &&& rom.release_date.month == month_index(h.release_month@)
    &&& rom.release_date.year == parsed_u16(h.release_year@)
    &&& rom.serial_number@ == h.serial_number@
    &&& rom.revision@ == h.revision@
}

/// `rom` describes the header bytes `b`.
pub open spec fn rom_decoded_from(rom: Rom, b: Seq<u8>) -> bool {
    &&& rom.software_title.domestic@ == field_text(b.subrange(32, 80))
    &&& rom.software_title.overseas@ == field_text(b.subrange(80, 128))
    &&& rom.software_type@ == software_type_name(field_text(b.subrange(128, 130)))
    &&& labels_view(rom.supported_devices@) == devices_of(field_text(b.subrange(144, 160)))
    &&& rom.supported_regions@ == regions_of(b.subrange(240, 243))
    &&& rom.system_type@ == field_text(b.subrange(0, 16))
    &&& rom.release_date.month == month_index(field_text(b.subrange(29, 32)))
    &&& rom.release_date.year == parsed_u16(field_text(b.subrange(24, 28)))
    &&& rom.serial_number@ == field_text(b.subrange(131, 139))
    &&& rom.revision@ == field_text(b.subrange(140, 142))
}

/// The summary of a header.
pub fn rom_from_header(header: &RomHeader) -> (r: Rom)
    ensures
        rom_describes(r, *header),
{
    Rom {
        release_date: ReleaseDate { year: header.release_year(), month: header.release_month() },
        software_title: SoftwareTitle {
            domestic: header.game_title_domestic.clone(),
            overseas: header.game_title_overseas.clone(),
        },
        revision: header.revision.clone(),
        serial_number: header.serial_number.clone(),
        software_type: header.software_type(),
        supported_devices: header.supported_devices(),
        supported_regions: header.supported_regions(),
        system_type: header.system_type.clone(),
    }
}

/// Decodes a Mega Drive image from `buffer`, its bytes from the header's start.
pub fn rom_from_bytes(buffer: &[u8]) -> (r: Result<Rom, DecodeError>)
    ensures
        r.is_err() <==> buffer@.len() < HEADER_SIZE,
        r.is_err() ==> r == Err::<Rom, DecodeError>(DecodeError::Truncated),
        r matches Ok(rom) ==> rom_decoded_from(rom, buffer@),
{
    let header = read_header(buffer)?;
    Ok(rom_from_header(&header))
}

/// Two summaries agree in every field.
pub open spec fn same_rom(a: Rom, b: Rom) -> bool {
    &&& a.software_title.domestic@ == b.software_title.domestic@
    &&& a.software_title.overseas@ == b.software_title.overseas@
    &&& a.software_type@ == b.software_type@
    &&& labels_view(a.supported_devices@) == labels_view(b.supported_devices@)
    &&& a.supported_regions@ == b.supported_regions@
    &&& a.system_type@ == b.system_type@
    &&& a.release_date.month == b.release_date.month
    &&& a.release_date.year == b.release_date.year
    &&& a.serial_number@ == b.serial_number@
    &&& a.revision@ == b.revision@
}

/// Decoding the same bytes twice gives the same summary.
pub proof fn lemma_decode_repeatable(bytes: Seq<u8>, a: Rom, b: Rom)
    requires
        rom_decoded_from(a, bytes),
        rom_decoded_from(b, bytes),
    ensures
        same_rom(a, b),
{
}

} // verus!
