//! Super Nintendo / Super Famicom: the 48-byte header, found at one of two
//! places depending on how the cartridge maps its memory.
use crate::error::DecodeError;
use crate::snes::{find_rom_header as find_snes_header, HeaderType};
use crate::text::{decode_euc_jp, euc_jp_text, trim_end, trimmed_end};
use vstd::arithmetic::power2::{lemma2_to64, lemma_pow2_strictly_increases, lemma_pow2_unfold, pow2};
use vstd::prelude::*;
use vstd::slice::{slice_subrange, slice_to_vec};

verus! {

/// Length of the header.
pub const HEADER_SIZE: usize = 48;

/// Where a LoROM header starts, counted from the end of any copier prefix.
pub const HEADER_START_LOROM: u64 = 0x7FB0;

/// Where a HiROM header starts, counted from the end of any copier prefix.
pub const HEADER_START_HIROM: u64 = 0xFFB0;

/// Where the HiROM candidate starts inside a window that begins at the LoROM one.
pub const HIROM_IN_WINDOW: usize = 0x8000;

/// Length of the window that spans both candidates.
pub const HEADER_WINDOW_SIZE: usize = 0x8030;

/// Files are made of blocks of this many bytes ...
pub const FILE_BLOCK_SIZE: u64 = 1024;

/// ... unless a copier put a prefix of this many bytes in front.
pub const COPIER_HEADER_SIZE: u64 = 512;

/// A size, in three units that always agree.
#[derive(Debug, Clone, Copy, PartialEq, Eq, Structural)]
pub struct StorageSize {
    pub bytes: u64,
    pub kilobytes: u64,
    pub kilobits: u64,
}

impl StorageSize {
    pub open spec fn consistent(self) -> bool {
        &&& self.bytes == self.kilobytes * 1024
        &&& self.bytes == self.kilobits * 128
    }
}

/// The header fields, as stored.
#[derive(Debug)]
pub struct RomHeader {
    pub maker_code: Vec<u8>,
    pub game_code: Vec<u8>,
    /// Should be all zero.
    pub fixed_value: Vec<u8>,
    pub expansion_ram_size: u8,
    pub special_version: u8,
    pub cartridge_type: u8,
    pub name: String,
    pub map_mode: u8,
    pub rom_type: u8,
    /// The ROM holds `2^rom_size` kilobytes.
    pub rom_size: u8,
    /// The save RAM holds `2^sram_size` kilobytes.
    pub sram_size: u8,
    pub destination_code: u8,
    /// Should be 0x33.
    pub fixed_value_2: u8,
    pub version: u8,
    pub complement_check: u16,
    pub checksum: u16,
}

/// What a decoded Super Nintendo image describes.
#[derive(Debug)]
pub struct Rom {
    pub map_mode: String,
    pub cartridge_type: String,
    pub target_market: String,
    pub title: String,
    pub has_smc_header: bool,
    pub rom_size: StorageSize,
    /// `None` where the stored exponent gives more bytes than a `u64` holds.
    pub sram_size: Option<StorageSize>,
}

/// The big-endian 16-bit value at `i`.
pub open spec fn be16(b: Seq<u8>, i: int) -> int {
    b[i] as int * 256 + b[i + 1] as int
}

/// `h` holds the fields of the 48 header bytes `b`.
pub open spec fn header_read_from(h: RomHeader, b: Seq<u8>) -> bool {
    &&& h.maker_code@ == b.subrange(0, 2)
    &&& h.game_code@ == b.subrange(2, 6)
    &&& h.fixed_value@ == b.subrange(6, 13)
    &&& h.expansion_ram_size == b[13]
    &&& h.special_version == b[14]
    &&& h.cartridge_type == b[15]
    &&& h.name@ == trimmed_end(euc_jp_text(b.subrange(16, 37)))
    &&& h.map_mode == b[37]
    &&& h.rom_type == b[38]
    &&& h.rom_size == b[39]
    &&& h.sram_size == b[40]
    &&& h.destination_code == b[41]
    &&& h.fixed_value_2 == b[42]
    &&& h.version == b[43]
    &&& h.complement_check == be16(b, 44)
    &&& h.checksum == be16(b, 46)
}

/// The title text: EUC-JP, without its trailing padding.
pub fn bytes_to_stripped_string(bytes: &[u8]) -> (r: String)
    ensures
        r@ == trimmed_end(euc_jp_text(bytes@)),
{
    let s = decode_euc_jp(bytes);
    trim_end(s.as_str())
}

fn read_be16(b: &[u8], i: usize) -> (r: u16)
    requires
        i + 1 < b@.len(),
    ensures
        r == be16(b@, i as int),
{
    (b[i] as u16) * 256 + (b[i + 1] as u16)
}

fn copy_bytes(b: &[u8], from: usize, to: usize) -> (r: Vec<u8>)
    requires
        from <= to <= b@.len(),
    ensures
        r@ == b@.subrange(from as int, to as int),
{
    slice_to_vec(slice_subrange(b, from, to))
}

/// Reads the header that starts `offset` bytes into `buffer`.
pub fn read_header_at(buffer: &[u8], offset: usize) -> (r: Result<RomHeader, DecodeError>)
    ensures
        r.is_err() <==> offset + HEADER_SIZE > buffer@.len(),
        r.is_err() ==> r == Err::<RomHeader, DecodeError>(DecodeError::Truncated),
        r matches Ok(h) ==> header_read_from(
            h,
            buffer@.subrange(offset as int, offset + HEADER_SIZE),
        ),
{
    if offset > buffer.len() || buffer.len() - offset < HEADER_SIZE {
        return Err(DecodeError::Truncated);
    }
    let b = slice_subrange(buffer, offset, offset + HEADER_SIZE);
    let name_bytes = slice_subrange(b, 16, 37);
    let h = RomHeader {
        maker_code: copy_bytes(b, 0, 2),
        game_code: copy_bytes(b, 2, 6),
        fixed_value: copy_bytes(b, 6, 13),
        expansion_ram_size: b[13],
        special_version: b[14],
        cartridge_type: b[15],
        name: bytes_to_stripped_string(name_bytes),
        map_mode: b[37],
        rom_type: b[38],
        rom_size: b[39],
        sram_size: b[40],
        destination_code: b[41],
        fixed_value_2: b[42],
        version: b[43],
        complement_check: read_be16(b, 44),
        checksum: read_be16(b, 46),
    };
    Ok(h)
}

/// `2^e`, where it fits in a `u64`.
fn pow2_u64(e: u8) -> (r: Option<u64>)
    ensures
        r matches Some(v) ==> v == pow2(e as nat),
        r is None <==> pow2(e as nat) > u64::MAX,
{
    let mut v: u64 = 1;
    let mut i: u8 = 0;
    proof {
        lemma2_to64();
    }
    while i < e
        invariant
            i <= e,
            v == pow2(i as nat),
        decreases e - i,
    {
        proof {
            lemma_pow2_unfold((i + 1) as nat);
        }
        if v > u64::MAX / 2 {
            proof {
                if i + 1 < e {
                    lemma_pow2_strictly_increases((i + 1) as nat, e as nat);
                }
            }
            return None;
        }
        v = v * 2;
        i = i + 1;
    }
    Some(v)
}

/// The sentinel run is all zero.
pub open spec fn sentinel_clear(fixed: Seq<u8>) -> bool {
    fixed.len() == 7 && forall|i: int| 0 <= i < 7 ==> fixed[i] == 0
}

/// The size that a stored exponent announces, in bytes.
pub open spec fn announced_bytes(exponent: u8) -> int {
    (pow2(exponent as nat) * 1024) as int
}

/// A header read at the right place has a clear sentinel run and announces
/// the size that the image really has.
pub open spec fn header_valid(fixed: Seq<u8>, exponent: u8, real_size: int) -> bool {
    sentinel_clear(fixed) && announced_bytes(exponent) == real_size
}

/// Whether `rom` looks like a header read at the right place, for an image of
/// `real_size` bytes.
pub fn header_checks_out(rom: &RomHeader, real_size: u64) -> (r: bool)
    ensures
        r == header_valid(rom.fixed_value@, rom.rom_size, real_size as int),
{
    if rom.fixed_value.len() != 7 {
        return false;
    }
    let mut i: usize = 0;
    while i < 7
        invariant
            i <= 7,
            rom.fixed_value@.len() == 7,
            forall|j: int| 0 <= j < i ==> rom.fixed_value@[j] == 0,
        decreases 7 - i,
    {
        if rom.fixed_value[i] != 0 {
            return false;
        }
        i = i + 1;
    }
    match pow2_u64(rom.rom_size) {
        None => false,
        Some(kilobytes) => {
            if kilobytes > u64::MAX / 1024 {
                false
            } else {
                kilobytes * 1024 == real_size
            }
        },
    }
}

/// Where the candidate of each placement starts inside the window.
pub open spec fn start_in_window(t: HeaderType) -> int {
    match t {
        HeaderType::LoRom => 0,
        HeaderType::HiRom => HIROM_IN_WINDOW as int,
    }
}

/// The window holds a whole header at `start`, and it checks out.
pub open spec fn candidate_valid(window: Seq<u8>, start: int, real_size: int) -> bool {
    &&& start + HEADER_SIZE <= window.len()
    &&& header_valid(window.subrange(start + 6, start + 13), window[start + 39], real_size)
}

/// Which placement the header of an image has, given the window that starts at
/// the LoROM candidate, the file's length and the length of its copier prefix.
pub open spec fn located(window: Seq<u8>, size: u64, offset: u64) -> Result<HeaderType, DecodeError> {
    let real_size = size - offset;
    if offset > size {
        Err(DecodeError::MalformedLength)
    } else if window.len() < HEADER_SIZE {
        Err(DecodeError::Truncated)
    } else if candidate_valid(window, 0, real_size) {
        Ok(HeaderType::LoRom)
    } else if window.len() < HIROM_IN_WINDOW + HEADER_SIZE {
        Err(DecodeError::Truncated)
    } else if candidate_valid(window, HIROM_IN_WINDOW as int, real_size) {
        Ok(HeaderType::HiRom)
    } else {
        Err(DecodeError::HeaderNotFound)
    }
}

/// What locating the header gives: the placement, and the header read there.
pub open spec fn location_result(
    window: Seq<u8>,
    size: u64,
    offset: u64,
    r: Result<(RomHeader, HeaderType), DecodeError>,
) -> bool {
    match r {
        Ok((h, t)) => {
            &&& located(window, size, offset) == Ok::<HeaderType, DecodeError>(t)
            &&& header_read_from(
                h,
                window.subrange(start_in_window(t), start_in_window(t) + HEADER_SIZE),
            )
        },
        Err(e) => located(window, size, offset) == Err::<HeaderType, DecodeError>(e),
    }
}

/// Finds the header in `window`, as `crate::snes::find_rom_header` does, without saying where.
pub fn find_rom_header(window: &[u8], size: u64, offset: u64) -> (r: Result<RomHeader, DecodeError>)
    ensures
        r matches Err(e) ==> located(window@, size, offset) == Err::<HeaderType, DecodeError>(e),
        r matches Ok(h) ==> exists|t: HeaderType|
            #[trigger] located(window@, size, offset) == Ok::<HeaderType, DecodeError>(t)
                && header_read_from(
                h,
                window@.subrange(start_in_window(t), start_in_window(t) + HEADER_SIZE),
            ),
        r.is_ok() == located(window@, size, offset).is_ok(),
{
    match find_snes_header(window, size, offset) {
        Ok((h, t)) => Ok(h),
        Err(e) => Err(e),
    }
}

/// The characters of an optional label.
pub open spec fn label_view(label: Option<&str>) -> Option<Seq<char>> {
    match label {
        Some(s) => Some(s@),
        None => None,
    }
}

/// The lower-case hexadecimal digit for `d`.
pub open spec fn hex_digit(d: int) -> char {
    "0123456789abcdef"@[d]
}

/// `code` in lower-case hexadecimal, without leading zeros.
pub open spec fn hex_text(code: u8) -> Seq<char> {
    if code < 16 {
        seq![hex_digit(code as int)]
    } else {
        seq![hex_digit(code as int / 16), hex_digit(code as int % 16)]
    }
}

/// The label of a code that no table knows, holding the code itself.
pub open spec fn unknown_code_text(code: u8) -> Seq<char> {
    "Unknown 0x"@ + hex_text(code)
}

/// The description of `code`: its label, or the label of an unknown code.
pub open spec fn described(code: u8, label: Option<Seq<char>>) -> Seq<char> {
    match label {
        Some(l) => l,
        None => unknown_code_text(code),
    }
}

fn append_hex_digit(s: &mut String, d: u8)
    requires
        d < 16,
    ensures
        final(s)@ == old(s)@.push(hex_digit(d as int)),
{
    let digits = "0123456789abcdef";
    proof {
        reveal_strlit("0123456789abcdef");
    }
    let piece = digits.substring_char(d as usize, d as usize + 1);
    assert(piece@ =~= seq![hex_digit(d as int)]);
    s.append(piece);
}

/// The label for `code`, or, where `label` is `None`, `Unknown 0x..` with
/// the code in hexadecimal.
pub fn lookup_description(code: u8, label: Option<&str>) -> (r: String)
    ensures
        r@ == described(code, label_view(label)),
{
    match label {
        Some(desc) => String::from_str(desc),
        None => {
            let mut s = String::from_str("Unknown 0x");
            if code >= 16 {
                append_hex_digit(&mut s, code / 16);
                append_hex_digit(&mut s, code % 16);
            } else {
                append_hex_digit(&mut s, code);
            }
            assert(s@ =~= unknown_code_text(code));
            s
        },
    }
}

pub open spec fn map_mode_name(code: u8) -> Option<Seq<char>> {
    if code == 0x20 {
        Some("2.68MHz LoROM"@)
    } else if code == 0x21 {
        Some("2.68MHz HiROM"@)
    } else if code == 0x23 {
        Some("SA-1"@)
    } else if code == 0x25 {
        Some("2.68MHz ExHiROM"@)
    } else if code == 0x30 {
        Some("3.58MHz LoROM"@)
    } else if code == 0x31 {
        Some("3.58MHz HiROM"@)
    } else if code == 0x35 {
        Some("3.58MHz ExHiROM"@)
    } else {
        None
    }
}

fn map_mode_label(code: u8) -> (r: Option<&'static str>)
    ensures
        label_view(r) == map_mode_name(code),
{
    match code {
        0x20 => Some("2.68MHz LoROM"),
        0x21 => Some("2.68MHz HiROM"),
        0x23 => Some("SA-1"),
        0x25 => Some("2.68MHz ExHiROM"),
        0x30 => Some("3.58MHz LoROM"),
        0x31 => Some("3.58MHz HiROM"),
        0x35 => Some("3.58MHz ExHiROM"),
        _ => None,
    }
}

pub open spec fn cartridge_type_name(code: u8) -> Option<Seq<char>> {
    if code == 0x00 {
        Some("ROM only"@)
    } else if code == 0x01 {
        Some("ROM and RAM"@)
    } else if code == 0x02 {
        Some("ROM, RAM and battery"@)
    } else if code == 0x33 {
        Some("ROM and SA-1"@)
    } else if code == 0x34 {
        Some("ROM, SA-1 and RAM"@)
    } else if code == 0x35 {
        Some("ROM, SA-1, RAM and battery"@)
    } else {
        None
    }
}

fn cartridge_type_label(code: u8) -> (r: Option<&'static str>)
    ensures
        label_view(r) == cartridge_type_name(code),
{
    match code {
        0x00 => Some("ROM only"),
        0x01 => Some("ROM and RAM"),
        0x02 => Some("ROM, RAM and battery"),
        0x33 => Some("ROM and SA-1"),
        0x34 => Some("ROM, SA-1 and RAM"),
        0x35 => Some("ROM, SA-1, RAM and battery"),
        _ => None,
    }
}

pub open spec fn destination_name(code: u8) -> Option<Seq<char>> {
    if code == 0x00 {
        Some("Japan"@)
    } else if code == 0x01 {
        Some("North America"@)
    } else if code == 0x02 {
        Some("Europe"@)
    } else if code == 0x03 {
        Some("Nordic"@)
    } else if code == 0x04 {
        Some("Finland"@)
    } else if code == 0x05 {
        Some("Denmark"@)
    } else if code == 0x06 {
        Some("France"@)
    } else if code == 0x07 {
        Some("Netherlands"@)
    } else if code == 0x08 {
        Some("Spain"@)
    } else if code == 0x09 {
        Some("Germany"@)
    } else if code == 0x0A {
        Some("Italy"@)
    } else if code == 0x0B {
        Some("China"@)
    } else if code == 0x0C {
        Some("Indonesia"@)
    } else if code == 0x0D {
        Some("Korea"@)
    } else if code == 0x0F {
        Some("Canada"@)
    } else if code == 0x10 {
        Some("Brazil"@)
    } else if code == 0x11 {
        Some("Australia"@)
    } else {
        None
    }
}

fn destination_label(code: u8) -> (r: Option<&'static str>)
    ensures
        label_view(r) == destination_name(code),
{
    match code {
        0x00 => Some("Japan"),
        0x01 => Some("North America"),
        0x02 => Some("Europe"),
        0x03 => Some("Nordic"),
        0x04 => Some("Finland"),
        0x05 => Some("Denmark"),
        0x06 => Some("France"),
        0x07 => Some("Netherlands"),
        0x08 => Some("Spain"),
        0x09 => Some("Germany"),
        0x0A => Some("Italy"),
        0x0B => Some("China"),
        0x0C => Some("Indonesia"),
        0x0D => Some("Korea"),
        0x0F => Some("Canada"),
        0x10 => Some("Brazil"),
        0x11 => Some("Australia"),
        _ => None,
    }
}

/// The size `2^exponent` kilobytes, where it fits in a `u64`.
pub open spec fn exponent_storage(exponent: u8) -> Option<StorageSize> {
    if announced_bytes(exponent) <= u64::MAX {
        Some(
            StorageSize {
                bytes: announced_bytes(exponent) as u64,
                kilobytes: pow2(exponent as nat) as u64,
                kilobits: (pow2(exponent as nat) * 8) as u64,
            },
        )
    } else {
        None
    }
}

/// A size given in kilobytes, in all three units.
pub fn kilobytes_to_storage(kilobyte_len: u64) -> (r: StorageSize)
    requires
        kilobyte_len * 1024 <= u64::MAX,
    ensures
        r.kilobytes == kilobyte_len,
        r.bytes == kilobyte_len * 1024,
        r.kilobits == kilobyte_len * 8,
        r.consistent(),
{
    StorageSize { bytes: kilobyte_len * 1024, kilobits: kilobyte_len * 8, kilobytes: kilobyte_len }
}

fn exponent_to_storage(exponent: u8) -> (r: Option<StorageSize>)
    ensures
        r == exponent_storage(exponent),
        r matches Some(s) ==> s.consistent(),
{
    match pow2_u64(exponent) {
        None => None,
        Some(kilobytes) => {
            if kilobytes > u64::MAX / 1024 {
                None
            } else {
                Some(kilobytes_to_storage(kilobytes))
            }
        },
    }
}

impl RomHeader {
    pub fn map_mode_description(&self) -> (r: String)
        ensures
            r@ == described(self.map_mode, map_mode_name(self.map_mode)),
    {
        lookup_description(self.map_mode, map_mode_label(self.map_mode))
    }

    pub fn cartridge_type_description(&self) -> (r: String)
        ensures
            r@ == described(self.cartridge_type, cartridge_type_name(self.cartridge_type)),
    {
        lookup_description(self.cartridge_type, cartridge_type_label(self.cartridge_type))
    }

    pub fn destination_code_description(&self) -> (r: String)
        ensures
            r@ == described(self.destination_code, destination_name(self.destination_code)),
    {
        lookup_description(self.destination_code, destination_label(self.destination_code))
    }

    /// The ROM size the header announces; `None` where it overflows a `u64`.
    pub fn rom_size(&self) -> (r: Option<StorageSize>)
        ensures
            r == exponent_storage(self.rom_size),
            r matches Some(s) ==> s.consistent(),
    {
        exponent_to_storage(self.rom_size)
    }

    /// The save-RAM size the header announces; `None` where it overflows a `u64`.
    pub fn sram_size(&self) -> (r: Option<StorageSize>)
        ensures
            r == exponent_storage(self.sram_size),
            r matches Some(s) ==> s.consistent(),
    {
        exponent_to_storage(self.sram_size)
    }
}

/// `rom` describes header `h` of an image with or without a copier prefix.
pub open spec fn rom_describes(rom: Rom, h: RomHeader, has_smc_header: bool) -> bool {
    &&& rom.map_mode@ == described(h.map_mode, map_mode_name(h.map_mode))
    &&& rom.cartridge_type@ == described(h.cartridge_type, cartridge_type_name(h.cartridge_type))
    &&& rom.target_market@ == described(h.destination_code, destination_name(h.destination_code))
    &&& rom.title@ == h.name@
    &&& rom.has_smc_header == has_smc_header
    &&& exponent_storage(h.rom_size) == Some(rom.rom_size)
    &&& rom.sram_size == exponent_storage(h.sram_size)
}

/// The summary of a header whose ROM size fits in a `u64`, as every header
/// that checks out has.
pub fn rom_from_header(header: &RomHeader, has_smc_header: bool) -> (r: Rom)
    requires
        announced_bytes(header.rom_size) <= u64::MAX,
    ensures
        rom_describes(r, *header, has_smc_header),
        r.rom_size.consistent(),
{
    let rom_size = match header.rom_size() {
        Some(s) => s,
        None => vstd::pervasive::unreached(),
    };
    Rom {
        map_mode: header.map_mode_description(),
        cartridge_type: header.cartridge_type_description(),
        target_market: header.destination_code_description(),
        title: header.name.clone(),
        has_smc_header: has_smc_header,
        rom_size: rom_size,
        sram_size: header.sram_size(),
    }
}

/// The length of the copier prefix that a file of `file_len` bytes carries.
pub open spec fn copier_offset(file_len: u64) -> Result<u64, DecodeError> {
    if file_len % FILE_BLOCK_SIZE == 0 {
        Ok(0)
    } else if file_len % FILE_BLOCK_SIZE == COPIER_HEADER_SIZE {
        Ok(COPIER_HEADER_SIZE)
    } else {
        Err(DecodeError::MalformedLength)
    }
}

/// The length of the copier prefix of a file of `file_len` bytes: none where
/// the length is a whole number of kilobytes, 512 bytes where half a kilobyte
/// is left over; any other length is malformed.
pub fn copier_header_offset(file_len: u64) -> (r: Result<u64, DecodeError>)
    ensures
        r == copier_offset(file_len),
{
    let rem = file_len % FILE_BLOCK_SIZE;
    if rem == 0 {
        Ok(0)
    } else if rem == COPIER_HEADER_SIZE {
        Ok(COPIER_HEADER_SIZE)
    } else {
        Err(DecodeError::MalformedLength)
    }
}

/// The placement found for a file of `file_len` bytes, given its window.
pub open spec fn image_placement(window: Seq<u8>, file_len: u64) -> Result<HeaderType, DecodeError> {
    match copier_offset(file_len) {
        Ok(offset) => located(window, file_len, offset),
        Err(e) => Err(e),
    }
}

/// `rom` describes the header found in `window` for a file of `file_len` bytes.
pub open spec fn rom_decoded_from(rom: Rom, window: Seq<u8>, file_len: u64) -> bool {
    exists|h: RomHeader, t: HeaderType|
        image_placement(window, file_len) == Ok::<HeaderType, DecodeError>(t)
            && #[trigger] header_read_from(
            h,
            window.subrange(start_in_window(t), start_in_window(t) + HEADER_SIZE),
        ) && rom_describes(rom, h, file_len % FILE_BLOCK_SIZE == COPIER_HEADER_SIZE)
}

/// Decodes a Super Nintendo image of `file_len` bytes from `window`, its bytes
/// from the LoROM candidate on (counted after any copier prefix).
pub fn rom_from_window(window: &[u8], file_len: u64) -> (r: Result<Rom, DecodeError>)
    ensures
        r.is_ok() == image_placement(window@, file_len).is_ok(),
        r matches Err(e) ==> image_placement(window@, file_len) == Err::<HeaderType, DecodeError>(
            e,
        ),
        r matches Ok(rom) ==> rom_decoded_from(rom, window@, file_len),
        r matches Ok(rom) ==> rom.rom_size.consistent() && rom.rom_size.bytes == file_len
            - file_len % FILE_BLOCK_SIZE,
{
    let offset = copier_header_offset(file_len)?;
    let (header, t) = find_snes_header(window, file_len, offset)?;
    proof {
        let b = window@.subrange(start_in_window(t), start_in_window(t) + HEADER_SIZE);
        assert(b.subrange(6, 13) =~= window@.subrange(
            start_in_window(t) + 6,
            start_in_window(t) + 13,
        ));
    }
    let rom = rom_from_header(&header, offset == COPIER_HEADER_SIZE);
    Ok(rom)
}

/// The placement that a result of `crate::snes::find_rom_header` reports.
pub open spec fn placement_of(r: Result<(RomHeader, HeaderType), DecodeError>) -> Result<
    HeaderType,
    DecodeError,
> {
    match r {
        Ok((h, t)) => Ok(t),
        Err(e) => Err(e),
    }
}

/// Locating the header is deterministic: two searches of the same window, for
/// the same file length and prefix, report the same placement or the same error.
pub proof fn lemma_location_deterministic(
    window: Seq<u8>,
    size: u64,
    offset: u64,
    r1: Result<(RomHeader, HeaderType), DecodeError>,
    r2: Result<(RomHeader, HeaderType), DecodeError>,
)
    requires
        location_result(window, size, offset, r1),
        location_result(window, size, offset, r2),
    ensures
        placement_of(r1) == placement_of(r2),
{
}

/// Where both candidates would check out, the LoROM one, tried first, wins.
pub proof fn lemma_first_candidate_preferred(window: Seq<u8>, size: u64, offset: u64)
    requires
        offset <= size,
        candidate_valid(window, 0, size - offset),
        candidate_valid(window, HIROM_IN_WINDOW as int, size - offset),
    ensures
        located(window, size, offset) == Ok::<HeaderType, DecodeError>(HeaderType::LoRom),
{
}

/// An image whose real size differs from the size that each candidate
/// announces has no header, whatever its sentinel runs hold.
pub proof fn lemma_size_mismatch_rejected(window: Seq<u8>, size: u64, offset: u64)
    requires
        offset <= size,
        window.len() >= HEADER_WINDOW_SIZE,
        announced_bytes(window[39]) != size - offset,
        announced_bytes(window[HIROM_IN_WINDOW + 39]) != size - offset,
    ensures
        located(window, size, offset) == Err::<HeaderType, DecodeError>(DecodeError::HeaderNotFound),
{
}

/// Two summaries agree in every field.
pub open spec fn same_rom(a: Rom, b: Rom) -> bool {
    &&& a.map_mode@ == b.map_mode@
    &&& a.cartridge_type@ == b.cartridge_type@
    &&& a.target_market@ == b.target_market@
    &&& a.title@ == b.title@
    &&& a.has_smc_header == b.has_smc_header
    &&& a.rom_size == b.rom_size
    &&& a.sram_size == b.sram_size
}

/// Decoding the same bytes twice gives the same summary.
pub proof fn lemma_decode_repeatable(window: Seq<u8>, file_len: u64, a: Rom, b: Rom)
    requires
        rom_decoded_from(a, window, file_len),
        rom_decoded_from(b, window, file_len),
    ensures
        same_rom(a, b),
{
    let (ha, ta) = choose|h: RomHeader, t: HeaderType|
        image_placement(window, file_len) == Ok::<HeaderType, DecodeError>(t)
            && #[trigger] header_read_from(
            h,
            window.subrange(start_in_window(t), start_in_window(t) + HEADER_SIZE),
        ) && rom_describes(a, h, file_len % FILE_BLOCK_SIZE == COPIER_HEADER_SIZE);
    let (hb, tb) = choose|h: RomHeader, t: HeaderType|
        image_placement(window, file_len) == Ok::<HeaderType, DecodeError>(t)
            && #[trigger] header_read_from(
            h,
            window.subrange(start_in_window(t), start_in_window(t) + HEADER_SIZE),
        ) && rom_describes(b, h, file_len % FILE_BLOCK_SIZE == COPIER_HEADER_SIZE);
    assert(ta == tb);
}

/// A code that a table lacks still decodes, to `Unknown 0x` followed by the
/// code in hexadecimal.
pub proof fn lemma_unknown_code_label(code: u8)
    ensures
        map_mode_name(code) is None ==> described(code, map_mode_name(code))
            == unknown_code_text(code),
        cartridge_type_name(code) is None ==> described(code, cartridge_type_name(code))
            == unknown_code_text(code),
        destination_name(code) is None ==> described(code, destination_name(code))
            == unknown_code_text(code),
        unknown_code_text(code).subrange(10, unknown_code_text(code).len() as int) == hex_text(
            code,
        ),
{
    reveal_strlit("Unknown 0x");
    assert(unknown_code_text(code).subrange(10, unknown_code_text(code).len() as int)
        =~= hex_text(code));
}

} // verus!
