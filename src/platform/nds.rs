//! Nintendo DS: the header at the start of the image, with plain text fields.
use crate::error::DecodeError;
use crate::text::{decode_utf8_lossy, trim_end, trim_nul, trimmed_end, trimmed_nul, utf8_lossy_text};
use vstd::prelude::*;
use vstd::slice::slice_subrange;

verus! {

/// Length of the header, up to its flags byte.
pub const HEADER_SIZE: usize = 30;

/// A console that can run a cartridge.
#[derive(Debug, Clone, Copy, PartialEq, Eq, Structural)]
pub enum Device {
    DS,
    DSi,
}

/// What a decoded Nintendo DS image describes.
#[derive(Debug)]
pub struct Rom {
    pub software_title: String,
    pub game_code: String,
    pub maker_code: String,
    pub supported_devices: Vec<Device>,
}

/// The header fields; text fields are decoded and tidied.
#[derive(Debug)]
pub struct RomHeader {
    pub game_title: String,
    pub game_code: String,
    pub maker_code: String,
    pub unit_code: u8,
    pub device_type: u8,
    /// The card holds `2^(20 + card_size)` bytes.
    pub card_size: u8,
    pub flags: u8,
}

/// A text field: without trailing white space, then without trailing NULs.
pub open spec fn field_text(b: Seq<u8>) -> Seq<char> {
    trimmed_nul(trimmed_end(utf8_lossy_text(b)))
}

/// `h` holds the fields of the header bytes `b`.
pub open spec fn header_read_from(h: RomHeader, b: Seq<u8>) -> bool {
    &&& h.game_title@ == field_text(b.subrange(0, 12))
    &&& h.game_code@ == field_text(b.subrange(12, 16))
    &&& h.maker_code@ == field_text(b.subrange(16, 18))
    &&& h.unit_code == b[18]
    &&& h.device_type == b[19]
    &&& h.card_size == b[20]
    &&& h.flags == b[29]
}

/// A text field, decoded and tidied.
pub fn bytes_to_stripped_string(bytes: &[u8]) -> (r: String)
    ensures
        r@ == field_text(bytes@),
{
    let s = decode_utf8_lossy(bytes);
    let trimmed = trim_end(s.as_str());
    trim_nul(trimmed.as_str())
}

/// Reads the header from `buffer`, the image's first bytes.
pub fn read_header(buffer: &[u8]) -> (r: Result<RomHeader, DecodeError>)
    ensures
        r.is_err() <==> buffer@.len() < HEADER_SIZE,
        r.is_err() ==> r == Err::<RomHeader, DecodeError>(DecodeError::Truncated),
        r matches Ok(h) ==> header_read_from(h, buffer@),
{
    if buffer.len() < HEADER_SIZE {
        return Err(DecodeError::Truncated);
    }
    Ok(
        RomHeader {
            game_title: bytes_to_stripped_string(slice_subrange(buffer, 0, 12)),
            game_code: bytes_to_stripped_string(slice_subrange(buffer, 12, 16)),
            maker_code: bytes_to_stripped_string(slice_subrange(buffer, 16, 18)),
            unit_code: buffer[18],
            device_type: buffer[19],
            card_size: buffer[20],
            flags: buffer[29],
        },
    )
}

/// The consoles that a unit code names: 3 is the DSi alone, 2 both the DS
/// and the DSi, and any other value the DS alone.
pub open spec fn devices_of_unit(unit_code: u8) -> Seq<Device> {
    if unit_code == 3 {
        seq![Device::DSi]
    } else if unit_code == 2 {
        seq![Device::DS, Device::DSi]
    } else {
        seq![Device::DS]
    }
}

impl RomHeader {
    pub fn supported_devices(&self) -> (r: Vec<Device>)
        ensures
            r@ == devices_of_unit(self.unit_code),
    {
        if self.unit_code == 3 {
            return vec![Device::DSi];
        }
        if self.unit_code == 2 {
            return vec![Device::DS, Device::DSi];
        }
        vec![Device::DS]
    }
}

/// `rom` describes the header bytes `b`.
pub open spec fn rom_decoded_from(rom: Rom, b: Seq<u8>) -> bool {
    &&& rom.software_title@ == field_text(b.subrange(0, 12))
    &&& rom.game_code@ == field_text(b.subrange(12, 16))
    &&& rom.maker_code@ == field_text(b.subrange(16, 18))
    &&& rom.supported_devices@ == devices_of_unit(b[18])
}

/// Decodes a Nintendo DS image from `buffer`, its first bytes.
pub fn rom_from_bytes(buffer: &[u8]) -> (r: Result<Rom, DecodeError>)
    ensures
        r.is_err() <==> buffer@.len() < HEADER_SIZE,
        r.is_err() ==> r == Err::<Rom, DecodeError>(DecodeError::Truncated),
        r matches Ok(rom) ==> rom_decoded_from(rom, buffer@),
{
    let header = read_header(buffer)?;
    let supported_devices = header.supported_devices();
    Ok(
        Rom {
            software_title: header.game_title,
            game_code: header.game_code,
            maker_code: header.maker_code,
            supported_devices: supported_devices,
        },
    )
}

/// Unit code 3 names one console, 2 names two, and every other code one.
pub proof fn lemma_unit_code_device_count(unit_code: u8)
    ensures
        devices_of_unit(unit_code).len() == (if unit_code == 2 { 2int } else { 1int }),
{
}

/// Two summaries agree in every field.
pub open spec fn same_rom(a: Rom, b: Rom) -> bool {
    &&& a.software_title@ == b.software_title@
    &&& a.game_code@ == b.game_code@
    &&& a.maker_code@ == b.maker_code@
    &&& a.supported_devices@ == b.supported_devices@
}

/// Decoding the same bytes twice gives the same summary.
pub proof fn lemma_decode_repeatable(bytes: Seq<u8>, a: Rom, b: Rom)
    requires
        rom_decoded_from(a, bytes),
        rom_decoded_from(b, bytes),
    ensures
        same_rom(a, b),
{
}

} // verus!
