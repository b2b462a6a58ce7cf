//! Locating the Super Nintendo header, and which of its two places held it.
use crate::error::DecodeError;
use crate::platform::snes::{
    header_checks_out, location_result, read_header_at, RomHeader, HIROM_IN_WINDOW,
};
use vstd::prelude::*;

verus! {

/// The header record of a Super Nintendo image.
pub type SnesRomHeader = RomHeader;

/// Which of the two candidate places held the header.
#[derive(Debug, Clone, Copy, PartialEq, Eq, Structural)]
pub enum HeaderType {
    HiRom,
    LoRom,
}

/// Finds the header in `window`, the bytes of the image from the LoROM
/// candidate on (the HiROM one starts 0x8000 bytes later). `size` is the
/// length of the file and `offset` the length of its copier prefix.
pub fn find_rom_header(window: &[u8], size: u64, offset: u64) -> (r: Result<
    (SnesRomHeader, HeaderType),
    DecodeError,
>)
    ensures
        location_result(window@, size, offset, r),
{
    if offset > size {
        return Err(DecodeError::MalformedLength);
    }
    let real_size = size - offset;
    let rom = read_header_at(window, 0)?;
    proof {
        assert(window@.subrange(0, 48).subrange(6, 13) =~= window@.subrange(6, 13));
    }
    if header_checks_out(&rom, real_size) {
        return Ok((rom, HeaderType::LoRom));
    }
    let rom = read_header_at(window, HIROM_IN_WINDOW)?;
    proof {
        let k: int = 0x8000;
        let w = window@.subrange(k, k + 48);
        assert(w.subrange(6, 13) =~= window@.subrange(k + 6, k + 13));
        assert(w[39] == window@[k + 39]);
    }
    if header_checks_out(&rom, real_size) {
        return Ok((rom, HeaderType::HiRom));
    }
    Err(DecodeError::HeaderNotFound)
}

} // verus!
