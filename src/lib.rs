//! Locating, validating and decoding the metadata headers of cartridge images
//! for the Super Nintendo, the Mega Drive and the Nintendo DS.
pub mod detect;
pub mod error;
pub mod platform;
pub mod snes;
pub mod text;
