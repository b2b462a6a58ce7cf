pub mod megadrive;
pub mod nds;
pub mod snes;
