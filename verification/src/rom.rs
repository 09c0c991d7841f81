//! Retrieval of the static ROM data of a cartridge from its container
//! formats.

pub mod ines;
