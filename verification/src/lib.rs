//! Geometry layer of a FAT12/16/32 volume: the boot sector and the BIOS
//! parameter block embedded in it, their byte-exact codec, their validation,
//! the geometry derived from them, and the synthesis of a fresh boot sector
//! from a volume size.
//!
//! - `fat_type`: the three variants, shared constants, errors and warnings;
//! - `endian`: little-endian numbers in byte sequences;
//! - `bpb`: the parameter block and the quantities derived from it;
//! - `validate`: the checks on a parameter block;
//! - `codec`: the byte layout of a parameter block;
//! - `boot`: the boot sector around it;
//! - `format`: a parameter block and boot sector for a new volume;
//! - `format_laws`: what holds of every formatted volume.

pub mod fat_type;
pub mod endian;
pub mod bpb;
pub mod validate;
pub mod codec;
pub mod boot;
pub mod format;
pub mod format_laws;
