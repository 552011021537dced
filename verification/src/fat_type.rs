//! The three FAT variants, the constants shared with the directory and table
//! layers, the status flags kept in the parameter block, and the kinds of
//! hard error and compatibility warning this crate reports.

use vstd::prelude::*;

verus! {

/// Size in bytes of one directory entry.
pub const DIR_ENTRY_SIZE: u32 = 32;

/// Number of entries at the start of a FAT that describe no cluster.
pub const RESERVED_FAT_ENTRIES: u32 = 2;

/// Smallest cluster count of a FAT16 volume.
pub const FAT16_MIN_CLUSTERS: u32 = 4085;

/// Smallest cluster count of a FAT32 volume.
pub const FAT32_MIN_CLUSTERS: u32 = 65525;

/// Variant of the file allocation table, always derived from a cluster count.
#[derive(Clone, Copy, Debug, PartialEq, Eq, Structural)]
pub enum FatType {
    Fat12,
    Fat16,
    Fat32,
}

impl FatType {
    /// The variant that a volume of `total_clusters` clusters has.
    pub open spec fn spec_from_clusters(total_clusters: int) -> FatType {
        if total_clusters < FAT16_MIN_CLUSTERS {
            FatType::Fat12
        } else if total_clusters < FAT32_MIN_CLUSTERS {
            FatType::Fat16
        } else {
            FatType::Fat32
        }
    }

    /// Width in bits of one entry of the table.
    pub open spec fn spec_bits_per_fat_entry(self) -> u32 {
        match self {
            FatType::Fat12 => 12,
            FatType::Fat16 => 16,
            FatType::Fat32 => 32,
        }
    }

    /// Classifies a volume by its number of clusters.
    pub fn from_clusters(total_clusters: u32) -> (r: FatType)
        ensures
            r == Self::spec_from_clusters(total_clusters as int),
    {
        if total_clusters < FAT16_MIN_CLUSTERS {
            FatType::Fat12
        } else if total_clusters < FAT32_MIN_CLUSTERS {
            FatType::Fat16
        } else {
            FatType::Fat32
        }
    }

    /// Width in bits of one entry of the table.
    pub fn bits_per_fat_entry(&self) -> (r: u32)
        ensures
            r == self.spec_bits_per_fat_entry(),
    {
        match self {
            FatType::Fat12 => 12,
            FatType::Fat16 => 16,
            FatType::Fat32 => 32,
        }
    }
}

/// Volume status kept in the reserved byte of the parameter block.
#[derive(Clone, Copy, Debug, PartialEq, Eq, Structural)]
pub struct FsStatusFlags {
    /// The volume was not unmounted cleanly.
    pub dirty: bool,
    /// An I/O error was met during the last mount.
    pub io_error: bool,
}

impl FsStatusFlags {
    /// The flags that the byte `flags` holds: bit 0 is dirty, bit 1 is I/O error.
    pub open spec fn spec_decode(flags: u8) -> FsStatusFlags {
        FsStatusFlags { dirty: flags & 1u8 != 0, io_error: flags & 2u8 != 0 }
    }

    /// Reads the status flags out of the reserved byte.
    pub fn decode(flags: u8) -> (r: FsStatusFlags)
        ensures
            r == Self::spec_decode(flags),
            r.dirty <==> flags % 2 == 1,
            r.io_error <==> (flags / 2) % 2 == 1,
    {
        proof {
            assert((flags & 1u8 != 0) <==> flags % 2 == 1) by (bit_vector);
            assert((flags & 2u8 != 0) <==> (flags / 2) % 2 == 1) by (bit_vector);
        }
        FsStatusFlags { dirty: flags & 1 != 0, io_error: flags & 2 != 0 }
    }
}

/// A hard error: the operation was abandoned.
#[derive(Clone, Copy, Debug, PartialEq, Eq, Structural)]
pub enum FatError {
    /// The input ends before the record does.
    UnexpectedEof,
    /// `bytes_per_sector` is not a power of two.
    BytesPerSectorNotPowerOfTwo,
    /// `bytes_per_sector` is below 512.
    BytesPerSectorTooSmall,
    /// `bytes_per_sector` is above 4096.
    BytesPerSectorTooLarge,
    /// `sectors_per_cluster` is not a power of two.
    SectorsPerClusterNotPowerOfTwo,
    /// `reserved_sectors` is zero.
    NoReservedSectors,
    /// `fats` is zero.
    NoFats,
    /// A FAT32 volume with a non-zero `root_entries`.
    RootEntriesNotZero,
    /// A FAT32 volume with a non-zero `total_sectors_16`.
    TotalSectors16NotZero,
    /// Both total-sector fields are zero, or both are non-zero.
    TotalSectorsAmbiguous,
    /// A FAT32 volume with a zero `sectors_per_fat_32`.
    SectorsPerFat32Zero,
    /// `fs_version` is not zero.
    UnknownFsVersion,
    /// The volume does not extend past its own metadata.
    TotalSectorsTooSmall,
    /// The layout says FAT32 and the cluster count does not, or the reverse.
    FatTypeMismatch,
    /// The sector does not end in `0x55 0xAA`.
    InvalidSignature,
    /// The volume to format leaves no room for tables and data.
    VolumeTooSmall,
    /// The cluster count of the formatted volume does not give the chosen variant.
    ClustersDoNotMatchFatType,
}

/// A compatibility warning: the operation went on.
#[derive(Clone, Copy, Debug, PartialEq, Eq, Structural)]
pub enum FatWarning {
    /// A cluster is larger than 32 KiB.
    ClusterTooLarge,
    /// A FAT12 or FAT16 volume with other than one reserved sector.
    ReservedSectorsNotOne,
    /// More than two tables.
    TooManyFats,
    /// The table has fewer entries than the volume has clusters.
    FatTooSmall,
    /// The jump instruction starts with neither `0xEB` nor `0xE9`.
    UnknownJumpOpcode,
}

} // verus!
