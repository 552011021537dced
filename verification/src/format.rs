//! Formatting: from a volume size and a few optional choices to a parameter
//! block that agrees with itself, and to the boot sector around it.

use vstd::prelude::*;
use crate::boot::{BOOT_SIGNATURE, BootSector};
use crate::bpb::{BiosParameterBlock, EXTENDED_SIGNATURE, MAX_COMPATIBLE_CLUSTER_SIZE, ceil_div, is_power_of_two};
use crate::format_laws::lemma_bytes_per_cluster_power_of_two;
use crate::fat_type::{DIR_ENTRY_SIZE, FatError, FatType};

verus! {

/// Bytes in a KiB.
pub const KB: u64 = 1024;

/// Bytes in a MiB.
pub const MB: u64 = 1048576;

/// Bytes in a GiB.
pub const GB: u64 = 1073741824;

/// Largest number whose next power of two fits 64 bits.
pub const MAX_POWER_OF_TWO: u64 = 0x8000_0000_0000_0000;

/// Volume label of a volume formatted without one: `NO NAME`, padded.
pub const DEFAULT_VOLUME_LABEL: [u8; 11] = [
    0x4E, 0x4F, 0x20, 0x4E, 0x41, 0x4D, 0x45, 0x20, 0x20, 0x20, 0x20,
];

/// Type label of a FAT12 volume: `FAT12`, padded.
pub const FAT12_LABEL: [u8; 8] = [0x46, 0x41, 0x54, 0x31, 0x32, 0x20, 0x20, 0x20];

/// Type label of a FAT16 volume: `FAT16`, padded.
pub const FAT16_LABEL: [u8; 8] = [0x46, 0x41, 0x54, 0x31, 0x36, 0x20, 0x20, 0x20];

/// Type label of a FAT32 volume: `FAT32`, padded.
pub const FAT32_LABEL: [u8; 8] = [0x46, 0x41, 0x54, 0x33, 0x32, 0x20, 0x20, 0x20];

/// OEM name of a formatted volume: `MSWIN4.1`.
pub const OEM_NAME: [u8; 8] = [0x4D, 0x53, 0x57, 0x49, 0x4E, 0x34, 0x2E, 0x31];

/// Number of tables of a formatted volume.
pub const FATS: u8 = 2;

/// Offset in the sector of the boot code after the short form of the
/// parameter block.
pub const SHORT_BOOT_CODE_OFFSET: u32 = 62;

/// Offset of the message in the boot code.
pub const MESSAGE_OFFSET: u32 = 29;

/// Address at which a boot sector is loaded.
pub const LOAD_ADDRESS: u32 = 0x7C00;

/// Length of the boot code of a formatted volume.
pub const BOOT_STUB_LEN: usize = 129;

/// Boot code of a formatted volume, as it stands after the extended form of
/// the parameter block: it prints that the disk is not bootable, waits for a
/// key and boots again.
pub const BOOT_STUB: [u8; 129] = [
    0x0E, 0x1F, 0xBE, 0x77, 0x7C, 0xAC, 0x22, 0xC0, 0x74, 0x0B, 0x56, 0xB4, 0x0E, 0xBB, 0x07, 0x00,
    0xCD, 0x10, 0x5E, 0xEB, 0xF0, 0x32, 0xE4, 0xCD, 0x16, 0xCD, 0x19, 0xEB, 0xFE, 0x54, 0x68, 0x69,
    0x73, 0x20, 0x69, 0x73, 0x20, 0x6E, 0x6F, 0x74, 0x20, 0x61, 0x20, 0x62, 0x6F, 0x6F, 0x74, 0x61,
    0x62, 0x6C, 0x65, 0x20, 0x64, 0x69, 0x73, 0x6B, 0x2E, 0x20, 0x20, 0x50, 0x6C, 0x65, 0x61, 0x73,
    0x65, 0x20, 0x69, 0x6E, 0x73, 0x65, 0x72, 0x74, 0x20, 0x61, 0x20, 0x62, 0x6F, 0x6F, 0x74, 0x61,
    0x62, 0x6C, 0x65, 0x20, 0x66, 0x6C, 0x6F, 0x70, 0x70, 0x79, 0x20, 0x61, 0x6E, 0x64, 0x0D, 0x0A,
    0x70, 0x72, 0x65, 0x73, 0x73, 0x20, 0x61, 0x6E, 0x79, 0x20, 0x6B, 0x65, 0x79, 0x20, 0x74, 0x6F,
    0x20, 0x74, 0x72, 0x79, 0x20, 0x61, 0x67, 0x61, 0x69, 0x6E, 0x20, 0x2E, 0x2E, 0x2E, 0x20, 0x0D,
    0x0A,
];

/// The twelve reserved bytes of the extended form.
pub const RESERVED_BYTES: [u8; 12] = [0, 0, 0, 0, 0, 0, 0, 0, 0, 0, 0, 0];

/// What a formatter is asked for. Only the size is required.
#[derive(Clone, Copy, Debug, PartialEq, Eq)]
pub struct FormatVolumeOptions {
    /// Size of a sector in bytes.
    pub bytes_per_sector: u16,
    /// Size of the volume in sectors.
    pub total_sectors: u32,
    /// Size of a cluster in bytes; by default chosen from the size of the volume.
    pub bytes_per_cluster: Option<u32>,
    /// The variant; by default chosen from the size of the volume.
    pub fat_type: Option<FatType>,
    /// Entries of the root directory of a FAT12 or FAT16 volume; by default 512.
    pub root_entries: Option<u16>,
    /// Media descriptor; by default `0xF8`.
    pub media: Option<u8>,
    /// Sectors of a track; by default `0x20`.
    pub sectors_per_track: Option<u16>,
    /// Heads of the drive; by default `0x40`.
    pub heads: Option<u16>,
    /// Drive number; by default 0 on FAT12 and `0x80` otherwise.
    pub drive_num: Option<u8>,
    /// Volume serial number; by default `0x12345678`.
    pub volume_id: Option<u32>,
    /// Volume label; by default `NO NAME`, padded with spaces.
    pub volume_label: Option<[u8; 11]>,
}

impl FormatVolumeOptions {
    /// Options that choose nothing but the size.
    pub fn new(total_sectors: u32, bytes_per_sector: u16) -> (r: FormatVolumeOptions)
        ensures
            r == (FormatVolumeOptions {
                bytes_per_sector,
                total_sectors,
                bytes_per_cluster: None,
                fat_type: None,
                root_entries: None,
                media: None,
                sectors_per_track: None,
                heads: None,
                drive_num: None,
                volume_id: None,
                volume_label: None,
            }),
    {
        FormatVolumeOptions {
            bytes_per_sector,
            total_sectors,
            bytes_per_cluster: None,
            fat_type: None,
            root_entries: None,
            media: None,
            sectors_per_track: None,
            heads: None,
            drive_num: None,
            volume_id: None,
            volume_label: None,
        }
    }

    /// Size of the volume in bytes.
    pub fn total_bytes(&self) -> (r: u64)
        ensures
            r == self.spec_total_bytes(),
            r == self.total_sectors * self.bytes_per_sector,
            r <= 0xFFFF_FFFF * 0xFFFF,
    {
        let s: u64 = self.total_sectors as u64;
        let b: u64 = self.bytes_per_sector as u64;
        assert(s * b <= 0xFFFF_FFFF * 0xFFFF) by (nonlinear_arith)
            requires
                0 <= s <= 0xFFFF_FFFF,
                0 <= b <= 0xFFFF,
        ;
        s * b
    }

    /// The variant: the chosen one, or the one for the size.
    pub fn fat_type(&self) -> (r: FatType)
        ensures
            r == self.spec_fat_type(),
    {
        match self.fat_type {
            Some(t) => t,
            None => determine_fat_type(self.total_bytes()),
        }
    }

    /// Sectors of a cluster.
    pub fn sectors_per_cluster(&self) -> (r: u8)
        requires
            self.bytes_per_sector > 0,
        ensures
            r == self.spec_sectors_per_cluster(),
    {
        let bytes_per_cluster: u32 = match self.bytes_per_cluster {
            Some(b) => b,
            None => determine_bytes_per_cluster(
                self.total_bytes(),
                self.fat_type(),
                self.bytes_per_sector,
            ),
        };
        ((bytes_per_cluster / self.bytes_per_sector as u32) % 256) as u8
    }

    /// Tells whether the volume can be laid out, which formatting requires.
    pub fn can_format(&self) -> (r: bool)
        ensures
            r == self.formattable(),
    {
        self.bytes_per_sector > 0 && self.sectors_per_cluster() > 0
    }

    /// Size of the volume in bytes.
    pub open spec fn spec_total_bytes(&self) -> u64 {
        (self.total_sectors * self.bytes_per_sector) as u64
    }

    /// The variant: the chosen one, or the one for the size.
    pub open spec fn spec_fat_type(&self) -> FatType {
        match self.fat_type {
            Some(t) => t,
            None => spec_fat_type(self.spec_total_bytes()),
        }
    }

    /// The cluster size: the chosen one, or the one for the size and variant.
    pub open spec fn spec_bytes_per_cluster(&self) -> int {
        match self.bytes_per_cluster {
            Some(b) => b as int,
            None => spec_bytes_per_cluster(
                self.spec_total_bytes(),
                self.spec_fat_type(),
                self.bytes_per_sector,
            ),
        }
    }

    /// Sectors of a cluster: the low eight bits of the quotient of the two sizes.
    pub open spec fn spec_sectors_per_cluster(&self) -> u8 {
        ((self.spec_bytes_per_cluster() / (self.bytes_per_sector as int)) % 256) as u8
    }

    /// Reserved sectors: four on FAT32 (two boot sectors, the FSInfo sector
    /// and a spare), else one.
    pub open spec fn spec_reserved_sectors(&self) -> u16 {
        if self.spec_fat_type() == FatType::Fat32 {
            4
        } else {
            1
        }
    }

    /// Entries of the root directory: none on FAT32, else the chosen number or 512.
    pub open spec fn spec_root_entries(&self) -> u16 {
        if self.spec_fat_type() == FatType::Fat32 {
            0
        } else {
            match self.root_entries {
                Some(n) => n,
                None => 512,
            }
        }
    }

    /// Sectors of the root directory.
    pub open spec fn spec_root_dir_sectors(&self) -> int {
        ceil_div(self.spec_root_entries() * DIR_ENTRY_SIZE, self.bytes_per_sector as int)
    }

    /// The estimated size of one table, in sectors.
    pub open spec fn spec_sectors_per_fat(&self) -> int {
        ceil_div(
            self.total_sectors - (self.spec_reserved_sectors() + self.spec_root_dir_sectors()),
            spec_fat_divisor(self.spec_sectors_per_cluster(), FATS, self.spec_fat_type()),
        )
    }

    /// No cluster size is chosen, and the sector size is one that validation
    /// accepts: a power of two from 512 to 4096.
    pub open spec fn standard(&self) -> bool {
        &&& self.bytes_per_cluster is None
        &&& is_power_of_two(self.bytes_per_sector as int)
        &&& 512 <= self.bytes_per_sector <= 4096
    }

    /// The volume can be laid out: a sector is not empty, and a cluster has
    /// at least one.
    pub open spec fn formattable(&self) -> bool {
        self.bytes_per_sector > 0 && self.spec_sectors_per_cluster() > 0
    }

    /// The volume leaves at most eight sectors for tables and data.
    pub open spec fn spec_too_small(&self) -> bool {
        self.total_sectors <= self.spec_reserved_sectors() + self.spec_root_dir_sectors() + 8
    }

    /// The parameter block for the volume.
    pub open spec fn spec_bpb(&self) -> BiosParameterBlock {
        let fat_type = self.spec_fat_type();
        let is_fat32 = fat_type == FatType::Fat32;
        let sectors_per_fat = self.spec_sectors_per_fat();
        BiosParameterBlock {
            bytes_per_sector: self.bytes_per_sector,
            sectors_per_cluster: self.spec_sectors_per_cluster(),
            reserved_sectors: self.spec_reserved_sectors(),
            fats: FATS,
            root_entries: self.spec_root_entries(),
            total_sectors_16: if self.total_sectors < 0x10000 {
                self.total_sectors as u16
            } else {
                0
            },
            media: match self.media {
                Some(m) => m,
                None => 0xF8,
            },
            sectors_per_fat_16: if is_fat32 {
                0
            } else {
                (sectors_per_fat % 0x10000) as u16
            },
            sectors_per_track: match self.sectors_per_track {
                Some(n) => n,
                None => 0x20,
            },
            heads: match self.heads {
                Some(n) => n,
                None => 0x40,
            },
            hidden_sectors: 0,
            total_sectors_32: if self.total_sectors >= 0x10000 {
                self.total_sectors
            } else {
                0
            },
            sectors_per_fat_32: if is_fat32 {
                sectors_per_fat as u32
            } else {
                0
            },
            extended_flags: 0,
            fs_version: 0,
            root_dir_first_cluster: if is_fat32 {
                2
            } else {
                0
            },
            fs_info_sector: if is_fat32 {
                1
            } else {
                0
            },
            backup_boot_sector: if is_fat32 {
                6
            } else {
                0
            },
            reserved_0: RESERVED_BYTES,
            drive_num: match self.drive_num {
                Some(n) => n,
                None => if fat_type == FatType::Fat12 {
                    0
                } else {
                    0x80
                },
            },
            reserved_1: 0,
            ext_sig: EXTENDED_SIGNATURE,
            volume_id: match self.volume_id {
                Some(n) => n,
                None => 0x12345678,
            },
            volume_label: match self.volume_label {
                Some(l) => l,
                None => DEFAULT_VOLUME_LABEL,
            },
            fs_type_label: match fat_type {
                FatType::Fat12 => FAT12_LABEL,
                FatType::Fat16 => FAT16_LABEL,
                FatType::Fat32 => FAT32_LABEL,
            },
        }
    }

    /// Why the volume cannot be formatted, if it cannot: it is too small, or
    /// the clusters of its parameter block are not as many as its variant has.
    pub open spec fn spec_error(&self) -> Option<FatError> {
        if self.spec_too_small() {
            Some(FatError::VolumeTooSmall)
        } else if FatType::spec_from_clusters(self.spec_bpb().spec_total_clusters())
            != self.spec_fat_type() {
            Some(FatError::ClustersDoNotMatchFatType)
        } else {
            None
        }
    }
}

/// The least of `p`, `2p`, `4p`, ... that is not below `n`.
pub open spec fn spec_next_power_of_two_from(p: nat, n: nat) -> nat
    decreases (if p < n { n - p } else { 0 }),
{
    if p >= n || p == 0 {
        p
    } else {
        spec_next_power_of_two_from(2 * p, n)
    }
}

/// The least power of two that is not below `n`.
pub open spec fn spec_next_power_of_two(n: nat) -> nat {
    spec_next_power_of_two_from(1, n)
}

/// The variant for a volume of `total_bytes` bytes: FAT12 below 4 MiB, FAT16
/// below 512 MiB, FAT32 from there on.
pub open spec fn spec_fat_type(total_bytes: u64) -> FatType {
    if total_bytes < 4 * MB {
        FatType::Fat12
    } else if total_bytes < 512 * MB {
        FatType::Fat16
    } else {
        FatType::Fat32
    }
}

/// The cluster size that the size of the volume suggests, before it is
/// brought between the sector size and 32 KiB: 512 bytes for each MiB of a
/// FAT12 volume, 1 KiB for each 64 MiB of a FAT16 volume above 128 MiB, 1 KiB
/// for each 2 GiB of a FAT32 volume above 8 GiB, the size of the volume
/// rounded up to a power of two first. Only its low 32 bits are kept.
pub open spec fn spec_suggested_cluster_size(total_bytes: u64, fat_type: FatType) -> int {
    let p = spec_next_power_of_two(total_bytes as nat) as int;
    match fat_type {
        FatType::Fat12 => (p / 1048576 * 512) % 0x1_0000_0000,
        FatType::Fat16 => if total_bytes <= 16 * MB {
            1024
        } else if total_bytes <= 128 * MB {
            2048
        } else {
            (p / 67108864 * 1024) % 0x1_0000_0000
        },
        FatType::Fat32 => if total_bytes <= 260 * MB {
            512
        } else if total_bytes <= 8 * GB {
            4096
        } else {
            (p / 2147483648 * 1024) % 0x1_0000_0000
        },
    }
}

/// The cluster size for a volume: the suggested one, not below a sector and
/// then not above 32 KiB.
pub open spec fn spec_bytes_per_cluster(
    total_bytes: u64,
    fat_type: FatType,
    bytes_per_sector: u16,
) -> int {
    let suggested = spec_suggested_cluster_size(total_bytes, fat_type);
    let raised = if suggested < bytes_per_sector {
        bytes_per_sector as int
    } else {
        suggested
    };
    if raised > MAX_COMPATIBLE_CLUSTER_SIZE {
        MAX_COMPATIBLE_CLUSTER_SIZE as int
    } else {
        raised
    }
}

/// The sectors that one entry-sector of a table accounts for, as the size
/// estimate has it: `256 * sectors_per_cluster + fats`, halved for FAT32,
/// a third of it times four for FAT12.
pub open spec fn spec_fat_divisor(sectors_per_cluster: u8, fats: u8, fat_type: FatType) -> int {
    let d = 256 * sectors_per_cluster + fats;
    match fat_type {
        FatType::Fat32 => d / 2,
        FatType::Fat12 => d / 3 * 4,
        FatType::Fat16 => d,
    }
}

/// The estimated size of one table in sectors: the sectors after the
/// reserved ones and the root directory, divided by the divisor, rounded up.
pub open spec fn spec_sectors_per_fat(
    total_sectors: u32,
    reserved_sectors: u16,
    fats: u8,
    root_dir_sectors: u32,
    sectors_per_cluster: u8,
    fat_type: FatType,
) -> int {
    ceil_div(
        total_sectors - (reserved_sectors + root_dir_sectors),
        spec_fat_divisor(sectors_per_cluster, fats, fat_type),
    )
}

/// Whether `n` is zero, a power of two below 32 KiB, or anything from
/// 32 KiB on: what a suggested cluster size is.
pub open spec fn is_small_power_of_two(n: int) -> bool {
    n == 0 || is_power_of_two(n) || n >= MAX_COMPATIBLE_CLUSTER_SIZE
}

/// Whether exactly one bit of `n` is set.
pub open spec fn has_one_bit(n: u64) -> bool {
    n != 0 && n & ((n - 1) as u64) == 0
}

/// The least power of two that is not below `n`.
pub fn next_power_of_two(n: u64) -> (r: u64)
    requires
        n <= MAX_POWER_OF_TWO,
    ensures
        r == spec_next_power_of_two(n as nat),
        has_one_bit(r),
        n <= r <= MAX_POWER_OF_TWO,
        r == 1 || r / 2 < n,
{
    let mut p: u64 = 1;
    assert(has_one_bit(1u64)) by (bit_vector);
    while p < n
        invariant
            has_one_bit(p),
            p <= MAX_POWER_OF_TWO,
            n <= MAX_POWER_OF_TWO,
            p == 1 || p / 2 < n,
            spec_next_power_of_two_from(p as nat, n as nat) == spec_next_power_of_two(n as nat),
        decreases (if p < n { n - p } else { 0 }),
    {
        assert(has_one_bit(p) && p < 0x8000_0000_0000_0000u64 ==> p <= 0x4000_0000_0000_0000u64
            && has_one_bit((p * 2) as u64)) by (bit_vector);
        p = p * 2;
    }
    p
}

/// Chooses the variant for a volume of `total_bytes` bytes.
pub fn determine_fat_type(total_bytes: u64) -> (r: FatType)
    ensures
        r == spec_fat_type(total_bytes),
{
    if total_bytes < 4 * MB {
        FatType::Fat12
    } else if total_bytes < 512 * MB {
        FatType::Fat16
    } else {
        FatType::Fat32
    }
}

/// Chooses the cluster size for a volume of `total_bytes` bytes.
pub fn determine_bytes_per_cluster(total_bytes: u64, fat_type: FatType, bytes_per_sector: u16) -> (r: u32)
    requires
        total_bytes <= MAX_POWER_OF_TWO,
    ensures
        r == spec_bytes_per_cluster(total_bytes, fat_type, bytes_per_sector),
        bytes_per_sector <= MAX_COMPATIBLE_CLUSTER_SIZE ==> bytes_per_sector <= r,
        r <= MAX_COMPATIBLE_CLUSTER_SIZE,
        is_power_of_two(bytes_per_sector as int) ==> is_power_of_two(r as int),
{
    proof {
        if is_power_of_two(bytes_per_sector as int) {
            lemma_bytes_per_cluster_power_of_two(total_bytes, fat_type, bytes_per_sector);
        }
    }
    let suggested: u64 = match fat_type {
        FatType::Fat12 => (next_power_of_two(total_bytes) / 1048576 * 512) % 0x1_0000_0000,
        FatType::Fat16 => {
            if total_bytes <= 16 * MB {
                1024
            } else if total_bytes <= 128 * MB {
                2048
            } else {
                (next_power_of_two(total_bytes) / 67108864 * 1024) % 0x1_0000_0000
            }
        },
        FatType::Fat32 => {
            if total_bytes <= 260 * MB {
                512
            } else if total_bytes <= 8 * GB {
                4096
            } else {
                (next_power_of_two(total_bytes) / 2147483648 * 1024) % 0x1_0000_0000
            }
        },
    };
    let raised: u64 = if suggested < bytes_per_sector as u64 {
        bytes_per_sector as u64
    } else {
        suggested
    };
    if raised > MAX_COMPATIBLE_CLUSTER_SIZE as u64 {
        MAX_COMPATIBLE_CLUSTER_SIZE
    } else {
        raised as u32
    }
}

/// Estimates the size of one table in sectors.
pub fn determine_sectors_per_fat(
    total_sectors: u32,
    reserved_sectors: u16,
    fats: u8,
    root_dir_sectors: u32,
    sectors_per_cluster: u8,
    fat_type: FatType,
) -> (r: u32)
    requires
        reserved_sectors + root_dir_sectors <= total_sectors,
        spec_fat_divisor(sectors_per_cluster, fats, fat_type) > 0,
    ensures
        r == spec_sectors_per_fat(
            total_sectors,
            reserved_sectors,
            fats,
            root_dir_sectors,
            sectors_per_cluster,
            fat_type,
        ),
{
    let tmp_val1: u64 = total_sectors as u64 - (reserved_sectors as u64 + root_dir_sectors as u64);
    let mut tmp_val2: u64 = (256 * sectors_per_cluster as u64) + fats as u64;
    match fat_type {
        FatType::Fat32 => {
            tmp_val2 = tmp_val2 / 2;
        },
        FatType::Fat12 => {
            tmp_val2 = tmp_val2 / 3 * 4;
        },
        FatType::Fat16 => {},
    }
    let r: u64 = (tmp_val1 + (tmp_val2 - 1)) / tmp_val2;
    assert(r <= tmp_val1) by (nonlinear_arith)
        requires
            r == (tmp_val1 + (tmp_val2 - 1)) / (tmp_val2 as int),
            tmp_val2 > 0,
            tmp_val1 >= 0,
    ;
    r as u32
}

/// Builds the parameter block for the volume that `options` describe. It
/// fails where the volume is too small, or where the clusters of the block
/// are not as many as its variant has.
pub fn format_bpb(options: &FormatVolumeOptions) -> (r: Result<(BiosParameterBlock, FatType), FatError>)
    requires
        options.formattable(),
    ensures
        match r {
            Ok((bpb, fat_type)) => {
                &&& options.spec_error() is None
                &&& bpb == options.spec_bpb()
                &&& fat_type == options.spec_fat_type()
                &&& bpb.wf()
                &&& bpb.countable()
                &&& bpb.spec_is_fat32() <==> fat_type == FatType::Fat32
                &&& FatType::spec_from_clusters(bpb.spec_total_clusters()) == fat_type
                &&& options.standard() ==> bpb.valid()
            },
            Err(e) => options.spec_error() == Some(e),
        },
{
    let bytes_per_sector: u16 = options.bytes_per_sector;
    let total_sectors: u32 = options.total_sectors;
    let fat_type = options.fat_type();
    let sectors_per_cluster: u8 = options.sectors_per_cluster();
    let is_fat32 = fat_type == FatType::Fat32;
    let reserved_sectors: u16 = if is_fat32 { 4 } else { 1 };
    let fats: u8 = FATS;
    let root_entries: u16 = if is_fat32 {
        0
    } else {
        match options.root_entries {
            Some(n) => n,
            None => 512,
        }
    };
    let root_dir_bytes: u32 = root_entries as u32 * DIR_ENTRY_SIZE;
    let root_dir_sectors: u32 = (root_dir_bytes + bytes_per_sector as u32 - 1)
        / bytes_per_sector as u32;
    if total_sectors <= reserved_sectors as u32 + root_dir_sectors + 8 {
        return Err(FatError::VolumeTooSmall);
    }
    let sectors_per_fat: u32 = determine_sectors_per_fat(
        total_sectors,
        reserved_sectors,
        fats,
        root_dir_sectors,
        sectors_per_cluster,
        fat_type,
    );
    let drive_num: u8 = match options.drive_num {
        Some(n) => n,
        None => if fat_type == FatType::Fat12 { 0 } else { 0x80 },
    };
    let volume_label: [u8; 11] = match options.volume_label {
        Some(l) => l,
        None => DEFAULT_VOLUME_LABEL,
    };
    let fs_type_label: [u8; 8] = match fat_type {
        FatType::Fat12 => FAT12_LABEL,
        FatType::Fat16 => FAT16_LABEL,
        FatType::Fat32 => FAT32_LABEL,
    };
    let bpb = BiosParameterBlock {
        bytes_per_sector,
        sectors_per_cluster,
        reserved_sectors,
        fats,
        root_entries,
        total_sectors_16: if total_sectors < 0x10000 { total_sectors as u16 } else { 0 },
        media: match options.media {
            Some(m) => m,
            None => 0xF8,
        },
        sectors_per_fat_16: if is_fat32 { 0 } else { (sectors_per_fat % 0x10000) as u16 },
        sectors_per_track: match options.sectors_per_track {
            Some(n) => n,
            None => 0x20,
        },
        heads: match options.heads {
            Some(n) => n,
            None => 0x40,
        },
        hidden_sectors: 0,
        total_sectors_32: if total_sectors >= 0x10000 { total_sectors } else { 0 },
        sectors_per_fat_32: if is_fat32 { sectors_per_fat } else { 0 },
        extended_flags: 0,
        fs_version: 0,
        root_dir_first_cluster: if is_fat32 { 2 } else { 0 },
        fs_info_sector: if is_fat32 { 1 } else { 0 },
        backup_boot_sector: if is_fat32 { 6 } else { 0 },
        reserved_0: RESERVED_BYTES,
        drive_num,
        reserved_1: 0,
        ext_sig: EXTENDED_SIGNATURE,
        volume_id: match options.volume_id {
            Some(n) => n,
            None => 0x12345678,
        },
        volume_label,
        fs_type_label,
    };
    proof {
        assert(root_dir_sectors == options.spec_root_dir_sectors());
        assert(sectors_per_fat == options.spec_sectors_per_fat());
        assert(bpb == options.spec_bpb());
        options.lemma_block_countable();
    }
    if FatType::from_clusters(bpb.total_clusters()) != fat_type {
        return Err(FatError::ClustersDoNotMatchFatType);
    }
    proof {
        options.lemma_form_matches();
        if options.standard() {
            options.lemma_cluster_is_power_of_two();
            options.lemma_formatted_is_valid();
        }
    }
    Ok((bpb, fat_type))
}

/// The byte at `i` of the boot code of a formatted volume: the stub, then
/// zeros. After the short form of the parameter block the stub stands 28
/// bytes earlier in the sector, and bytes 3 and 4, the address of its
/// message, are lower by as much.
pub open spec fn spec_boot_code_byte(fat_type: FatType, i: int) -> u8 {
    let message = SHORT_BOOT_CODE_OFFSET + MESSAGE_OFFSET + LOAD_ADDRESS;
    if fat_type != FatType::Fat32 && i == 3 {
        (message % 256) as u8
    } else if fat_type != FatType::Fat32 && i == 4 {
        (message / 256) as u8
    } else if 0 <= i < BOOT_STUB_LEN {
        BOOT_STUB@[i]
    } else {
        0
    }
}

/// The second byte of the jump instruction of a formatted volume: the
/// distance from the end of the two-byte jump to the boot code.
pub open spec fn spec_jump_distance(fat_type: FatType) -> u8 {
    if fat_type == FatType::Fat32 {
        0x58
    } else {
        (SHORT_BOOT_CODE_OFFSET - 2) as u8
    }
}

/// Builds the boot sector for the volume that `options` describe: the
/// parameter block of `format_bpb`, which decides success, between the jump
/// instruction and OEM name and the boot code and signature.
pub fn format_boot_sector(options: &FormatVolumeOptions) -> (r: Result<(BootSector, FatType), FatError>)
    requires
        options.formattable(),
    ensures
        match r {
            Ok((boot, fat_type)) => {
                &&& options.spec_error() is None
                &&& fat_type == options.spec_fat_type()
                &&& boot.bpb == options.spec_bpb()
                &&& boot.bootjmp@ == seq![0xEBu8, spec_jump_distance(fat_type), 0x90u8]
                &&& boot.oem_name == OEM_NAME
                &&& forall|i: int| 0 <= i < 448 ==> boot.boot_code@[i] == spec_boot_code_byte(fat_type, i)
                &&& boot.boot_sig == BOOT_SIGNATURE
                &&& boot.wf()
                &&& boot.bpb.countable()
                &&& boot.bpb.spec_is_fat32() <==> fat_type == FatType::Fat32
                &&& options.standard() ==> boot.spec_error() is None
                &&& FatType::spec_from_clusters(boot.bpb.spec_total_clusters()) == fat_type
            },
            Err(e) => options.spec_error() == Some(e),
        },
{
    let (bpb, fat_type) = match format_bpb(options) {
        Ok(pair) => pair,
        Err(e) => {
            return Err(e);
        },
    };
    let mut bootjmp: [u8; 3] = [0xEB, 0x58, 0x90];
    let mut boot_code = [0u8; 448];
    let mut i: usize = 0;
    while i < BOOT_STUB_LEN
        invariant
            i <= BOOT_STUB_LEN,
            forall|j: int| 0 <= j < i ==> boot_code@[j] == BOOT_STUB@[j],
            forall|j: int| i <= j < 448 ==> boot_code@[j] == 0,
        decreases BOOT_STUB_LEN - i,
    {
        boot_code[i] = BOOT_STUB[i];
        i += 1;
    }
    if fat_type != FatType::Fat32 {
        bootjmp[1] = (SHORT_BOOT_CODE_OFFSET - 2) as u8;
        let message: u32 = SHORT_BOOT_CODE_OFFSET + MESSAGE_OFFSET + LOAD_ADDRESS;
        boot_code[3] = (message % 256) as u8;
        boot_code[4] = (message / 256) as u8;
    }
    let boot = BootSector {
        bootjmp,
        oem_name: OEM_NAME,
        bpb,
        boot_code,
        boot_sig: BOOT_SIGNATURE,
    };
    assert(boot.bootjmp@ =~= seq![0xEBu8, spec_jump_distance(fat_type), 0x90u8]);
    Ok((boot, fat_type))
}

} // verus!
