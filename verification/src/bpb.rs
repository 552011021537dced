//! The BIOS parameter block: the record of a volume's geometry, its byte
//! layout in both forms, the quantities derived from it and its validation.

use vstd::prelude::*;
use crate::fat_type::{DIR_ENTRY_SIZE, FatType, FatWarning, FsStatusFlags};

verus! {

/// Length in bytes of the short form of the block.
pub const SHORT_BPB_LEN: usize = 51;

/// Length in bytes of the extended form of the block, which FAT32 uses.
pub const EXTENDED_BPB_LEN: usize = 79;

/// Value of the extended-signature byte that makes the fields after it meaningful.
pub const EXTENDED_SIGNATURE: u8 = 0x29;

/// Largest cluster size, in bytes, that every implementation is known to take.
pub const MAX_COMPATIBLE_CLUSTER_SIZE: u32 = 32768;

/// `n` zero bytes.
pub open spec fn zeros(n: nat) -> Seq<u8> {
    Seq::new(n, |i: int| 0u8)
}

/// Whether `n` is one of the powers of two that sixteen bits hold.
pub open spec fn is_power_of_two(n: int) -> bool {
    n == 1 || n == 2 || n == 4 || n == 8 || n == 16 || n == 32 || n == 64 || n == 128 || n == 256
        || n == 512 || n == 1024 || n == 2048 || n == 4096 || n == 8192 || n == 16384 || n
        == 32768
}

/// `a` divided by `b`, rounded up.
pub open spec fn ceil_div(a: int, b: int) -> int {
    (a + b - 1) / b
}

/// `s`, with `w` at its end where `cond` holds.
pub open spec fn push_if(s: Seq<FatWarning>, cond: bool, w: FatWarning) -> Seq<FatWarning> {
    if cond {
        s.push(w)
    } else {
        s
    }
}

/// Tells whether `n` is a power of two.
pub fn power_of_two(n: u16) -> (r: bool)
    ensures
        r == is_power_of_two(n as int),
{
    if n == 0 {
        false
    } else {
        let m: u16 = n - 1;
        assert(n != 0 && m == (n - 1) as u16 ==> ((n & m == 0) <==> (n == 1 || n == 2 || n == 4 || n
            == 8 || n == 16 || n == 32 || n == 64 || n == 128 || n == 256 || n == 512 || n == 1024
            || n == 2048 || n == 4096 || n == 8192 || n == 16384 || n == 32768))) by (bit_vector);
        n & m == 0
    }
}

/// The geometry record of a FAT volume. The fields from `sectors_per_fat_32`
/// to `reserved_0` are stored only in the extended form.
#[derive(Clone, Copy, Debug, PartialEq, Eq)]
pub struct BiosParameterBlock {
    pub bytes_per_sector: u16,
    pub sectors_per_cluster: u8,
    pub reserved_sectors: u16,
    pub fats: u8,
    pub root_entries: u16,
    pub total_sectors_16: u16,
    pub media: u8,
    pub sectors_per_fat_16: u16,
    pub sectors_per_track: u16,
    pub heads: u16,
    pub hidden_sectors: u32,
    pub total_sectors_32: u32,
    pub sectors_per_fat_32: u32,
    pub extended_flags: u16,
    pub fs_version: u16,
    pub root_dir_first_cluster: u32,
    pub fs_info_sector: u16,
    pub backup_boot_sector: u16,
    pub reserved_0: [u8; 12],
    pub drive_num: u8,
    pub reserved_1: u8,
    pub ext_sig: u8,
    pub volume_id: u32,
    pub volume_label: [u8; 11],
    pub fs_type_label: [u8; 8],
}

impl BiosParameterBlock {
    // ---------------------------------------------------------------
    // The model: geometry as mathematical integers
    // ---------------------------------------------------------------

    /// The extended form is in use: the 16-bit table size is zero.
    pub open spec fn spec_is_fat32(&self) -> bool {
        self.sectors_per_fat_16 == 0
    }

    /// Sectors of one table.
    pub open spec fn spec_sectors_per_fat(&self) -> int {
        if self.spec_is_fat32() {
            self.sectors_per_fat_32 as int
        } else {
            self.sectors_per_fat_16 as int
        }
    }

    /// Sectors of the volume: the one total-sector field that is not zero.
    pub open spec fn spec_total_sectors(&self) -> int {
        if self.total_sectors_16 == 0 {
            self.total_sectors_32 as int
        } else {
            self.total_sectors_16 as int
        }
    }

    /// Sectors of the fixed root directory; a FAT32 volume has none.
    pub open spec fn spec_root_dir_sectors(&self) -> int {
        if self.spec_is_fat32() {
            0
        } else {
            ceil_div(self.root_entries * DIR_ENTRY_SIZE, self.bytes_per_sector as int)
        }
    }

    /// Sectors of all tables together.
    pub open spec fn spec_sectors_per_all_fats(&self) -> int {
        self.fats * self.spec_sectors_per_fat()
    }

    /// Number of the first sector of the data region.
    pub open spec fn spec_first_data_sector(&self) -> int {
        self.reserved_sectors + self.spec_sectors_per_all_fats() + self.spec_root_dir_sectors()
    }

    /// Clusters of the data region, a cluster begun and not ended left out.
    pub open spec fn spec_total_clusters(&self) -> int {
        (self.spec_total_sectors() - self.spec_first_data_sector()) / (
        self.sectors_per_cluster as int)
    }

    /// Bytes of one cluster.
    pub open spec fn spec_cluster_size(&self) -> int {
        self.sectors_per_cluster * self.bytes_per_sector
    }

    /// Entries that one table has room for, at the entry width of `fat_type`.
    pub open spec fn spec_total_fat_entries(&self, fat_type: FatType) -> int {
        self.spec_sectors_per_fat() * self.bytes_per_sector * 8 / (
        fat_type.spec_bits_per_fat_entry() as int)
    }

    /// The root directory can be measured: no division by zero.
    pub open spec fn measurable(&self) -> bool {
        self.spec_is_fat32() || self.bytes_per_sector > 0
    }

    /// The data region can be counted in clusters: it starts inside the
    /// volume and a cluster is not empty.
    pub open spec fn countable(&self) -> bool {
        &&& self.measurable()
        &&& self.sectors_per_cluster > 0
        &&& self.spec_first_data_sector() <= self.spec_total_sectors()
    }

    /// What a block holds where it was decoded or built by formatting: the
    /// fields that its form does not store are zero, and so are the fields
    /// after an extended signature other than `0x29`.
    pub open spec fn wf(&self) -> bool {
        &&& !self.spec_is_fat32() ==> {
            &&& self.sectors_per_fat_32 == 0
            &&& self.extended_flags == 0
            &&& self.fs_version == 0
            &&& self.root_dir_first_cluster == 0
            &&& self.fs_info_sector == 0
            &&& self.backup_boot_sector == 0
            &&& self.reserved_0@ == zeros(12)
        }
        &&& self.ext_sig != EXTENDED_SIGNATURE ==> {
            &&& self.volume_id == 0
            &&& self.volume_label@ == zeros(11)
            &&& self.fs_type_label@ == zeros(8)
        }
    }

    /// Every field is zero.
    pub open spec fn zeroed(&self) -> bool {
        &&& self.bytes_per_sector == 0
        &&& self.sectors_per_cluster == 0
        &&& self.reserved_sectors == 0
        &&& self.fats == 0
        &&& self.root_entries == 0
        &&& self.total_sectors_16 == 0
        &&& self.media == 0
        &&& self.sectors_per_fat_16 == 0
        &&& self.sectors_per_track == 0
        &&& self.heads == 0
        &&& self.hidden_sectors == 0
        &&& self.total_sectors_32 == 0
        &&& self.sectors_per_fat_32 == 0
        &&& self.extended_flags == 0
        &&& self.fs_version == 0
        &&& self.root_dir_first_cluster == 0
        &&& self.fs_info_sector == 0
        &&& self.backup_boot_sector == 0
        &&& self.reserved_0@ == zeros(12)
        &&& self.drive_num == 0
        &&& self.reserved_1 == 0
        &&& self.ext_sig == 0
        &&& self.volume_id == 0
        &&& self.volume_label@ == zeros(11)
        &&& self.fs_type_label@ == zeros(8)
    }

    // ---------------------------------------------------------------
    // Geometry queries
    // ---------------------------------------------------------------

    /// FAT mirroring is on: bit `0x80` of the extended flags is clear.
    pub fn mirroring_enabled(&self) -> (r: bool)
        ensures
            r == (self.extended_flags & 0x80 == 0),
    {
        self.extended_flags & 0x80 == 0
    }

    /// Number of the active table: the low four bits of the extended flags
    /// where mirroring is off, else zero.
    pub fn active_fat(&self) -> (r: u16)
        ensures
            r == if self.extended_flags & 0x80 == 0 {
                0u16
            } else {
                self.extended_flags & 0x0F
            },
            r < 16,
    {
        let flags = self.extended_flags;
        assert(flags & 0x0F < 16) by (bit_vector);
        if self.mirroring_enabled() {
            0
        } else {
            flags & 0x0F
        }
    }

    /// The status flags kept in the reserved byte.
    pub fn status_flags(&self) -> (r: FsStatusFlags)
        ensures
            r == FsStatusFlags::spec_decode(self.reserved_1),
    {
        FsStatusFlags::decode(self.reserved_1)
    }

    /// Whether the block has the extended form.
    pub fn is_fat32(&self) -> (r: bool)
        ensures
            r == self.spec_is_fat32(),
    {
        self.sectors_per_fat_16 == 0
    }

    /// Sectors of one table.
    pub fn sectors_per_fat(&self) -> (r: u32)
        ensures
            r == self.spec_sectors_per_fat(),
    {
        if self.is_fat32() {
            self.sectors_per_fat_32
        } else {
            self.sectors_per_fat_16 as u32
        }
    }

    /// Sectors of the volume.
    pub fn total_sectors(&self) -> (r: u32)
        ensures
            r == self.spec_total_sectors(),
    {
        if self.total_sectors_16 == 0 {
            self.total_sectors_32
        } else {
            self.total_sectors_16 as u32
        }
    }

    /// Sectors before the first table.
    pub fn reserved_sectors(&self) -> (r: u32)
        ensures
            r == self.reserved_sectors,
    {
        self.reserved_sectors as u32
    }

    /// Sectors of the fixed root directory.
    pub fn root_dir_sectors(&self) -> (r: u32)
        requires
            self.measurable(),
        ensures
            r == self.spec_root_dir_sectors(),
            r <= 65535 * 32 + 65534,
    {
        if self.is_fat32() {
            0
        } else {
            let root_dir_bytes: u32 = self.root_entries as u32 * DIR_ENTRY_SIZE;
            let bps: u32 = self.bytes_per_sector as u32;
            let r: u32 = (root_dir_bytes + bps - 1) / bps;
            r
        }
    }

    /// Sectors of all tables together, in 64 bits.
    pub fn sectors_per_all_fats_wide(&self) -> (r: u64)
        ensures
            r == self.spec_sectors_per_all_fats(),
            r <= 255 * 0xFFFF_FFFF,
    {
        let fats: u64 = self.fats as u64;
        let spf: u64 = self.sectors_per_fat() as u64;
        assert(fats * spf <= 255 * 0xFFFF_FFFF) by (nonlinear_arith)
            requires
                0 <= fats <= 255,
                0 <= spf <= 0xFFFF_FFFF,
        ;
        fats * spf
    }

    /// Number of the first sector of the data region, in 64 bits.
    pub fn first_data_sector_wide(&self) -> (r: u64)
        requires
            self.measurable(),
        ensures
            r == self.spec_first_data_sector(),
    {
        self.reserved_sectors as u64 + self.sectors_per_all_fats_wide()
            + self.root_dir_sectors() as u64
    }

    /// Sectors of all tables together.
    pub fn sectors_per_all_fats(&self) -> (r: u32)
        requires
            self.spec_sectors_per_all_fats() <= u32::MAX,
        ensures
            r == self.spec_sectors_per_all_fats(),
    {
        self.sectors_per_all_fats_wide() as u32
    }

    /// Number of the first sector of the data region.
    pub fn first_data_sector(&self) -> (r: u32)
        requires
            self.measurable(),
            self.spec_first_data_sector() <= u32::MAX,
        ensures
            r == self.spec_first_data_sector(),
    {
        self.first_data_sector_wide() as u32
    }

    /// Clusters of the data region.
    pub fn total_clusters(&self) -> (r: u32)
        requires
            self.countable(),
        ensures
            r == self.spec_total_clusters(),
    {
        let total_sectors: u32 = self.total_sectors();
        let first_data_sector: u32 = self.first_data_sector();
        let data_sectors: u32 = total_sectors - first_data_sector;
        data_sectors / self.sectors_per_cluster as u32
    }

    /// Bytes that `sectors` sectors hold.
    pub fn bytes_from_sectors(&self, sectors: u32) -> (r: u64)
        ensures
            r == sectors * self.bytes_per_sector,
    {
        let s: u64 = sectors as u64;
        let b: u64 = self.bytes_per_sector as u64;
        assert(s * b <= 0xFFFF_FFFF * 0xFFFF) by (nonlinear_arith)
            requires
                0 <= s <= 0xFFFF_FFFF,
                0 <= b <= 0xFFFF,
        ;
        s * b
    }

    /// Sectors that `clusters` clusters hold.
    pub fn sectors_from_clusters(&self, clusters: u32) -> (r: u32)
        requires
            clusters * self.sectors_per_cluster <= u32::MAX,
        ensures
            r == clusters * self.sectors_per_cluster,
    {
        clusters * (self.sectors_per_cluster as u32)
    }

    /// Bytes of one cluster.
    pub fn cluster_size(&self) -> (r: u32)
        ensures
            r == self.spec_cluster_size(),
            r <= 255 * 65535,
    {
        let s: u32 = self.sectors_per_cluster as u32;
        let b: u32 = self.bytes_per_sector as u32;
        assert(s * b <= 255 * 65535) by (nonlinear_arith)
            requires
                0 <= s <= 255,
                0 <= b <= 65535,
        ;
        s * b
    }

    /// Clusters needed to hold `bytes` bytes.
    pub fn clusters_from_bytes(&self, bytes: u64) -> (r: u32)
        requires
            self.spec_cluster_size() > 0,
            ceil_div(bytes as int, self.spec_cluster_size()) <= u32::MAX,
        ensures
            r == ceil_div(bytes as int, self.spec_cluster_size()),
    {
        let cluster_size: u128 = self.cluster_size() as u128;
        ((bytes as u128 + cluster_size - 1) / cluster_size) as u32
    }

    /// Number of the FSInfo sector.
    pub fn fs_info_sector(&self) -> (r: u32)
        ensures
            r == self.fs_info_sector,
    {
        self.fs_info_sector as u32
    }

    /// Number of the sector that holds the copy of the boot sector.
    pub fn backup_boot_sector(&self) -> (r: u32)
        ensures
            r == self.backup_boot_sector,
    {
        self.backup_boot_sector as u32
    }
}

impl Default for BiosParameterBlock {
    /// A block of zeros.
    fn default() -> (r: BiosParameterBlock)
        ensures
            r.zeroed(),
    {
        let r = BiosParameterBlock {
            bytes_per_sector: 0,
            sectors_per_cluster: 0,
            reserved_sectors: 0,
            fats: 0,
            root_entries: 0,
            total_sectors_16: 0,
            media: 0,
            sectors_per_fat_16: 0,
            sectors_per_track: 0,
            heads: 0,
            hidden_sectors: 0,
            total_sectors_32: 0,
            sectors_per_fat_32: 0,
            extended_flags: 0,
            fs_version: 0,
            root_dir_first_cluster: 0,
            fs_info_sector: 0,
            backup_boot_sector: 0,
            reserved_0: [0u8; 12],
            drive_num: 0,
            reserved_1: 0,
            ext_sig: 0,
            volume_id: 0,
            volume_label: [0u8; 11],
            fs_type_label: [0u8; 8],
        };
        assert(r.reserved_0@ =~= zeros(12));
        assert(r.volume_label@ =~= zeros(11));
        assert(r.fs_type_label@ =~= zeros(8));
        r
    }
}

} // verus!
