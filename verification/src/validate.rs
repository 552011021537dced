//! Validation of a parameter block: an ordered list of checks of which the
//! first that fails gives the error, and the warnings that a block that
//! passes them all still earns.

use vstd::prelude::*;
use crate::bpb::{BiosParameterBlock, MAX_COMPATIBLE_CLUSTER_SIZE, is_power_of_two, power_of_two, push_if};
use crate::fat_type::{FatError, FatType, FatWarning, RESERVED_FAT_ENTRIES};

verus! {

impl BiosParameterBlock {
    /// The first check that the block fails, if it fails one.
    pub open spec fn spec_error(&self) -> Option<FatError> {
        if !is_power_of_two(self.bytes_per_sector as int) {
            Some(FatError::BytesPerSectorNotPowerOfTwo)
        } else if self.bytes_per_sector < 512 {
            Some(FatError::BytesPerSectorTooSmall)
        } else if self.bytes_per_sector > 4096 {
            Some(FatError::BytesPerSectorTooLarge)
        } else if !is_power_of_two(self.sectors_per_cluster as int) {
            Some(FatError::SectorsPerClusterNotPowerOfTwo)
        } else if self.reserved_sectors < 1 {
            Some(FatError::NoReservedSectors)
        } else if self.fats == 0 {
            Some(FatError::NoFats)
        } else if self.spec_is_fat32() && self.root_entries != 0 {
            Some(FatError::RootEntriesNotZero)
        } else if self.spec_is_fat32() && self.total_sectors_16 != 0 {
            Some(FatError::TotalSectors16NotZero)
        } else if (self.total_sectors_16 == 0) == (self.total_sectors_32 == 0) {
            Some(FatError::TotalSectorsAmbiguous)
        } else if self.spec_is_fat32() && self.sectors_per_fat_32 == 0 {
            Some(FatError::SectorsPerFat32Zero)
        } else if self.fs_version != 0 {
            Some(FatError::UnknownFsVersion)
        } else if self.spec_total_sectors() <= self.spec_first_data_sector() {
            Some(FatError::TotalSectorsTooSmall)
        } else if self.spec_is_fat32() != (FatType::spec_from_clusters(self.spec_total_clusters())
            == FatType::Fat32) {
            Some(FatError::FatTypeMismatch)
        } else {
            None
        }
    }

    /// The warnings that a block earns, in the order of the checks: a cluster
    /// above 32 KiB; a FAT12 or FAT16 volume with other than one reserved
    /// sector; more than two tables; a table with fewer entries than the
    /// volume has clusters and reserved entries.
    pub open spec fn spec_warnings(&self) -> Seq<FatWarning> {
        self.spec_warnings_after(Seq::empty())
    }

    /// `w0` followed by the warnings that the block earns.
    pub open spec fn spec_warnings_after(&self, w0: Seq<FatWarning>) -> Seq<FatWarning> {
        let fat_type = FatType::spec_from_clusters(self.spec_total_clusters());
        let w1 = push_if(
            w0,
            self.spec_cluster_size() > MAX_COMPATIBLE_CLUSTER_SIZE,
            FatWarning::ClusterTooLarge,
        );
        let w2 = push_if(
            w1,
            !self.spec_is_fat32() && self.reserved_sectors != 1,
            FatWarning::ReservedSectorsNotOne,
        );
        let w3 = push_if(w2, self.fats > 2, FatWarning::TooManyFats);
        push_if(
            w3,
            self.spec_total_fat_entries(fat_type) < self.spec_total_clusters()
                + RESERVED_FAT_ENTRIES,
            FatWarning::FatTooSmall,
        )
    }

    /// A block without error.
    pub open spec fn valid(&self) -> bool {
        self.spec_error() is None
    }

    /// Checks the block. The first failing check gives the error; a block
    /// that passes them all gives its warnings, which change nothing else.
    pub fn validate(&self) -> (r: Result<Vec<FatWarning>, FatError>)
        ensures
            match r {
                Ok(w) => self.spec_error() is None && w@ == self.spec_warnings(),
                Err(e) => self.spec_error() == Some(e),
            },
    {
        let mut warnings: Vec<FatWarning> = Vec::new();
        match self.validate_into(&mut warnings) {
            Ok(()) => Ok(warnings),
            Err(e) => Err(e),
        }
    }

    /// Checks the block as `validate` does, and appends its warnings to
    /// `warnings`. Where it returns an error, `warnings` may have grown by
    /// the warnings met before the failing check.
    pub fn validate_into(&self, warnings: &mut Vec<FatWarning>) -> (r: Result<(), FatError>)
        ensures
            old(warnings)@.len() <= final(warnings)@.len(),
            final(warnings)@.subrange(0, old(warnings)@.len() as int) =~= old(warnings)@,
            match r {
                Ok(()) => self.spec_error() is None && final(warnings)@
                    == self.spec_warnings_after(old(warnings)@),
                Err(e) => self.spec_error() == Some(e),
            },
    {
        if !power_of_two(self.bytes_per_sector) {
            return Err(FatError::BytesPerSectorNotPowerOfTwo);
        } else if self.bytes_per_sector < 512 {
            return Err(FatError::BytesPerSectorTooSmall);
        } else if self.bytes_per_sector > 4096 {
            return Err(FatError::BytesPerSectorTooLarge);
        }
        if !power_of_two(self.sectors_per_cluster as u16) {
            return Err(FatError::SectorsPerClusterNotPowerOfTwo);
        }
        let bytes_per_cluster: u32 = self.cluster_size();
        if bytes_per_cluster > MAX_COMPATIBLE_CLUSTER_SIZE {
            warnings.push(FatWarning::ClusterTooLarge);
        }
        let is_fat32 = self.is_fat32();
        if self.reserved_sectors < 1 {
            return Err(FatError::NoReservedSectors);
        } else if !is_fat32 && self.reserved_sectors != 1 {
            warnings.push(FatWarning::ReservedSectorsNotOne);
        }
        if self.fats == 0 {
            return Err(FatError::NoFats);
        } else if self.fats > 2 {
            warnings.push(FatWarning::TooManyFats);
        }
        if is_fat32 && self.root_entries != 0 {
            return Err(FatError::RootEntriesNotZero);
        }
        if is_fat32 && self.total_sectors_16 != 0 {
            return Err(FatError::TotalSectors16NotZero);
        }
        if (self.total_sectors_16 == 0) == (self.total_sectors_32 == 0) {
            return Err(FatError::TotalSectorsAmbiguous);
        }
        if is_fat32 && self.sectors_per_fat_32 == 0 {
            return Err(FatError::SectorsPerFat32Zero);
        }
        if self.fs_version != 0 {
            return Err(FatError::UnknownFsVersion);
        }
        if self.total_sectors() as u64 <= self.first_data_sector_wide() {
            return Err(FatError::TotalSectorsTooSmall);
        }
        let total_clusters: u32 = self.total_clusters();
        let fat_type = FatType::from_clusters(total_clusters);
        if is_fat32 != (fat_type == FatType::Fat32) {
            return Err(FatError::FatTypeMismatch);
        }
        let spf: u64 = self.sectors_per_fat() as u64;
        let bps: u64 = self.bytes_per_sector as u64;
        assert(spf * bps * 8 <= 0xFFFF_FFFF * 4096 * 8) by (nonlinear_arith)
            requires
                0 <= spf <= 0xFFFF_FFFF,
                0 <= bps <= 4096,
        ;
        let total_fat_entries: u64 = spf * bps * 8 / (fat_type.bits_per_fat_entry() as u64);
        if total_fat_entries < total_clusters as u64 + RESERVED_FAT_ENTRIES as u64 {
            warnings.push(FatWarning::FatTooSmall);
        }
        Ok(())
    }

    /// A block without error has a geometry that every query can be asked of:
    /// a sector and a cluster are not empty, and the data region starts
    /// inside the volume, so that no count leaves 32 bits.
    pub proof fn lemma_valid_is_countable(&self)
        requires
            self.valid(),
        ensures
            self.countable(),
            512 <= self.bytes_per_sector <= 4096,
            1 <= self.sectors_per_cluster <= 128,
            self.spec_first_data_sector() < self.spec_total_sectors() <= u32::MAX,
            self.spec_is_fat32() <==> FatType::spec_from_clusters(self.spec_total_clusters())
                == FatType::Fat32,
    {
    }
}

} // verus!
