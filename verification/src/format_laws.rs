//! What holds of every formatted volume: the cluster size is a power of
//! two, the estimated tables fit the volume, the parameter block has the
//! form of its variant and passes validation.

use vstd::prelude::*;
use crate::bpb::{MAX_COMPATIBLE_CLUSTER_SIZE, ceil_div, is_power_of_two, zeros};
use crate::fat_type::FatType;
use crate::format::{
    FATS, FormatVolumeOptions, MAX_POWER_OF_TWO, RESERVED_BYTES, has_one_bit,
    is_small_power_of_two, spec_bytes_per_cluster, spec_fat_divisor, spec_next_power_of_two,
    spec_next_power_of_two_from,
};

verus! {

/// Doubling a power of two until it is not below `n` gives a power of two
/// that is not below `n` and fits 64 bits where `n` fits 63 and a bit.
pub proof fn lemma_next_power_of_two_from(p: nat, n: nat)
    requires
        p <= MAX_POWER_OF_TWO,
        n <= MAX_POWER_OF_TWO,
        has_one_bit(p as u64),
    ensures
        n <= spec_next_power_of_two_from(p, n) <= MAX_POWER_OF_TWO,
        has_one_bit(spec_next_power_of_two_from(p, n) as u64),
    decreases (if p < n { n - p } else { 0 }),
{
    if p < n {
        let q = p as u64;
        assert(has_one_bit(q) && q < 0x8000_0000_0000_0000u64 ==> q <= 0x4000_0000_0000_0000u64
            && has_one_bit((q * 2) as u64)) by (bit_vector);
        lemma_next_power_of_two_from(2 * p, n);
    }
}

/// A cluster size suggested from a power of two is zero or a power of two.
pub proof fn lemma_suggestion_has_one_bit(p: u64)
    requires
        has_one_bit(p),
    ensures
        is_small_power_of_two(((p / 1048576 * 512) % 0x1_0000_0000) as int),
        is_small_power_of_two(((p / 67108864 * 1024) % 0x1_0000_0000) as int),
        is_small_power_of_two(((p / 2147483648 * 1024) % 0x1_0000_0000) as int),
{
    assert(has_one_bit(p) ==> ({
        let s = (p / 1048576 * 512) % 0x1_0000_0000;
        s == 0 || s == 512 || s == 1024 || s == 2048 || s == 4096 || s == 8192 || s == 16384 || s
            >= 32768
    })) by (bit_vector);
    assert(has_one_bit(p) ==> ({
        let s = (p / 67108864 * 1024) % 0x1_0000_0000;
        s == 0 || s == 1024 || s == 2048 || s == 4096 || s == 8192 || s == 16384 || s >= 32768
    })) by (bit_vector);
    assert(has_one_bit(p) ==> ({
        let s = (p / 2147483648 * 1024) % 0x1_0000_0000;
        s == 0 || s == 1024 || s == 2048 || s == 4096 || s == 8192 || s == 16384 || s >= 32768
    })) by (bit_vector);
}

/// The cluster size for a volume is a power of two where the sector size is
/// one, and lies between the sector size and 32 KiB.
pub proof fn lemma_bytes_per_cluster_power_of_two(
    total_bytes: u64,
    fat_type: FatType,
    bytes_per_sector: u16,
)
    requires
        total_bytes <= MAX_POWER_OF_TWO,
        is_power_of_two(bytes_per_sector as int),
    ensures
        is_power_of_two(spec_bytes_per_cluster(total_bytes, fat_type, bytes_per_sector)),
        bytes_per_sector <= spec_bytes_per_cluster(total_bytes, fat_type, bytes_per_sector)
            <= MAX_COMPATIBLE_CLUSTER_SIZE,
{
    assert(has_one_bit(1u64)) by (bit_vector);
    lemma_next_power_of_two_from(1, total_bytes as nat);
    let p = spec_next_power_of_two(total_bytes as nat) as u64;
    lemma_suggestion_has_one_bit(p);
}

/// A table of the estimated size, twice, leaves room in what it was
/// estimated for.
pub proof fn lemma_estimate_fits(t: int, d: int)
    requires
        t >= 9,
        d >= 129,
    ensures
        1 <= ceil_div(t, d),
        2 * ceil_div(t, d) < t,
{
    let q = (t + d - 1) / d;
    assert(q * d <= t + d - 1 < q * d + d) by (nonlinear_arith)
        requires
            q == (t + d - 1) / d,
            d > 0,
    ;
    assert(q >= 1) by (nonlinear_arith)
        requires
            t + d - 1 < q * d + d,
            t >= 9,
            d > 0,
    ;
    if q >= 2 {
        assert((q - 1) * 129 <= (q - 1) * d && (q - 1) * d == q * d - d) by (nonlinear_arith)
            requires
                q >= 2,
                d >= 129,
        ;
    }
}

impl FormatVolumeOptions {
    /// The parameter block of a volume that is not too small holds nothing
    /// outside its form, and its data region starts inside the volume.
    pub proof fn lemma_block_countable(&self)
        requires
            self.formattable(),
            !self.spec_too_small(),
        ensures
            self.spec_bpb().wf(),
            self.spec_bpb().countable(),
            1 <= self.spec_sectors_per_fat() <= self.total_sectors,
            self.spec_reserved_sectors() + 2 * self.spec_sectors_per_fat()
                + self.spec_root_dir_sectors() < self.total_sectors,
    {
        let bpb = self.spec_bpb();
        let rds = self.spec_root_dir_sectors();
        let t = self.total_sectors - (self.spec_reserved_sectors() + rds);
        let spc = self.spec_sectors_per_cluster();
        let d = spec_fat_divisor(spc, FATS, self.spec_fat_type());
        assert(d >= 129);
        lemma_estimate_fits(t, d);
        let spf = self.spec_sectors_per_fat();
        assert(spf == ceil_div(t, d));
        assert(RESERVED_BYTES@ =~= zeros(12));
        assert(bpb.wf());
        assert(rds >= 0) by (nonlinear_arith)
            requires
                rds == (self.spec_root_entries() * 32 + self.bytes_per_sector - 1) / (
                self.bytes_per_sector as int),
                self.bytes_per_sector > 0,
                self.spec_root_entries() >= 0,
        ;
        assert(spf % 0x10000 <= spf);
        assert(bpb.spec_sectors_per_fat() <= spf);
        assert(bpb.spec_root_dir_sectors() <= rds);
        assert(bpb.spec_sectors_per_all_fats() == 2 * bpb.spec_sectors_per_fat());
        assert(bpb.spec_total_sectors() == self.total_sectors);
    }

    /// The block of a volume that can be formatted has the form of its
    /// variant: the extended form on FAT32, and there only. An estimate too
    /// large for the 16-bit field would belong to a volume of more clusters
    /// than FAT12 or FAT16 has.
    pub proof fn lemma_form_matches(&self)
        requires
            self.formattable(),
            self.spec_error() is None,
        ensures
            self.spec_bpb().spec_is_fat32() <==> self.spec_fat_type() == FatType::Fat32,
            self.spec_bpb().spec_sectors_per_fat() == self.spec_sectors_per_fat(),
            self.spec_bpb().spec_root_dir_sectors() == self.spec_root_dir_sectors(),
    {
        self.lemma_block_countable();
        let bpb = self.spec_bpb();
        let fat_type = self.spec_fat_type();
        let rds = self.spec_root_dir_sectors();
        let spc = self.spec_sectors_per_cluster() as int;
        let t = self.total_sectors - (self.spec_reserved_sectors() + rds);
        let d = spec_fat_divisor(self.spec_sectors_per_cluster(), FATS, fat_type);
        let q = self.spec_sectors_per_fat();
        let b = self.bytes_per_sector as int;
        if fat_type == FatType::Fat32 {
            assert((0 * 32 + b - 1) / b == 0) by (nonlinear_arith)
                requires
                    b > 0,
            ;
        } else {
            assert(rds >= 0) by (nonlinear_arith)
                requires
                    rds == (self.spec_root_entries() * 32 + b - 1) / b,
                    b > 0,
                    self.spec_root_entries() >= 0,
            ;
            if q >= 0x10000 {
                assert(d - 2 >= spc);
                assert(bpb.spec_sectors_per_fat() <= 0xFFFF);
                assert(bpb.spec_root_dir_sectors() <= rds);
                assert(bpb.spec_sectors_per_all_fats() == 2 * bpb.spec_sectors_per_fat());
                assert(bpb.spec_total_sectors() == self.total_sectors);
                assert(bpb.reserved_sectors == 1);
                lemma_large_estimate(
                    self.total_sectors as int,
                    rds,
                    spc,
                    d,
                    bpb.spec_sectors_per_fat(),
                    bpb.spec_root_dir_sectors(),
                );
                // so many clusters make the volume FAT32, which it is not
                assert(false);
            }
        }
    }

    /// Where no cluster size is chosen and the sector size is one that
    /// validation accepts, the volume can be laid out, with a power of two
    /// of sectors to the cluster.
    pub proof fn lemma_cluster_is_power_of_two(&self)
        requires
            self.bytes_per_cluster is None,
            is_power_of_two(self.bytes_per_sector as int),
            512 <= self.bytes_per_sector <= 4096,
        ensures
            self.formattable(),
            is_power_of_two(self.spec_sectors_per_cluster() as int),
            self.spec_sectors_per_cluster() * self.bytes_per_sector
                == self.spec_bytes_per_cluster(),
    {
        let b = self.bytes_per_sector as int;
        let c = self.spec_bytes_per_cluster();
        assert(self.total_sectors * self.bytes_per_sector <= 0xFFFF_FFFF * 0xFFFF)
            by (nonlinear_arith)
            requires
                0 <= self.total_sectors <= 0xFFFF_FFFF,
                0 <= self.bytes_per_sector <= 0xFFFF,
        ;
        lemma_bytes_per_cluster_power_of_two(
            self.spec_total_bytes(),
            self.spec_fat_type(),
            self.bytes_per_sector,
        );
        if b == 512 {
            assert(is_power_of_two(c / 512));
        } else if b == 1024 {
            assert(is_power_of_two(c / 1024));
        } else if b == 2048 {
            assert(is_power_of_two(c / 2048));
        } else {
            assert(is_power_of_two(c / 4096));
        }
    }

    /// What formatting builds, validation accepts, where the sector size is
    /// one that validation accepts and a cluster has a power of two of
    /// sectors.
    pub proof fn lemma_formatted_is_valid(&self)
        requires
            self.formattable(),
            self.spec_error() is None,
            is_power_of_two(self.bytes_per_sector as int),
            512 <= self.bytes_per_sector <= 4096,
            is_power_of_two(self.spec_sectors_per_cluster() as int),
        ensures
            self.spec_bpb().valid(),
    {
        self.lemma_block_countable();
        self.lemma_form_matches();
        let bpb = self.spec_bpb();
        let spc = self.spec_sectors_per_cluster() as int;
        let q = self.spec_sectors_per_fat();
        assert(bpb.spec_sectors_per_all_fats() == 2 * bpb.spec_sectors_per_fat());
        assert(bpb.spec_total_sectors() == self.total_sectors);
        assert(bpb.spec_first_data_sector() < bpb.spec_total_sectors());
        if self.spec_fat_type() == FatType::Fat32 && self.total_sectors < 0x10000 {
            let x = bpb.spec_total_sectors() - bpb.spec_first_data_sector();
            assert(x / spc >= 65525);
            assert(x / spc * spc <= x) by (nonlinear_arith)
                requires
                    spc > 0,
                    x >= 0,
            ;
            assert(spc == 1) by (nonlinear_arith)
                requires
                    x / spc * spc <= x,
                    x / spc >= 65525,
                    x < 0x10000,
                    spc >= 1,
            ;
            assert(spec_fat_divisor(1, FATS, FatType::Fat32) == 129);
            assert(q >= 3);
            // two such tables leave fewer clusters than FAT32 has
            assert(false);
        }
    }
}

/// A volume whose table is estimated at 65536 sectors or more has at least
/// as many clusters as FAT32 has, whatever 16 bits keep of the estimate.
pub proof fn lemma_large_estimate(total: int, rds: int, spc: int, d: int, kept: int, root: int)
    requires
        spc >= 1,
        d - 2 >= spc,
        0 <= root <= rds,
        0 <= kept <= 0xFFFF,
        ceil_div(total - (1 + rds), d) >= 0x10000,
    ensures
        (total - (1 + 2 * kept + root)) / spc >= 65525,
{
    let t = total - (1 + rds);
    let q = (t + d - 1) / d;
    assert(q * d <= t + d - 1) by (nonlinear_arith)
        requires
            q == (t + d - 1) / d,
            d > 0,
    ;
    assert(0x10000 * d <= q * d) by (nonlinear_arith)
        requires
            q >= 0x10000,
            d > 0,
    ;
    let x = total - (1 + 2 * kept + root);
    assert(x >= 65525 * spc);
    assert(x / spc >= 65525) by (nonlinear_arith)
        requires
            x >= 65525 * spc,
            spc > 0,
    ;
}

} // verus!
