use fatboot::boot::BootSector;
use fatboot::bpb::BiosParameterBlock;
use fatboot::fat_type::{FatError, FatWarning};

fn valid_fat16() -> BiosParameterBlock {
    let mut b = BiosParameterBlock::default();
    b.bytes_per_sector = 512;
    b.sectors_per_cluster = 4;
    b.reserved_sectors = 1;
    b.fats = 2;
    b.root_entries = 512;
    b.total_sectors_32 = 65536;
    b.media = 0xF8;
    b.sectors_per_fat_16 = 64;
    b
}

fn valid_fat32() -> BiosParameterBlock {
    let mut b = BiosParameterBlock::default();
    b.bytes_per_sector = 512;
    b.sectors_per_cluster = 1;
    b.reserved_sectors = 32;
    b.fats = 2;
    b.total_sectors_32 = 200000;
    b.media = 0xF8;
    b.sectors_per_fat_32 = 1600;
    b.root_dir_first_cluster = 2;
    b
}

fn valid_sector() -> BootSector {
    let mut s = BootSector::default();
    s.bootjmp = [0xEB, 0x3C, 0x90];
    s.bpb = valid_fat16();
    s.boot_sig = [0x55, 0xAA];
    s
}

#[test]
fn valid_blocks_pass_without_warning() {
    assert_eq!(valid_fat16().validate(), Ok(vec![]));
    assert_eq!(valid_fat32().validate(), Ok(vec![]));
}

#[test]
fn bytes_per_sector_513_fails() {
    let mut b = valid_fat16();
    b.bytes_per_sector = 513;
    assert_eq!(b.validate(), Err(FatError::BytesPerSectorNotPowerOfTwo));
    b.bytes_per_sector = 0;
    assert_eq!(b.validate(), Err(FatError::BytesPerSectorNotPowerOfTwo));
}

#[test]
fn bytes_per_sector_out_of_range_fails() {
    let mut b = valid_fat16();
    b.bytes_per_sector = 256;
    assert_eq!(b.validate(), Err(FatError::BytesPerSectorTooSmall));
    b.bytes_per_sector = 8192;
    assert_eq!(b.validate(), Err(FatError::BytesPerSectorTooLarge));
    b.bytes_per_sector = 4096;
    b.sectors_per_cluster = 1;
    assert_eq!(b.validate(), Ok(vec![]));
}

#[test]
fn sectors_per_cluster_must_be_a_power_of_two() {
    let mut b = valid_fat16();
    b.sectors_per_cluster = 3;
    assert_eq!(b.validate(), Err(FatError::SectorsPerClusterNotPowerOfTwo));
    b.sectors_per_cluster = 0;
    assert_eq!(b.validate(), Err(FatError::SectorsPerClusterNotPowerOfTwo));
}

#[test]
fn reserved_sectors_zero_fails() {
    let mut b = valid_fat16();
    b.reserved_sectors = 0;
    assert_eq!(b.validate(), Err(FatError::NoReservedSectors));
}

#[test]
fn fats_zero_fails() {
    let mut b = valid_fat16();
    b.fats = 0;
    assert_eq!(b.validate(), Err(FatError::NoFats));
}

#[test]
fn fats_three_warns() {
    let mut b = valid_fat16();
    b.fats = 3;
    assert_eq!(b.validate(), Ok(vec![FatWarning::TooManyFats]));
}

#[test]
fn fat32_with_root_entries_fails() {
    let mut b = valid_fat32();
    b.root_entries = 16;
    assert_eq!(b.validate(), Err(FatError::RootEntriesNotZero));
}

#[test]
fn fat32_with_total_sectors_16_fails() {
    let mut b = valid_fat32();
    b.total_sectors_16 = 100;
    assert_eq!(b.validate(), Err(FatError::TotalSectors16NotZero));
}

#[test]
fn total_sector_fields_exclude_each_other() {
    let mut b = valid_fat16();
    b.total_sectors_16 = 100;
    assert_eq!(b.validate(), Err(FatError::TotalSectorsAmbiguous));
    b.total_sectors_16 = 0;
    b.total_sectors_32 = 0;
    assert_eq!(b.validate(), Err(FatError::TotalSectorsAmbiguous));
}

#[test]
fn fat32_without_table_size_fails() {
    let mut b = valid_fat32();
    b.sectors_per_fat_32 = 0;
    assert_eq!(b.validate(), Err(FatError::SectorsPerFat32Zero));
}

#[test]
fn unknown_version_fails() {
    let mut b = valid_fat32();
    b.fs_version = 1;
    assert_eq!(b.validate(), Err(FatError::UnknownFsVersion));
}

#[test]
fn volume_inside_its_own_metadata_fails() {
    let mut b = valid_fat16();
    b.total_sectors_32 = 161;
    assert_eq!(b.validate(), Err(FatError::TotalSectorsTooSmall));
    b.total_sectors_32 = 100;
    assert_eq!(b.validate(), Err(FatError::TotalSectorsTooSmall));
    let mut b = valid_fat32();
    b.fats = 255;
    b.sectors_per_fat_32 = u32::MAX;
    assert_eq!(b.validate(), Err(FatError::TotalSectorsTooSmall));
}

#[test]
fn layout_and_cluster_count_must_agree() {
    // the short form with as many clusters as FAT32 has
    let mut b = valid_fat16();
    b.sectors_per_cluster = 1;
    b.total_sectors_32 = 161 + 65525;
    assert_eq!(b.validate(), Err(FatError::FatTypeMismatch));
    // the extended form with as few clusters as FAT16 has
    let mut b = valid_fat32();
    b.total_sectors_32 = 3232 + 65524;
    assert_eq!(b.validate(), Err(FatError::FatTypeMismatch));
    b.total_sectors_32 = 3232 + 65525;
    assert_eq!(b.validate(), Ok(vec![]));
}

#[test]
fn first_failing_check_wins() {
    let mut b = valid_fat16();
    b.bytes_per_sector = 513;
    b.fats = 0;
    b.reserved_sectors = 0;
    assert_eq!(b.validate(), Err(FatError::BytesPerSectorNotPowerOfTwo));
    b.bytes_per_sector = 512;
    assert_eq!(b.validate(), Err(FatError::NoReservedSectors));
}

#[test]
fn large_cluster_warns() {
    let mut b = valid_fat16();
    b.bytes_per_sector = 4096;
    b.sectors_per_cluster = 16;
    b.total_sectors_32 = 161 + 16 * 5000;
    assert_eq!(b.validate(), Ok(vec![FatWarning::ClusterTooLarge]));
    b.sectors_per_cluster = 8;
    assert_eq!(b.validate(), Ok(vec![]));
}

#[test]
fn reserved_sectors_other_than_one_warn_on_the_short_form() {
    let mut b = valid_fat16();
    b.reserved_sectors = 2;
    assert_eq!(b.validate(), Ok(vec![FatWarning::ReservedSectorsNotOne]));
}

#[test]
fn undersized_table_warns() {
    let mut b = valid_fat16();
    // 16343 clusters and 2 reserved entries need 16345 entries; 63 sectors hold 16128
    b.sectors_per_fat_16 = 63;
    b.total_sectors_32 = 65534;
    assert_eq!(b.total_clusters(), 16343);
    assert_eq!(b.validate(), Ok(vec![FatWarning::FatTooSmall]));
}

#[test]
fn warnings_come_in_the_order_of_the_checks() {
    let mut b = valid_fat16();
    b.bytes_per_sector = 4096;
    b.sectors_per_cluster = 16;
    b.reserved_sectors = 3;
    b.fats = 3;
    b.sectors_per_fat_16 = 1;
    b.total_sectors_32 = 16 * 6000;
    assert_eq!(
        b.validate(),
        Ok(vec![
            FatWarning::ClusterTooLarge,
            FatWarning::ReservedSectorsNotOne,
            FatWarning::TooManyFats,
            FatWarning::FatTooSmall,
        ])
    );
    let mut w = vec![FatWarning::UnknownJumpOpcode];
    assert_eq!(b.validate_into(&mut w), Ok(()));
    assert_eq!(w.len(), 5);
    assert_eq!(w[0], FatWarning::UnknownJumpOpcode);
    assert_eq!(w[4], FatWarning::FatTooSmall);
}

#[test]
fn sector_with_signature_passes() {
    assert_eq!(valid_sector().validate(), Ok(vec![]));
    let mut s = valid_sector();
    s.bootjmp[0] = 0xE9;
    assert_eq!(s.validate(), Ok(vec![]));
}

#[test]
fn sector_without_signature_fails() {
    let mut s = valid_sector();
    s.boot_sig = [0x55, 0xAB];
    assert_eq!(s.validate(), Err(FatError::InvalidSignature));
    s.boot_sig = [0xAA, 0x55];
    assert_eq!(s.validate(), Err(FatError::InvalidSignature));
    // the signature is checked before the block
    s.bpb.fats = 0;
    assert_eq!(s.validate(), Err(FatError::InvalidSignature));
    s.boot_sig = [0x55, 0xAA];
    assert_eq!(s.validate(), Err(FatError::NoFats));
}

#[test]
fn unknown_jump_opcode_warns() {
    let mut s = valid_sector();
    s.bootjmp[0] = 0x00;
    assert_eq!(s.validate(), Ok(vec![FatWarning::UnknownJumpOpcode]));
    s.bpb.fats = 3;
    assert_eq!(s.validate(), Ok(vec![FatWarning::UnknownJumpOpcode, FatWarning::TooManyFats]));
}
