use fatboot::boot::{BootSector, BOOT_SIGNATURE};
use fatboot::fat_type::{FatError, FatType};
use fatboot::format::{
    determine_bytes_per_cluster, determine_fat_type, determine_sectors_per_fat, format_boot_sector,
    format_bpb, next_power_of_two, FormatVolumeOptions, BOOT_STUB, GB, KB, MB,
};

#[test]
fn test_determine_fat_type() {
    assert_eq!(determine_fat_type(3 * MB), FatType::Fat12);
    assert_eq!(determine_fat_type(4 * MB), FatType::Fat16);
    assert_eq!(determine_fat_type(511 * MB), FatType::Fat16);
    assert_eq!(determine_fat_type(512 * MB), FatType::Fat32);
}

#[test]
fn test_determine_bytes_per_cluster_fat12() {
    assert_eq!(determine_bytes_per_cluster(1 * MB + 0, FatType::Fat12, 512), 512);
    assert_eq!(determine_bytes_per_cluster(1 * MB + 1, FatType::Fat12, 512), 1024);
    assert_eq!(determine_bytes_per_cluster(1 * MB, FatType::Fat12, 4096), 4096);
}

#[test]
fn test_determine_bytes_per_cluster_fat16() {
    assert_eq!(determine_bytes_per_cluster(1 * MB, FatType::Fat16, 512), 1 * KB as u32);
    assert_eq!(determine_bytes_per_cluster(1 * MB, FatType::Fat16, 4 * KB as u16), 4 * KB as u32);
    assert_eq!(determine_bytes_per_cluster(16 * MB + 0, FatType::Fat16, 512), 1 * KB as u32);
    assert_eq!(determine_bytes_per_cluster(16 * MB + 1, FatType::Fat16, 512), 2 * KB as u32);
    assert_eq!(determine_bytes_per_cluster(128 * MB + 0, FatType::Fat16, 512), 2 * KB as u32);
    assert_eq!(determine_bytes_per_cluster(128 * MB + 1, FatType::Fat16, 512), 4 * KB as u32);
    assert_eq!(determine_bytes_per_cluster(256 * MB + 0, FatType::Fat16, 512), 4 * KB as u32);
    assert_eq!(determine_bytes_per_cluster(256 * MB + 1, FatType::Fat16, 512), 8 * KB as u32);
    assert_eq!(determine_bytes_per_cluster(512 * MB + 0, FatType::Fat16, 512), 8 * KB as u32);
    assert_eq!(determine_bytes_per_cluster(512 * MB + 1, FatType::Fat16, 512), 16 * KB as u32);
    assert_eq!(determine_bytes_per_cluster(1024 * MB + 0, FatType::Fat16, 512), 16 * KB as u32);
    assert_eq!(determine_bytes_per_cluster(1024 * MB + 1, FatType::Fat16, 512), 32 * KB as u32);
    assert_eq!(determine_bytes_per_cluster(99999 * MB, FatType::Fat16, 512), 32 * KB as u32);
}

#[test]
fn test_determine_bytes_per_cluster_fat32() {
    assert_eq!(determine_bytes_per_cluster(260 * MB as u64, FatType::Fat32, 512), 512);
    assert_eq!(determine_bytes_per_cluster(260 * MB as u64, FatType::Fat32, 4 * KB as u16), 4 * KB as u32);
    assert_eq!(determine_bytes_per_cluster(260 * MB as u64 + 1, FatType::Fat32, 512), 4 * KB as u32);
    assert_eq!(determine_bytes_per_cluster(8 * GB as u64, FatType::Fat32, 512), 4 * KB as u32);
    assert_eq!(determine_bytes_per_cluster(8 * GB as u64 + 1, FatType::Fat32, 512), 8 * KB as u32);
    assert_eq!(determine_bytes_per_cluster(16 * GB as u64 + 0, FatType::Fat32, 512), 8 * KB as u32);
    assert_eq!(determine_bytes_per_cluster(16 * GB as u64 + 1, FatType::Fat32, 512), 16 * KB as u32);
    assert_eq!(determine_bytes_per_cluster(32 * GB as u64, FatType::Fat32, 512), 16 * KB as u32);
    assert_eq!(determine_bytes_per_cluster(32 * GB as u64 + 1, FatType::Fat32, 512), 32 * KB as u32);
    assert_eq!(determine_bytes_per_cluster(999 * GB as u64, FatType::Fat32, 512), 32 * KB as u32);
}

#[test]
fn test_determine_sectors_per_fat() {
    assert_eq!(determine_sectors_per_fat(1 * MB as u32 / 512, 1, 2, 32, 1, FatType::Fat12), 6);
}

#[test]
fn determine_sectors_per_fat_each_variant() {
    // 32735 sectors over 514, rounded up
    assert_eq!(determine_sectors_per_fat(32768, 1, 2, 32, 2, FatType::Fat16), 64);
    // 2097148 sectors over 1025, rounded up
    assert_eq!(determine_sectors_per_fat(2097152, 4, 2, 0, 8, FatType::Fat32), 2046);
    // an exact quotient is not rounded
    assert_eq!(determine_sectors_per_fat(258 * 3 + 1, 1, 2, 0, 1, FatType::Fat16), 3);
    // near the top of 32 bits the sum does not wrap
    assert_eq!(determine_sectors_per_fat(u32::MAX, 4, 2, 0, 1, FatType::Fat32), 33294321);
}

#[test]
fn next_power_of_two_values() {
    assert_eq!(next_power_of_two(0), 1);
    assert_eq!(next_power_of_two(1), 1);
    assert_eq!(next_power_of_two(2), 2);
    assert_eq!(next_power_of_two(3), 4);
    assert_eq!(next_power_of_two(1025), 2048);
    assert_eq!(next_power_of_two(1 << 40), 1 << 40);
    assert_eq!(next_power_of_two((1 << 40) + 1), 1 << 41);
    assert_eq!(next_power_of_two(1 << 63), 1 << 63);
    for n in 0u64..5000 {
        assert_eq!(next_power_of_two(n), n.next_power_of_two());
    }
}

#[test]
fn bytes_per_cluster_of_a_small_volume_is_one_sector() {
    // below 1 MiB the size suggests nothing, and the sector size stands
    assert_eq!(determine_bytes_per_cluster(360 * KB, FatType::Fat12, 512), 512);
    assert_eq!(determine_bytes_per_cluster(0, FatType::Fat12, 1024), 1024);
}

#[test]
fn bytes_per_cluster_stays_between_sector_and_ceiling() {
    let sizes = [0u64, 1, 512 * KB, MB + 1, 3 * MB, 200 * MB, GB, 9 * GB, 1 << 50, 1 << 63];
    for &size in sizes.iter() {
        for &ft in [FatType::Fat12, FatType::Fat16, FatType::Fat32].iter() {
            for &bps in [512u16, 1024, 2048, 4096].iter() {
                let r = determine_bytes_per_cluster(size, ft, bps);
                assert!(r >= bps as u32 && r <= 32768);
                assert!(r.is_power_of_two());
            }
        }
    }
}

#[test]
fn format_16_mib_selects_fat16() {
    let options = FormatVolumeOptions::new(32768, 512);
    let (boot, fat_type) = format_boot_sector(&options).unwrap();
    assert_eq!(fat_type, FatType::Fat16);
    let bpb = boot.bpb;
    assert_eq!(bpb.bytes_per_sector, 512);
    assert_eq!(bpb.sectors_per_cluster, 2);
    assert_eq!(bpb.reserved_sectors, 1);
    assert_eq!(bpb.fats, 2);
    assert_eq!(bpb.root_entries, 512);
    assert_eq!(bpb.total_sectors_16, 32768);
    assert_eq!(bpb.total_sectors_32, 0);
    assert_eq!(bpb.media, 0xF8);
    assert_eq!(bpb.sectors_per_fat_16, 64);
    assert_eq!(bpb.sectors_per_fat_32, 0);
    assert_eq!(bpb.sectors_per_track, 0x20);
    assert_eq!(bpb.heads, 0x40);
    assert_eq!(bpb.drive_num, 0x80);
    assert_eq!(bpb.ext_sig, 0x29);
    assert_eq!(bpb.volume_id, 0x12345678);
    assert_eq!(&bpb.volume_label, b"NO NAME    ");
    assert_eq!(&bpb.fs_type_label, b"FAT16   ");
    assert!(!bpb.is_fat32());
    assert_eq!(bpb.first_data_sector(), 161);
    assert_eq!(bpb.total_clusters(), 16303);
    assert_eq!(FatType::from_clusters(bpb.total_clusters()), FatType::Fat16);
    assert_eq!(boot.validate(), Ok(vec![]));
}

#[test]
fn format_fat16_boot_sector_is_patched() {
    let (boot, _) = format_boot_sector(&FormatVolumeOptions::new(32768, 512)).unwrap();
    assert_eq!(boot.bootjmp, [0xEB, 0x3C, 0x90]);
    assert_eq!(&boot.oem_name, b"MSWIN4.1");
    assert_eq!(boot.boot_sig, BOOT_SIGNATURE);
    assert_eq!(boot.boot_sig, [0x55, 0xAA]);
    assert_eq!(boot.boot_code[3], 0x5B);
    assert_eq!(boot.boot_code[4], 0x7C);
    for i in 0..448 {
        if i != 3 && i != 4 {
            let expected = if i < 129 { BOOT_STUB[i] } else { 0 };
            assert_eq!(boot.boot_code[i], expected);
        }
    }
    assert_eq!(&boot.boot_code[29..45], b"This is not a bo");
}

#[test]
fn format_1_gib_selects_fat32() {
    let (boot, fat_type) = format_boot_sector(&FormatVolumeOptions::new(2097152, 512)).unwrap();
    assert_eq!(fat_type, FatType::Fat32);
    let bpb = boot.bpb;
    assert!(bpb.is_fat32());
    assert_eq!(bpb.sectors_per_cluster, 8);
    assert_eq!(bpb.reserved_sectors, 4);
    assert_eq!(bpb.root_entries, 0);
    assert_eq!(bpb.total_sectors_16, 0);
    assert_eq!(bpb.total_sectors_32, 2097152);
    assert_eq!(bpb.sectors_per_fat_16, 0);
    assert_eq!(bpb.sectors_per_fat_32, 2046);
    assert_eq!(bpb.root_dir_first_cluster, 2);
    assert_eq!(bpb.fs_info_sector, 1);
    assert_eq!(bpb.backup_boot_sector, 6);
    assert_eq!(bpb.drive_num, 0x80);
    assert_eq!(&bpb.fs_type_label, b"FAT32   ");
    assert_eq!(bpb.first_data_sector(), 4096);
    assert_eq!(bpb.total_clusters(), 261632);
    assert_eq!(boot.bootjmp, [0xEB, 0x58, 0x90]);
    assert_eq!(&boot.boot_code[..129], &BOOT_STUB[..]);
    assert!(boot.boot_code[129..].iter().all(|&b| b == 0));
    assert_eq!(boot.validate(), Ok(vec![]));
}

#[test]
fn format_1_mib_selects_fat12() {
    let (bpb, fat_type) = format_bpb(&FormatVolumeOptions::new(2048, 512)).unwrap();
    assert_eq!(fat_type, FatType::Fat12);
    assert_eq!(bpb.sectors_per_cluster, 1);
    assert_eq!(bpb.sectors_per_fat_16, 6);
    assert_eq!(bpb.drive_num, 0);
    assert_eq!(&bpb.fs_type_label, b"FAT12   ");
    assert_eq!(bpb.first_data_sector(), 45);
    assert_eq!(bpb.total_clusters(), 2003);
    assert_eq!(bpb.validate(), Ok(vec![]));
}

#[test]
fn format_takes_the_overrides() {
    let mut options = FormatVolumeOptions::new(65536, 512);
    options.bytes_per_cluster = Some(2048);
    options.fat_type = Some(FatType::Fat16);
    options.root_entries = Some(224);
    options.media = Some(0xF0);
    options.sectors_per_track = Some(18);
    options.heads = Some(2);
    options.drive_num = Some(1);
    options.volume_id = Some(0xCAFEBABE);
    options.volume_label = Some(*b"MY VOLUME  ");
    let (bpb, fat_type) = format_bpb(&options).unwrap();
    assert_eq!(fat_type, FatType::Fat16);
    assert_eq!(bpb.sectors_per_cluster, 4);
    assert_eq!(bpb.root_entries, 224);
    assert_eq!(bpb.root_dir_sectors(), 14);
    assert_eq!(bpb.media, 0xF0);
    assert_eq!(bpb.sectors_per_track, 18);
    assert_eq!(bpb.heads, 2);
    assert_eq!(bpb.drive_num, 1);
    assert_eq!(bpb.volume_id, 0xCAFEBABE);
    assert_eq!(&bpb.volume_label, b"MY VOLUME  ");
    assert_eq!(bpb.total_sectors_16, 0);
    assert_eq!(bpb.total_sectors_32, 65536);
}

#[test]
fn format_too_small_volume_fails() {
    // one reserved sector, 32 of root directory and 8 more leave nothing
    assert_eq!(format_boot_sector(&FormatVolumeOptions::new(41, 512)).err(), Some(FatError::VolumeTooSmall));
    assert_eq!(format_bpb(&FormatVolumeOptions::new(41, 512)).err(), Some(FatError::VolumeTooSmall));
    assert_eq!(format_bpb(&FormatVolumeOptions::new(0, 512)).err(), Some(FatError::VolumeTooSmall));
    let (bpb, fat_type) = format_bpb(&FormatVolumeOptions::new(42, 512)).unwrap();
    assert_eq!(fat_type, FatType::Fat12);
    assert_eq!(bpb.sectors_per_fat_16, 1);
    assert_eq!(bpb.total_clusters(), 7);
}

#[test]
fn format_with_a_variant_that_does_not_fit_fails() {
    let mut options = FormatVolumeOptions::new(32768, 512);
    options.fat_type = Some(FatType::Fat32);
    assert_eq!(format_bpb(&options).err(), Some(FatError::ClustersDoNotMatchFatType));
    assert_eq!(format_boot_sector(&options).err(), Some(FatError::ClustersDoNotMatchFatType));
    let mut options = FormatVolumeOptions::new(2097152, 512);
    options.fat_type = Some(FatType::Fat12);
    assert_eq!(format_bpb(&options).err(), Some(FatError::ClustersDoNotMatchFatType));
}

#[test]
fn formatted_sector_survives_the_round_trip() {
    for &sectors in [2048u32, 32768, 2097152].iter() {
        let (boot, _) = format_boot_sector(&FormatVolumeOptions::new(sectors, 512)).unwrap();
        let bytes = boot.encode();
        assert_eq!(bytes.len(), 512);
        assert_eq!(BootSector::decode(&bytes), Ok(boot));
    }
}

#[test]
fn options_derive_their_defaults() {
    let options = FormatVolumeOptions::new(32768, 512);
    assert_eq!(options.bytes_per_sector, 512);
    assert_eq!(options.total_sectors, 32768);
    assert_eq!(options.bytes_per_cluster, None);
    assert_eq!(options.fat_type, None);
    assert_eq!(options.volume_label, None);
    assert_eq!(options.total_bytes(), 16 * MB);
    assert_eq!(options.fat_type(), FatType::Fat16);
    assert_eq!(options.sectors_per_cluster(), 2);
    assert!(options.can_format());
    assert_eq!(FormatVolumeOptions::new(u32::MAX, u16::MAX).total_bytes(), 0xFFFF_FFFF * 0xFFFF);
}

#[test]
fn volumes_that_cannot_be_laid_out() {
    // an empty sector
    assert!(!FormatVolumeOptions::new(32768, 0).can_format());
    // a sector above the largest cluster
    assert!(!FormatVolumeOptions::new(32768, 65535).can_format());
    // a cluster of 256 sectors, of which eight bits keep none
    let mut options = FormatVolumeOptions::new(32768, 512);
    options.bytes_per_cluster = Some(256 * 512);
    assert!(!options.can_format());
    // a cluster smaller than a sector
    options.bytes_per_cluster = Some(256);
    assert!(!options.can_format());
    options.bytes_per_cluster = Some(512);
    assert!(options.can_format());
    assert_eq!(options.sectors_per_cluster(), 1);
}

#[test]
fn formatted_volumes_pass_validation() {
    let sector_sizes = [512u16, 1024, 2048, 4096];
    let mut formatted = 0;
    let mut sectors: u32 = 1;
    while sectors < 0x7000_0000 {
        for &bps in sector_sizes.iter() {
            let options = FormatVolumeOptions::new(sectors, bps);
            assert!(options.can_format());
            if let Ok((boot, fat_type)) = format_boot_sector(&options) {
                formatted += 1;
                assert!(boot.validate().is_ok());
                assert_eq!(boot.bpb.is_fat32(), fat_type == FatType::Fat32);
                assert_eq!(FatType::from_clusters(boot.bpb.total_clusters()), fat_type);
                assert_eq!(boot.bpb.total_sectors(), sectors);
                assert_eq!(BootSector::decode(&boot.encode()), Ok(boot));
            }
        }
        sectors = sectors + sectors / 3 + 1;
    }
    assert!(formatted > 100);
}
