use ysos_kernel::direntry::{
    parse_datetime, DirEntry, FilenameError, FsError, FsTime, ShortFileName, ATTR_ARCHIVE,
};
use ysos_kernel::fat16::{decode_fat_entry, find_entry_in_block, Fat16Bpb, Fat16Impl};
use ysos_kernel::file::File;
use ysos_kernel::mbr::MbrPartition;
use ysos_kernel::direntry::Cluster;

const KERNEL_ENTRY: [u8; 32] = [
    0x4b, 0x45, 0x52, 0x4e, 0x45, 0x4c, 0x20, 0x20, 0x45, 0x4c, 0x46, 0x20, 0x00, 0x00, 0x0f, 0xbe,
    0xd0, 0x50, 0xd0, 0x50, 0x00, 0x00, 0x0f, 0xbe, 0xd0, 0x50, 0x02, 0x00, 0xf0, 0xe4, 0x0e, 0x00,
];

fn time(year: i32, month: u32, day: u32, hour: u32, minute: u32, second: u32) -> FsTime {
    FsTime { year, month, day, hour, minute, second }
}

#[test]
fn test_dir_entry() {
    let res = DirEntry::parse(&KERNEL_ENTRY).unwrap();

    assert_eq!(&res.filename.name, b"KERNEL  ");
    assert_eq!(&res.filename.ext, b"ELF");
    assert_eq!(res.attributes.bits, ATTR_ARCHIVE);
    assert_eq!(res.cluster, Cluster(2));
    assert_eq!(res.size, 0xee4f0);
    assert_eq!(res.created_time, time(2020, 6, 16, 23, 48, 30));
    assert_eq!(res.modified_time, time(2020, 6, 16, 23, 48, 30));
    assert_eq!(res.accessed_time, time(2020, 6, 16, 0, 0, 0));

    println!("{:#?}", res);
}

#[test]
fn partition_test() {
    let data: [u8; 16] = [
        0x80, 0x01, 0x01, 0x00, 0x0b, 0xfe, 0xbf, 0xfc, 0x3f, 0x00, 0x00, 0x00, 0x7e, 0x86, 0xbb,
        0x00,
    ];

    let meta = MbrPartition::parse(&data);

    println!("{:#?}", meta);

    assert!(meta.is_active());
    assert_eq!(meta.begin_head(), 1);
    assert_eq!(meta.begin_sector(), 1);
    assert_eq!(meta.begin_cylinder(), 0);
    assert_eq!(meta.partition_type(), 0x0b);
    assert_eq!(meta.end_head(), 254);
    assert_eq!(meta.end_sector(), 63);
    assert_eq!(meta.end_cylinder(), 764);
    assert_eq!(meta.begin_lba(), 63);
    assert_eq!(meta.total_lba(), 12289662);
}

#[test]
fn dir_entry_name_and_meta() {
    let e = DirEntry::parse(&KERNEL_ENTRY).unwrap();
    assert!(e.is_valid());
    assert!(e.is_archive());
    assert!(!e.is_directory());
    assert!(!e.is_long_name());
    assert_eq!(e.filename(), "KERNEL.ELF");
    let meta = e.as_meta();
    assert_eq!(meta.name, "KERNEL.ELF");
    assert_eq!(meta.len, 0xee4f0);
}

#[test]
fn deleted_and_end_entries() {
    let mut deleted = KERNEL_ENTRY;
    deleted[0] = 0xE5;
    let e = DirEntry::parse(&deleted).unwrap();
    assert!(e.is_unused());
    assert!(!e.is_valid());
    assert_eq!(e.filename(), "unknown");

    let end = [0u8; 32];
    let e = DirEntry::parse(&end).unwrap();
    assert!(e.is_eod());
}

#[test]
fn datetime_invalid_stamp_is_epoch() {
    // month 0 does not exist
    assert_eq!(parse_datetime(0), time(1970, 1, 1, 0, 0, 0));
    // 2021-02-29 does not exist, 2020-02-29 does
    let feb29 = |y: u32| ((y - 1980) << 25) | (2 << 21) | (29 << 16);
    assert_eq!(parse_datetime(feb29(2021)), time(1970, 1, 1, 0, 0, 0));
    assert_eq!(parse_datetime(feb29(2020)), time(2020, 2, 29, 0, 0, 0));
}

#[test]
fn short_name_parse_ok() {
    let n = ShortFileName::parse("kernel.elf").unwrap();
    assert_eq!(&n.name, b"KERNEL  ");
    assert_eq!(&n.ext, b"ELF");
    let n = ShortFileName::parse("app").unwrap();
    assert_eq!(&n.name, b"APP     ");
    assert_eq!(&n.ext, b"   ");
    let n = ShortFileName::parse("abcdefgh.txt").unwrap();
    assert_eq!(&n.name, b"ABCDEFGH");
}

#[test]
fn short_name_parse_errors() {
    let err = |s: &str| match ShortFileName::parse(s) {
        Err(FsError::FilenameError(e)) => e,
        _ => panic!("expected a filename error for {s}"),
    };
    assert_eq!(err("a b"), FilenameError::InvalidCharacter);
    assert_eq!(err("a*b"), FilenameError::InvalidCharacter);
    assert_eq!(err(""), FilenameError::MisplacedPeriod);
    assert_eq!(err(".elf"), FilenameError::MisplacedPeriod);
    assert_eq!(err("kernel."), FilenameError::MisplacedPeriod);
    assert_eq!(err("abcdefghi"), FilenameError::NameTooLong);
    assert_eq!(err("kernel.elfx"), FilenameError::NameTooLong);
    assert_eq!(err("a.b.c"), FilenameError::UnableToParse);
}

#[test]
fn short_name_matches() {
    let a = ShortFileName::parse("shell.elf").unwrap();
    let b = ShortFileName::new(b"SHELL   ELF");
    let c = ShortFileName::new(b"SHELL   BIN");
    assert!(a.matches(&b));
    assert!(!a.matches(&c));
}

#[test]
fn fat16_layout() {
    let mut boot = [0u8; 512];
    boot[0x0B] = 0x00;
    boot[0x0C] = 0x02; // 512 bytes per sector
    boot[0x0D] = 4; // sectors per cluster
    boot[0x0E] = 1; // one reserved sector
    boot[0x10] = 2; // two FATs
    boot[0x11] = 0x00;
    boot[0x12] = 0x02; // 512 root entries
    boot[0x16] = 0x20; // 32 sectors per FAT
    let bpb = Fat16Bpb::parse(&boot);
    assert_eq!(bpb.bytes_per_sector, 512);
    let fs = Fat16Impl::new(bpb);
    assert_eq!(fs.fat_start, 1);
    assert_eq!(fs.first_root_dir_sector, 65);
    assert_eq!(fs.first_data_sector, 97);
    assert_eq!(fs.cluster_to_sector(&Cluster(2)), 97);
    assert_eq!(fs.cluster_to_sector(&Cluster(5)), 109);
    assert_eq!(fs.cluster_to_sector(&Cluster(0xFFFF_FFFC)), 65);
    assert_eq!(fs.fat_entry_location(&Cluster(300)), (2, 88));
}

#[test]
fn fat_entry_decoding() {
    let mut block = [0u8; 512];
    block[4] = 0x34;
    block[5] = 0x12;
    block[6] = 0xF7;
    block[7] = 0xFF;
    block[8] = 0xF8;
    block[9] = 0xFF;
    assert_eq!(decode_fat_entry(&block, 4), Ok(Cluster(0x1234)));
    assert_eq!(decode_fat_entry(&block, 6), Err(FsError::BadCluster));
    assert_eq!(decode_fat_entry(&block, 8), Err(FsError::EndOfFile));
}

#[test]
fn directory_block_lookup() {
    let mut block = [0u8; 512];
    block[32..64].copy_from_slice(&KERNEL_ENTRY);
    block[0] = 0xE5; // a deleted entry first
    block[1] = b'X';
    let want = ShortFileName::parse("kernel.elf").unwrap();
    let e = find_entry_in_block(&want, &block).unwrap();
    assert_eq!(e.size, 0xee4f0);
    let other = ShortFileName::parse("shell.elf").unwrap();
    assert_eq!(find_entry_in_block(&other, &block).err(), Some(FsError::FileNotFound));
    let mut full = [0u8; 512];
    for i in 0..16 {
        full[i * 32..i * 32 + 32].copy_from_slice(&KERNEL_ENTRY);
    }
    assert_eq!(find_entry_in_block(&other, &full).err(), Some(FsError::NotInSector));
}

#[test]
fn file_starts_at_its_cluster() {
    let e = DirEntry::parse(&KERNEL_ENTRY).unwrap();
    let f = File::new(e);
    assert_eq!(f.offset, 0);
    assert_eq!(f.current_cluster, Cluster(2));
    assert_eq!(f.length(), 0xee4f0);
}

use ysos_kernel::fat16::BlockDevice;

struct MemDisk {
    sectors: Vec<[u8; 512]>,
}

impl BlockDevice for MemDisk {
    fn read_block(&self, offset: u64, block: &mut [u8; 512]) -> Result<(), FsError> {
        match self.sectors.get(offset as usize) {
            Some(s) => {
                *block = *s;
                Ok(())
            }
            None => Err(FsError::DeviceError),
        }
    }
}

fn entry_bytes(name: &[u8; 11], attr: u8, cluster: u16, size: u32) -> [u8; 32] {
    let mut e = [0u8; 32];
    e[..11].copy_from_slice(name);
    e[0x0B] = attr;
    e[0x1A..0x1C].copy_from_slice(&cluster.to_le_bytes());
    e[0x1C..0x20].copy_from_slice(&size.to_le_bytes());
    e
}

/// One reserved sector, one FAT sector, one root-directory sector, then
/// one sector per cluster: KERNEL.ELF (700 bytes, clusters 2 and 3) and
/// the directory APP (cluster 4) holding SHELL.ELF (cluster 5).
fn small_volume() -> (Fat16Impl, MemDisk) {
    let mut sectors = vec![[0u8; 512]; 7];
    let fat = &mut sectors[1];
    fat[4..6].copy_from_slice(&3u16.to_le_bytes());
    fat[6..8].copy_from_slice(&0xFFF8u16.to_le_bytes());
    fat[8..10].copy_from_slice(&0xFFF8u16.to_le_bytes());
    fat[10..12].copy_from_slice(&0xFFF8u16.to_le_bytes());
    sectors[2][..32].copy_from_slice(&entry_bytes(b"KERNEL  ELF", 0x20, 2, 700));
    sectors[2][32..64].copy_from_slice(&entry_bytes(b"APP        ", 0x10, 4, 0));
    for i in 0..512 {
        sectors[3][i] = (i % 251) as u8;
        sectors[4][i] = 0xAA;
    }
    sectors[5][..32].copy_from_slice(&entry_bytes(b"SHELL   ELF", 0x20, 5, 10));
    let bpb = Fat16Bpb {
        bytes_per_sector: 512,
        sectors_per_cluster: 1,
        reserved_sector_count: 1,
        fat_count: 1,
        root_entries_count: 16,
        sectors_per_fat: 1,
    };
    (Fat16Impl::new(bpb), MemDisk { sectors })
}

#[test]
fn file_read_follows_chain() {
    let (fs, disk) = small_volume();
    let root = Cluster(0xFFFF_FFFC);
    let name = ShortFileName::parse("kernel.elf").unwrap();
    let entry = fs.find_entry_in_dir(&disk, &name, root).unwrap();
    let mut file = File::new(entry);
    let mut buf = vec![0u8; 1024];
    assert_eq!(file.read(&fs, &disk, &mut buf), Ok(700));
    assert_eq!(buf[10], 10);
    assert_eq!(buf[511], (511 % 251) as u8);
    assert_eq!(buf[512], 0xAA);
    assert_eq!(buf[699], 0xAA);
    assert_eq!(buf[700], 0);
    assert_eq!(file.read(&fs, &disk, &mut buf), Ok(0));
}

#[test]
fn path_lookup_and_listing() {
    let (fs, disk) = small_volume();
    let path = vec![ShortFileName::parse("app").unwrap(), ShortFileName::parse("shell.elf").unwrap()];
    let e = fs.get_entry(&disk, &path).unwrap();
    assert_eq!(e.size, 10);
    let bad = vec![ShortFileName::parse("kernel.elf").unwrap(), ShortFileName::parse("x").unwrap()];
    assert_eq!(fs.get_entry(&disk, &bad).err(), Some(FsError::NotADirectory));
    let missing = vec![ShortFileName::parse("nope").unwrap()];
    assert_eq!(fs.get_entry(&disk, &missing).err(), Some(FsError::FileNotFound));
    let names: Vec<String> = fs
        .read_dir(&disk, Cluster(0xFFFF_FFFC))
        .unwrap()
        .iter()
        .map(|e| e.filename())
        .collect();
    assert_eq!(names, vec!["KERNEL.ELF".to_string(), "APP".to_string()]);
}

#[test]
fn device_errors_surface() {
    let (fs, mut disk) = small_volume();
    disk.sectors.truncate(2); // the root directory sector is gone
    let name = ShortFileName::parse("kernel.elf").unwrap();
    assert_eq!(
        fs.find_entry_in_dir(&disk, &name, Cluster(0xFFFF_FFFC)).err(),
        Some(FsError::DeviceError)
    );
    assert_eq!(fs.next_cluster(&disk, &Cluster(2)), Ok(Cluster(3)));
    assert_eq!(fs.next_cluster(&disk, &Cluster(3)), Err(FsError::EndOfFile));
}
