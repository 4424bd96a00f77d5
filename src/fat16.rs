use vstd::prelude::*;

use crate::direntry::{
    entry_of, Cluster, DirEntry, FsError, ShortFileName, CLUSTER_ROOT_DIR, DIR_ENTRY_LEN,
};

verus! {

/// Bytes in one disk block.
pub const BLOCK_SIZE: usize = 512;

/// A device that reads whole 512-byte blocks.
pub trait BlockDevice {
    /// Reads block number `offset` into `block`.
    fn read_block(&self, offset: u64, block: &mut [u8; 512]) -> Result<(), FsError>;
}

/// The BIOS parameter block fields that the FAT16 layout depends on.
#[derive(Clone, Copy, Debug, PartialEq, Eq, Structural)]
pub struct Fat16Bpb {
    pub bytes_per_sector: u16,
    pub sectors_per_cluster: u8,
    pub reserved_sector_count: u16,
    pub fat_count: u8,
    pub root_entries_count: u16,
    pub sectors_per_fat: u16,
}

impl Fat16Bpb {
    /// Reads the fields from a boot sector.
    pub fn parse(b: &[u8; 512]) -> (r: Fat16Bpb)
        ensures
            r.bytes_per_sector == b@[0x0B] + b@[0x0C] * 256,
            r.sectors_per_cluster == b@[0x0D],
            r.reserved_sector_count == b@[0x0E] + b@[0x0F] * 256,
            r.fat_count == b@[0x10],
            r.root_entries_count == b@[0x11] + b@[0x12] * 256,
            r.sectors_per_fat == b@[0x16] + b@[0x17] * 256,
    {
        Fat16Bpb {
            bytes_per_sector: b[0x0B] as u16 + (b[0x0C] as u16) * 256,
            sectors_per_cluster: b[0x0D],
            reserved_sector_count: b[0x0E] as u16 + (b[0x0F] as u16) * 256,
            fat_count: b[0x10],
            root_entries_count: b[0x11] as u16 + (b[0x12] as u16) * 256,
            sectors_per_fat: b[0x16] as u16 + (b[0x17] as u16) * 256,
        }
    }
}

/// Where the regions of a FAT16 volume start, in sectors.
#[derive(Clone, Copy, Debug, PartialEq, Eq, Structural)]
pub struct Fat16Impl {
    pub bpb: Fat16Bpb,
    pub fat_start: u64,
    pub first_data_sector: u64,
    pub first_root_dir_sector: u64,
}

impl Fat16Impl {
    pub open spec fn wf(&self) -> bool {
        &&& self.fat_start == self.bpb.reserved_sector_count
        &&& self.first_root_dir_sector == self.bpb.reserved_sector_count + self.bpb.fat_count
            * self.bpb.sectors_per_fat
        &&& self.first_data_sector == self.first_root_dir_sector + (self.bpb.root_entries_count
            * 32 + 511) / 512
    }

    /// The layout that `bpb` describes: the FAT after the reserved sectors,
    /// the root directory after the FATs, the data after the root directory.
    pub fn new(bpb: Fat16Bpb) -> (r: Fat16Impl)
        ensures
            r.wf(),
            r.bpb == bpb,
    {
        let fat_start = bpb.reserved_sector_count as u64;
        let root_dir_size = (bpb.root_entries_count as u64 * 32 + 511) / 512;
        assert(bpb.fat_count as u64 * bpb.sectors_per_fat as u64 <= 255 * 65535) by (nonlinear_arith)
            requires
                bpb.fat_count <= 255,
                bpb.sectors_per_fat <= 65535,
        ;
        let first_root_dir_sector = bpb.reserved_sector_count as u64 + bpb.fat_count as u64
            * bpb.sectors_per_fat as u64;
        let first_data_sector = first_root_dir_sector + root_dir_size;
        Fat16Impl { bpb, fat_start, first_data_sector, first_root_dir_sector }
    }

    /// The first sector of `cluster`; the root directory has its own region.
    pub fn cluster_to_sector(&self, cluster: &Cluster) -> (r: u64)
        requires
            self.wf(),
            cluster.0 == CLUSTER_ROOT_DIR || cluster.0 >= 2,
        ensures
            cluster.0 == CLUSTER_ROOT_DIR ==> r == self.first_root_dir_sector,
            cluster.0 != CLUSTER_ROOT_DIR ==> r == (cluster.0 - 2) * self.bpb.sectors_per_cluster
                + self.first_data_sector,
            r < 0x100_0000_0000,
    {
        assert(self.bpb.fat_count * self.bpb.sectors_per_fat <= 255 * 65535) by (nonlinear_arith)
            requires
                self.bpb.fat_count <= 255,
                self.bpb.sectors_per_fat <= 65535,
        ;
        if cluster.0 == CLUSTER_ROOT_DIR {
            self.first_root_dir_sector
        } else {
            let n = (cluster.0 - 2) as u64;
            assert(n * self.bpb.sectors_per_cluster as u64 <= 0xFFFF_FFFF * 255) by (nonlinear_arith)
                requires
                    n <= 0xFFFF_FFFF,
                    self.bpb.sectors_per_cluster <= 255,
            ;
            n * self.bpb.sectors_per_cluster as u64 + self.first_data_sector
        }
    }

    /// The sector and byte offset of the FAT entry of `cluster`.
    pub fn fat_entry_location(&self, cluster: &Cluster) -> (r: (u64, usize))
        requires
            self.wf(),
        ensures
            r.0 == self.fat_start + (cluster.0 * 2) / 512,
            r.1 == (cluster.0 * 2) % 512,
    {
        let fat_offset = cluster.0 as u64 * 2;
        (self.fat_start + fat_offset / 512, (fat_offset % 512) as usize)
    }

    /// Follows the FAT from `cluster`: 0xFFF7 marks a bad cluster, 0xFFF8
    /// the end of the chain, any other value is the next cluster.
    pub fn next_cluster<D: BlockDevice>(&self, dev: &D, cluster: &Cluster) -> (r: Result<Cluster, FsError>)
        requires
            self.wf(),
        ensures
            r is Ok ==> r->Ok_0.0 < 0x1_0000 && r->Ok_0.0 != 0xFFF7 && r->Ok_0.0 != 0xFFF8,
    {
        let (sector, offset) = self.fat_entry_location(cluster);
        let mut block: [u8; 512] = [0u8; 512];
        dev.read_block(sector, &mut block)?;
        decode_fat_entry(&block, offset)
    }
}

/// The cluster that a FAT entry names, or why it names none.
pub open spec fn fat_entry_meaning(v: int) -> Result<Cluster, FsError> {
    if v == 0xFFF7 {
        Err(FsError::BadCluster)
    } else if v == 0xFFF8 {
        Err(FsError::EndOfFile)
    } else {
        Ok(Cluster(v as u32))
    }
}

/// Decodes the little-endian FAT16 entry at `offset` of a FAT block.
pub fn decode_fat_entry(block: &[u8; 512], offset: usize) -> (r: Result<Cluster, FsError>)
    requires
        offset < 511,
    ensures
        r == fat_entry_meaning(block@[offset as int] + block@[offset + 1] * 256),
        r is Ok ==> r->Ok_0.0 < 0x1_0000 && r->Ok_0.0 != 0xFFF7 && r->Ok_0.0 != 0xFFF8,
{
    let v: u32 = block[offset] as u32 + (block[offset + 1] as u32) * 256;
    if v == 0xFFF7 {
        Err(FsError::BadCluster)
    } else if v == 0xFFF8 {
        Err(FsError::EndOfFile)
    } else {
        Ok(Cluster(v))
    }
}

/// Looks for `name` among the sixteen entries of a directory block:
/// the first entry that ends the directory gives `FileNotFound`, the first
/// entry with that name is returned, and a block with neither gives
/// `NotInSector`.
pub fn find_entry_in_block(name: &ShortFileName, block: &[u8; 512]) -> (r: Result<DirEntry, FsError>)
    ensures
        match r {
            Ok(e) => exists|i: int|
                0 <= i < 16 && entry_of(e, #[trigger] block@.subrange(i * 32, i * 32 + 32))
                    && e.filename.name@ == name.name@ && e.filename.ext@ == name.ext@,
            Err(err) => err == FsError::FileNotFound || err == FsError::NotInSector,
        },
{
    let mut i: usize = 0;
    while i < 16
        invariant
            i <= 16,
        decreases 16 - i,
    {
        let slice = slice_of(block, i * 32);
        let entry = DirEntry::parse(slice.as_slice()).unwrap();
        if entry.is_eod() {
            return Err(FsError::FileNotFound);
        }
        if entry.filename.matches(name) {
            assert(entry_of(entry, block@.subrange(i * 32, i * 32 + 32)));
            return Ok(entry);
        }
        i = i + 1;
    }
    Err(FsError::NotInSector)
}

/// The 32 bytes of `block` from `start` on.
fn slice_of(block: &[u8; 512], start: usize) -> (r: Vec<u8>)
    requires
        start + 32 <= 512,
    ensures
        r@ == block@.subrange(start as int, start + 32),
{
    let mut out: Vec<u8> = Vec::new();
    let mut k: usize = 0;
    while k < 32
        invariant
            start + 32 <= 512,
            k <= 32,
            out@ == block@.subrange(start as int, start + k),
        decreases 32 - k,
    {
        out.push(block[start + k]);
        assert(block@.subrange(start as int, start + k + 1) =~= block@.subrange(start as int, start + k).push(block@[start + k]));
        k = k + 1;
    }
    out
}

/// Reads directory sector `sector` and looks for `name` in it (see
/// `find_entry_in_block`); a failed read gives the device's error.
pub fn find_entry_in_sector<D: BlockDevice>(dev: &D, name: &ShortFileName, sector: u64) -> (r: Result<DirEntry, FsError>)
    ensures
        r is Ok ==> r->Ok_0.filename.name@ == name.name@ && r->Ok_0.filename.ext@ == name.ext@,
{
    let mut block: [u8; 512] = [0u8; 512];
    dev.read_block(sector, &mut block)?;
    find_entry_in_block(name, &block)
}

/// Longest cluster chain followed; a FAT16 volume has fewer clusters, so a
/// longer chain loops.
pub const MAX_CHAIN: u32 = 0x1_0000;

impl Fat16Impl {
    /// Sectors of one directory cluster (or of the whole root directory).
    pub fn dir_sectors(&self, dir: Cluster) -> (r: u64)
        requires
            self.wf(),
        ensures
            dir.0 == CLUSTER_ROOT_DIR ==> r == self.first_data_sector - self.first_root_dir_sector,
            dir.0 != CLUSTER_ROOT_DIR ==> r == self.bpb.sectors_per_cluster,
            r <= 0x1_0000,
    {
        if dir.0 == CLUSTER_ROOT_DIR {
            self.first_data_sector - self.first_root_dir_sector
        } else {
            self.bpb.sectors_per_cluster as u64
        }
    }

    /// Looks for `name` in the directory that starts at cluster `dir`,
    /// sector by sector along its cluster chain, up to the entry that ends
    /// it. `FileNotFound` when it is not there; a failed read gives the
    /// device's error.
    pub fn find_entry_in_dir<D: BlockDevice>(&self, dev: &D, name: &ShortFileName, dir: Cluster) -> (r: Result<DirEntry, FsError>)
        requires
            self.wf(),
        ensures
            r is Ok ==> r->Ok_0.filename.name@ == name.name@ && r->Ok_0.filename.ext@ == name.ext@,
    {
        let mut cluster = dir;
        let mut hops: u32 = 0;
        while hops < MAX_CHAIN
            invariant
                self.wf(),
            decreases MAX_CHAIN - hops,
        {
            if cluster.0 != CLUSTER_ROOT_DIR && cluster.0 < 2 {
                return Err(FsError::FileNotFound);
            }
            let first = self.cluster_to_sector(&cluster);
            let count = self.dir_sectors(dir);
            let mut k: u64 = 0;
            while k < count
                invariant
                    first < 0x100_0000_0000,
                    count <= 0x1_0000,
                decreases count - k,
            {
                match find_entry_in_sector(dev, name, first + k) {
                    Ok(e) => {
                        return Ok(e);
                    },
                    Err(FsError::NotInSector) => {},
                    Err(e) => {
                        return Err(e);
                    },
                }
                k = k + 1;
            }
            if cluster.0 == CLUSTER_ROOT_DIR {
                break;
            }
            match self.next_cluster(dev, &cluster) {
                Ok(next) => {
                    cluster = next;
                },
                Err(_) => {
                    break;
                },
            }
            hops = hops + 1;
        }
        Err(FsError::FileNotFound)
    }

    /// Follows `path`, one short name per directory level, from the root
    /// directory, and returns the entry of its last name. Every name but the
    /// last must be a directory (`NotADirectory`); an empty path has no entry
    /// (`FileNotFound`).
    pub fn get_entry<D: BlockDevice>(&self, dev: &D, path: &Vec<ShortFileName>) -> (r: Result<DirEntry, FsError>)
        requires
            self.wf(),
        ensures
            path@.len() == 0 ==> r == Err::<DirEntry, FsError>(FsError::FileNotFound),
            r is Ok ==> r->Ok_0.filename.name@ == path@.last().name@ && r->Ok_0.filename.ext@
                == path@.last().ext@,
    {
        if path.len() == 0 {
            return Err(FsError::FileNotFound);
        }
        let mut dir = Cluster(CLUSTER_ROOT_DIR);
        let mut i: usize = 0;
        let last = path.len() - 1;
        while i < last
            invariant
                self.wf(),
                path@.len() > 0,
                last == path@.len() - 1,
                i <= last,
            decreases last - i,
        {
            let entry = self.find_entry_in_dir(dev, &path[i], dir)?;
            if !entry.is_directory() {
                return Err(FsError::NotADirectory);
            }
            dir = entry.cluster;
            i = i + 1;
        }
        self.find_entry_in_dir(dev, &path[i], dir)
    }

    /// The valid short-name entries of the directory that starts at
    /// cluster `dir`, in disk order, up to the entry that ends it.
    pub fn read_dir<D: BlockDevice>(&self, dev: &D, dir: Cluster) -> (r: Result<Vec<DirEntry>, FsError>)
        requires
            self.wf(),
        ensures
            r is Ok ==> forall|i: int| 0 <= i < r->Ok_0@.len() ==> (#[trigger] r->Ok_0@[i]).valid_spec()
                && !(r->Ok_0@[i].attributes.bits & crate::direntry::ATTR_LFN == crate::direntry::ATTR_LFN),
    {
        let mut out: Vec<DirEntry> = Vec::new();
        let mut cluster = dir;
        let mut hops: u32 = 0;
        let mut block: [u8; 512] = [0u8; 512];
        while hops < MAX_CHAIN
            invariant
                self.wf(),
                forall|i: int| 0 <= i < out@.len() ==> (#[trigger] out@[i]).valid_spec()
                    && !(out@[i].attributes.bits & crate::direntry::ATTR_LFN == crate::direntry::ATTR_LFN),
            decreases MAX_CHAIN - hops,
        {
            if cluster.0 != CLUSTER_ROOT_DIR && cluster.0 < 2 {
                return Ok(out);
            }
            let first = self.cluster_to_sector(&cluster);
            let count = self.dir_sectors(dir);
            let mut k: u64 = 0;
            while k < count
                invariant
                    first < 0x100_0000_0000,
                    count <= 0x1_0000,
                    forall|i: int| 0 <= i < out@.len() ==> (#[trigger] out@[i]).valid_spec()
                        && !(out@[i].attributes.bits & crate::direntry::ATTR_LFN == crate::direntry::ATTR_LFN),
                decreases count - k,
            {
                dev.read_block(first + k, &mut block)?;
                let mut e: usize = 0;
                while e < 16
                    invariant
                        e <= 16,
                        forall|i: int| 0 <= i < out@.len() ==> (#[trigger] out@[i]).valid_spec()
                            && !(out@[i].attributes.bits & crate::direntry::ATTR_LFN == crate::direntry::ATTR_LFN),
                    decreases 16 - e,
                {
                    let bytes = slice_of(&block, e * 32);
                    let entry = DirEntry::parse(bytes.as_slice()).unwrap();
                    if entry.is_eod() {
                        return Ok(out);
                    }
                    if entry.is_valid() && !entry.is_long_name() {
                        out.push(entry);
                    }
                    e = e + 1;
                }
                k = k + 1;
            }
            if cluster.0 == CLUSTER_ROOT_DIR {
                break;
            }
            match self.next_cluster(dev, &cluster) {
                Ok(next) => {
                    cluster = next;
                },
                Err(_) => {
                    break;
                },
            }
            hops = hops + 1;
        }
        Ok(out)
    }
}

} // verus!
