use vstd::prelude::*;

use crate::direntry::{Cluster, DirEntry, FsError, CLUSTER_ROOT_DIR};
use crate::fat16::{BlockDevice, Fat16Impl};

verus! {

/// An open file of a FAT16 volume: its entry and how far it has been read.
#[derive(Clone, Copy, Debug)]
pub struct File {
    /// Bytes read so far.
    pub offset: usize,
    /// The cluster that holds the byte at `offset`.
    pub current_cluster: Cluster,
    pub entry: DirEntry,
}

impl File {
    /// A file positioned at its first byte.
    pub fn new(entry: DirEntry) -> (r: File)
        ensures
            r.offset == 0,
            r.current_cluster == entry.cluster,
            r.entry == entry,
    {
        File { offset: 0, current_cluster: entry.cluster, entry }
    }

    /// The file's size in bytes.
    pub fn length(&self) -> (r: usize)
        ensures
            r == self.entry.size,
    {
        self.entry.size as usize
    }

    /// Reads from the current offset into `buf`, block by block, following
    /// the cluster chain; stops at the end of the file, when `buf` is full,
    /// or when the chain ends. Returns how many bytes were read (0 at the
    /// end of the file) and moves the offset past them.
    pub fn read<D: BlockDevice>(&mut self, fs: &Fat16Impl, dev: &D, buf: &mut [u8]) -> (r: Result<usize, FsError>)
        requires
            fs.wf(),
            fs.bpb.sectors_per_cluster > 0,
            fs.bpb.bytes_per_sector > 0,
        ensures
            final(buf)@.len() == old(buf)@.len(),
            final(self).entry == old(self).entry,
            old(self).offset >= old(self).entry.size ==> r == Ok::<usize, FsError>(0) && *final(self) == *old(self),
            old(self).offset < old(self).entry.size && old(buf)@.len() > 0 && old(self).current_cluster.0
                != CLUSTER_ROOT_DIR && old(self).current_cluster.0 < 2 ==> r == Err::<usize, FsError>(FsError::BadCluster),
            r is Ok ==> final(buf)@.subrange(r->Ok_0 as int, old(buf)@.len() as int) == old(buf)@.subrange(
                r->Ok_0 as int,
                old(buf)@.len() as int,
            ),
            r is Ok ==> {
                let n = r->Ok_0;
                &&& n <= old(buf)@.len()
                &&& old(self).offset < old(self).entry.size ==> n <= old(self).entry.size - old(self).offset
                    && final(self).offset == old(self).offset + n
                    && (old(buf)@.len() > 0 ==> n > 0)
            },
    {
        let length = self.length();
        if self.offset >= length {
            return Ok(0);
        }
        let spc = fs.bpb.sectors_per_cluster as u64;
        let bps = fs.bpb.bytes_per_sector as u64;
        assert(spc * bps <= 255 * 65535) by (nonlinear_arith)
            requires
                spc <= 255,
                bps <= 65535,
        ;
        assert(spc * bps > 0) by (nonlinear_arith)
            requires
                spc > 0,
                bps > 0,
        ;
        let bytes_per_cluster = (spc * bps) as usize;
        let ghost start = self.offset;
        let ghost first_cluster = self.current_cluster;
        let mut bytes_read: usize = 0;
        let mut block: [u8; 512] = [0u8; 512];
        while bytes_read < buf.len() && self.offset < length
            invariant
                fs.wf(),
                length == self.entry.size,
                self.entry == old(self).entry,
                bytes_per_cluster > 0,
                buf@.len() == old(buf)@.len(),
                start == old(self).offset,
                start < length,
                bytes_read <= buf@.len(),
                self.offset == start + bytes_read,
                self.offset <= length,
                forall|j: int| bytes_read <= j < buf@.len() ==> buf@[j] == old(buf)@[j],
                first_cluster == old(self).current_cluster,
                bytes_read == 0 ==> self.current_cluster == first_cluster,
                first_cluster.0 != CLUSTER_ROOT_DIR && first_cluster.0 < 2 ==> bytes_read == 0,
            ensures
                forall|j: int| bytes_read <= j < buf@.len() ==> buf@[j] == old(buf)@[j],
                buf@.len() == old(buf)@.len(),
                self.entry == old(self).entry,
                bytes_read <= buf@.len(),
                self.offset == start + bytes_read,
                self.offset <= length,
                buf@.len() > 0 ==> bytes_read > 0,
            decreases length - self.offset,
        {
            let cluster = self.current_cluster;
            if cluster.0 != CLUSTER_ROOT_DIR && cluster.0 < 2 {
                return Err(FsError::BadCluster);
            }
            let current_sector = fs.cluster_to_sector(&cluster) + ((self.offset % bytes_per_cluster) / 512) as u64;
            dev.read_block(current_sector, &mut block)?;
            let block_offset = self.offset % 512;
            let block_remain = 512 - block_offset;
            let mut to_read = block_remain;
            if buf.len() - bytes_read < to_read {
                to_read = buf.len() - bytes_read;
            }
            if length - self.offset < to_read {
                to_read = length - self.offset;
            }
            let mut k: usize = 0;
            while k < to_read
                invariant
                    k <= to_read,
                    bytes_read + to_read <= buf@.len(),
                    buf@.len() <= usize::MAX,
                    block_offset + to_read <= 512,
                    buf@.len() == old(buf)@.len(),
                    forall|j: int| bytes_read + k <= j < buf@.len() ==> buf@[j] == old(buf)@[j],
                decreases to_read - k,
            {
                buf[bytes_read + k] = block[block_offset + k];
                k = k + 1;
            }
            bytes_read = bytes_read + to_read;
            self.offset = self.offset + to_read;
            if self.offset % bytes_per_cluster == 0 {
                match fs.next_cluster(dev, &self.current_cluster) {
                    Ok(next) => {
                        self.current_cluster = next;
                    },
                    Err(_) => {
                        break;
                    },
                }
            }
        }
        Ok(bytes_read)
    }
}

} // verus!
