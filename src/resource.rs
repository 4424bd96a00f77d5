use std::collections::BTreeMap;
use vstd::prelude::*;

use crate::direntry::FsError;
use crate::fat16::{BlockDevice, Fat16Impl};
use crate::file::File;

verus! {

broadcast use vstd::std_specs::btree::group_btree_axioms;

/// The three console streams that every process holds at descriptors 0, 1, 2.
#[derive(Clone, Copy, Debug, PartialEq, Eq, Structural)]
pub enum StdIO {
    Stdin,
    Stdout,
    Stderr,
}

/// An open stream of a process.
pub enum Resource {
    Console(StdIO),
    File(File),
}

/// The lowest descriptor that `open` may hand out.
pub const FIRST_FREE_FD: u8 = 3;

/// A process's table of open streams, indexed by descriptor.
pub struct ResourceSet {
    pub handles: BTreeMap<u8, Resource>,
}

/// `fd` is the lowest descriptor at or above 3 that `m` leaves free.
pub open spec fn lowest_free_fd(m: Map<u8, Resource>, fd: u8) -> bool {
    &&& FIRST_FREE_FD <= fd
    &&& !m.contains_key(fd)
    &&& forall|f: u8| FIRST_FREE_FD <= f < fd ==> #[trigger] m.contains_key(f)
}

/// Every descriptor from 3 up is taken.
pub open spec fn table_full(m: Map<u8, Resource>) -> bool {
    forall|f: u8| FIRST_FREE_FD <= f ==> #[trigger] m.contains_key(f)
}

impl ResourceSet {
    pub open spec fn view(&self) -> Map<u8, Resource> {
        self.handles@
    }

    /// The console streams stay open at their fixed descriptors.
    pub open spec fn wf(&self) -> bool {
        &&& self@.contains_key(0) && self@[0] == Resource::Console(StdIO::Stdin)
        &&& self@.contains_key(1) && self@[1] == Resource::Console(StdIO::Stdout)
        &&& self@.contains_key(2) && self@[2] == Resource::Console(StdIO::Stderr)
    }

    /// A table holding only the three console streams.
    pub fn new() -> (r: ResourceSet)
        ensures
            r.wf(),
            r@.dom() == set![0u8, 1u8, 2u8],
    {
        let mut handles = BTreeMap::new();
        handles.insert(0u8, Resource::Console(StdIO::Stdin));
        handles.insert(1u8, Resource::Console(StdIO::Stdout));
        handles.insert(2u8, Resource::Console(StdIO::Stderr));
        let r = ResourceSet { handles };
        assert(r@.dom() =~= set![0u8, 1u8, 2u8]);
        r
    }

    /// Puts `res` at the lowest free descriptor at or above 3; `None` when
    /// every descriptor is taken.
    pub fn open(&mut self, res: Resource) -> (r: Option<u8>)
        requires
            old(self).wf(),
        ensures
            final(self).wf(),
            match r {
                Some(fd) => lowest_free_fd(old(self)@, fd) && final(self)@ == old(self)@.insert(
                    fd,
                    res,
                ),
                None => table_full(old(self)@) && final(self)@ == old(self)@,
            },
    {
        let mut fd: u8 = FIRST_FREE_FD;
        loop
            invariant
                FIRST_FREE_FD <= fd,
                self@ == old(self)@,
                self.wf(),
                forall|f: u8| FIRST_FREE_FD <= f < fd ==> #[trigger] self@.contains_key(f),
            decreases 255 - fd,
        {
            if !self.handles.contains_key(&fd) {
                self.handles.insert(fd, res);
                return Some(fd);
            }
            if fd == 255 {
                assert forall|f: u8| FIRST_FREE_FD <= f implies #[trigger] self@.contains_key(f) by {
                    if f < fd {
                    }
                }
                return None;
            }
            fd = fd + 1;
        }
    }

    /// Closes descriptor `fd`; the console descriptors and free ones fail.
    pub fn close(&mut self, fd: u8) -> (r: bool)
        requires
            old(self).wf(),
        ensures
            final(self).wf(),
            r == (fd >= FIRST_FREE_FD && old(self)@.contains_key(fd)),
            r ==> final(self)@ == old(self)@.remove(fd),
            !r ==> final(self)@ == old(self)@,
    {
        if fd < FIRST_FREE_FD {
            return false;
        }
        match self.handles.remove(&fd) {
            Some(_) => true,
            None => {
                assert(self@ =~= old(self)@);
                false
            },
        }
    }

    /// The stream at descriptor `fd`, if one is open there.
    pub fn get(&self, fd: u8) -> (r: Option<&Resource>)
        ensures
            match r {
                Some(res) => self@.contains_key(fd) && *res == self@[fd],
                None => !self@.contains_key(fd),
            },
    {
        self.handles.get(&fd)
    }

    /// Reads from the file open at `fd` into `buf` (see `File::read`);
    /// `None` when no file is open there.
    pub fn read_file<D: BlockDevice>(&mut self, fd: u8, fs: &Fat16Impl, dev: &D, buf: &mut [u8]) -> (r: Option<Result<usize, FsError>>)
        requires
            old(self).wf(),
            fs.wf(),
            fs.bpb.sectors_per_cluster > 0,
            fs.bpb.bytes_per_sector > 0,
        ensures
            final(self).wf(),
            final(self)@.dom() == old(self)@.dom(),
            r is None ==> final(self)@ == old(self)@,
            r is Some <==> fd >= FIRST_FREE_FD && old(self)@.contains_key(fd) && old(self)@[fd] is File,
    {
        if fd < FIRST_FREE_FD {
            return None;
        }
        match self.handles.remove(&fd) {
            None => {
                assert(self@ =~= old(self)@);
                None
            },
            Some(Resource::File(mut f)) => {
                let r = f.read(fs, dev, buf);
                self.handles.insert(fd, Resource::File(f));
                assert(self@.dom() =~= old(self)@.dom());
                Some(r)
            },
            Some(other) => {
                self.handles.insert(fd, other);
                assert(self@ =~= old(self)@);
                None
            },
        }
    }
}

} // verus!
