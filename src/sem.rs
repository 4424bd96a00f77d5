use std::collections::BTreeMap;
use std::collections::VecDeque;
use vstd::prelude::*;

verus! {

broadcast use vstd::std_specs::btree::group_btree_axioms;

/// One counting semaphore: a non-negative count and a FIFO of the pids
/// parked on it.
pub struct Semaphore {
    pub count: usize,
    pub waiters: VecDeque<u16>,
}

/// What a semaphore operation asks the scheduler to do.
#[derive(Clone, Copy, Debug, PartialEq, Eq, Structural)]
pub enum SemaphoreResult {
    Done,
    NotExist,
    Block(u16),
    WakeUp(u16),
}

impl Semaphore {
    /// A semaphore never holds a positive count while someone waits on it.
    pub open spec fn inv(&self) -> bool {
        self.count > 0 ==> self.waiters@.len() == 0
    }
}

/// The semaphores of one process family, keyed by a user-chosen `u32`.
pub struct SemaphoreSet {
    pub sems: BTreeMap<u32, Semaphore>,
}

/// What `signal` on `key` does: `NotExist` for an unknown key; otherwise
/// the first waiter is handed the unit (count unchanged), or, with nobody
/// waiting, the count goes up by one (it stays at `usize::MAX`).
pub open spec fn signal_spec(a: SemaphoreSet, b: SemaphoreSet, key: u32, r: SemaphoreResult) -> bool {
    if !a@.contains_key(key) {
        r == SemaphoreResult::NotExist && b@ == a@
    } else {
        let s = a@[key];
        &&& b@.dom() == a@.dom()
        &&& forall|k: u32| k != key && #[trigger] a@.contains_key(k) ==> b@[k] == a@[k]
        &&& if s.waiters@.len() > 0 {
            &&& r == SemaphoreResult::WakeUp(s.waiters@[0])
            &&& b@[key].waiters@ == s.waiters@.drop_first()
            &&& b@[key].count == s.count
        } else {
            &&& r == SemaphoreResult::Done
            &&& b@[key].waiters@ == s.waiters@
            &&& b@[key].count == if s.count < usize::MAX {
                s.count + 1
            } else {
                s.count as int
            }
        }
    }
}

/// What `wait` on `key` by `pid` does: `NotExist` for an unknown key;
/// otherwise one unit is taken if the count is positive, else `pid` is
/// appended to the waiters and must block.
pub open spec fn wait_spec(a: SemaphoreSet, b: SemaphoreSet, key: u32, pid: u16, r: SemaphoreResult) -> bool {
    if !a@.contains_key(key) {
        r == SemaphoreResult::NotExist && b@ == a@
    } else {
        let s = a@[key];
        &&& b@.dom() == a@.dom()
        &&& forall|k: u32| k != key && #[trigger] a@.contains_key(k) ==> b@[k] == a@[k]
        &&& if s.count > 0 {
            &&& r == SemaphoreResult::Done
            &&& b@[key].waiters@ == s.waiters@
            &&& b@[key].count == s.count - 1
        } else {
            &&& r == SemaphoreResult::Block(pid)
            &&& b@[key].waiters@ == s.waiters@.push(pid)
            &&& b@[key].count == 0
        }
    }
}

impl SemaphoreSet {
    pub open spec fn view(&self) -> Map<u32, Semaphore> {
        self.sems@
    }

    /// Every semaphore of the set keeps its invariant.
    pub open spec fn wf(&self) -> bool {
        forall|k: u32| #[trigger] self@.contains_key(k) ==> self@[k].inv()
    }

    pub fn new() -> (r: SemaphoreSet)
        ensures
            r@ == Map::<u32, Semaphore>::empty(),
            r.wf(),
    {
        SemaphoreSet { sems: BTreeMap::new() }
    }

    /// Creates semaphore `key` with count `value`; fails when `key` is taken.
    pub fn insert(&mut self, key: u32, value: usize) -> (r: bool)
        requires
            old(self).wf(),
        ensures
            final(self).wf(),
            r == !old(self)@.contains_key(key),
            r ==> final(self)@.contains_key(key) && final(self)@[key].count == value
                && final(self)@[key].waiters@ == Seq::<u16>::empty()
                && final(self)@ == old(self)@.insert(key, final(self)@[key]),
            !r ==> final(self)@ == old(self)@,
    {
        if self.sems.contains_key(&key) {
            return false;
        }
        let sem = Semaphore { count: value, waiters: VecDeque::new() };
        assert(sem.inv());
        self.sems.insert(key, sem);
        assert forall|k: u32| #[trigger] self@.contains_key(k) implies self@[k].inv() by {
            if k != key {
                assert(old(self)@.contains_key(k));
            }
        }
        true
    }

    /// Removes semaphore `key`; fails when it is absent or has waiters.
    pub fn remove(&mut self, key: u32) -> (r: bool)
        requires
            old(self).wf(),
        ensures
            final(self).wf(),
            r == (old(self)@.contains_key(key) && old(self)@[key].waiters@.len() == 0),
            r ==> final(self)@ == old(self)@.remove(key),
            !r ==> final(self)@ == old(self)@,
    {
        match self.sems.get(&key) {
            None => false,
            Some(sem) => {
                if sem.waiters.len() != 0 {
                    return false;
                }
                self.sems.remove(&key);
                assert forall|k: u32| #[trigger] self@.contains_key(k) implies self@[k].inv() by {
                    assert(old(self)@.contains_key(k));
                }
                true
            },
        }
    }

    /// Signals semaphore `key`: hands the count to the first waiter if
    /// there is one, otherwise raises the count (saturating at `usize::MAX`).
    pub fn signal(&mut self, key: u32) -> (r: SemaphoreResult)
        requires
            old(self).wf(),
        ensures
            final(self).wf(),
            signal_spec(*old(self), *final(self), key, r),
    {
        match self.sems.remove(&key) {
            None => {
                assert(self@ =~= old(self)@);
                SemaphoreResult::NotExist
            },
            Some(mut sem) => {
                assert(old(self)@.contains_key(key) && sem == old(self)@[key]);
                assert(sem.inv());
                let r = match sem.waiters.pop_front() {
                    Some(pid) => SemaphoreResult::WakeUp(pid),
                    None => {
                        if sem.count < usize::MAX {
                            sem.count = sem.count + 1;
                        }
                        SemaphoreResult::Done
                    },
                };
                assert(sem.inv());
                self.sems.insert(key, sem);
                assert(self@.dom() =~= old(self)@.dom());
                assert forall|k: u32| #[trigger] self@.contains_key(k) implies self@[k].inv() by {
                    assert(old(self)@.contains_key(k));
                }
                r
            },
        }
    }

    /// Waits on semaphore `key` for process `pid`: takes one unit of the
    /// count if there is one, otherwise parks `pid` at the tail.
    pub fn wait(&mut self, key: u32, pid: u16) -> (r: SemaphoreResult)
        requires
            old(self).wf(),
        ensures
            final(self).wf(),
            wait_spec(*old(self), *final(self), key, pid, r),
    {
        match self.sems.remove(&key) {
            None => {
                assert(self@ =~= old(self)@);
                SemaphoreResult::NotExist
            },
            Some(mut sem) => {
                assert(old(self)@.contains_key(key) && sem == old(self)@[key]);
                assert(sem.inv());
                let r = if sem.count > 0 {
                    sem.count = sem.count - 1;
                    SemaphoreResult::Done
                } else {
                    sem.waiters.push_back(pid);
                    SemaphoreResult::Block(pid)
                };
                assert(sem.inv());
                self.sems.insert(key, sem);
                assert(self@.dom() =~= old(self)@.dom());
                assert forall|k: u32| #[trigger] self@.contains_key(k) implies self@[k].inv() by {
                    assert(old(self)@.contains_key(k));
                }
                r
            },
        }
    }

    /// The count of semaphore `key`, if it exists.
    pub fn count(&self, key: u32) -> (r: Option<usize>)
        ensures
            r == (if self@.contains_key(key) {
                Some(self@[key].count)
            } else {
                None::<usize>
            }),
    {
        match self.sems.get(&key) {
            None => None,
            Some(sem) => Some(sem.count),
        }
    }
}

/// Every operation keeps each semaphore's invariant: the count is never
/// negative, and a positive count means nobody is waiting.
pub proof fn semaphore_invariant_holds(set: SemaphoreSet, key: u32)
    requires
        set.wf(),
        set@.contains_key(key),
    ensures
        set@[key].count >= 0,
        set@[key].count > 0 ==> set@[key].waiters@.len() == 0,
{
}

} // verus!
