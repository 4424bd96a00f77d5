use crossbeam_queue::ArrayQueue;
use vstd::prelude::*;

verus! {

#[verifier::external_type_specification]
#[verifier::external_body]
#[verifier::reject_recursive_types(T)]
pub struct ExArrayQueue<T>(ArrayQueue<T>);

/// The bytes in a queue, oldest first.
pub uninterp spec fn queue_items(q: ArrayQueue<u8>) -> Seq<u8>;

/// The number of bytes a queue was made to hold.
pub uninterp spec fn queue_capacity(q: ArrayQueue<u8>) -> nat;

/// Relies on `ArrayQueue::new`: an empty queue of capacity `cap`; it
/// panics on a zero capacity.
#[verifier::external_body]
fn queue_new(cap: usize) -> (r: ArrayQueue<u8>)
    requires
        cap > 0,
    ensures
        queue_items(r) == Seq::<u8>::empty(),
        queue_capacity(r) == cap,
{
    ArrayQueue::new(cap)
}

/// Relies on `ArrayQueue::push_mut`: a full queue hands the byte back;
/// otherwise the byte goes to the tail.
#[verifier::external_body]
fn queue_push(q: &mut ArrayQueue<u8>, v: u8) -> (r: Result<(), u8>)
    ensures
        queue_capacity(*final(q)) == queue_capacity(*old(q)),
        queue_items(*old(q)).len() < queue_capacity(*old(q)) ==> r is Ok && queue_items(*final(q))
            == queue_items(*old(q)).push(v),
        queue_items(*old(q)).len() >= queue_capacity(*old(q)) ==> r is Err && r->Err_0 == v
            && queue_items(*final(q)) == queue_items(*old(q)),
{
    q.push_mut(v)
}

/// Relies on `ArrayQueue::pop_mut`: the oldest byte, or `None` when empty.
#[verifier::external_body]
fn queue_pop(q: &mut ArrayQueue<u8>) -> (r: Option<u8>)
    ensures
        queue_capacity(*final(q)) == queue_capacity(*old(q)),
        queue_items(*old(q)).len() == 0 ==> r is None && queue_items(*final(q)) == queue_items(*old(q)),
        queue_items(*old(q)).len() > 0 ==> r == Some(queue_items(*old(q))[0]) && queue_items(*final(q))
            == queue_items(*old(q)).drop_first(),
{
    q.pop_mut()
}

/// Bytes the input buffer holds.
pub const INPUT_BUF_SIZE: usize = 128;

/// Keystrokes received from the serial line and not yet read.
pub struct InputBuffer {
    pub queue: ArrayQueue<u8>,
}

impl InputBuffer {
    pub open spec fn view(&self) -> Seq<u8> {
        queue_items(self.queue)
    }

    pub open spec fn wf(&self) -> bool {
        queue_capacity(self.queue) == INPUT_BUF_SIZE && self@.len() <= INPUT_BUF_SIZE
    }

    /// An empty buffer for 128 bytes.
    pub fn new() -> (r: InputBuffer)
        ensures
            r.wf(),
            r@ == Seq::<u8>::empty(),
    {
        InputBuffer { queue: queue_new(INPUT_BUF_SIZE) }
    }

    /// Appends `key`; a full buffer drops it and says so.
    pub fn push_key(&mut self, key: u8) -> (accepted: bool)
        requires
            old(self).wf(),
        ensures
            final(self).wf(),
            accepted == (old(self)@.len() < INPUT_BUF_SIZE),
            accepted ==> final(self)@ == old(self)@.push(key),
            !accepted ==> final(self)@ == old(self)@,
    {
        queue_push(&mut self.queue, key).is_ok()
    }

    /// Takes the oldest key, if any.
    pub fn try_pop_key(&mut self) -> (r: Option<u8>)
        requires
            old(self).wf(),
        ensures
            final(self).wf(),
            old(self)@.len() == 0 ==> r is None && final(self)@ == old(self)@,
            old(self)@.len() > 0 ==> r == Some(old(self)@[0]) && final(self)@ == old(self)@.drop_first(),
    {
        queue_pop(&mut self.queue)
    }

    /// Takes the oldest key of a buffer that holds one.
    pub fn pop_key(&mut self) -> (r: u8)
        requires
            old(self).wf(),
            old(self)@.len() > 0,
        ensures
            final(self).wf(),
            r == old(self)@[0],
            final(self)@ == old(self)@.drop_first(),
    {
        queue_pop(&mut self.queue).unwrap()
    }
}

/// Where the line editor is within an escape sequence.
#[derive(Clone, Copy, Debug, PartialEq, Eq, Structural)]
pub enum EscapeState {
    Normal,
    /// After ESC, before the byte that opens the sequence.
    Escape,
    /// After ESC and its opening byte, before the command byte.
    Command,
}

/// A line being typed: its bytes, the cursor, and escape-sequence state.
pub struct LineEditor {
    pub line: Vec<u8>,
    pub pos: usize,
    pub state: EscapeState,
}

pub const KEY_LF: u8 = 0x0A;

pub const KEY_CR: u8 = 0x0D;

pub const KEY_BS: u8 = 0x08;

pub const KEY_DEL: u8 = 0x7F;

pub const KEY_ESC: u8 = 0x1B;

/// Cursor right, after ESC `[`.
pub const KEY_RIGHT: u8 = 0x43;

/// Cursor left, after ESC `[`.
pub const KEY_LEFT: u8 = 0x44;

impl LineEditor {
    pub open spec fn wf(&self) -> bool {
        self.pos <= self.line@.len() < usize::MAX
    }

    /// An empty line.
    pub fn new() -> (r: LineEditor)
        ensures
            r.wf(),
            r.line@ == Seq::<u8>::empty(),
            r.pos == 0,
            r.state == EscapeState::Normal,
    {
        LineEditor { line: Vec::new(), pos: 0, state: EscapeState::Normal }
    }

    /// Takes one key. LF or CR ends the line (`true`); BS and DEL delete
    /// the byte before the cursor; ESC `[` `C` / `D` move the cursor right
    /// or left within the line; ESC with any other command is ignored; any
    /// other byte is inserted at the cursor.
    pub fn feed(&mut self, key: u8) -> (done: bool)
        requires
            old(self).wf(),
        ensures
            final(self).wf(),
            ({
                let l = old(self).line@;
                let p = old(self).pos as int;
                match old(self).state {
                    EscapeState::Escape => !done && final(self).line@ == l && final(self).pos == p
                        && final(self).state == EscapeState::Command,
                    EscapeState::Command => {
                        &&& !done
                        &&& final(self).line@ == l
                        &&& final(self).state == EscapeState::Normal
                        &&& final(self).pos == if key == KEY_RIGHT && p < l.len() {
                            p + 1
                        } else if key == KEY_LEFT && p > 0 {
                            p - 1
                        } else {
                            p
                        }
                    },
                    EscapeState::Normal => if key == KEY_LF || key == KEY_CR {
                        done && final(self).line@ == l && final(self).pos == p && final(self).state
                            == EscapeState::Normal
                    } else if key == KEY_BS || key == KEY_DEL {
                        &&& !done
                        &&& final(self).state == EscapeState::Normal
                        &&& p > 0 ==> final(self).line@ == l.remove(p - 1) && final(self).pos == p - 1
                        &&& p == 0 ==> final(self).line@ == l && final(self).pos == 0
                    } else if key == KEY_ESC {
                        !done && final(self).line@ == l && final(self).pos == p && final(self).state
                            == EscapeState::Escape
                    } else {
                        &&& !done
                        &&& final(self).state == EscapeState::Normal
                        &&& l.len() + 1 < usize::MAX ==> final(self).line@ == l.insert(p, key)
                            && final(self).pos == p + 1
                        &&& l.len() + 1 >= usize::MAX ==> final(self).line@ == l && final(self).pos == p
                    },
                }
            }),
    {
        match self.state {
            EscapeState::Escape => {
                self.state = EscapeState::Command;
                false
            },
            EscapeState::Command => {
                if key == KEY_RIGHT && self.pos < self.line.len() {
                    self.pos = self.pos + 1;
                } else if key == KEY_LEFT && self.pos > 0 {
                    self.pos = self.pos - 1;
                }
                self.state = EscapeState::Normal;
                false
            },
            EscapeState::Normal => {
                if key == KEY_LF || key == KEY_CR {
                    true
                } else if key == KEY_BS || key == KEY_DEL {
                    if self.pos > 0 {
                        self.line.remove(self.pos - 1);
                        self.pos = self.pos - 1;
                    }
                    false
                } else if key == KEY_ESC {
                    self.state = EscapeState::Escape;
                    false
                } else {
                    if self.line.len() + 1 < usize::MAX {
                        self.line.insert(self.pos, key);
                        self.pos = self.pos + 1;
                    }
                    false
                }
            },
        }
    }
}

} // verus!
