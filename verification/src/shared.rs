use crate::session;
use crate::session::{session_step, Frame, Step};
use crate::state::Input;
use vstd::prelude::*;
use vstd::rwlock::{RwLock, RwLockPredicate};

verus! {

/// The lock predicate of the shared record: only well-formed records
/// (every slot 0 or 1) can be stored behind the lock.
pub struct WfPred;

impl RwLockPredicate<Input> for WfPred {
    open spec fn inv(self, v: Input) -> bool {
        v.wf()
    }
}

/// A shared handle to the one process-wide input record, guarded by a
/// single verified reader-writer lock whose invariant is `Input::wf`.
/// Cloning the handle shares the same record.
pub struct InputState {
    input: std::sync::Arc<RwLock<Input, WfPred>>,
}

impl InputState {
    /// Which records the handle's lock can store.
    pub closed spec fn lock_admits(&self, v: Input) -> bool {
        (*self.input).inv(v)
    }

    /// One shared record, initially all zeros, behind a lock that admits
    /// exactly the well-formed records.
    pub fn new() -> (st: Self)
        ensures
            forall|v: Input| #[trigger] st.lock_admits(v) == v.wf(),
    {
        InputState { input: std::sync::Arc::new(RwLock::new(Input::new(), Ghost(WfPred))) }
    }

    /// The 19-byte snapshot of the shared record — the 16 button bytes,
    /// then the 3 auxiliary bytes, each 0 or 1 — read under the lock.
    pub fn snapshot(&self) -> (buf: Vec<u8>)
        ensures
            buf@.len() == 19,
            forall|i: int| 0 <= i < 19 ==> (buf@[i] == 0 || buf@[i] == 1),
    {
        let read_handle = self.input.acquire_read();
        let inp = read_handle.borrow();
        let buf = inp.snapshot_bytes();
        proof {
            assert forall|i: int| 0 <= i < 19 implies (buf@[i] == 0 || buf@[i] == 1) by {
                if i < 16 {
                    assert(buf@[i] == inp.buttons@[i]);
                } else {
                    assert(buf@[16 + (i - 16)] == inp.extra@[i - 16]);
                }
            }
        }
        read_handle.release_read();
        buf
    }
}

impl Clone for InputState {
    /// Relies on `Arc::clone`: the clone is a handle to the same
    /// lock-guarded record, so in Verus's model of `Arc` (a value equal
    /// to what it points to) the clone equals the original.
    #[verifier::external_body]
    fn clone(&self) -> (other: Self)
        ensures
            other == *self,
    {
        InputState { input: std::sync::Arc::clone(&self.input) }
    }
}

/// Processes one inbound frame against the shared record and says what
/// the session does next: one `session_step`, with the record held under
/// the write lock for the whole step, so a button update's fourteen
/// slots change together and no reader sees them half-written.
pub fn handle_frame(state: &InputState, frame: &Frame) -> (st: Step)
    ensures
        st.stop == session::frame_stops(*frame),
        session::frame_replies(*frame) ==> (st.reply matches Some(m) && m@ == "alive"@),
        !session::frame_replies(*frame) ==> st.reply is None,
{
    let (mut inp, write_handle) = state.input.acquire_write();
    let st = session_step(&mut inp, frame);
    write_handle.release_write(inp);
    st
}

} // verus!
