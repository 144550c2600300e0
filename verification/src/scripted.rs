//! A scripted transport: an in-memory implementation of the byte-transport
//! capability that records every frame written and serves pre-arranged
//! replies, for exercising the engine without hardware.

use vstd::prelude::*;

use crate::base::XLineIO;

verus! {

/// A transport double: records every frame accepted in full and serves
/// pre-arranged reply buffers front to back, each delivered only when it is
/// exactly the length asked for. The failure switches make every write or
/// every read fail on demand.
pub struct ScriptedIo {
    /// Frames accepted in full, oldest first.
    pub written: Vec<Vec<u8>>,
    /// Reply buffers still to serve, front to back.
    pub replies: Vec<Vec<u8>>,
    /// Make every write fail.
    pub fail_write: bool,
    /// Make every read fail.
    pub fail_read: bool,
    history_written: Ghost<Seq<Seq<u8>>>,
    history_read: Ghost<Seq<Seq<u8>>>,
}

impl ScriptedIo {
    /// A fresh transport that will serve `replies` front to back.
    pub fn replying(replies: Vec<Vec<u8>>) -> (r: ScriptedIo)
        ensures
            r.spec_written() == Seq::<Seq<u8>>::empty(),
            r.spec_read() == Seq::<Seq<u8>>::empty(),
    {
        ScriptedIo {
            written: Vec::new(),
            replies,
            fail_write: false,
            fail_read: false,
            history_written: Ghost(Seq::empty()),
            history_read: Ghost(Seq::empty()),
        }
    }
}

impl XLineIO for ScriptedIo {
    type Error = u8;

    closed spec fn spec_written(&self) -> Seq<Seq<u8>> {
        self.history_written@
    }

    closed spec fn spec_read(&self) -> Seq<Seq<u8>> {
        self.history_read@
    }

    fn write_all(&mut self, buf: &[u8], timeout_ms: u64) -> (r: Result<(), u8>) {
        if self.fail_write {
            return Err(70);
        }
        self.written.push(vstd::slice::slice_to_vec(buf));
        self.history_written = Ghost(self.history_written@.push(buf@));
        Ok(())
    }

    fn read_exact(&mut self, len: usize, timeout_ms: u64) -> (r: Result<Vec<u8>, u8>) {
        if self.fail_read {
            return Err(90);
        }
        if self.replies.len() == 0 {
            return Err(91);
        }
        let reply = self.replies.remove(0);
        if reply.len() != len {
            return Err(92);
        }
        self.history_read = Ghost(self.history_read@.push(reply@));
        Ok(reply)
    }
}

} // verus!
