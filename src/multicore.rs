//! The hand-shake that starts the second core.
//!
//! The boot ROM of the second core reads a sequence of six words from the
//! inter-core FIFO and echoes each back: two zeros, a one, the vector table
//! address, the initial stack pointer and the entry point. A zero is sent
//! only after draining the FIFO. If an echo differs from what was sent, the
//! sequence starts again from the beginning.

use vstd::prelude::*;

verus! {

/// How many words the launch sequence holds.
pub const LAUNCH_WORDS: usize = 6;

/// Progress through the launch sequence.
pub struct Core1Launch {
    pub cmd_sequence: [u32; 6],
    /// How many words have been sent and echoed correctly.
    pub next: usize,
}

/// The launch sequence for a vector table, an initial stack pointer and an
/// entry point.
pub open spec fn launch_sequence(vector_table: u32, stack_ptr: u32, entry: u32) -> Seq<u32> {
    seq![0u32, 0u32, 1u32, vector_table, stack_ptr, entry]
}

impl Core1Launch {
    pub open spec fn wf(&self) -> bool {
        self.next <= LAUNCH_WORDS
    }

    /// Start a launch. `entry` is the address of the code the second core
    /// jumps to (with the Thumb bit set by the caller).
    pub fn new(vector_table: u32, stack_ptr: u32, entry: u32) -> (r: Core1Launch)
        ensures
            r.wf(),
            r.next == 0,
            r.cmd_sequence@ == launch_sequence(vector_table, stack_ptr, entry),
    {
        let r = Core1Launch { cmd_sequence: [0, 0, 1, vector_table, stack_ptr, entry], next: 0 };
        assert(r.cmd_sequence@ =~= launch_sequence(vector_table, stack_ptr, entry));
        r
    }

    /// Whether every word has been echoed correctly.
    pub fn is_done(&self) -> (r: bool)
        ensures
            r == (self.next == LAUNCH_WORDS),
    {
        self.next == LAUNCH_WORDS
    }

    /// The word to send next, and whether the FIFO must be drained first
    /// (before a zero).
    pub fn command(&self) -> (r: (u32, bool))
        requires
            self.wf(),
            self.next < LAUNCH_WORDS,
        ensures
            r.0 == self.cmd_sequence@[self.next as int],
            r.1 == (r.0 == 0),
    {
        let cmd = self.cmd_sequence[self.next];
        (cmd, cmd == 0)
    }

    /// Take the echo of the word just sent: go on to the next word if it
    /// matches, else start again from the first.
    pub fn on_response(&mut self, response: u32)
        requires
            old(self).wf(),
            old(self).next < LAUNCH_WORDS,
        ensures
            final(self).wf(),
            final(self).cmd_sequence == old(self).cmd_sequence,
            final(self).next == if response == old(self).cmd_sequence@[old(self).next as int] {
                old(self).next + 1
            } else {
                0
            },
    {
        if self.cmd_sequence[self.next] == response {
            self.next = self.next + 1;
        } else {
            self.next = 0;
        }
    }
}

} // verus!
