//! The script of input lines handed to a run of the scheduler.

use vstd::prelude::*;

verus! {

/// The input lines a run draws from, consumed front to back.  Each line
/// stands for one line read from the terminal, already trimmed.
pub struct Feed {
    lines: Vec<String>,
    at: usize,
}

impl Feed {
    /// The cursor never passes the end of the script.
    pub closed spec fn wf(&self) -> bool {
        self.at <= self.lines@.len()
    }

    /// The lines not yet consumed, in the order they will be handed out.
    pub closed spec fn remaining(&self) -> Seq<String> {
        self.lines@.skip(self.at as int)
    }

    /// Makes a feed that hands out `lines` front to back.
    pub fn new(lines: Vec<String>) -> (r: Feed)
        ensures
            r.wf(),
            r.remaining() == lines@,
    {
        let r = Feed { lines, at: 0 };
        proof {
            assert(r.remaining() =~= r.lines@);
        }
        r
    }

    /// Whether a line is left to hand out.
    pub fn has_next(&self) -> (r: bool)
        requires
            self.wf(),
        ensures
            r == (self.remaining().len() > 0),
    {
        self.at < self.lines.len()
    }

    /// Hands out the next line, or nothing once the script is spent.
    pub fn next(&mut self) -> (r: Option<String>)
        requires
            old(self).wf(),
        ensures
            final(self).wf(),
            old(self).remaining().len() > 0 ==> {
                &&& r == Some(old(self).remaining()[0])
                &&& final(self).remaining() == old(self).remaining().drop_first()
            },
            old(self).remaining().len() == 0 ==> {
                &&& r is None
                &&& final(self).remaining() == old(self).remaining()
            },
    {
        if self.at < self.lines.len() {
            let line = self.lines[self.at].clone();
            self.at = self.at + 1;
            proof {
                assert(self.remaining() =~= old(self).remaining().drop_first());
            }
            Some(line)
        } else {
            None
        }
    }
}

} // verus!
