//! Newline-delimited framing for the motor link: received bytes are cut into
//! complete lines, and a partial line is kept until its newline arrives.
use vstd::prelude::*;

verus! {

pub const NEWLINE: u8 = 0x0A;

pub open spec fn no_newline(s: Seq<u8>) -> bool {
    forall|i: int| 0 <= i < s.len() ==> s[i] != NEWLINE
}

/// The bytes that carry `lines`, each followed by a newline.
pub open spec fn joined(lines: Seq<Seq<u8>>) -> Seq<u8>
    decreases lines.len(),
{
    if lines.len() == 0 {
        Seq::empty()
    } else {
        joined(lines.drop_last()) + lines.last() + seq![NEWLINE]
    }
}

pub open spec fn views(lines: Seq<Vec<u8>>) -> Seq<Seq<u8>> {
    lines.map_values(|l: Vec<u8>| l@)
}

/// A line under construction.
#[derive(Debug)]
pub struct LineBuffer {
    pub partial: Vec<u8>,
}

impl LineBuffer {
    pub open spec fn wf(&self) -> bool {
        no_newline(self.partial@)
    }

    pub fn new() -> (r: LineBuffer)
        ensures
            r.wf(),
            r.partial@.len() == 0,
    {
        LineBuffer { partial: Vec::new() }
    }

    /// Appends received bytes and returns, oldest first and without their
    /// newlines, the lines they complete; the rest stays buffered.
    pub fn push_bytes(&mut self, bytes: &[u8]) -> (r: Vec<Vec<u8>>)
        requires
            old(self).wf(),
        ensures
            final(self).wf(),
            joined(views(r@)) + final(self).partial@ == old(self).partial@ + bytes@,
            forall|i: int| 0 <= i < r@.len() ==> no_newline(#[trigger] r@[i]@),
    {
        let mut lines: Vec<Vec<u8>> = Vec::new();
        let mut cur: Vec<u8> = Vec::new();
        core::mem::swap(&mut cur, &mut self.partial);
        let ghost start = cur@;
        let mut i: usize = 0;
        while i < bytes.len()
            invariant
                i <= bytes@.len(),
                no_newline(cur@),
                joined(views(lines@)) + cur@ == start + bytes@.take(i as int),
                forall|j: int| 0 <= j < lines@.len() ==> no_newline(#[trigger] lines@[j]@),
            decreases bytes@.len() - i,
        {
            let b = bytes[i];
            let ghost prev_lines = lines@;
            let ghost prev_cur = cur@;
            assert(bytes@.take(i + 1) =~= bytes@.take(i as int).push(b));
            if b == NEWLINE {
                lines.push(cur);
                cur = Vec::new();
                assert(views(lines@).drop_last() =~= views(prev_lines));
                assert(joined(views(lines@)) + cur@ =~= joined(views(prev_lines)) + prev_cur
                    + seq![NEWLINE]);
            } else {
                cur.push(b);
                assert(joined(views(lines@)) + cur@ =~= joined(views(prev_lines)) + prev_cur
                    + seq![b]);
            }
            i = i + 1;
        }
        assert(bytes@.take(bytes@.len() as int) =~= bytes@);
        self.partial = cur;
        lines
    }
}

} // verus!
