//! The output window: an ordered, size-bounded sequence of lines showing
//! the most recent output. New lines append at the tail; when the window is
//! trimmed to its capacity, the oldest lines leave first (FIFO eviction).

use vstd::prelude::*;
use std::collections::VecDeque;

verus! {

/// The views of a sequence of lines.
pub open spec fn line_views(ls: Seq<String>) -> Seq<Seq<char>> {
    Seq::new(ls.len(), |i: int| ls[i]@)
}

/// The trailing window of `s` that fits a capacity of `cap` lines: all of
/// `s` when it fits, else its last `cap` elements.
pub open spec fn tail_window(s: Seq<Seq<char>>, cap: int) -> Seq<Seq<char>>
    recommends
        cap >= 0,
{
    if s.len() <= cap {
        s
    } else {
        s.skip(s.len() - cap)
    }
}

/// The trailing window holds exactly the last `min(N, C)` of the `N` lines
/// pushed, in their original arrival order.
pub proof fn lemma_tail_window_is_last_lines(s: Seq<Seq<char>>, cap: int)
    requires
        cap >= 0,
    ensures
        tail_window(s, cap).len() == (if s.len() <= cap { s.len() as int } else { cap }),
        forall|i: int|
            0 <= i < tail_window(s, cap).len() ==> tail_window(s, cap)[i] == s[s.len()
                - tail_window(s, cap).len() + i],
{
}

/// The lines currently visible, oldest first.
pub struct Window {
    lines: VecDeque<String>,
}

impl Window {
    /// The window's contents as a sequence of lines of text, oldest first.
    pub closed spec fn contents(self) -> Seq<Seq<char>> {
        line_views(self.lines@)
    }

    /// An empty window.
    pub fn new() -> (w: Window)
        ensures
            w.contents() == Seq::<Seq<char>>::empty(),
    {
        let w = Window { lines: VecDeque::new() };
        proof {
            assert(w.contents() =~= Seq::<Seq<char>>::empty());
        }
        w
    }

    pub fn len(&self) -> (n: usize)
        ensures
            n == self.contents().len(),
    {
        self.lines.len()
    }

    /// The line at position `i`, counting from the oldest.
    pub fn line_at(&self, i: usize) -> (l: &String)
        requires
            i < self.contents().len(),
        ensures
            l@ == self.contents()[i as int],
    {
        &self.lines[i]
    }

    /// Appends one line at the tail.
    pub fn push_line(&mut self, line: String)
        ensures
            final(self).contents() == old(self).contents().push(line@),
    {
        self.lines.push_back(line);
        proof {
            assert(final(self).contents() =~= old(self).contents().push(line@));
        }
    }

    /// Appends a batch of drained lines at the tail, in order.
    pub fn extend_lines(&mut self, drained: &Vec<String>)
        ensures
            final(self).contents() == old(self).contents() + line_views(drained@),
    {
        let mut i: usize = 0;
        while i < drained.len()
            invariant
                i <= drained.len(),
                self.contents() =~= old(self).contents() + line_views(drained@.take(i as int)),
            decreases drained.len() - i,
        {
            let ghost before = self.contents();
            let line = drained[i].clone();
            assert(line@ == drained@[i as int]@);
            self.lines.push_back(line);
            proof {
                assert(self.contents() =~= before.push(drained@[i as int]@));
                assert(line_views(drained@.take(i as int + 1)) =~= line_views(
                    drained@.take(i as int),
                ).push(drained@[i as int]@));
            }
            i = i + 1;
            proof {
                assert(self.contents() =~= old(self).contents() + line_views(
                    drained@.take(i as int),
                ));
            }
        }
        proof {
            assert(drained@.take(drained@.len() as int) =~= drained@);
            assert(self.contents() =~= old(self).contents() + line_views(drained@));
        }
    }

    /// Evicts lines from the head until at most `cap` remain.
    pub fn trim_to(&mut self, cap: usize)
        ensures
            final(self).contents() == tail_window(old(self).contents(), cap as int),
    {
        while self.lines.len() > cap
            invariant
                self.contents().len() <= old(self).contents().len(),
                self.contents() =~= old(self).contents().skip(
                    old(self).contents().len() - self.contents().len(),
                ),
                self.contents().len() >= cap || self.contents() =~= old(self).contents(),
            decreases self.lines@.len(),
        {
            let ghost before = self.contents();
            let _evicted = self.lines.pop_front();
            proof {
                assert(self.contents() =~= before.skip(1));
                assert(self.contents() =~= old(self).contents().skip(
                    old(self).contents().len() - self.contents().len(),
                ));
            }
        }
        proof {
            assert(final(self).contents() =~= tail_window(old(self).contents(), cap as int));
        }
    }
}

} // verus!
