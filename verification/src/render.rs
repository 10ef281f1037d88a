//! The render loop's logical core: the state machine that decides when the
//! loop is done, and the frame text drawn on each tick.
//!
//! The loop itself — timing, the channel, the terminal — lives outside; on
//! each tick it hands this module the lines drained so far and the one
//! observation made on the source (a line, a timeout, or closed-and-empty),
//! and writes out the frame this module builds.

use vstd::prelude::*;
use crate::timefmt::{format_duration, spec_format_duration};
use crate::window::{line_views, tail_window, Window};

verus! {

/// Where the render loop stands: still consuming, confirming that a closed
/// source is fully drained, or done.
#[derive(Clone, Copy, PartialEq, Eq, Structural)]
pub enum LoopState {
    Running,
    Draining,
    Terminated,
}

/// One observation of the source per tick: a line arrived, the wait timed
/// out, or the source is closed and empty.
pub enum SourceEvent {
    Line(String),
    TimedOut,
    Closed,
}

/// The state after one observation. A line always means the source is
/// alive; a closed-and-empty observation must be seen twice in a row —
/// once to enter draining, once more to terminate — so that lines still in
/// flight when the source closed are flushed first. A timeout changes
/// nothing.
pub open spec fn next_state(s: LoopState, ev: SourceEvent) -> LoopState {
    match ev {
        SourceEvent::Line(_) => LoopState::Running,
        SourceEvent::TimedOut => s,
        SourceEvent::Closed => match s {
            LoopState::Running => LoopState::Draining,
            LoopState::Draining => LoopState::Terminated,
            LoopState::Terminated => LoopState::Terminated,
        },
    }
}

/// From any live state, two consecutive closed-and-empty observations
/// reach termination — and never fewer: one alone leaves a running loop
/// draining, still watching for late lines.
pub proof fn lemma_two_closed_observations_terminate(s: LoopState)
    ensures
        next_state(next_state(s, SourceEvent::Closed), SourceEvent::Closed) is Terminated,
        s is Running ==> next_state(s, SourceEvent::Closed) is Draining,
{
}

/// The header line above the frame.
pub open spec fn spec_header(elapsed_secs: int) -> Seq<char> {
    "· Elapsed time: "@ + spec_format_duration(elapsed_secs) + "\n"@
}

/// One window line inside the frame, behind its marker.
pub open spec fn line_block(l: Seq<char>) -> Seq<char> {
    "│ "@ + l + "\n"@
}

/// The marked window lines, top to bottom.
pub open spec fn spec_body(w: Seq<Seq<char>>) -> Seq<char>
    decreases w.len(),
{
    if w.len() == 0 {
        Seq::<char>::empty()
    } else {
        spec_body(w.drop_last()) + line_block(w.last())
    }
}

/// Everything below the header: the framed block of window lines.
pub open spec fn frame_rest(w: Seq<Seq<char>>) -> Seq<char> {
    "╭─\n"@ + spec_body(w) + "╰─\n"@
}

/// A full frame: header, then the framed block.
pub open spec fn spec_frame(w: Seq<Seq<char>>, elapsed_secs: int) -> Seq<char> {
    spec_header(elapsed_secs) + frame_rest(w)
}

/// The closing footer printed once, after termination.
pub open spec fn spec_footer(elapsed_secs: int) -> Seq<char> {
    "· Finished in: "@ + spec_format_duration(elapsed_secs) + "\n"@
}

/// Drawing is idempotent: everything below the header depends on the
/// window alone, so redrawing with no new input reproduces the same
/// content, the elapsed-time header aside.
pub proof fn lemma_redraw_same_below_header(w: Seq<Seq<char>>, t1: int, t2: int)
    ensures
        spec_frame(w, t1) == spec_header(t1) + frame_rest(w),
        spec_frame(w, t2) == spec_header(t2) + frame_rest(w),
        spec_frame(w, t1).skip(spec_header(t1).len() as int) == spec_frame(w, t2).skip(
            spec_header(t2).len() as int,
        ),
{
    assert(spec_frame(w, t1).skip(spec_header(t1).len() as int) =~= frame_rest(w));
    assert(spec_frame(w, t2).skip(spec_header(t2).len() as int) =~= frame_rest(w));
}

/// The render loop's own state: the visible window and where the loop
/// stands.
pub struct Session {
    window: Window,
    state: LoopState,
}

impl Session {
    /// The lines currently visible, oldest first.
    pub closed spec fn spec_window(self) -> Seq<Seq<char>> {
        self.window.contents()
    }

    /// Where the loop stands.
    pub closed spec fn spec_state(self) -> LoopState {
        self.state
    }

    /// A fresh session: empty window, still running.
    pub fn new() -> (s: Session)
        ensures
            s.spec_window() == Seq::<Seq<char>>::empty(),
            s.spec_state() is Running,
    {
        Session { window: Window::new(), state: LoopState::Running }
    }

    /// One tick's buffer update: appends the drained lines in arrival
    /// order, then evicts from the head down to the display capacity, so
    /// the window holds the most recent lines that fit.
    pub fn absorb(&mut self, drained: &Vec<String>, capacity: usize)
        ensures
            final(self).spec_window() == tail_window(
                old(self).spec_window() + line_views(drained@),
                capacity as int,
            ),
            final(self).spec_state() == old(self).spec_state(),
    {
        self.window.extend_lines(drained);
        self.window.trim_to(capacity);
    }

    /// Applies one observation of the source: a line joins the window and
    /// keeps the loop running; closed-and-empty advances the shutdown
    /// confirmation; a timeout changes nothing.
    pub fn observe(&mut self, ev: SourceEvent)
        ensures
            final(self).spec_state() == next_state(old(self).spec_state(), ev),
            final(self).spec_window() == (match ev {
                SourceEvent::Line(l) => old(self).spec_window().push(l@),
                SourceEvent::TimedOut => old(self).spec_window(),
                SourceEvent::Closed => old(self).spec_window(),
            }),
    {
        match ev {
            SourceEvent::Line(line) => {
                self.window.push_line(line);
                self.state = LoopState::Running;
            },
            SourceEvent::TimedOut => {},
            SourceEvent::Closed => {
                match self.state {
                    LoopState::Running => {
                        self.state = LoopState::Draining;
                    },
                    LoopState::Draining => {
                        self.state = LoopState::Terminated;
                    },
                    LoopState::Terminated => {},
                }
            },
        }
    }

    /// Whether the loop is done and the footer is owed.
    pub fn is_terminated(&self) -> (r: bool)
        ensures
            r == (self.spec_state() is Terminated),
    {
        match self.state {
            LoopState::Terminated => true,
            _ => false,
        }
    }

    /// Builds the frame for this tick: the elapsed-time header, a top
    /// border, each visible line behind its marker, a bottom border.
    /// Reads the session without changing it.
    pub fn render_frame(&self, elapsed_secs: u64) -> (r: String)
        ensures
            r@ == spec_frame(self.spec_window(), elapsed_secs as int),
    {
        let ghost w = self.spec_window();
        let mut out = String::new();
        out.append("· Elapsed time: ");
        let elapsed = format_duration(elapsed_secs);
        out.append(elapsed.as_str());
        out.append("\n");
        out.append("╭─\n");
        proof {
            assert(w.take(0) =~= Seq::<Seq<char>>::empty());
            assert(out@ =~= spec_header(elapsed_secs as int) + "╭─\n"@ + spec_body(w.take(0)));
        }
        let n = self.window.len();
        let mut i: usize = 0;
        while i < n
            invariant
                i <= n,
                n == w.len(),
                w == self.spec_window(),
                out@ == spec_header(elapsed_secs as int) + "╭─\n"@ + spec_body(w.take(i as int)),
            decreases n - i,
        {
            out.append("│ ");
            out.append(self.window.line_at(i).as_str());
            out.append("\n");
            proof {
                assert(w.take(i as int + 1).drop_last() =~= w.take(i as int));
                assert(w.take(i as int + 1).last() == w[i as int]);
                assert(out@ =~= spec_header(elapsed_secs as int) + "╭─\n"@ + spec_body(
                    w.take(i as int + 1),
                ));
            }
            i = i + 1;
        }
        out.append("╰─\n");
        proof {
            assert(w.take(n as int) =~= w);
            assert(out@ =~= spec_frame(w, elapsed_secs as int));
        }
        out
    }
}

/// Builds the footer that closes the display after the loop terminates.
pub fn render_footer(elapsed_secs: u64) -> (r: String)
    ensures
        r@ == spec_footer(elapsed_secs as int),
{
    let mut out = String::new();
    out.append("· Finished in: ");
    let elapsed = format_duration(elapsed_secs);
    out.append(elapsed.as_str());
    out.append("\n");
    proof {
        assert(out@ =~= spec_footer(elapsed_secs as int));
    }
    out
}

} // verus!
