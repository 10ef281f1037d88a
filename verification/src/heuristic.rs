//! Display-capacity policy: how many output lines to show at once.
//!
//! When the user gives no explicit count, the capacity is derived from the
//! terminal's row count by a heuristic that reserves headroom for the header
//! and frame borders, and the terminal is re-probed only every few ticks,
//! with the last-known row count cached in between.

use vstd::prelude::*;

verus! {

/// The derived display capacity for a terminal of `rows` rows: for short
/// terminals, the row count less four (but at least one line); otherwise the
/// row count less a third of itself or five rows, whichever reserve is
/// larger.
pub open spec fn spec_num_lines_heuristic(rows: int) -> int
    recommends
        rows >= 0,
{
    if rows < 11 {
        if rows - 4 >= 1 {
            rows - 4
        } else {
            1
        }
    } else {
        if rows / 3 >= 5 {
            rows - rows / 3
        } else {
            rows - 5
        }
    }
}

/// Derives the display capacity from the terminal row count.
pub fn num_lines_heuristic(rows: u16) -> (r: u16)
    ensures
        r as int == spec_num_lines_heuristic(rows as int),
{
    if rows < 11 {
        if rows >= 5 {
            rows - 4
        } else {
            1
        }
    } else {
        let third: u16 = rows / 3;
        if third >= 5 {
            rows - third
        } else {
            rows - 5
        }
    }
}

/// The heuristic is weakly increasing in the terminal row count: a taller
/// terminal never shows fewer lines.
pub proof fn lemma_heuristic_monotonic(r1: int, r2: int)
    requires
        0 <= r1 <= r2,
    ensures
        spec_num_lines_heuristic(r1) <= spec_num_lines_heuristic(r2),
{
    if r1 < 11 && r2 >= 11 {
        assert(spec_num_lines_heuristic(r1) <= 6);
        assert(r2 / 3 >= 3);
        assert(3 * (r2 / 3) <= r2 < 3 * (r2 / 3) + 3);
        assert(spec_num_lines_heuristic(r2) >= 6);
    } else if r1 >= 11 {
        assert(3 * (r1 / 3) <= r1 < 3 * (r1 / 3) + 3);
        assert(3 * (r2 / 3) <= r2 < 3 * (r2 / 3) + 3);
        assert(r1 / 3 <= r2 / 3);
        assert(r2 / 3 - r1 / 3 <= r2 - r1);
    }
}

/// How many ticks pass between probes of the terminal size: after a
/// successful probe the cached row count is reused for this many further
/// ticks before the terminal is asked again.
pub const PROBE_INTERVAL: u8 = 11;

/// The capacity used when neither an explicit count nor a terminal row
/// count is available.
pub const DEFAULT_CAPACITY: usize = 10;

/// Relies on termsize::get: queries the controlling terminal for its size,
/// `None` when there is no terminal. The result depends on the environment,
/// so nothing is promised of the row count itself.
#[verifier::external_body]
fn probe_terminal_rows() -> (r: Option<u16>) {
    termsize::get().map(|size| size.rows)
}

/// Throttled terminal-size lookup: a tick counter and the last row count a
/// probe returned. Owned by the render loop; probes happen only on the
/// ticks where the counter has wrapped to zero.
pub struct CapacityTracker {
    ticks: u8,
    cached_rows: Option<u16>,
}

impl CapacityTracker {
    /// Ticks stay below the probe interval, and between probes a cached row
    /// count is on hand.
    pub closed spec fn well_formed(self) -> bool {
        self.ticks < PROBE_INTERVAL && (self.ticks != 0 ==> self.cached_rows is Some)
    }

    pub closed spec fn spec_ticks(self) -> u8 {
        self.ticks
    }

    pub closed spec fn spec_cached_rows(self) -> Option<u16> {
        self.cached_rows
    }

    /// A fresh tracker: no probe has happened yet.
    pub fn new() -> (r: CapacityTracker)
        ensures
            r.well_formed(),
            r.spec_ticks() == 0,
            r.spec_cached_rows() is None,
    {
        CapacityTracker { ticks: 0, cached_rows: None }
    }

    /// The display capacity for this tick. An explicit count wins outright
    /// and leaves the tracker alone. Otherwise the heuristic is applied to
    /// the terminal row count: freshly probed on the ticks where the
    /// counter has wrapped to zero, cached in between. Without a terminal
    /// the default capacity is used and the counter stays at zero, so the
    /// next tick probes again.
    pub fn current_capacity(&mut self, explicit: Option<usize>) -> (cap: usize)
        requires
            old(self).well_formed(),
        ensures
            final(self).well_formed(),
            explicit is Some ==> cap == explicit->0 && *final(self) == *old(self),
            explicit is None && old(self).spec_ticks() != 0 ==> {
                &&& cap == spec_num_lines_heuristic(old(self).spec_cached_rows()->0 as int)
                &&& final(self).spec_cached_rows() == old(self).spec_cached_rows()
                &&& final(self).spec_ticks() == ((old(self).spec_ticks() + 1) as u8 % PROBE_INTERVAL)
            },
            explicit is None && old(self).spec_ticks() == 0 ==> (match final(self).spec_cached_rows() {
                Some(rows) => cap == spec_num_lines_heuristic(rows as int) && final(self).spec_ticks() == 1,
                None => cap == DEFAULT_CAPACITY && final(self).spec_ticks() == 0,
            }),
    {
        if let Some(n) = explicit {
            return n;
        }
        let rows: u16 = if self.ticks == 0 {
            match probe_terminal_rows() {
                Some(rows) => {
                    self.cached_rows = Some(rows);
                    rows
                },
                None => {
                    self.cached_rows = None;
                    return DEFAULT_CAPACITY;
                },
            }
        } else {
            match self.cached_rows {
                Some(rows) => rows,
                None => {
                    // unreachable: a nonzero tick count means a probe succeeded
                    assert(false);
                    0
                },
            }
        };
        self.ticks = (self.ticks + 1) % PROBE_INTERVAL;
        num_lines_heuristic(rows) as usize
    }
}

} // verus!
