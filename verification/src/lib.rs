//! The logic of a terminal tool that runs a shell command (or reads a
//! pipe) and shows its output as a bounded, auto-clearing scrolling
//! window: splitting byte streams into lines, the FIFO output window, the
//! display-capacity heuristic, elapsed-time formatting, the frame text
//! drawn on each tick, and the state machine that ends the render loop
//! once the source is closed and drained. The threads, the channel and the
//! terminal writes live with the binary around this crate.

pub mod heuristic;
pub mod lines;
pub mod render;
pub mod timefmt;
pub mod window;

use vstd::prelude::*;

verus! {

/// Translates a child process's exit status into this program's own exit
/// code: an OS code in the unsigned 8-bit range passes through verbatim;
/// anything else maps to 0 on success and 1 on failure.
pub fn exit_code_from_status(code: Option<i32>, success: bool) -> (r: u8)
    ensures
        (match code {
            Some(c) => {
                if 0 <= c <= 255 {
                    r == c
                } else {
                    r == (if success { 0u8 } else { 1u8 })
                }
            },
            None => r == (if success { 0u8 } else { 1u8 }),
        }),
{
    match code {
        Some(c) => {
            if 0 <= c && c <= 255 {
                c as u8
            } else if success {
                0
            } else {
                1
            }
        },
        None => {
            if success {
                0
            } else {
                1
            }
        },
    }
}

} // verus!
