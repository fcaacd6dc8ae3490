//! What the status display shows of a session.
//!
//! The display itself belongs to the program around the library. Here the
//! values it shows are worked out: the record of the last command cut to
//! the width of its field, and the time since then in the units it is shown
//! in.

use crate::session::{elapsed_since, AppState, Mode};
use vstd::prelude::*;
use vstd::string::{StrSliceExecFns, StringExecFns};

verus! {

/// The longest record, in characters, that is shown in full.
pub const RECORD_WIDTH: usize = 20;

/// How many characters of a longer record are shown before the ellipsis.
pub const RECORD_KEPT: usize = 17;

/// What stands for the part of a record that was cut off.
pub const ELLIPSIS: &'static str = "...";

/// A span of time as the display shows it.
#[derive(Clone, Copy, Debug, PartialEq, Eq)]
pub enum ElapsedDisplay {
    /// Less than a minute: whole seconds.
    Seconds(u64),
    /// A minute or more: whole minutes, and the seconds left over.
    MinutesSeconds(u64, u64),
}

/// One snapshot of a session for the status display.
#[derive(Clone, Debug, PartialEq, Eq)]
pub struct StatusBar {
    pub connected: bool,
    /// The record of the last command, shortened to fit.
    pub last_command: Option<String>,
    /// The time since that record, where there is one.
    pub elapsed: Option<ElapsedDisplay>,
    pub mode: Mode,
    /// The text typed so far.
    pub gcode_input: String,
}

/// A record as it is shown: in full up to twenty characters, and cut to
/// its first seventeen characters and an ellipsis beyond that.
pub open spec fn shortened(record: Seq<char>) -> Seq<char> {
    if record.len() > RECORD_WIDTH {
        record.subrange(0, RECORD_KEPT as int) + ELLIPSIS@
    } else {
        record
    }
}

/// A span of `millis` milliseconds as it is shown.
pub open spec fn elapsed_display(millis: u64) -> ElapsedDisplay {
    let seconds = millis / 1000;
    if seconds < 60 {
        ElapsedDisplay::Seconds(seconds)
    } else {
        ElapsedDisplay::MinutesSeconds(seconds / 60, seconds % 60)
    }
}

/// Shortens a record to the width of its field. The width is counted in
/// characters, so no character is ever cut in two.
pub fn shorten(record: &str) -> (r: String)
    ensures
        r@ == shortened(record@),
{
    if record.unicode_len() > RECORD_WIDTH {
        let mut r = String::from_str(record.substring_char(0, RECORD_KEPT));
        r.append(ELLIPSIS);
        r
    } else {
        String::from_str(record)
    }
}

/// Splits a span of milliseconds into the units in which it is shown.
pub fn show_elapsed(millis: u64) -> (r: ElapsedDisplay)
    ensures
        r == elapsed_display(millis),
{
    let seconds = millis / 1000;
    if seconds < 60 {
        ElapsedDisplay::Seconds(seconds)
    } else {
        ElapsedDisplay::MinutesSeconds(seconds / 60, seconds % 60)
    }
}

/// The snapshot of `state` at `now` that the status display is drawn from.
pub fn status_bar(state: &AppState, now: u64) -> (r: StatusBar)
    ensures
        r.connected == state@.connected,
        r.mode == state@.mode,
        r.gcode_input@ == state@.gcode_input,
        r.last_command.deep_view() == match state@.last_command {
            Some(record) => Some(shortened(record)),
            None => None,
        },
        r.elapsed == match elapsed_since(state@.last_command_time, now) {
            Some(millis) => Some(elapsed_display(millis)),
            None => None,
        },
{
    let last_command = match &state.last_command {
        Some(record) => Some(shorten(record.as_str())),
        None => None,
    };
    let elapsed = match state.time_since_last_command(now) {
        Some(millis) => Some(show_elapsed(millis)),
        None => None,
    };
    StatusBar {
        connected: state.connected,
        last_command,
        elapsed,
        mode: state.mode,
        gcode_input: state.gcode_input.clone(),
    }
}

} // verus!
