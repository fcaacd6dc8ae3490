//! The movement grammar: which lines are jog commands, and what they say.
//!
//! A jog command is the marker `G91G0`, one axis letter and a signed decimal
//! number, anywhere in the line. Finding it is the regular expression
//! engine's work; everything after the search is decided here.

use crate::magnitude::{magnitude_of, parse_magnitude, Magnitude, MagnitudeView};
use crate::text::{chars_of, strip_prefix};
use vstd::prelude::*;

verus! {

/// The label that a pendant may put in front of a command.
pub const LABEL: &'static str = "GCODE: ";

/// The pattern of a jog command: its first group is the axis letter, its
/// second the magnitude as written.
pub const MOVEMENT_PATTERN: &'static str = r"G91G0([XYZ])(-?\d+\.?\d*)";

/// One of the three movement dimensions.
#[derive(Clone, Copy, Debug, PartialEq, Eq)]
pub enum Axis {
    X,
    Y,
    Z,
}

/// A recognised jog command. It lives only while its line is processed.
#[derive(Clone, Debug, PartialEq, Eq)]
pub struct MovementCommand {
    pub axis: Axis,
    pub magnitude: Magnitude,
}

/// The mathematical content of a [`MovementCommand`].
pub struct MovementView {
    pub axis: Axis,
    pub magnitude: MagnitudeView,
}

impl View for MovementCommand {
    type V = MovementView;

    open spec fn view(&self) -> MovementView {
        MovementView { axis: self.axis, magnitude: self.magnitude@ }
    }
}

/// The axis that `text` names: `text` must be exactly one of the three
/// letters.
pub open spec fn axis_of(text: Seq<char>) -> Option<Axis> {
    if text == seq!['X'] {
        Some(Axis::X)
    } else if text == seq!['Y'] {
        Some(Axis::Y)
    } else if text == seq!['Z'] {
        Some(Axis::Z)
    } else {
        None
    }
}

/// Reads an axis letter. Any other text, however the search came by it, is
/// turned down.
pub fn parse_axis(text: &str) -> (r: Option<Axis>)
    ensures
        r == axis_of(text@),
{
    let chars = chars_of(text);
    if chars.len() != 1 {
        return None;
    }
    let r = match chars[0] {
        'X' => Some(Axis::X),
        'Y' => Some(Axis::Y),
        'Z' => Some(Axis::Z),
        _ => None,
    };
    assert(text@ =~= seq![chars[0]]);
    r
}

/// Trusted: the error of the regular expression engine, carried but never
/// looked into.
#[verifier::external_type_specification]
#[verifier::external_body]
pub struct ExRegexError(regex::Error);

/// Whether `pattern` is a regular expression that the engine accepts.
pub uninterp spec fn regex_compiles(pattern: Seq<char>) -> bool;

/// What the leftmost match of `pattern` in `haystack` captured: for each
/// group, the whole match first, the text it matched, or `None` for a group
/// that took no part; `None` where `haystack` holds no match.
pub uninterp spec fn regex_captures(pattern: Seq<char>, haystack: Seq<char>) -> Option<
    Seq<Option<Seq<char>>>,
>;

/// Searches `haystack` for `pattern`.
///
/// Trusted: `regex::Regex::new` fails exactly on the patterns for which
/// [`regex_compiles`] is false, and `regex::Regex::captures`, with the text
/// of each group copied out, is the result named by [`regex_captures`].
/// Both depend on their arguments alone. Nothing is claimed about which
/// texts match.
#[verifier::external_body]
fn capture_groups(pattern: &str, haystack: &str) -> (r: Result<
    Option<Vec<Option<String>>>,
    regex::Error,
>)
    ensures
        r is Ok <==> regex_compiles(pattern@),
        r matches Ok(found) ==> found.deep_view() == regex_captures(pattern@, haystack@),
{
    let compiled = regex::Regex::new(pattern)?;
    let found = compiled.captures(haystack);
    Ok(found.map(|groups| groups.iter().map(|m| m.map(|m| m.as_str().to_string())).collect()))
}

/// The jog command that captured groups stand for: there must be exactly
/// the whole match, an axis letter and a magnitude that is a decimal number.
pub open spec fn movement_of(groups: Seq<Option<Seq<char>>>) -> Option<MovementView> {
    if groups.len() == 3 && groups[1] is Some && groups[2] is Some {
        match (axis_of(groups[1]->0), magnitude_of(groups[2]->0)) {
            (Some(axis), Some(magnitude)) => Some(MovementView { axis, magnitude }),
            _ => None,
        }
    } else {
        None
    }
}

/// Turns the groups of a match into a jog command. A magnitude that is no
/// decimal number gives no command, as does an axis outside the three.
pub fn interpret_captures(groups: &Vec<Option<String>>) -> (r: Option<MovementCommand>)
    ensures
        match r {
            Some(command) => movement_of(groups.deep_view()) == Some(command@)
                && command@.magnitude.wf(),
            None => movement_of(groups.deep_view()) is None,
        },
{
    if groups.len() != 3 {
        return None;
    }
    match (&groups[1], &groups[2]) {
        (Some(axis_text), Some(magnitude_text)) => {
            match (parse_axis(axis_text.as_str()), parse_magnitude(magnitude_text.as_str())) {
                (Some(axis), Some(magnitude)) => Some(MovementCommand { axis, magnitude }),
                _ => None,
            }
        },
        _ => None,
    }
}

/// The jog command in `command`, as far as the search and the reading of
/// its groups give one.
pub open spec fn movement_in(command: Seq<char>) -> Option<MovementView> {
    if regex_compiles(MOVEMENT_PATTERN@) {
        match regex_captures(MOVEMENT_PATTERN@, command) {
            Some(groups) => movement_of(groups),
            None => None,
        }
    } else {
        None
    }
}

/// Looks for a jog command in `command`. Text that holds none is an
/// ordinary outcome and gives `None`.
pub fn match_command(command: &str) -> (r: Option<MovementCommand>)
    ensures
        match r {
            Some(found) => movement_in(command@) == Some(found@) && found@.magnitude.wf(),
            None => movement_in(command@) is None,
        },
{
    match capture_groups(MOVEMENT_PATTERN, command) {
        Ok(Some(groups)) => interpret_captures(&groups),
        _ => None,
    }
}

/// `line` without the label in front of it, if it has one.
pub open spec fn without_label(line: Seq<char>) -> Seq<char> {
    if LABEL@.is_prefix_of(line) {
        line.skip(LABEL@.len() as int)
    } else {
        line
    }
}

/// Removes the label from the front of `line`, if it has one.
pub fn strip_label(line: &str) -> (r: &str)
    ensures
        r@ == without_label(line@),
{
    match strip_prefix(line, LABEL) {
        Some(rest) => {
            assert(rest@ =~= line@.skip(LABEL@.len() as int));
            rest
        },
        None => line,
    }
}

/// Looks for a jog command in a line that may carry the label.
pub fn match_movement(line: &str) -> (r: Option<MovementCommand>)
    ensures
        match r {
            Some(found) => movement_in(without_label(line@)) == Some(found@)
                && found@.magnitude.wf(),
            None => movement_in(without_label(line@)) is None,
        },
{
    match_command(strip_label(line))
}

} // verus!
