//! Signed decimal numbers, read exactly.
//!
//! The magnitude of a jog is kept as the digits it was written with, so its
//! sign can be decided without rounding: a number is positive exactly when
//! it has no minus sign and one of its digits is not zero.

use crate::text::chars_of;
use vstd::prelude::*;

verus! {

/// A signed decimal number, kept digit by digit so that no precision is lost:
/// the digits before the point, most significant first, and those after it.
#[derive(Clone, Debug, PartialEq, Eq)]
pub struct Magnitude {
    pub negative: bool,
    pub whole: Vec<u8>,
    pub fraction: Vec<u8>,
}

/// The mathematical content of a [`Magnitude`].
pub struct MagnitudeView {
    pub negative: bool,
    pub whole: Seq<u8>,
    pub fraction: Seq<u8>,
}

/// The number that the decimal digits `digits` write, most significant first.
pub open spec fn digits_value(digits: Seq<u8>) -> nat
    decreases digits.len(),
{
    if digits.len() == 0 {
        0
    } else {
        digits_value(digits.drop_last()) * 10 + digits.last() as nat
    }
}

/// Whether some digit of `digits` is not zero.
pub open spec fn has_nonzero(digits: Seq<u8>) -> bool {
    exists|i: int| 0 <= i < digits.len() && digits[i] != 0
}

impl MagnitudeView {
    /// Every digit is a decimal digit, and there is at least one before the
    /// point.
    pub open spec fn wf(self) -> bool {
        &&& self.whole.len() > 0
        &&& forall|i: int| 0 <= i < self.whole.len() ==> self.whole[i] <= 9
        &&& forall|i: int| 0 <= i < self.fraction.len() ==> self.fraction[i] <= 9
    }

    /// The number, multiplied by ten to the count of its fraction digits so
    /// that it is an integer.
    pub open spec fn scaled(self) -> int {
        if self.negative {
            -(digits_value(self.whole + self.fraction) as int)
        } else {
            digits_value(self.whole + self.fraction) as int
        }
    }

    /// Whether the number is greater than zero. Zero, with either sign, is
    /// not.
    pub open spec fn is_positive(self) -> bool {
        self.scaled() > 0
    }
}

impl View for Magnitude {
    type V = MagnitudeView;

    open spec fn view(&self) -> MagnitudeView {
        MagnitudeView { negative: self.negative, whole: self.whole@, fraction: self.fraction@ }
    }
}

/// Digits write a positive number exactly when one of them is not zero.
pub proof fn lemma_digits_value_positive(digits: Seq<u8>)
    ensures
        digits_value(digits) > 0 <==> has_nonzero(digits),
    decreases digits.len(),
{
    if digits.len() > 0 {
        let front = digits.drop_last();
        lemma_digits_value_positive(front);
        if has_nonzero(front) {
            let i = choose|i: int| 0 <= i < front.len() && front[i] != 0;
            assert(digits[i] != 0);
        }
        if has_nonzero(digits) {
            let i = choose|i: int| 0 <= i < digits.len() && digits[i] != 0;
            if i < front.len() {
                assert(front[i] != 0);
            }
        }
        if digits.last() != 0 {
            assert(digits[digits.len() - 1] != 0);
        }
    }
}

/// Whether some digit of `digits` is not zero.
fn any_nonzero(digits: &Vec<u8>) -> (r: bool)
    ensures
        r == has_nonzero(digits@),
{
    let mut i: usize = 0;
    while i < digits.len()
        invariant
            i <= digits.len(),
            forall|j: int| 0 <= j < i ==> digits[j] == 0,
        decreases digits.len() - i,
    {
        if digits[i] != 0 {
            return true;
        }
        i += 1;
    }
    false
}

impl Magnitude {
    /// Whether the number is greater than zero.
    pub fn is_positive(&self) -> (r: bool)
        ensures
            r == self@.is_positive(),
    {
        proof {
            let all = self.whole@ + self.fraction@;
            lemma_digits_value_positive(all);
            if has_nonzero(self.whole@) {
                let i = choose|i: int| 0 <= i < self.whole@.len() && self.whole@[i] != 0;
                assert(all[i] != 0);
            }
            if has_nonzero(self.fraction@) {
                let i = choose|i: int| 0 <= i < self.fraction@.len() && self.fraction@[i] != 0;
                assert(all[self.whole@.len() + i] != 0);
            }
            if has_nonzero(all) {
                let i = choose|i: int| 0 <= i < all.len() && all[i] != 0;
                if i < self.whole@.len() {
                    assert(self.whole@[i] != 0);
                } else {
                    assert(self.fraction@[i - self.whole@.len()] != 0);
                }
            }
        }
        !self.negative && (any_nonzero(&self.whole) || any_nonzero(&self.fraction))
    }
}

/// The value of a decimal digit character; other characters, among them the
/// digits of other scripts, have none.
pub open spec fn digit_of(c: char) -> Option<u8> {
    match c {
        '0' => Some(0u8),
        '1' => Some(1u8),
        '2' => Some(2u8),
        '3' => Some(3u8),
        '4' => Some(4u8),
        '5' => Some(5u8),
        '6' => Some(6u8),
        '7' => Some(7u8),
        '8' => Some(8u8),
        '9' => Some(9u8),
        _ => None,
    }
}

/// The values of the characters of `text`, where every one is a decimal
/// digit.
pub open spec fn digits_of(text: Seq<char>) -> Option<Seq<u8>> {
    if forall|i: int| 0 <= i < text.len() ==> digit_of(#[trigger] text[i]) is Some {
        Some(text.map_values(|c: char| digit_of(c)->0))
    } else {
        None
    }
}

/// How many characters of `text` stand before its first point: all of them
/// where it has none.
pub open spec fn point_index(text: Seq<char>) -> int
    decreases text.len(),
{
    if text.len() == 0 || text[0] == '.' {
        0
    } else {
        1 + point_index(text.skip(1))
    }
}

/// The number that `text` writes, where `text` is an optional `-`, one or
/// more decimal digits and, optionally, a point followed by any number of
/// decimal digits; `None` for every other text.
pub open spec fn magnitude_of(text: Seq<char>) -> Option<MagnitudeView> {
    let negative = text.len() > 0 && text[0] == '-';
    let body = if negative {
        text.skip(1)
    } else {
        text
    };
    let split = point_index(body);
    let fraction = if split < body.len() {
        body.skip(split + 1)
    } else {
        Seq::empty()
    };
    match (digits_of(body.take(split)), digits_of(fraction)) {
        (Some(whole), Some(fraction)) => if whole.len() > 0 {
            Some(MagnitudeView { negative, whole, fraction })
        } else {
            None
        },
        _ => None,
    }
}

/// The value of a decimal digit character.
fn digit_value(c: char) -> (r: Option<u8>)
    ensures
        r == digit_of(c),
{
    match c {
        '0' => Some(0u8),
        '1' => Some(1u8),
        '2' => Some(2u8),
        '3' => Some(3u8),
        '4' => Some(4u8),
        '5' => Some(5u8),
        '6' => Some(6u8),
        '7' => Some(7u8),
        '8' => Some(8u8),
        '9' => Some(9u8),
        _ => None,
    }
}

/// The digit values of `chars[from..to]`, where all of them are digits.
fn digits_between(chars: &Vec<char>, from: usize, to: usize) -> (r: Option<Vec<u8>>)
    requires
        from <= to <= chars.len(),
    ensures
        r.deep_view() == digits_of(chars@.subrange(from as int, to as int)),
        r matches Some(digits) ==> forall|i: int| 0 <= i < digits.len() ==> digits[i] <= 9,
{
    let ghost part = chars@.subrange(from as int, to as int);
    let mut digits: Vec<u8> = Vec::new();
    let mut i: usize = from;
    while i < to
        invariant
            from <= i <= to <= chars.len(),
            part == chars@.subrange(from as int, to as int),
            digits.len() == i - from,
            forall|j: int|
                0 <= j < digits.len() ==> digit_of(#[trigger] part[j]) == Some(digits[j]),
        decreases to - i,
    {
        match digit_value(chars[i]) {
            Some(d) => {
                digits.push(d);
            },
            None => {
                assert(digit_of(part[i - from]) is None);
                return None;
            },
        }
        i += 1;
    }
    assert(digits@ =~= part.map_values(|c: char| digit_of(c)->0));
    Some(digits)
}

/// The position of the first point of `chars` at or after `from`, or the
/// length of `chars`.
fn find_point(chars: &Vec<char>, from: usize) -> (r: usize)
    requires
        from <= chars.len(),
    ensures
        from <= r <= chars.len(),
        r - from == point_index(chars@.skip(from as int)),
{
    let mut i: usize = from;
    while i < chars.len() && chars[i] != '.'
        invariant
            from <= i <= chars.len(),
            point_index(chars@.skip(from as int)) == (i - from) + point_index(
                chars@.skip(i as int),
            ),
        decreases chars.len() - i,
    {
        assert(chars@.skip(i as int).skip(1) =~= chars@.skip(i + 1));
        i += 1;
    }
    i
}

/// Reads a signed decimal number: an optional `-`, digits, and optionally a
/// point with further digits. Anything else is no number.
pub fn parse_magnitude(text: &str) -> (r: Option<Magnitude>)
    ensures
        match r {
            Some(m) => magnitude_of(text@) == Some(m@) && m@.wf(),
            None => magnitude_of(text@) is None,
        },
{
    let chars = chars_of(text);
    let negative = chars.len() > 0 && chars[0] == '-';
    let start: usize = if negative {
        1
    } else {
        0
    };
    let split = find_point(&chars, start);
    let ghost body = chars@.skip(start as int);
    assert(!negative ==> body =~= text@);
    assert(body.take(split - start) =~= chars@.subrange(start as int, split as int));
    let whole = digits_between(&chars, start, split);
    let fraction = if split < chars.len() {
        assert(body.skip(split - start + 1) =~= chars@.subrange(split + 1, chars.len() as int));
        digits_between(&chars, split + 1, chars.len())
    } else {
        Some(Vec::new())
    };
    let ghost fraction_text = if split < chars.len() {
        body.skip(split - start + 1)
    } else {
        Seq::empty()
    };
    match (whole, fraction) {
        (Some(whole), Some(fraction)) => {
            assert(digits_of(body.take(split - start)) == Some(whole@));
            assert(digits_of(fraction_text) == Some(fraction@));
            if whole.len() > 0 {
                Some(Magnitude { negative, whole, fraction })
            } else {
                None
            }
        },
        _ => None,
    }
}

} // verus!
