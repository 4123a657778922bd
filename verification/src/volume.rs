//! The volume field, parsed from what the mixer query printed.
//!
//! The query prints the right channel's volume as a decimal number on a line
//! of its own. What is accepted is that number with any white space around
//! it: an optional `+`, then decimal digits whose value fits in 16 bits.
//! White space is what Unicode calls White_Space, in UTF-8.

use vstd::prelude::*;
use crate::warning::Warning;

verus! {

/// The shell pipeline that asks the mixer for the right channel's volume
/// and strips the brackets and the percent sign from its answer.
pub const MIXER_QUERY: &'static str =
    "amixer sget Master | grep 'Right:' | awk -F'[][]' '{ print $2 }' | sed 's/%//'";

/// The volume and, where it is a placeholder, the reason.
#[derive(Clone, Copy, Debug)]
pub struct VolumeReading {
    pub percent: u16,
    pub warning: Option<Warning>,
}

/// A white-space character of one byte.
pub open spec fn space1(a: u8) -> bool {
    0x09 <= a <= 0x0D || a == 0x20
}

/// A white-space character of two bytes: U+0085 or U+00A0.
pub open spec fn space2(a: u8, b: u8) -> bool {
    a == 0xC2 && (b == 0x85 || b == 0xA0)
}

/// A white-space character of three bytes: U+1680, U+2000 to U+200A,
/// U+2028, U+2029, U+202F, U+205F or U+3000.
pub open spec fn space3(a: u8, b: u8, c: u8) -> bool {
    ||| a == 0xE1 && b == 0x9A && c == 0x80
    ||| a == 0xE2 && b == 0x80 && (0x80 <= c <= 0x8A || c == 0xA8 || c == 0xA9 || c == 0xAF)
    ||| a == 0xE2 && b == 0x81 && c == 0x9F
    ||| a == 0xE3 && b == 0x80 && c == 0x80
}

/// The width in bytes of the white-space character that starts at `i`, or 0
/// where none starts.
pub open spec fn space_from(s: Seq<u8>, i: int) -> int {
    if 0 <= i && i < s.len() && space1(s[i]) {
        1
    } else if 0 <= i && i + 1 < s.len() && space2(s[i], s[i + 1]) {
        2
    } else if 0 <= i && i + 2 < s.len() && space3(s[i], s[i + 1], s[i + 2]) {
        3
    } else {
        0
    }
}

/// The width in bytes of the white-space character that ends just before
/// `j`, or 0 where none ends.
pub open spec fn space_until(s: Seq<u8>, j: int) -> int {
    if 1 <= j && j <= s.len() && space1(s[j - 1]) {
        1
    } else if 2 <= j && j <= s.len() && space2(s[j - 2], s[j - 1]) {
        2
    } else if 3 <= j && j <= s.len() && space3(s[j - 3], s[j - 2], s[j - 1]) {
        3
    } else {
        0
    }
}

/// Where the text begins once the white space from `i` on is passed over.
pub open spec fn text_start(s: Seq<u8>, i: int) -> int
    decreases s.len() - i,
{
    if space_from(s, i) > 0 {
        text_start(s, i + space_from(s, i))
    } else {
        i
    }
}

/// Where the text ends once the white space that ends at `j` is cut off.
pub open spec fn text_end(s: Seq<u8>, j: int) -> int
    decreases j,
{
    if space_until(s, j) > 0 {
        text_end(s, j - space_until(s, j))
    } else {
        j
    }
}

/// A decimal digit in ASCII.
pub open spec fn is_digit(a: u8) -> bool {
    0x30 <= a <= 0x39
}

/// True when every byte from `lo` up to `hi` is a decimal digit.
pub open spec fn digits_only(s: Seq<u8>, lo: int, hi: int) -> bool {
    forall|k: int| lo <= k < hi ==> is_digit(#[trigger] s[k])
}

/// The number that the digits from `lo` up to `hi` write.
pub open spec fn digits_value(s: Seq<u8>, lo: int, hi: int) -> nat
    decreases hi - lo,
{
    if hi <= lo {
        0
    } else {
        digits_value(s, lo, hi - 1) * 10 + (s[hi - 1] - 0x30) as nat
    }
}

/// The volume that the mixer's output states, if it states one.
pub open spec fn mixer_volume(s: Seq<u8>) -> Option<u16> {
    let start: int = text_start(s, 0);
    let end: int = text_end(s, s.len() as int);
    let first: int = if start < end && s[start] == 0x2B {
        start + 1
    } else {
        start
    };
    if first < end && digits_only(s, first, end) && digits_value(s, first, end) <= u16::MAX {
        Some(digits_value(s, first, end) as u16)
    } else {
        None
    }
}

/// More digits never write a smaller number.
pub proof fn lemma_digits_value_grows(s: Seq<u8>, lo: int, mid: int, hi: int)
    requires
        lo <= mid <= hi,
        digits_only(s, lo, hi),
    ensures
        digits_value(s, lo, mid) <= digits_value(s, lo, hi),
    decreases hi - mid,
{
    if mid < hi {
        lemma_digits_value_grows(s, lo, mid, hi - 1);
        assert(is_digit(s[hi - 1]));
    }
}

fn leading_space(output: &[u8]) -> (start: usize)
    ensures
        start == text_start(output@, 0),
        start <= output.len(),
{
    let n: usize = output.len();
    let mut i: usize = 0;
    loop
        invariant
            n == output.len(),
            i <= n,
            text_start(output@, 0) == text_start(output@, i as int),
        decreases n - i,
    {
        if i < n && is_space1(output[i]) {
            i += 1;
        } else if i < n && n - i >= 2 && is_space2(output[i], output[i + 1]) {
            i += 2;
        } else if i < n && n - i >= 3 && is_space3(output[i], output[i + 1], output[i + 2]) {
            i += 3;
        } else {
            return i;
        }
    }
}

fn trailing_space(output: &[u8]) -> (end: usize)
    ensures
        end == text_end(output@, output.len() as int),
        end <= output.len(),
{
    let n: usize = output.len();
    let mut j: usize = n;
    loop
        invariant
            n == output.len(),
            j <= n,
            text_end(output@, n as int) == text_end(output@, j as int),
        decreases j,
    {
        if j >= 1 && is_space1(output[j - 1]) {
            j -= 1;
        } else if j >= 2 && is_space2(output[j - 2], output[j - 1]) {
            j -= 2;
        } else if j >= 3 && is_space3(output[j - 3], output[j - 2], output[j - 1]) {
            j -= 3;
        } else {
            return j;
        }
    }
}

fn is_space1(a: u8) -> (yes: bool)
    ensures
        yes == space1(a),
{
    (0x09 <= a && a <= 0x0D) || a == 0x20
}

fn is_space2(a: u8, b: u8) -> (yes: bool)
    ensures
        yes == space2(a, b),
{
    a == 0xC2 && (b == 0x85 || b == 0xA0)
}

fn is_space3(a: u8, b: u8, c: u8) -> (yes: bool)
    ensures
        yes == space3(a, b, c),
{
    (a == 0xE1 && b == 0x9A && c == 0x80) || (a == 0xE2 && b == 0x80 && ((0x80 <= c && c <= 0x8A)
        || c == 0xA8 || c == 0xA9 || c == 0xAF)) || (a == 0xE2 && b == 0x81 && c == 0x9F) || (a
        == 0xE3 && b == 0x80 && c == 0x80)
}

/// Reads the volume out of what the mixer query printed.
///
/// Gives the number exactly when the output is white space, an optional
/// `+`, one or more decimal digits of a value up to 65535, and white space
/// again; gives `None` for every other output.
pub fn parse_volume(output: &[u8]) -> (volume: Option<u16>)
    ensures
        volume == mixer_volume(output@),
{
    let start: usize = leading_space(output);
    let end: usize = trailing_space(output);
    let first: usize = if start < end && output[start] == 0x2B {
        start + 1
    } else {
        start
    };
    if first >= end {
        return None;
    }
    let mut value: u32 = 0;
    let mut i: usize = first;
    while i < end
        invariant
            first <= i <= end <= output.len(),
            first < end,
            mixer_volume(output@) == if digits_only(output@, first as int, end as int)
                && digits_value(output@, first as int, end as int) <= u16::MAX {
                Some(digits_value(output@, first as int, end as int) as u16)
            } else {
                None
            },
            digits_only(output@, first as int, i as int),
            value == digits_value(output@, first as int, i as int),
            value <= u16::MAX,
        decreases end - i,
    {
        let byte: u8 = output[i];
        if byte < 0x30 || byte > 0x39 {
            return None;
        }
        value = value * 10 + (byte - 0x30) as u32;
        i += 1;
        if value > 0xFFFF {
            proof {
                if digits_only(output@, first as int, end as int) {
                    lemma_digits_value_grows(output@, first as int, i as int, end as int);
                }
            }
            return None;
        }
    }
    Some(value as u16)
}

/// The volume field, from the output of the mixer query.
///
/// `None` stands for a query that could not be run. Then, and when the
/// output states no volume, the field is 0 and a warning says why.
pub fn volume_field(output: Option<&[u8]>) -> (reading: VolumeReading)
    ensures
        reading.percent == match output {
            Some(bytes) => match mixer_volume(bytes@) {
                Some(volume) => volume,
                None => 0,
            },
            None => 0,
        },
        reading.warning == match output {
            Some(bytes) => if mixer_volume(bytes@) is None {
                Some(Warning::VolumeUnreadable)
            } else {
                None
            },
            None => Some(Warning::MixerMissing),
        },
{
    match output {
        Some(bytes) => match parse_volume(bytes) {
            Some(volume) => VolumeReading { percent: volume, warning: None },
            None => VolumeReading { percent: 0, warning: Some(Warning::VolumeUnreadable) },
        },
        None => VolumeReading { percent: 0, warning: Some(Warning::MixerMissing) },
    }
}

} // verus!
