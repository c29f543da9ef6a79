//! What is settled once, before the loop begins: the window's size, from an
//! override given as text or from the configuration, and the window's title.

use crate::resolution::ResolutionConfig;
use vstd::prelude::*;
use vstd::string::*;

verus! {

/// What a development build appends to the window's title.
pub const DEV_TITLE_SUFFIX: &'static str = " (Comfy Engine DEV BUILD)";

/// Whether `byte` is an ASCII decimal digit.
pub open spec fn is_digit(byte: u8) -> bool {
    0x30 <= byte <= 0x39
}

/// Whether every byte of `text` is a decimal digit.
pub open spec fn all_digits(text: Seq<u8>) -> bool {
    forall|i: int| 0 <= i < text.len() ==> is_digit(#[trigger] text[i])
}

/// The number that the decimal digits `digits` write, most significant digit
/// first. A byte that is no digit counts as zero.
pub open spec fn decimal_value(digits: Seq<u8>) -> nat
    decreases digits.len(),
{
    if digits.len() == 0 {
        0
    } else {
        let last: nat = if is_digit(digits.last()) {
            (digits.last() - 0x30) as nat
        } else {
            0
        };
        decimal_value(digits.drop_last()) * 10 + last
    }
}

/// `text` without its leading plus sign, if it has one.
pub open spec fn unsigned_part(text: Seq<u8>) -> Seq<u8> {
    if text.len() > 0 && text[0] == 0x2b {
        text.subrange(1, text.len() as int)
    } else {
        text
    }
}

/// The dimension that `text` writes, if it writes one: an optional plus sign,
/// then one or more decimal digits and nothing else, for a number that fits
/// in 32 bits.
pub open spec fn parsed_dimension(text: Seq<u8>) -> Option<u32> {
    let digits = unsigned_part(text);
    if digits.len() > 0 && all_digits(digits) && decimal_value(digits) <= u32::MAX {
        Some(decimal_value(digits) as u32)
    } else {
        None
    }
}

/// The dimension that an override writes, if the override is there and writes
/// one.
pub open spec fn override_dimension(text: Option<&str>) -> Option<u32> {
    match text {
        Some(t) => parsed_dimension(t.spec_bytes()),
        None => None,
    }
}

/// The size that startup settles on: the override, in physical pixels, where
/// both of its dimensions are there; the configured size otherwise.
pub open spec fn resolved_resolution(
    width: Option<u32>,
    height: Option<u32>,
    configured: ResolutionConfig,
) -> ResolutionConfig {
    match (width, height) {
        (Some(w), Some(h)) => ResolutionConfig::Physical(w, h),
        _ => configured,
    }
}

/// The title of the window: the name, with the development suffix where
/// `dev` is set.
pub open spec fn titled(name: Seq<char>, dev: bool) -> Seq<char> {
    if dev {
        name + DEV_TITLE_SUFFIX@
    } else {
        name
    }
}

/// A number is at least the number that any beginning of its digits writes.
proof fn lemma_value_monotone(digits: Seq<u8>, k: int)
    requires
        0 <= k <= digits.len(),
    ensures
        decimal_value(digits.subrange(0, k)) <= decimal_value(digits),
    decreases digits.len(),
{
    if k == digits.len() {
        assert(digits.subrange(0, k) =~= digits);
    } else {
        lemma_value_monotone(digits.drop_last(), k);
        assert(digits.drop_last().subrange(0, k) =~= digits.subrange(0, k));
    }
}

/// Reads a dimension from `text`. The answer is `None` where `text` is empty,
/// holds anything but digits after an optional plus sign, or writes a number
/// that does not fit in 32 bits.
pub fn parse_dimension(text: &str) -> (r: Option<u32>)
    ensures
        r == parsed_dimension(text.spec_bytes()),
{
    let bytes = text.as_bytes();
    let n: usize = bytes.len();
    let start: usize = if n > 0 && bytes[0] == 0x2b {
        1
    } else {
        0
    };
    if start == n {
        return None;
    }
    let ghost digits = unsigned_part(bytes@);
    let mut acc: u32 = 0;
    let mut i: usize = start;
    while i < n
        invariant
            start <= i <= n,
            n == bytes@.len(),
            digits == bytes@.subrange(start as int, n as int),
            digits == unsigned_part(text.spec_bytes()),
            all_digits(digits.subrange(0, i - start)),
            acc == decimal_value(digits.subrange(0, i - start)),
        decreases n - i,
    {
        let b: u8 = bytes[i];
        if b < 0x30 || b > 0x39 {
            assert(!is_digit(digits[i - start]));
            return None;
        }
        let d: u32 = (b - 0x30) as u32;
        proof {
            assert(digits.subrange(0, i + 1 - start).drop_last() =~= digits.subrange(
                0,
                i - start,
            ));
            assert(digits.subrange(0, i + 1 - start).last() == b);
            lemma_value_monotone(digits, i + 1 - start);
        }
        if acc > (u32::MAX - d) / 10 {
            return None;
        }
        acc = acc * 10 + d;
        i += 1;
    }
    proof {
        assert(digits.subrange(0, n - start) =~= digits);
    }
    Some(acc)
}

/// Settles the window's size from the two dimensions of the override, each a
/// text that may be missing, and from the configured size.
pub fn resolve_resolution(
    width: Option<&str>,
    height: Option<&str>,
    configured: ResolutionConfig,
) -> (r: ResolutionConfig)
    ensures
        r == resolved_resolution(
            override_dimension(width),
            override_dimension(height),
            configured,
        ),
{
    let w: Option<u32> = match width {
        Some(t) => parse_dimension(t),
        None => None,
    };
    let h: Option<u32> = match height {
        Some(t) => parse_dimension(t),
        None => None,
    };
    match (w, h) {
        (Some(w), Some(h)) => ResolutionConfig::Physical(w, h),
        _ => configured,
    }
}

/// Makes the window's title from the name of the game.
pub fn window_title(game_name: &str, dev: bool) -> (title: String)
    ensures
        title@ == titled(game_name@, dev),
{
    let mut title = String::from_str(game_name);
    if dev {
        title.append(DEV_TITLE_SUFFIX);
    }
    title
}

} // verus!
