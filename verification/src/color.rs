//! Colors as the display reads them: hexadecimal digits in ASCII.
//!
//! A color reaches this crate as text in HTML notation, with or without the
//! leading `#`, or as a number drawn at random and spelled out here. On the
//! wire a color never carries the `#`.

use vstd::prelude::*;

verus! {

/// ASCII `#`, the mark that HTML notation puts in front of a color.
pub const HASH: u8 = 0x23;

/// ASCII `0`.
pub const DIGIT_ZERO: u8 = 0x30;

/// ASCII `A`.
pub const UPPER_A: u8 = 0x41;

/// ASCII `a`.
pub const LOWER_A: u8 = 0x61;

/// The largest number that names a color: one byte each of red, green and blue.
pub const COLOR_MAX: u32 = 0xFF_FFFF;

/// The number of hexadecimal digits in a full color.
pub const COLOR_DIGITS: usize = 6;

/// The color text `color` without its leading `#`, if it has one.
///
/// Only one `#` is taken off, and nothing else about the text is looked at:
/// a color of the wrong length or with other characters passes unchanged.
pub open spec fn without_hash(color: Seq<u8>) -> Seq<u8> {
    if color.len() > 0 && color[0] == HASH {
        color.subrange(1, color.len() as int)
    } else {
        color
    }
}

/// Takes the leading `#` off a color text.
pub fn strip_hash(color: &[u8]) -> (bare: &[u8])
    ensures
        bare@ == without_hash(color@),
{
    if color.len() > 0 && color[0] == HASH {
        vstd::slice::slice_subrange(color, 1, color.len())
    } else {
        color
    }
}

/// The ASCII digit for `value`, upper case from ten on.
pub open spec fn hex_digit(value: nat) -> u8
    recommends
        value < 16,
{
    if value < 10 {
        (DIGIT_ZERO + value) as u8
    } else {
        (UPPER_A + value - 10) as u8
    }
}

/// `number` in upper-case hexadecimal with no leading zeros: one digit for
/// anything below sixteen, zero included.
pub open spec fn hex_text(number: nat) -> Seq<u8>
    decreases number,
{
    if number < 16 {
        seq![hex_digit(number)]
    } else {
        hex_text(number / 16).push(hex_digit(number % 16))
    }
}

/// The color `number` in HTML notation: `#`, then `number` in upper-case
/// hexadecimal. The digits are not padded, so a number below `0x100000` gives
/// fewer than six of them.
pub open spec fn color_text(number: nat) -> Seq<u8> {
    seq![HASH] + hex_text(number)
}

/// The ASCII digit for a value below sixteen.
fn digit_of(value: u32) -> (digit: u8)
    requires
        value < 16,
    ensures
        digit == hex_digit(value as nat),
{
    if value < 10 {
        DIGIT_ZERO + value as u8
    } else {
        UPPER_A + (value - 10) as u8
    }
}

/// Appends `number` in upper-case hexadecimal to `text`.
fn push_hex(text: &mut Vec<u8>, number: u32)
    ensures
        final(text)@ == old(text)@ + hex_text(number as nat),
    decreases number,
{
    if number >= 16 {
        push_hex(text, number / 16);
    }
    text.push(digit_of(number % 16));
}

/// Spells the color `number` in HTML notation, as [`color_text`] defines it.
pub fn format_color(number: u32) -> (text: Vec<u8>)
    ensures
        text@ == color_text(number as nat),
{
    let mut text: Vec<u8> = Vec::new();
    text.push(HASH);
    push_hex(&mut text, number);
    text
}

/// Draws a number between `least` and `most`, both included.
///
/// Trusted: the body asks `rand::thread_rng()` for the generator of the
/// thread and calls `rand::Rng::gen_range` on it with the closed range
/// `least..=most`. `gen_range` panics on an empty range, which `requires`
/// rules out, and samples within the range that it is given. Which number
/// comes out is up to the generator, and the contract says nothing of it.
/// The generator itself panics if the operating system has no entropy to seed
/// it with.
#[verifier::external_body]
fn draw_between(least: u32, most: u32) -> (number: u32)
    requires
        least <= most,
    ensures
        least <= number <= most,
{
    rand::Rng::gen_range(&mut rand::thread_rng(), least..=most)
}

/// Draws the number of a color at random: anything from black, zero, to
/// white, [`COLOR_MAX`], may come out.
pub fn random_color_number() -> (number: u32)
    ensures
        number <= COLOR_MAX,
{
    draw_between(0, COLOR_MAX)
}

/// Spells a color drawn at random: the text of some number up to
/// [`COLOR_MAX`]. [`format_color`] says what the text is for each number.
pub fn random_color() -> (text: Vec<u8>)
    ensures
        exists|number: nat| number <= COLOR_MAX && text@ == #[trigger] color_text(number),
{
    let number: u32 = random_color_number();
    format_color(number)
}

/// Whether `byte` is an ASCII hexadecimal digit, of either case.
pub open spec fn is_hex_digit(byte: u8) -> bool {
    ||| DIGIT_ZERO <= byte < DIGIT_ZERO + 10
    ||| UPPER_A <= byte < UPPER_A + 6
    ||| LOWER_A <= byte < LOWER_A + 6
}

/// Whether `color` is a full color without its `#`: six hexadecimal digits.
pub open spec fn is_bare_color(color: Seq<u8>) -> bool {
    &&& color.len() == COLOR_DIGITS
    &&& forall|i: int| 0 <= i < color.len() ==> is_hex_digit(#[trigger] color[i])
}

/// What the hexadecimal digit `byte` counts for; zero for any other byte.
pub open spec fn hex_digit_value(byte: u8) -> nat {
    if DIGIT_ZERO <= byte < DIGIT_ZERO + 10 {
        (byte - DIGIT_ZERO) as nat
    } else if UPPER_A <= byte < UPPER_A + 6 {
        (byte - UPPER_A + 10) as nat
    } else if LOWER_A <= byte < LOWER_A + 6 {
        (byte - LOWER_A + 10) as nat
    } else {
        0
    }
}

/// The number that the hexadecimal digits `text` spell, most significant
/// digit first.
pub open spec fn hex_value(text: Seq<u8>) -> nat
    decreases text.len(),
{
    if text.len() == 0 {
        0
    } else {
        hex_value(text.drop_last()) * 16 + hex_digit_value(text.last())
    }
}

/// `text` with as many `0` digits in front as it takes to reach `width`;
/// `text` itself where it is that long already.
pub open spec fn zero_padded(text: Seq<u8>, width: nat) -> Seq<u8> {
    if text.len() >= width {
        text
    } else {
        Seq::new((width - text.len()) as nat, |i: int| DIGIT_ZERO) + text
    }
}

/// Sixteen to the power of `digits`.
pub open spec fn sixteen_to(digits: nat) -> nat
    decreases digits,
{
    if digits == 0 {
        1
    } else {
        16 * sixteen_to((digits - 1) as nat)
    }
}

/// The digits that [`hex_text`] writes are hexadecimal digits, and read as a
/// number they give back the number that was written.
pub proof fn lemma_hex_text_reads_back(number: nat)
    ensures
        hex_text(number).len() >= 1,
        forall|i: int| 0 <= i < hex_text(number).len() ==> is_hex_digit(#[trigger] hex_text(number)[i]),
        hex_value(hex_text(number)) == number,
    decreases number,
{
    let digit = hex_digit(number % 16);
    assert(is_hex_digit(digit) && hex_digit_value(digit) == number % 16);
    if number < 16 {
        assert(hex_text(number).drop_last() =~= Seq::<u8>::empty());
        assert(hex_value(Seq::<u8>::empty()) == 0);
    } else {
        lemma_hex_text_reads_back(number / 16);
        assert(hex_text(number).drop_last() =~= hex_text(number / 16));
    }
}

/// A number below sixteen to the power of `digits` takes at most `digits`
/// hexadecimal digits.
pub proof fn lemma_hex_text_len(number: nat, digits: nat)
    requires
        digits >= 1,
        number < sixteen_to(digits),
    ensures
        hex_text(number).len() <= digits,
    decreases number,
{
    if number >= 16 {
        assert(sixteen_to(1) == 16) by {
            reveal_with_fuel(sixteen_to, 2);
        }
        lemma_hex_text_len(number / 16, (digits - 1) as nat);
    }
}

/// Zeros in front of hexadecimal digits do not change the number they spell.
pub proof fn lemma_leading_zeros_count_nothing(zeros: nat, text: Seq<u8>)
    ensures
        hex_value(Seq::new(zeros, |i: int| DIGIT_ZERO) + text) == hex_value(text),
    decreases text.len(), zeros,
{
    let front = Seq::new(zeros, |i: int| DIGIT_ZERO);
    if text.len() > 0 {
        lemma_leading_zeros_count_nothing(zeros, text.drop_last());
        assert((front + text).drop_last() =~= front + text.drop_last());
    } else if zeros > 0 {
        let fewer = Seq::new((zeros - 1) as nat, |i: int| DIGIT_ZERO);
        lemma_leading_zeros_count_nothing((zeros - 1) as nat, text);
        assert((front + text).drop_last() =~= fewer + text);
    } else {
        assert(front + text =~= text);
    }
}

/// Every color number survives being written and read again: the digits of
/// its text, padded with zeros to the six of a full color, are a full color
/// and spell the number that was written.
pub proof fn lemma_padded_color_reads_back(number: nat)
    requires
        number <= COLOR_MAX,
    ensures
        without_hash(color_text(number)) == hex_text(number),
        is_bare_color(zero_padded(hex_text(number), COLOR_DIGITS as nat)),
        hex_value(zero_padded(hex_text(number), COLOR_DIGITS as nat)) == number,
{
    let digits = hex_text(number);
    assert(without_hash(color_text(number)) =~= digits);
    lemma_hex_text_reads_back(number);
    assert(sixteen_to(6) == 0x100_0000) by {
        reveal_with_fuel(sixteen_to, 7);
    }
    lemma_hex_text_len(number, 6);
    if digits.len() < 6 {
        lemma_leading_zeros_count_nothing((6 - digits.len()) as nat, digits);
    }
}

} // verus!
