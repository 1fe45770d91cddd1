//! Task identifiers: a random 128-bit number written as 32 hexadecimal digits.

use vstd::prelude::*;
use vstd::string::StrSliceExecFns;
use vstd::utf8::is_ascii_chars;

verus! {

/// Number of hexadecimal digits in an identifier.
pub const ID_DIGITS: u32 = 32;

/// The sixteen hexadecimal digits, in order of their value.
pub open spec fn hex_digits() -> Seq<char> {
    "0123456789abcdef"@
}

/// The lower-case hexadecimal digit for a value below 16.
pub open spec fn hex_digit(value: nat) -> char {
    hex_digits()[value as int]
}

/// The last `width` base-16 digits of `value`, most significant first.
pub open spec fn hex_text(value: nat, width: nat) -> Seq<char>
    decreases width,
{
    if width == 0 {
        Seq::empty()
    } else {
        hex_text(value / 16, (width - 1) as nat).push(hex_digit(value % 16))
    }
}

/// The identifier that stands for the 128-bit number `bits`.
pub open spec fn id_text(bits: u128) -> Seq<char> {
    hex_text(bits as nat, ID_DIGITS as nat)
}

/// 16 to the power `width`.
pub open spec fn pow16(width: nat) -> nat
    decreases width,
{
    if width == 0 {
        1
    } else {
        16 * pow16((width - 1) as nat)
    }
}

/// `hex_text` writes exactly `width` digits.
pub proof fn lemma_hex_text_len(value: nat, width: nat)
    ensures
        hex_text(value, width).len() == width,
    decreases width,
{
    if width > 0 {
        lemma_hex_text_len(value / 16, (width - 1) as nat);
    }
}

/// Two numbers below `16^width` with the same `width` digits are the same number.
pub proof fn lemma_hex_text_injective(a: nat, b: nat, width: nat)
    requires
        a < pow16(width),
        b < pow16(width),
        hex_text(a, width) == hex_text(b, width),
    ensures
        a == b,
    decreases width,
{
    if width > 0 {
        let shorter = (width - 1) as nat;
        assert(hex_text(a / 16, shorter) == hex_text(a, width).drop_last());
        assert(hex_text(b / 16, shorter) == hex_text(b, width).drop_last());
        assert(hex_digit(a % 16) == hex_text(a, width).last());
        assert(hex_digit(b % 16) == hex_text(b, width).last());
        lemma_hex_text_injective(a / 16, b / 16, shorter);
        lemma_hex_digits();
    }
}

/// An identifier is never empty: it has exactly `ID_DIGITS` characters.
pub proof fn lemma_id_text_len(bits: u128)
    ensures
        id_text(bits).len() == ID_DIGITS,
{
    lemma_hex_text_len(bits as nat, ID_DIGITS as nat);
}

/// Distinct numbers have distinct identifiers.
pub proof fn lemma_id_text_injective(a: u128, b: u128)
    requires
        id_text(a) == id_text(b),
    ensures
        a == b,
{
    assert(pow16(32) == 0x1_0000_0000_0000_0000_0000_0000_0000_0000) by {
        reveal_with_fuel(pow16, 33);
    }
    lemma_hex_text_injective(a as nat, b as nat, ID_DIGITS as nat);
}

/// The sixteen digits are ASCII characters, each different from the others.
proof fn lemma_hex_digits()
    ensures
        hex_digits().len() == 16,
        is_ascii_chars(hex_digits()),
        forall|a: nat, b: nat| a < 16 && b < 16 && hex_digit(a) == hex_digit(b) ==> a == b,
{
    reveal_strlit("0123456789abcdef");
}

/// The one-character text of the hexadecimal digit for `value`.
fn digit_str(value: u8) -> (text: &'static str)
    requires
        value < 16,
    ensures
        text@ == seq![hex_digit(value as nat)],
{
    proof {
        lemma_hex_digits();
    }
    let at: usize = value as usize;
    let text = "0123456789abcdef".substring_ascii(at, at + 1);
    assert(text@ =~= seq![hex_digit(value as nat)]);
    text
}

/// Appends the last `width` base-16 digits of `value` to `out`.
fn push_hex(out: &mut String, value: u128, width: u32)
    ensures
        final(out)@ == old(out)@ + hex_text(value as nat, width as nat),
    decreases width,
{
    if width > 0 {
        push_hex(out, value / 16, width - 1);
        let low: u8 = (value % 16) as u8;
        out.append(digit_str(low));
        assert(final(out)@ =~= old(out)@ + hex_text(value as nat, width as nat));
    } else {
        assert(out@ =~= old(out)@ + hex_text(value as nat, 0));
    }
}

/// Writes `bits` as an identifier: 32 lower-case hexadecimal digits, most
/// significant first, with leading zeros kept.
pub fn encode_id(bits: u128) -> (id: String)
    ensures
        id@ == id_text(bits),
        id@.len() == ID_DIGITS,
{
    let mut id = String::new();
    push_hex(&mut id, bits, ID_DIGITS);
    proof {
        lemma_id_text_len(bits);
    }
    id
}

/// Draws the 128 bits of a fresh random identifier.
///
/// Calls `uuid::Uuid::new_v4`, which fills a version-4 UUID from the operating
/// system's random number generator, and `Uuid::as_u128`, which hands out its
/// sixteen bytes as one number. Nothing is claimed of the result: it differs
/// from call to call. `new_v4` panics if the operating system cannot supply
/// random bytes.
#[verifier::external_body]
pub(crate) fn draw_id_bits() -> u128 {
    uuid::Uuid::new_v4().as_u128()
}

} // verus!
