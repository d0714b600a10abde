//! Byte strings for the eye: lower-case hexadecimal, cut short in the middle
//! where it would run long.

use vstd::prelude::*;
use vstd::string::StrSliceExecFns;
use vstd::string::StringExecFns;

verus! {

/// A byte string of up to this many bytes is shown whole.
pub const SHOWN_WHOLE: usize = 6;

/// Number of bytes shown from either end of a longer byte string.
pub const SHOWN_AT_END: usize = 3;

/// The sixteen digits, in order.
pub open spec fn hex_digits() -> Seq<char> {
    "0123456789abcdef"@
}

/// The two digits of a byte, the high one first.
pub open spec fn byte_hex(byte: u8) -> Seq<char> {
    seq![hex_digits()[byte as int / 16], hex_digits()[byte as int % 16]]
}

/// The digits of a byte string: those of its bytes, one after the other.
pub open spec fn hex(bytes: Seq<u8>) -> Seq<char>
    decreases bytes.len(),
{
    if bytes.len() == 0 {
        Seq::empty()
    } else {
        hex(bytes.drop_last()) + byte_hex(bytes.last())
    }
}

/// The digits of a byte string, whole if it is short, and else those of its
/// first three and last three bytes with two dots between them.
pub open spec fn abbreviated_hex(bytes: Seq<u8>) -> Seq<char> {
    if bytes.len() <= SHOWN_WHOLE {
        hex(bytes)
    } else {
        hex(bytes.take(SHOWN_AT_END as int)) + ".."@ + hex(
            bytes.skip(bytes.len() - SHOWN_AT_END),
        )
    }
}

/// The digit of a number below sixteen.
fn hex_digit(nibble: u8) -> (digit: &'static str)
    requires
        nibble < 16,
    ensures
        digit@ == seq![hex_digits()[nibble as int]],
{
    proof {
        reveal_strlit("0123456789abcdef");
    }
    let digits = "0123456789abcdef";
    let at: usize = nibble as usize;
    let digit = digits.substring_ascii(at, at + 1);
    assert(digit@ =~= seq![hex_digits()[nibble as int]]);
    digit
}

/// Appends the digits of `bytes` to `out`.
pub fn append_hex(out: &mut String, bytes: &[u8])
    ensures
        final(out)@ == old(out)@ + hex(bytes@),
{
    let mut i: usize = 0;
    while i < bytes.len()
        invariant
            i <= bytes@.len(),
            out@ == old(out)@ + hex(bytes@.take(i as int)),
        decreases bytes@.len() - i,
    {
        let byte: u8 = bytes[i];
        out.append(hex_digit(byte / 16));
        out.append(hex_digit(byte % 16));
        proof {
            let shown = bytes@.take(i + 1);
            assert(shown.drop_last() =~= bytes@.take(i as int));
            assert(shown.last() == byte);
            assert(out@ =~= old(out)@ + hex(shown));
        }
        i = i + 1;
    }
    assert(bytes@.take(i as int) =~= bytes@);
}

/// Renders a byte string in hexadecimal, whole if it has up to six bytes, and
/// else as its first three and last three bytes with two dots between them.
pub fn format_binary_array(bytes: &[u8]) -> (text: String)
    ensures
        text@ == abbreviated_hex(bytes@),
{
    let mut text = String::new();
    let len: usize = bytes.len();
    if len <= SHOWN_WHOLE {
        append_hex(&mut text, bytes);
    } else {
        append_hex(&mut text, vstd::slice::slice_subrange(bytes, 0, SHOWN_AT_END));
        text.append("..");
        append_hex(&mut text, vstd::slice::slice_subrange(bytes, len - SHOWN_AT_END, len));
    }
    assert(text@ =~= abbreviated_hex(bytes@));
    text
}

} // verus!
