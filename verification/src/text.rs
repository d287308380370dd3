//! Building the text of messages: decimal numbers and lists of bytes.

use vstd::prelude::*;

verus! {

/// The character of a decimal digit.
pub open spec fn spec_digit(d: nat) -> char
    recommends
        d < 10,
{
    if d == 0 {
        '0'
    } else if d == 1 {
        '1'
    } else if d == 2 {
        '2'
    } else if d == 3 {
        '3'
    } else if d == 4 {
        '4'
    } else if d == 5 {
        '5'
    } else if d == 6 {
        '6'
    } else if d == 7 {
        '7'
    } else if d == 8 {
        '8'
    } else {
        '9'
    }
}

/// The decimal numeral of `n`, without leading zeros.
pub open spec fn spec_decimal(n: nat) -> Seq<char>
    decreases n,
{
    if n < 10 {
        seq![spec_digit(n)]
    } else {
        spec_decimal(n / 10).push(spec_digit(n % 10))
    }
}

/// The numerals of `bytes`, separated by a comma and a space.
pub open spec fn spec_bytes_items(bytes: Seq<u8>) -> Seq<char>
    decreases bytes.len(),
{
    if bytes.len() == 0 {
        Seq::empty()
    } else if bytes.len() == 1 {
        spec_decimal(bytes[0] as nat)
    } else {
        spec_bytes_items(bytes.drop_last()) + ", "@ + spec_decimal(bytes.last() as nat)
    }
}

/// The list of `bytes` as numerals between square brackets, such as `[1, 2]`.
pub open spec fn spec_bytes_list(bytes: Seq<u8>) -> Seq<char> {
    "["@ + spec_bytes_items(bytes) + "]"@
}

/// The one-character text of a decimal digit.
fn digit_text(d: u16) -> (text: &'static str)
    requires
        d < 10,
    ensures
        text@ == seq![spec_digit(d as nat)],
{
    proof {
        reveal_strlit("0");
        reveal_strlit("1");
        reveal_strlit("2");
        reveal_strlit("3");
        reveal_strlit("4");
        reveal_strlit("5");
        reveal_strlit("6");
        reveal_strlit("7");
        reveal_strlit("8");
        reveal_strlit("9");
    }
    let text = if d == 0 {
        "0"
    } else if d == 1 {
        "1"
    } else if d == 2 {
        "2"
    } else if d == 3 {
        "3"
    } else if d == 4 {
        "4"
    } else if d == 5 {
        "5"
    } else if d == 6 {
        "6"
    } else if d == 7 {
        "7"
    } else if d == 8 {
        "8"
    } else {
        "9"
    };
    text
}

/// Appends the decimal numeral of `n` to `text`.
pub fn append_decimal(text: &mut String, n: u16)
    ensures
        final(text)@ == old(text)@ + spec_decimal(n as nat),
    decreases n,
{
    if n >= 10 {
        append_decimal(text, n / 10);
    }
    text.append(digit_text(n % 10));
}

/// Appends the list of `bytes`, as [`spec_bytes_list`] writes it, to `text`.
pub fn append_bytes_list(text: &mut String, bytes: &Vec<u8>)
    ensures
        final(text)@ == old(text)@ + spec_bytes_list(bytes@),
{
    text.append("[");
    let ghost opened = text@;
    let mut i: usize = 0;
    while i < bytes.len()
        invariant
            i <= bytes.len(),
            text@ == opened + spec_bytes_items(bytes@.take(i as int)),
        decreases bytes.len() - i,
    {
        if i > 0 {
            text.append(", ");
        }
        append_decimal(text, bytes[i] as u16);
        proof {
            let done = bytes@.take(i as int);
            let next = bytes@.take(i + 1);
            assert(next.drop_last() =~= done);
        }
        i += 1;
    }
    text.append("]");
    assert(bytes@.take(bytes.len() as int) =~= bytes@);
}

} // verus!
