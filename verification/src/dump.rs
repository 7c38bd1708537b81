//! Human-readable rendering of a datagram, one word per line.

use vstd::prelude::*;
use vstd::string::StringExecFns;

verus! {

/// The character for the decimal digit `d`.
pub open spec fn digit_char(d: nat) -> char {
    (0x30 + d) as char
}

/// `n` in decimal, without leading zeros.
pub open spec fn decimal(n: nat) -> Seq<char>
    decreases n,
{
    if n < 10 {
        seq![digit_char(n)]
    } else {
        decimal(n / 10).push(digit_char(n % 10))
    }
}

/// The text for the byte at position `index`: a line break before the first
/// byte of each word, then a dot and two spaces for a zero byte, or the
/// byte in decimal and one space.
pub open spec fn cell_text(index: nat, byte: u8) -> Seq<char> {
    let lead = if index % 4 == 0 {
        seq!['\n']
    } else {
        Seq::<char>::empty()
    };
    let body = if byte == 0 {
        seq!['.', ' ', ' ']
    } else {
        decimal(byte as nat).push(' ')
    };
    lead + body
}

/// The text for a whole buffer: the texts of its bytes, in order.
pub open spec fn dump_text(bytes: Seq<u8>) -> Seq<char>
    decreases bytes.len(),
{
    if bytes.len() == 0 {
        Seq::empty()
    } else {
        dump_text(bytes.drop_last()) + cell_text((bytes.len() - 1) as nat, bytes.last())
    }
}

fn digit_str(d: u8) -> (s: &'static str)
    requires
        d < 10,
    ensures
        s@ == seq![digit_char(d as nat)],
{
    proof {
        reveal_strlit("0");
        reveal_strlit("1");
        reveal_strlit("2");
        reveal_strlit("3");
        reveal_strlit("4");
        reveal_strlit("5");
        reveal_strlit("6");
        reveal_strlit("7");
        reveal_strlit("8");
        reveal_strlit("9");
    }
    match d {
        0 => "0",
        1 => "1",
        2 => "2",
        3 => "3",
        4 => "4",
        5 => "5",
        6 => "6",
        7 => "7",
        8 => "8",
        _ => "9",
    }
}

fn push_decimal(text: &mut String, n: u8)
    ensures
        final(text)@ == old(text)@ + decimal(n as nat),
{
    proof {
        reveal_with_fuel(decimal, 3);
    }
    if n >= 100 {
        text.append(digit_str(n / 100));
    }
    if n >= 10 {
        text.append(digit_str((n / 10) % 10));
    }
    text.append(digit_str(n % 10));
}

/// Renders `bytes` as text, four bytes to a line.
pub fn dump(bytes: &[u8]) -> (text: String)
    ensures
        text@ == dump_text(bytes@),
{
    let mut text = String::new();
    let mut i: usize = 0;
    while i < bytes.len()
        invariant
            i <= bytes@.len(),
            text@ == dump_text(bytes@.take(i as int)),
        decreases bytes@.len() - i,
    {
        if i % 4 == 0 {
            proof {
                reveal_strlit("\n");
            }
            text.append("\n");
        }
        let byte: u8 = bytes[i];
        if byte == 0 {
            proof {
                reveal_strlit(".  ");
            }
            text.append(".  ");
        } else {
            push_decimal(&mut text, byte);
            proof {
                reveal_strlit(" ");
            }
            text.append(" ");
        }
        proof {
            let upto = bytes@.take(i + 1);
            assert(upto.drop_last() =~= bytes@.take(i as int));
        }
        i += 1;
    }
    assert(bytes@.take(i as int) =~= bytes@);
    text
}

} // verus!
