//! Hexadecimal text.
use vstd::prelude::*;

verus! {

/// The upper-case hexadecimal digit for a value below 16.
pub open spec fn hex_digit(d: int) -> char {
    seq!['0', '1', '2', '3', '4', '5', '6', '7', '8', '9', 'A', 'B', 'C', 'D', 'E', 'F'][d]
}

/// `value` in upper-case hexadecimal, with leading zeros up to `width`
/// digits and with more digits where the value needs them.
pub open spec fn hex(value: nat, width: nat) -> Seq<char>
    decreases value, width,
{
    if value < 16 && width <= 1 {
        seq![hex_digit(value as int)]
    } else {
        hex(value / 16, if width > 0 { (width - 1) as nat } else { 0 }) + seq![
            hex_digit(value as int % 16),
        ]
    }
}

/// The text of one hexadecimal digit.
fn digit_str(d: u8) -> (text: &'static str)
    requires
        d < 16,
    ensures
        text@ == seq![hex_digit(d as int)],
{
    proof {
        reveal_strlit("0");
        reveal_strlit("1");
        reveal_strlit("2");
        reveal_strlit("3");
        reveal_strlit("4");
        reveal_strlit("5");
        reveal_strlit("6");
        reveal_strlit("7");
        reveal_strlit("8");
        reveal_strlit("9");
        reveal_strlit("A");
        reveal_strlit("B");
        reveal_strlit("C");
        reveal_strlit("D");
        reveal_strlit("E");
        reveal_strlit("F");
    }
    let text = match d {
        0 => "0",
        1 => "1",
        2 => "2",
        3 => "3",
        4 => "4",
        5 => "5",
        6 => "6",
        7 => "7",
        8 => "8",
        9 => "9",
        10 => "A",
        11 => "B",
        12 => "C",
        13 => "D",
        14 => "E",
        _ => "F",
    };
    assert(text@ =~= seq![hex_digit(d as int)]);
    text
}

/// Appends `value` in hexadecimal, at least `width` digits wide.
pub fn push_hex(out: &mut String, value: u16, width: u8)
    ensures
        final(out)@ == old(out)@ + hex(value as nat, width as nat),
    decreases value, width,
{
    if value >= 16 || width > 1 {
        push_hex(out, value / 16, if width > 0 { width - 1 } else { 0 });
    }
    out.append(digit_str((value % 16) as u8));
}

} // verus!
