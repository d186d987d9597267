//! Numbers as text.

use vstd::prelude::*;
use vstd::string::*;

verus! {

/// The character for a digit below 16: `0` to `9`, then `a` to `f`.
pub open spec fn digit_char(d: nat) -> char {
    if d == 0 {
        '0'
    } else if d == 1 {
        '1'
    } else if d == 2 {
        '2'
    } else if d == 3 {
        '3'
    } else if d == 4 {
        '4'
    } else if d == 5 {
        '5'
    } else if d == 6 {
        '6'
    } else if d == 7 {
        '7'
    } else if d == 8 {
        '8'
    } else if d == 9 {
        '9'
    } else if d == 10 {
        'a'
    } else if d == 11 {
        'b'
    } else if d == 12 {
        'c'
    } else if d == 13 {
        'd'
    } else if d == 14 {
        'e'
    } else {
        'f'
    }
}

/// The digits of `v` to the base 16, the most significant first, without
/// leading zeros; the single digit `0` for zero.
pub open spec fn hex_digits(v: nat) -> Seq<char>
    decreases v,
{
    if v < 16 {
        seq![digit_char(v)]
    } else {
        hex_digits(v / 16).push(digit_char(v % 16))
    }
}

/// The digits of `v` to the base 10, the most significant first, without
/// leading zeros; the single digit `0` for zero.
pub open spec fn decimal_digits(v: nat) -> Seq<char>
    decreases v,
{
    if v < 10 {
        seq![digit_char(v)]
    } else {
        decimal_digits(v / 10).push(digit_char(v % 10))
    }
}

/// `digits` behind as many zeros as bring it to `width` characters; `digits`
/// itself if it has as many or more.
pub open spec fn zero_padded(digits: Seq<char>, width: nat) -> Seq<char> {
    if digits.len() >= width {
        digits
    } else {
        Seq::new((width - digits.len()) as nat, |i: int| '0') + digits
    }
}

/// `v` in lower-case hexadecimal, filled with zeros from the left to at
/// least `width` characters.
pub open spec fn hex_text(v: nat, width: nat) -> Seq<char> {
    zero_padded(hex_digits(v), width)
}

/// The digits of a number whose lower digits have been taken off: `head` is
/// what is left of it, written out, and `taken` the digits taken off, the
/// lowest first.
spec fn splice(head: Seq<char>, taken: Seq<u8>) -> Seq<char> {
    head + Seq::new(taken.len(), |i: int| digit_char(taken[taken.len() - 1 - i] as nat))
}

/// The text of one digit.
fn digit_str(d: u8) -> (s: &'static str)
    requires
        d < 16,
    ensures
        s@ == seq![digit_char(d as nat)],
{
    proof {
        reveal_strlit("0");
        reveal_strlit("1");
        reveal_strlit("2");
        reveal_strlit("3");
        reveal_strlit("4");
        reveal_strlit("5");
        reveal_strlit("6");
        reveal_strlit("7");
        reveal_strlit("8");
        reveal_strlit("9");
        reveal_strlit("a");
        reveal_strlit("b");
        reveal_strlit("c");
        reveal_strlit("d");
        reveal_strlit("e");
        reveal_strlit("f");
    }
    let s = match d {
        0 => "0",
        1 => "1",
        2 => "2",
        3 => "3",
        4 => "4",
        5 => "5",
        6 => "6",
        7 => "7",
        8 => "8",
        9 => "9",
        10 => "a",
        11 => "b",
        12 => "c",
        13 => "d",
        14 => "e",
        _ => "f",
    };
    assert(s@ =~= seq![digit_char(d as nat)]);
    s
}

/// Writes out digits: `lead`, then `taken` from its last member to its
/// first, behind the zeros that bring the whole to `width` characters.
fn write_digits(lead: u8, taken: &Vec<u8>, width: usize) -> (text: String)
    requires
        lead < 16,
        forall|i: int| 0 <= i < taken@.len() ==> taken@[i] < 16,
    ensures
        text@ == zero_padded(splice(seq![digit_char(lead as nat)], taken@), width as nat),
{
    let ghost digits = splice(seq![digit_char(lead as nat)], taken@);
    let mut text = String::new();
    // There is one digit more than `taken` holds, and that sum may not fit a
    // `usize`: the zeros are counted against `taken` itself.
    let mut zeros: usize = 0;
    if width > 0 && width - 1 > taken.len() {
        zeros = width - 1 - taken.len();
    }
    let mut i: usize = 0;
    while i < zeros
        invariant
            i <= zeros,
            text@ == Seq::new(i as nat, |k: int| '0'),
        decreases zeros - i,
    {
        proof {
            reveal_strlit("0");
        }
        text.append("0");
        i += 1;
        assert(text@ =~= Seq::new(i as nat, |k: int| '0'));
    }
    let ghost pad = text@;
    assert(digits.len() == taken@.len() + 1);
    text.append(digit_str(lead));
    let mut left: usize = taken.len();
    while left > 0
        invariant
            left <= taken@.len(),
            forall|i: int| 0 <= i < taken@.len() ==> taken@[i] < 16,
            digits == splice(seq![digit_char(lead as nat)], taken@),
            text@ == pad + digits.subrange(0, taken@.len() - left + 1),
        decreases left,
    {
        left -= 1;
        text.append(digit_str(taken[left]));
        assert(text@ =~= pad + digits.subrange(0, taken@.len() - left + 1));
    }
    assert(digits.subrange(0, taken@.len() as int + 1) =~= digits);
    assert(text@ =~= zero_padded(digits, width as nat)) by {
        if digits.len() >= width {
            assert(pad =~= Seq::<char>::empty());
        }
    }
    text
}

/// `v` in lower-case hexadecimal, filled with zeros from the left to at
/// least `width` characters. A number with more digits than `width` is
/// written out in full.
pub fn hex(v: u64, width: usize) -> (text: String)
    ensures
        text@ == hex_text(v as nat, width as nat),
{
    let mut taken: Vec<u8> = Vec::new();
    let mut rest: u64 = v;
    while rest >= 16
        invariant
            forall|i: int| 0 <= i < taken@.len() ==> taken@[i] < 16,
            hex_digits(v as nat) == splice(hex_digits(rest as nat), taken@),
        decreases rest,
    {
        let ghost before = taken@;
        let ghost head = hex_digits((rest / 16) as nat);
        taken.push((rest % 16) as u8);
        assert(splice(hex_digits(rest as nat), before) =~= splice(head, taken@));
        rest = rest / 16;
    }
    write_digits(rest as u8, &taken, width)
}

/// `v` in decimal.
pub fn decimal(v: u64) -> (text: String)
    ensures
        text@ == decimal_digits(v as nat),
{
    let mut taken: Vec<u8> = Vec::new();
    let mut rest: u64 = v;
    while rest >= 10
        invariant
            forall|i: int| 0 <= i < taken@.len() ==> taken@[i] < 16,
            decimal_digits(v as nat) == splice(decimal_digits(rest as nat), taken@),
        decreases rest,
    {
        let ghost before = taken@;
        let ghost head = decimal_digits((rest / 10) as nat);
        taken.push((rest % 10) as u8);
        assert(splice(decimal_digits(rest as nat), before) =~= splice(head, taken@));
        rest = rest / 10;
    }
    write_digits(rest as u8, &taken, 0)
}

} // verus!
