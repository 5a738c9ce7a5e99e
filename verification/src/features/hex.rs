//! Bytes written as pairs of hexadecimal digits.

use vstd::prelude::*;

verus! {

/// The lower-case digit for a value below sixteen.
pub open spec fn digit(d: int) -> char {
    if d == 0 {
        '0'
    } else if d == 1 {
        '1'
    } else if d == 2 {
        '2'
    } else if d == 3 {
        '3'
    } else if d == 4 {
        '4'
    } else if d == 5 {
        '5'
    } else if d == 6 {
        '6'
    } else if d == 7 {
        '7'
    } else if d == 8 {
        '8'
    } else if d == 9 {
        '9'
    } else if d == 10 {
        'a'
    } else if d == 11 {
        'b'
    } else if d == 12 {
        'c'
    } else if d == 13 {
        'd'
    } else if d == 14 {
        'e'
    } else {
        'f'
    }
}

/// The text of `bytes`: two lower-case digits for each, the high one first.
pub open spec fn text(bytes: Seq<u8>) -> Seq<char> {
    Seq::new(
        2 * bytes.len(),
        |j: int|
            digit(
                if j % 2 == 0 {
                    bytes[j / 2] as int / 16
                } else {
                    bytes[j / 2] as int % 16
                },
            ),
    )
}

/// The value of a digit of either case, if the character is one.
pub open spec fn digit_value(c: char) -> Option<int> {
    if '0' <= c <= '9' {
        Some(c as int - '0' as int)
    } else if 'a' <= c <= 'f' {
        Some(c as int - 'a' as int + 10)
    } else if 'A' <= c <= 'F' {
        Some(c as int - 'A' as int + 10)
    } else {
        None
    }
}

/// The value of two digits read as one number, the high one first. Any other
/// character makes the pair unreadable.
pub open spec fn pair_value(a: char, b: char) -> Option<int> {
    match (digit_value(a), digit_value(b)) {
        (Some(high), Some(low)) => Some(high * 16 + low),
        _ => None,
    }
}

/// The first `n` pairs of characters of `t` read as numbers.
pub open spec fn readable(t: Seq<char>, n: int) -> bool {
    forall|i: int| 0 <= i < n ==> pair_value(#[trigger] t[2 * i], t[2 * i + 1]) is Some
}

fn digit_text(d: u8) -> (r: &'static str)
    requires
        d < 16,
    ensures
        r@ == seq![digit(d as int)],
{
    let r = if d == 0 {
        "0"
    } else if d == 1 {
        "1"
    } else if d == 2 {
        "2"
    } else if d == 3 {
        "3"
    } else if d == 4 {
        "4"
    } else if d == 5 {
        "5"
    } else if d == 6 {
        "6"
    } else if d == 7 {
        "7"
    } else if d == 8 {
        "8"
    } else if d == 9 {
        "9"
    } else if d == 10 {
        "a"
    } else if d == 11 {
        "b"
    } else if d == 12 {
        "c"
    } else if d == 13 {
        "d"
    } else if d == 14 {
        "e"
    } else {
        "f"
    };
    proof {
        reveal_strlit("0");
        reveal_strlit("1");
        reveal_strlit("2");
        reveal_strlit("3");
        reveal_strlit("4");
        reveal_strlit("5");
        reveal_strlit("6");
        reveal_strlit("7");
        reveal_strlit("8");
        reveal_strlit("9");
        reveal_strlit("a");
        reveal_strlit("b");
        reveal_strlit("c");
        reveal_strlit("d");
        reveal_strlit("e");
        reveal_strlit("f");
        assert(r@ =~= seq![digit(d as int)]);
    }
    r
}

/// The text of sixteen bytes.
pub fn hex_text(bytes: &[u8; 16]) -> (r: String)
    ensures
        r@ == text(bytes@),
{
    let mut r = String::new();
    let mut i: usize = 0;
    assert(r@ =~= text(bytes@.take(0)));
    while i < 16
        invariant
            i <= 16,
            bytes@.len() == 16,
            r@ == text(bytes@.take(i as int)),
        decreases 16 - i,
    {
        let b = bytes[i];
        let ghost done = r@;
        r.append(digit_text(b / 16));
        r.append(digit_text(b % 16));
        proof {
            let longer = text(bytes@.take(i + 1));
            assert forall|j: int| 0 <= j < 2 * i implies longer[j] == done[j] by {
                assert(bytes@.take(i + 1)[j / 2] == bytes@.take(i as int)[j / 2]);
            }
            assert(r@ =~= longer);
        }
        i += 1;
    }
    assert(bytes@.take(16) =~= bytes@);
    r
}

fn read_digit(c: char) -> (r: Option<u8>)
    ensures
        match r {
            Some(d) => d < 16 && digit_value(c) == Some(d as int),
            None => digit_value(c) is None,
        },
{
    if '0' <= c && c <= '9' {
        Some((c as u32 - 48) as u8)
    } else if 'a' <= c && c <= 'f' {
        Some((c as u32 - 97 + 10) as u8)
    } else if 'A' <= c && c <= 'F' {
        Some((c as u32 - 65 + 10) as u8)
    } else {
        None
    }
}

/// The number that two characters read as.
pub fn read_pair(a: char, b: char) -> (r: Option<u8>)
    ensures
        match r {
            Some(n) => pair_value(a, b) == Some(n as int),
            None => pair_value(a, b) is None,
        },
{
    match (read_digit(a), read_digit(b)) {
        (Some(high), Some(low)) => Some(high * 16 + low),
        _ => None,
    }
}

/// Reading the text of a byte gives the byte back.
pub proof fn law_pair_reads_back(b: u8)
    ensures
        pair_value(digit(b as int / 16), digit(b as int % 16)) == Some(b as int),
{
}

/// A byte takes two characters, the high digit first, and a digit reads the same in
/// either case.
pub proof fn law_text_of_bytes(bytes: Seq<u8>, i: int)
    requires
        0 <= i < bytes.len(),
    ensures
        text(bytes).len() == 2 * bytes.len(),
        digit_value(text(bytes)[2 * i]) == Some(bytes[i] as int / 16),
        digit_value(text(bytes)[2 * i + 1]) == Some(bytes[i] as int % 16),
        digit_value('a') == digit_value('A') && digit_value('f') == digit_value('F'),
        digit_value('9') == Some(9int) && digit_value('a') == Some(10int),
{
    assert((2 * i) / 2 == i && (2 * i + 1) / 2 == i);
}

} // verus!
