//! Text building for messages: decimal and hexadecimal numbers, joined
//! from string pieces.

use vstd::prelude::*;
use vstd::string::*;

verus! {

/// The character of a decimal or hexadecimal digit.
pub open spec fn digit(d: nat) -> char {
    if d == 0 {
        '0'
    } else if d == 1 {
        '1'
    } else if d == 2 {
        '2'
    } else if d == 3 {
        '3'
    } else if d == 4 {
        '4'
    } else if d == 5 {
        '5'
    } else if d == 6 {
        '6'
    } else if d == 7 {
        '7'
    } else if d == 8 {
        '8'
    } else if d == 9 {
        '9'
    } else if d == 10 {
        'a'
    } else if d == 11 {
        'b'
    } else if d == 12 {
        'c'
    } else if d == 13 {
        'd'
    } else if d == 14 {
        'e'
    } else {
        'f'
    }
}

/// A number in decimal.
pub open spec fn dec(n: nat) -> Seq<char>
    decreases n,
{
    if n < 10 {
        seq![digit(n)]
    } else {
        dec(n / 10).push(digit(n % 10))
    }
}

/// An octet as two hexadecimal digits.
pub open spec fn hex2(b: u8) -> Seq<char> {
    seq![digit(b as nat / 16), digit(b as nat % 16)]
}

/// The octets of a list, two hexadecimal digits each, separated by a comma
/// and a space.
pub open spec fn hex_items(s: Seq<u8>) -> Seq<char>
    decreases s.len(),
{
    if s.len() == 0 {
        Seq::empty()
    } else if s.len() == 1 {
        hex2(s[0])
    } else {
        hex_items(s.drop_last()) + seq![',', ' '] + hex2(s.last())
    }
}

/// A byte list in brackets, as in `[0a, ff]`.
pub open spec fn hex_list(s: Seq<u8>) -> Seq<char> {
    seq!['['] + hex_items(s) + seq![']']
}

/// Append one digit.
fn push_digit(s: &mut String, d: u8)
    requires
        d < 16,
    ensures
        final(s)@ == old(s)@.push(digit(d as nat)),
{
    let ghost before = s@;
    proof {
        reveal_strlit("0");
        reveal_strlit("1");
        reveal_strlit("2");
        reveal_strlit("3");
        reveal_strlit("4");
        reveal_strlit("5");
        reveal_strlit("6");
        reveal_strlit("7");
        reveal_strlit("8");
        reveal_strlit("9");
        reveal_strlit("a");
        reveal_strlit("b");
        reveal_strlit("c");
        reveal_strlit("d");
        reveal_strlit("e");
        reveal_strlit("f");
    }
    let text: &str = match d {
        0 => "0",
        1 => "1",
        2 => "2",
        3 => "3",
        4 => "4",
        5 => "5",
        6 => "6",
        7 => "7",
        8 => "8",
        9 => "9",
        10 => "a",
        11 => "b",
        12 => "c",
        13 => "d",
        14 => "e",
        _ => "f",
    };
    s.append(text);
    assert(s@ =~= before.push(digit(d as nat)));
}

/// Append a number in decimal.
pub fn push_dec(s: &mut String, n: u64)
    ensures
        final(s)@ == old(s)@ + dec(n as nat),
    decreases n,
{
    let ghost before = s@;
    if n < 10 {
        push_digit(s, n as u8);
        assert(s@ =~= before + dec(n as nat));
    } else {
        push_dec(s, n / 10);
        push_digit(s, (n % 10) as u8);
        assert(s@ =~= before + dec(n as nat));
    }
}

/// Append a byte list in brackets, two hexadecimal digits per octet.
pub fn push_hex_list(s: &mut String, b: &[u8])
    ensures
        final(s)@ == old(s)@ + hex_list(b@),
{
    let ghost before = s@;
    proof {
        reveal_strlit("[");
        reveal_strlit("]");
        reveal_strlit(", ");
    }
    s.append("[");
    assert("["@ =~= seq!['[']);
    assert("]"@ =~= seq![']']);
    assert(", "@ =~= seq![',', ' ']);
    let mut i: usize = 0;
    assert(b@.subrange(0, 0) =~= Seq::<u8>::empty());
    assert(s@ =~= before + seq!['['] + hex_items(b@.subrange(0, 0)));
    while i < b.len()
        invariant
            i <= b@.len(),
            ", "@ == seq![',', ' '],
            s@ == before + seq!['['] + hex_items(b@.subrange(0, i as int)),
        decreases b@.len() - i,
    {
        let ghost so_far = s@;
        proof {
            assert(b@.subrange(0, i + 1).drop_last() =~= b@.subrange(0, i as int));
        }
        if i > 0 {
            s.append(", ");
        }
        push_digit(s, b[i] / 16);
        push_digit(s, b[i] % 16);
        proof {
            let item = b@.subrange(0, i + 1);
            assert(item.last() == b@[i as int]);
            if i == 0 {
                assert(item.len() == 1 && item[0] == b@[0]);
                assert(hex_items(b@.subrange(0, 0)) =~= Seq::<char>::empty());
                assert(s@ =~= so_far + hex2(b@[0]));
                assert(s@ =~= before + seq!['['] + hex_items(item));
            } else {
                assert(s@ =~= so_far + seq![',', ' '] + hex2(b@[i as int]));
                assert(s@ =~= before + seq!['['] + hex_items(item));
            }
        }
        i = i + 1;
    }
    assert(b@.subrange(0, b@.len() as int) =~= b@);
    s.append("]");
    assert(s@ =~= before + hex_list(b@));
}

/// A new string holding the text of `a`.
pub fn text(a: &str) -> (r: String)
    ensures
        r@ == a@,
{
    a.to_owned()
}

/// The text of `a` followed by that of `b`.
pub fn text2(a: &str, b: &str) -> (r: String)
    ensures
        r@ == a@ + b@,
{
    let mut r = a.to_owned();
    r.append(b);
    r
}

/// Whether two strings hold the same text.
pub fn same_text(a: &String, b: &String) -> (r: bool)
    ensures
        r == (a@ == b@),
{
    a.eq(b)
}

/// The value of a digit: `0` to `9`, then `a` to `f`.
pub open spec fn digit_value(c: char) -> int {
    if '0' <= c && c <= '9' {
        c as u32 - 48
    } else {
        c as u32 - 97 + 10
    }
}

/// The number that decimal digits stand for, the most significant first.
pub open spec fn decimal_value(s: Seq<char>) -> int
    decreases s.len(),
{
    if s.len() == 0 {
        0
    } else {
        10 * decimal_value(s.drop_last()) + digit_value(s.last())
    }
}

/// Every digit has its value.
pub proof fn law_digit_reads_back(d: nat)
    requires
        d < 16,
    ensures
        digit_value(digit(d)) == d,
        d < 10 ==> '0' <= digit(d) && digit(d) <= '9',
        d >= 10 ==> 'a' <= digit(d) && digit(d) <= 'f',
{
}

/// The decimal text of a number stands for the number, and has no leading zero.
pub proof fn law_dec_reads_back(n: nat)
    ensures
        decimal_value(dec(n)) == n,
        dec(n).len() > 0,
        n > 0 ==> dec(n)[0] != '0',
    decreases n,
{
    if n < 10 {
        law_digit_reads_back(n);
        assert(dec(n).drop_last() =~= Seq::<char>::empty());
        assert(dec(n).last() == digit(n));
        reveal_with_fuel(decimal_value, 2);
    } else {
        law_dec_reads_back(n / 10);
        law_digit_reads_back(n % 10);
        assert(dec(n).drop_last() =~= dec(n / 10));
        assert(dec(n).last() == digit(n % 10));
    }
}

/// The two hexadecimal digits of an octet stand for the octet.
pub proof fn law_hex_reads_back(b: u8)
    ensures
        hex2(b).len() == 2,
        16 * digit_value(hex2(b)[0]) + digit_value(hex2(b)[1]) == b,
{
    law_digit_reads_back(b as nat / 16);
    law_digit_reads_back(b as nat % 16);
}

} // verus!
