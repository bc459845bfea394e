//! Decimal rendering of the record count, used when the fetch query is
//! built around the count the endpoint reported.

use vstd::prelude::*;

verus! {

/// The character for one decimal digit.
pub open spec fn digit_char(d: nat) -> char {
    if d == 0 {
        '0'
    } else if d == 1 {
        '1'
    } else if d == 2 {
        '2'
    } else if d == 3 {
        '3'
    } else if d == 4 {
        '4'
    } else if d == 5 {
        '5'
    } else if d == 6 {
        '6'
    } else if d == 7 {
        '7'
    } else if d == 8 {
        '8'
    } else {
        '9'
    }
}

/// The decimal numeral of `n`, most significant digit first, no sign and
/// no leading zeros (the numeral of zero is "0").
pub open spec fn dec_of(n: nat) -> Seq<char>
    decreases n,
{
    if n < 10 {
        seq![digit_char(n)]
    } else {
        dec_of(n / 10) + seq![digit_char(n % 10)]
    }
}

/// The decimal numeral of a signed count: a leading minus sign when the
/// count is negative.
pub open spec fn dec_of_i64(n: int) -> Seq<char> {
    if n < 0 {
        seq!['-'] + dec_of((-n) as nat)
    } else {
        dec_of(n as nat)
    }
}

/// The characters of the digits `ds`, read from the last digit to the
/// first: `ds` holds a numeral least significant digit first.
spec fn chars_rev(ds: Seq<u8>) -> Seq<char> {
    Seq::new(ds.len(), |i: int| digit_char(ds[ds.len() - 1 - i] as nat))
}

/// The one-character string for the digit `d`.
fn digit_str(d: u8) -> (r: &'static str)
    requires
        d < 10,
    ensures
        r@ == seq![digit_char(d as nat)],
{
    proof {
        reveal_strlit("0");
        reveal_strlit("1");
        reveal_strlit("2");
        reveal_strlit("3");
        reveal_strlit("4");
        reveal_strlit("5");
        reveal_strlit("6");
        reveal_strlit("7");
        reveal_strlit("8");
        reveal_strlit("9");
    }
    let r: &'static str = match d {
        0 => "0",
        1 => "1",
        2 => "2",
        3 => "3",
        4 => "4",
        5 => "5",
        6 => "6",
        7 => "7",
        8 => "8",
        _ => "9",
    };
    proof {
        assert(r@ =~= seq![digit_char(d as nat)]);
    }
    r
}

/// Renders `n` in decimal, without sign or leading zeros.
pub fn u64_to_string(n: u64) -> (s: String)
    ensures
        s@ == dec_of(n as nat),
{
    let mut digits: Vec<u8> = Vec::new();
    let mut m: u64 = n;
    while m >= 10
        invariant
            dec_of(n as nat) =~= dec_of(m as nat) + chars_rev(digits@),
            forall|k: int| 0 <= k < digits@.len() ==> digits@[k] < 10,
        decreases m,
    {
        let ghost pre = digits@;
        let d: u8 = (m % 10) as u8;
        digits.push(d);
        proof {
            assert(chars_rev(pre.push(d)) =~= seq![digit_char(d as nat)] + chars_rev(pre));
            assert(dec_of(m as nat) =~= dec_of((m as nat) / 10) + seq![
                digit_char((m as nat) % 10),
            ]);
            assert(dec_of(n as nat) =~= dec_of((m / 10) as nat) + chars_rev(digits@));
        }
        m = m / 10;
    }
    let ghost pre = digits@;
    let last: u8 = m as u8;
    digits.push(last);
    proof {
        assert(chars_rev(pre.push(last)) =~= seq![digit_char(last as nat)] + chars_rev(pre));
        assert(dec_of(m as nat) =~= seq![digit_char(m as nat)]);
        assert(dec_of(n as nat) =~= chars_rev(digits@));
    }
    let mut s = String::new();
    let mut i: usize = digits.len();
    while i > 0
        invariant
            i <= digits@.len(),
            forall|k: int| 0 <= k < digits@.len() ==> digits@[k] < 10,
            dec_of(n as nat) =~= chars_rev(digits@),
            s@ =~= chars_rev(digits@).take(digits@.len() - i),
        decreases i,
    {
        i = i - 1;
        let piece: &'static str = digit_str(digits[i]);
        s.append(piece);
        proof {
            assert(chars_rev(digits@)[digits@.len() - 1 - i] == digit_char(digits@[i as int] as nat));
            assert(s@ =~= chars_rev(digits@).take(digits@.len() - i));
        }
    }
    proof {
        assert(s@ =~= chars_rev(digits@));
    }
    s
}

/// Renders a signed count in decimal, with a leading minus sign when it is
/// negative.
pub fn i64_to_string(n: i64) -> (s: String)
    ensures
        s@ == dec_of_i64(n as int),
{
    if n >= 0 {
        u64_to_string(n as u64)
    } else {
        let wide: i128 = n as i128;
        let mag: u64 = (-wide) as u64;
        let mut s = String::from_str("-");
        proof {
            reveal_strlit("-");
            assert(s@ =~= seq!['-']);
        }
        let digits_part = u64_to_string(mag);
        s.append(digits_part.as_str());
        proof {
            assert(s@ =~= dec_of_i64(n as int));
        }
        s
    }
}

} // verus!
