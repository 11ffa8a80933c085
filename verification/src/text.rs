//! Verified text assembly: decimal rendering of counters and the header
//! values and addresses built from them.

use vstd::prelude::*;

verus! {

/// The character for one decimal digit value.
pub open spec fn digit_char(d: int) -> char {
    if d == 0 {
        '0'
    } else if d == 1 {
        '1'
    } else if d == 2 {
        '2'
    } else if d == 3 {
        '3'
    } else if d == 4 {
        '4'
    } else if d == 5 {
        '5'
    } else if d == 6 {
        '6'
    } else if d == 7 {
        '7'
    } else if d == 8 {
        '8'
    } else {
        '9'
    }
}

/// The decimal rendering of a number, most significant digit first, with no
/// leading zero except for zero itself.
pub open spec fn spec_decimal(n: nat) -> Seq<char>
    decreases n,
{
    if n < 10 {
        seq![digit_char(n as int)]
    } else {
        spec_decimal(n / 10).push(digit_char((n % 10) as int))
    }
}

/// Append the character of one digit value to a string.
fn push_digit(s: &mut String, d: u8)
    requires
        d < 10,
    ensures
        final(s)@ == old(s)@.push(digit_char(d as int)),
{
    if d == 0 {
        proof {
            reveal_strlit("0");
        }
        s.append("0");
        proof {
            assert(old(s)@ + "0"@ =~= old(s)@.push(digit_char(0)));
        }
    } else if d == 1 {
        proof {
            reveal_strlit("1");
        }
        s.append("1");
        proof {
            assert(old(s)@ + "1"@ =~= old(s)@.push(digit_char(1)));
        }
    } else if d == 2 {
        proof {
            reveal_strlit("2");
        }
        s.append("2");
        proof {
            assert(old(s)@ + "2"@ =~= old(s)@.push(digit_char(2)));
        }
    } else if d == 3 {
        proof {
            reveal_strlit("3");
        }
        s.append("3");
        proof {
            assert(old(s)@ + "3"@ =~= old(s)@.push(digit_char(3)));
        }
    } else if d == 4 {
        proof {
            reveal_strlit("4");
        }
        s.append("4");
        proof {
            assert(old(s)@ + "4"@ =~= old(s)@.push(digit_char(4)));
        }
    } else if d == 5 {
        proof {
            reveal_strlit("5");
        }
        s.append("5");
        proof {
            assert(old(s)@ + "5"@ =~= old(s)@.push(digit_char(5)));
        }
    } else if d == 6 {
        proof {
            reveal_strlit("6");
        }
        s.append("6");
        proof {
            assert(old(s)@ + "6"@ =~= old(s)@.push(digit_char(6)));
        }
    } else if d == 7 {
        proof {
            reveal_strlit("7");
        }
        s.append("7");
        proof {
            assert(old(s)@ + "7"@ =~= old(s)@.push(digit_char(7)));
        }
    } else if d == 8 {
        proof {
            reveal_strlit("8");
        }
        s.append("8");
        proof {
            assert(old(s)@ + "8"@ =~= old(s)@.push(digit_char(8)));
        }
    } else {
        proof {
            reveal_strlit("9");
        }
        s.append("9");
        proof {
            assert(old(s)@ + "9"@ =~= old(s)@.push(digit_char(9)));
        }
    }
}

/// The characters of a vector of digit values stored least significant
/// first, rendered most significant first.
spec fn digits_chars_rev(ds: Seq<u8>) -> Seq<char>
    decreases ds.len(),
{
    if ds.len() == 0 {
        Seq::empty()
    } else {
        seq![digit_char(ds.last() as int)] + digits_chars_rev(ds.drop_last())
    }
}

/// Rendering the digits from position `i` on takes the digit at `i` last.
proof fn lemma_digits_chars_rev_split(ds: Seq<u8>, i: int)
    requires
        0 <= i < ds.len(),
    ensures
        digits_chars_rev(ds.skip(i)) == digits_chars_rev(ds.skip(i + 1)).push(
            digit_char(ds[i] as int),
        ),
    decreases ds.len() - i,
{
    if i == ds.len() - 1 {
        assert(ds.skip(i) =~= seq![ds[i]]);
        assert(ds.skip(i + 1) =~= Seq::<u8>::empty());
        assert(ds.skip(i).drop_last() =~= Seq::<u8>::empty());
        assert(digits_chars_rev(ds.skip(i)) =~= digits_chars_rev(ds.skip(i + 1)).push(
            digit_char(ds[i] as int),
        ));
    } else {
        lemma_digits_chars_rev_split(ds.drop_last(), i);
        assert(ds.skip(i).drop_last() =~= ds.drop_last().skip(i));
        assert(ds.skip(i + 1).drop_last() =~= ds.drop_last().skip(i + 1));
        assert(ds.skip(i).last() == ds.last());
        assert(ds.skip(i + 1).last() == ds.last());
        assert(ds.drop_last()[i] == ds[i]);
        assert(digits_chars_rev(ds.skip(i)) =~= digits_chars_rev(ds.skip(i + 1)).push(
            digit_char(ds[i] as int),
        ));
    }
}

/// Render a counter in decimal.
pub fn u64_to_decimal(n: u64) -> (s: String)
    ensures
        s@ == spec_decimal(n as nat),
{
    let mut digits: Vec<u8> = Vec::new();
    let mut m: u64 = n;
    while m >= 10
        invariant
            forall|k: int| 0 <= k < digits@.len() ==> digits@[k] < 10,
            spec_decimal(n as nat) == spec_decimal(m as nat) + digits_chars_rev(digits@),
        decreases m,
    {
        let d = (m % 10) as u8;
        proof {
            assert(digits@.push(d).drop_last() =~= digits@);
            assert(spec_decimal(m as nat) == spec_decimal((m as nat) / 10).push(
                digit_char((m % 10) as int),
            ));
            assert(spec_decimal((m as nat) / 10) + digits_chars_rev(digits@.push(d))
                =~= spec_decimal(m as nat) + digits_chars_rev(digits@));
        }
        digits.push(d);
        m = m / 10;
    }
    let d = m as u8;
    proof {
        assert(digits@.push(d).drop_last() =~= digits@);
        assert(spec_decimal(m as nat) =~= seq![digit_char(m as int)]);
        assert(digits_chars_rev(digits@.push(d)) =~= spec_decimal(m as nat) + digits_chars_rev(
            digits@,
        ));
    }
    digits.push(d);
    let mut s = String::new();
    let mut i: usize = digits.len();
    while i > 0
        invariant
            i <= digits@.len(),
            forall|k: int| 0 <= k < digits@.len() ==> digits@[k] < 10,
            spec_decimal(n as nat) == digits_chars_rev(digits@),
            s@ == digits_chars_rev(digits@.skip(i as int)),
        decreases i,
    {
        i = i - 1;
        proof {
            lemma_digits_chars_rev_split(digits@, i as int);
        }
        push_digit(&mut s, digits[i]);
    }
    proof {
        assert(digits@.skip(0) =~= digits@);
    }
    s
}

/// The value of the `Range` header requesting bytes from `start` through
/// `end`.
pub fn range_header_value(start: u64, end: u64) -> (r: String)
    ensures
        r@ == "bytes="@ + spec_decimal(start as nat) + "-"@ + spec_decimal(end as nat),
{
    let mut s = String::from_str("bytes=");
    let a = u64_to_decimal(start);
    s.append(a.as_str());
    s.append("-");
    let b = u64_to_decimal(end);
    s.append(b.as_str());
    s
}

/// A `host:port` address.
pub fn host_port(host: &str, port: u32) -> (r: String)
    ensures
        r@ == host@ + ":"@ + spec_decimal(port as nat),
{
    let mut s = String::from_str(host);
    s.append(":");
    let p = u64_to_decimal(port as u64);
    s.append(p.as_str());
    s
}

} // verus!
