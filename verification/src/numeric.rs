//! Decimal text for `xsd:integer` values: a verified printer and parser
//! with the round-trip lemma the serializer and parser rely on.

use vstd::prelude::*;

verus! {

/// The character for one decimal digit.
pub open spec fn digit_char(d: nat) -> char {
    if d == 0 {
        '0'
    } else if d == 1 {
        '1'
    } else if d == 2 {
        '2'
    } else if d == 3 {
        '3'
    } else if d == 4 {
        '4'
    } else if d == 5 {
        '5'
    } else if d == 6 {
        '6'
    } else if d == 7 {
        '7'
    } else if d == 8 {
        '8'
    } else {
        '9'
    }
}

/// The decimal digits of `n`, most significant first, with no sign and no
/// leading zero (a single `0` for zero).
pub open spec fn dec_digits(n: nat) -> Seq<char>
    decreases n,
{
    if n < 10 {
        seq![digit_char(n)]
    } else {
        dec_digits(n / 10).push(digit_char(n % 10))
    }
}

/// The canonical decimal text of an integer: a `-` sign for negatives,
/// then the digits of the magnitude.
pub open spec fn i32_dec(i: int) -> Seq<char> {
    if i < 0 {
        seq!['-'] + dec_digits((-i) as nat)
    } else {
        dec_digits(i as nat)
    }
}

/// Whether `c` is a decimal digit.
pub open spec fn is_digit(c: char) -> bool {
    48 <= c as int <= 57
}

/// The numeric value of a digit character.
pub open spec fn digit_val(c: char) -> int {
    c as int - 48
}

/// Whether every character of `s` is a decimal digit.
pub open spec fn all_digits(s: Seq<char>) -> bool {
    forall|i: int| 0 <= i < s.len() ==> is_digit(#[trigger] s[i])
}

/// The value of a digit string, most significant digit first.
pub open spec fn digits_val(s: Seq<char>) -> int
    decreases s.len(),
{
    if s.len() == 0 {
        0
    } else {
        digits_val(s.drop_last()) * 10 + digit_val(s.last())
    }
}

/// The part of decimal text after an optional leading sign.
pub open spec fn i32_magnitude(s: Seq<char>) -> Seq<char> {
    if s.len() > 0 && (s[0] == '+' || s[0] == '-') {
        s.drop_first()
    } else {
        s
    }
}

/// Whether decimal text starts with a minus sign.
pub open spec fn i32_negative(s: Seq<char>) -> bool {
    s.len() > 0 && s[0] == '-'
}

/// What `str::parse::<i32>` returns on `s`: an optional sign, then at
/// least one digit and nothing else, with the value in the range of the
/// type; anything else fails.
pub open spec fn parse_i32_spec(s: Seq<char>) -> Option<int> {
    if i32_magnitude(s).len() > 0 && all_digits(i32_magnitude(s)) {
        if i32_negative(s) {
            if -0x8000_0000 <= -digits_val(i32_magnitude(s)) {
                Some(-digits_val(i32_magnitude(s)))
            } else {
                None
            }
        } else {
            if digits_val(i32_magnitude(s)) <= 0x7fff_ffff {
                Some(digits_val(i32_magnitude(s)))
            } else {
                None
            }
        }
    } else {
        None
    }
}

/// A digit string has a non-negative value.
pub proof fn lemma_digits_val_nonneg(s: Seq<char>)
    requires
        all_digits(s),
    ensures
        digits_val(s) >= 0,
    decreases s.len(),
{
    if s.len() > 0 {
        assert(all_digits(s.drop_last()));
        lemma_digits_val_nonneg(s.drop_last());
    }
}

/// Extending a digit string cannot shrink its value.
pub proof fn lemma_digits_val_extend(s: Seq<char>, i: int)
    requires
        all_digits(s),
        0 <= i <= s.len(),
    ensures
        digits_val(s.take(i)) <= digits_val(s),
    decreases s.len() - i,
{
    if i < s.len() {
        lemma_digits_val_extend(s, i + 1);
        assert(s.take(i + 1).drop_last() =~= s.take(i));
        assert(all_digits(s.take(i)));
        lemma_digits_val_nonneg(s.take(i));
        assert(digits_val(s.take(i + 1)) == digits_val(s.take(i)) * 10 + digit_val(
            s.take(i + 1).last(),
        ));
    } else {
        assert(s.take(i) =~= s);
    }
}

/// The digits of `n` are digits, start with no sign, and evaluate to `n`.
pub proof fn lemma_dec_digits(n: nat)
    ensures
        all_digits(dec_digits(n)),
        dec_digits(n).len() >= 1,
        digits_val(dec_digits(n)) == n,
    decreases n,
{
    if n < 10 {
        let d = seq![digit_char(n)];
        assert(dec_digits(n) =~= d);
        assert(d.drop_last() =~= Seq::<char>::empty());
        assert(digits_val(Seq::<char>::empty()) == 0);
        assert(digits_val(d) == 0 * 10 + digit_val(digit_char(n)));
        assert(digit_val(digit_char(n)) == n);
    } else {
        lemma_dec_digits(n / 10);
        let d = dec_digits(n / 10).push(digit_char(n % 10));
        assert(d.drop_last() =~= dec_digits(n / 10));
        assert(d.last() == digit_char(n % 10));
        assert(forall|i: int| 0 <= i < d.len() - 1 ==> d[i] == dec_digits(n / 10)[i]);
        assert(all_digits(d));
    }
}

/// Parsing the canonical decimal text of an integer in range gives that
/// integer back.
pub proof fn lemma_parse_i32_dec(i: int)
    requires
        -0x8000_0000 <= i <= 0x7fff_ffff,
    ensures
        parse_i32_spec(i32_dec(i)) == Some(i),
{
    if i < 0 {
        let m = (-i) as nat;
        lemma_dec_digits(m);
        let s = seq!['-'] + dec_digits(m);
        assert(s[0] == '-');
        assert(s.drop_first() =~= dec_digits(m));
    } else {
        lemma_dec_digits(i as nat);
        let s = dec_digits(i as nat);
        assert(is_digit(s[0]));
        assert(s[0] != '+' && s[0] != '-');
    }
}

/// The text of one decimal digit.
pub fn digit_str(d: u8) -> (r: &'static str)
    requires
        d < 10,
    ensures
        r@ =~= seq![digit_char(d as nat)],
{
    proof {
        reveal_strlit("0");
        reveal_strlit("1");
        reveal_strlit("2");
        reveal_strlit("3");
        reveal_strlit("4");
        reveal_strlit("5");
        reveal_strlit("6");
        reveal_strlit("7");
        reveal_strlit("8");
        reveal_strlit("9");
    }
    match d {
        0 => "0",
        1 => "1",
        2 => "2",
        3 => "3",
        4 => "4",
        5 => "5",
        6 => "6",
        7 => "7",
        8 => "8",
        _ => "9",
    }
}

/// Append the decimal digits of `n` to `out`.
pub fn append_dec(n: u32, out: &mut String)
    ensures
        final(out)@ == old(out)@ + dec_digits(n as nat),
    decreases n,
{
    if n < 10 {
        out.append(digit_str(n as u8));
        assert(final(out)@ =~= old(out)@ + dec_digits(n as nat));
    } else {
        append_dec(n / 10, out);
        out.append(digit_str((n % 10) as u8));
        assert(final(out)@ =~= old(out)@ + dec_digits(n as nat));
    }
}

/// The canonical decimal text of an integer.
pub fn i32_to_string(i: i32) -> (r: String)
    ensures
        r@ == i32_dec(i as int),
{
    let mut out = String::new();
    if i < 0 {
        proof {
            reveal_strlit("-");
        }
        out.append("-");
        let m: u32 = (-(i as i64)) as u32;
        append_dec(m, &mut out);
        assert(out@ =~= i32_dec(i as int));
    } else {
        let m: u32 = i as u32;
        append_dec(m, &mut out);
        assert(out@ =~= i32_dec(i as int));
    }
    out
}

/// Parse an `i32` from decimal text, as `str::parse::<i32>` does: an
/// optional sign, then at least one digit and nothing else, rejecting
/// values out of range.
pub fn parse_i32(s: &str) -> (r: Option<i32>)
    ensures
        match r {
            Option::Some(v) => parse_i32_spec(s@) == Some(v as int),
            Option::None => parse_i32_spec(s@) is None,
        },
{
    let len = s.unicode_len();
    if len == 0 {
        return None;
    }
    let first = s.get_char(0);
    let fu = first as u32;
    let neg = fu == 45;
    let has_sign = fu == 43 || fu == 45;
    assert(neg == (s@[0] == '-'));
    assert(has_sign == (s@[0] == '+' || s@[0] == '-'));
    let start: usize = if has_sign {
        1
    } else {
        0
    };
    let ghost mag = i32_magnitude(s@);
    proof {
        assert(mag == if has_sign { s@.drop_first() } else { s@ });
        assert(neg == i32_negative(s@));
    }
    if len == start {
        // a bare sign, or excluded above by the empty check
        assert(mag.len() == 0);
        return None;
    }
    let mut acc: i64 = 0;
    let mut i: usize = start;
    while i < len
        invariant
            start <= i <= len,
            len == s@.len(),
            start == if has_sign { 1int } else { 0int },
            mag == i32_magnitude(s@),
            neg == i32_negative(s@),
            mag.len() == len - start,
            forall|j: int| 0 <= j < i - start ==> is_digit(#[trigger] mag[j]),
            acc == digits_val(mag.take(i - start)),
            0 <= acc <= 0x8000_0000,
        decreases len - i,
    {
        let c = s.get_char(i);
        let cu = c as u32;
        proof {
            assert(mag[i - start] == s@[i as int]);
        }
        if cu < 48 || cu > 57 {
            proof {
                assert(0 <= i - start < mag.len());
                assert(!is_digit(mag[i - start]));
                assert(!all_digits(mag));
                assert(parse_i32_spec(s@) is None);
            }
            return None;
        }
        let d: i64 = (cu - 48) as i64;
        acc = acc * 10 + d;
        proof {
            assert(mag.take(i - start + 1).drop_last() =~= mag.take(i - start));
            assert(mag.take(i - start + 1).last() == mag[i - start]);
            assert(digit_val(mag[i - start]) == d);
        }
        i = i + 1;
        if acc > 0x8000_0000 {
            // the value can only grow with further digits, so it is out of
            // range whatever follows, unless a later character is not a
            // digit, in which case parsing fails anyway
            proof {
                assert(acc == digits_val(mag.take(i - start)));
                if all_digits(mag) {
                    lemma_digits_val_extend(mag, i - start);
                    assert(digits_val(mag) >= acc);
                    assert(digits_val(mag) > 0x8000_0000);
                }
                assert(parse_i32_spec(s@) is None);
            }
            return None;
        }
    }
    proof {
        assert(mag.take(len - start) =~= mag);
        assert(all_digits(mag));
        lemma_digits_val_nonneg(mag);
    }
    if neg {
        let v: i64 = -acc;
        Some(v as i32)
    } else {
        if acc > 0x7fff_ffff {
            proof {
                let v = digits_val(mag);
                assert(v == acc);
            }
            return None;
        }
        Some(acc as i32)
    }
}

} // verus!
