//! Plain-text helpers: decimal rendering and parsing of identifiers, and
//! whitespace stripping for slugs.

use vstd::prelude::*;

verus! {

/// The decimal digit character for a value below ten.
pub open spec fn dec_digit(d: nat) -> char {
    if d == 0 {
        '0'
    } else if d == 1 {
        '1'
    } else if d == 2 {
        '2'
    } else if d == 3 {
        '3'
    } else if d == 4 {
        '4'
    } else if d == 5 {
        '5'
    } else if d == 6 {
        '6'
    } else if d == 7 {
        '7'
    } else if d == 8 {
        '8'
    } else {
        '9'
    }
}

/// The decimal rendering of a natural number, without leading zeros
/// (except for zero itself).
pub open spec fn dec_str(n: nat) -> Seq<char>
    decreases n,
{
    if n < 10 {
        seq![dec_digit(n)]
    } else {
        dec_str(n / 10).push(dec_digit(n % 10))
    }
}

/// Whether a character is a decimal digit.
pub open spec fn is_dec_digit(c: char) -> bool {
    '0' <= c && c <= '9'
}

/// The numeric value of a digit character.
pub open spec fn digit_val(c: char) -> nat {
    (c as nat - '0' as nat) as nat
}

/// Whether every character of the sequence is a decimal digit.
pub open spec fn all_digits(s: Seq<char>) -> bool {
    forall|i: int| 0 <= i < s.len() ==> is_dec_digit(#[trigger] s[i])
}

/// The value of a sequence of decimal digits.
pub open spec fn dec_val(s: Seq<char>) -> nat
    decreases s.len(),
{
    if s.len() == 0 {
        0
    } else {
        dec_val(s.drop_last()) * 10 + digit_val(s.last())
    }
}

/// The rendering of `n` consists of digits and evaluates back to `n`.
pub proof fn lemma_dec_str_val(n: nat)
    ensures
        dec_str(n).len() >= 1,
        all_digits(dec_str(n)),
        dec_val(dec_str(n)) == n,
    decreases n,
{
    if n < 10 {
        let s = dec_str(n);
        assert(s =~= seq![dec_digit(n)]);
        assert(s.drop_last() =~= Seq::<char>::empty());
        assert(dec_val(s.drop_last()) == 0);
        assert(s.last() == dec_digit(n));
        assert(dec_val(s) == 0 * 10 + digit_val(dec_digit(n)));
    } else {
        lemma_dec_str_val(n / 10);
        let s = dec_str(n / 10).push(dec_digit(n % 10));
        assert(s.drop_last() =~= dec_str(n / 10));
        assert(s.last() == dec_digit(n % 10));
        assert(digit_val(dec_digit(n % 10)) == n % 10);
        assert(dec_val(s) == (n / 10) * 10 + n % 10);
        assert((n / 10) * 10 + n % 10 == n) by (nonlinear_arith);
        assert(forall|i: int| 0 <= i < s.len() ==> is_dec_digit(#[trigger] s[i]));
    }
}

/// Appending a digit multiplies the value by ten and adds the digit.
pub proof fn lemma_dec_val_push(s: Seq<char>, c: char)
    ensures
        dec_val(s.push(c)) == dec_val(s) * 10 + digit_val(c),
{
    assert(s.push(c).drop_last() =~= s);
    assert(s.push(c).last() == c);
}

/// Along a digit string, the value of a prefix never exceeds the value of
/// a longer prefix.
pub proof fn lemma_dec_val_prefix_le(s: Seq<char>, i: int, j: int)
    requires
        0 <= i <= j <= s.len(),
    ensures
        dec_val(s.subrange(0, i)) <= dec_val(s.subrange(0, j)),
    decreases j - i,
{
    if i < j {
        lemma_dec_val_prefix_le(s, i, j - 1);
        let p = s.subrange(0, j - 1);
        lemma_dec_val_push(p, s[j - 1]);
        assert(s.subrange(0, j) =~= p.push(s[j - 1]));
        assert(dec_val(p) * 10 >= dec_val(p)) by (nonlinear_arith);
    }
}

/// Appends the decimal digit `d` to `s`.
fn append_digit(s: &mut String, d: u64)
    requires
        d < 10,
    ensures
        final(s)@ == old(s)@.push(dec_digit(d as nat)),
{
    if d == 0 {
        proof {
            reveal_strlit("0");
        }
        s.append("0");
        assert(final(s)@ =~= old(s)@.push(dec_digit(d as nat)));
    } else if d == 1 {
        proof {
            reveal_strlit("1");
        }
        s.append("1");
        assert(final(s)@ =~= old(s)@.push(dec_digit(d as nat)));
    } else if d == 2 {
        proof {
            reveal_strlit("2");
        }
        s.append("2");
        assert(final(s)@ =~= old(s)@.push(dec_digit(d as nat)));
    } else if d == 3 {
        proof {
            reveal_strlit("3");
        }
        s.append("3");
        assert(final(s)@ =~= old(s)@.push(dec_digit(d as nat)));
    } else if d == 4 {
        proof {
            reveal_strlit("4");
        }
        s.append("4");
        assert(final(s)@ =~= old(s)@.push(dec_digit(d as nat)));
    } else if d == 5 {
        proof {
            reveal_strlit("5");
        }
        s.append("5");
        assert(final(s)@ =~= old(s)@.push(dec_digit(d as nat)));
    } else if d == 6 {
        proof {
            reveal_strlit("6");
        }
        s.append("6");
        assert(final(s)@ =~= old(s)@.push(dec_digit(d as nat)));
    } else if d == 7 {
        proof {
            reveal_strlit("7");
        }
        s.append("7");
        assert(final(s)@ =~= old(s)@.push(dec_digit(d as nat)));
    } else if d == 8 {
        proof {
            reveal_strlit("8");
        }
        s.append("8");
        assert(final(s)@ =~= old(s)@.push(dec_digit(d as nat)));
    } else {
        proof {
            reveal_strlit("9");
        }
        s.append("9");
        assert(final(s)@ =~= old(s)@.push(dec_digit(d as nat)));
    }
}

/// The digit characters of `rev` read back to front.
pub open spec fn rev_digit_chars(rev: Seq<u64>) -> Seq<char> {
    Seq::new(rev.len(), |i: int| dec_digit(rev[rev.len() - 1 - i] as nat))
}

/// Renders `n` in decimal.
pub fn u64_to_string(n: u64) -> (s: String)
    ensures
        s@ == dec_str(n as nat),
{
    let mut rev: Vec<u64> = Vec::new();
    let mut m: u64 = n;
    while m >= 10
        invariant
            dec_str(n as nat) =~= dec_str(m as nat) + rev_digit_chars(rev@),
            forall|i: int| 0 <= i < rev@.len() ==> #[trigger] rev@[i] < 10,
        decreases m,
    {
        let d = m % 10;
        proof {
            let rev1 = rev@.push(d);
            assert(rev_digit_chars(rev1) =~= seq![dec_digit(d as nat)] + rev_digit_chars(rev@));
            assert(dec_str(m as nat) =~= dec_str((m / 10) as nat).push(dec_digit(d as nat)));
            assert(dec_str((m / 10) as nat) + rev_digit_chars(rev1) =~= dec_str(m as nat)
                + rev_digit_chars(rev@));
        }
        rev.push(d);
        m = m / 10;
    }
    let mut s = String::new();
    append_digit(&mut s, m);
    assert(s@ =~= dec_str(m as nat));
    let mut i: usize = rev.len();
    while i > 0
        invariant
            i <= rev@.len(),
            forall|k: int| 0 <= k < rev@.len() ==> #[trigger] rev@[k] < 10,
            s@ =~= dec_str(m as nat) + rev_digit_chars(rev@).subrange(
                0,
                rev@.len() - i,
            ),
        decreases i,
    {
        i = i - 1;
        append_digit(&mut s, rev[i]);
        proof {
            let rc = rev_digit_chars(rev@);
            assert(rc[rev@.len() - 1 - i] == dec_digit(rev@[i as int] as nat));
            assert(rc.subrange(0, rev@.len() - i) =~= rc.subrange(0, rev@.len() - 1 - i).push(
                rc[rev@.len() - 1 - i],
            ));
        }
    }
    proof {
        assert(rev_digit_chars(rev@).subrange(0, rev@.len() as int) =~= rev_digit_chars(rev@));
    }
    s
}

/// Parses a decimal digit string; `None` when the string is empty, holds a
/// non-digit, or encodes a value above `u64::MAX`.
pub fn parse_u64(s: &str) -> (r: Option<u64>)
    ensures
        r is Some <==> s@.len() > 0 && all_digits(s@) && dec_val(s@) <= u64::MAX,
        r matches Some(n) ==> n == dec_val(s@),
{
    let len = s.unicode_len();
    if len == 0 {
        return None;
    }
    let mut acc: u64 = 0;
    let mut i: usize = 0;
    while i < len
        invariant
            0 <= i <= len,
            len == s@.len(),
            all_digits(s@.subrange(0, i as int)),
            acc == dec_val(s@.subrange(0, i as int)),
        decreases len - i,
    {
        let c = s.get_char(i);
        let v = c as u32;
        proof {
            assert(s@.subrange(0, i + 1) =~= s@.subrange(0, i as int).push(s@[i as int]));
            lemma_dec_val_push(s@.subrange(0, i as int), s@[i as int]);
        }
        if v < 48 || v > 57 {
            proof {
                assert(!is_dec_digit(s@[i as int]));
            }
            return None;
        }
        let d = (v - 48) as u64;
        proof {
            assert(digit_val(s@[i as int]) == d);
        }
        if acc > (u64::MAX - d) / 10 {
            proof {
                let p1 = s@.subrange(0, i + 1);
                assert(dec_val(p1) == acc * 10 + d);
                assert(acc * 10 + d > u64::MAX) by (nonlinear_arith)
                    requires
                        acc > (u64::MAX - d) / 10,
                        d < 10,
                ;
                lemma_dec_val_prefix_le(s@, i + 1, s@.len() as int);
                assert(s@.subrange(0, s@.len() as int) =~= s@);
            }
            return None;
        }
        proof {
            assert(acc * 10 + d <= u64::MAX) by (nonlinear_arith)
                requires
                    acc <= (u64::MAX - d) / 10,
                    d < 10,
            ;
        }
        acc = acc * 10 + d;
        i = i + 1;
    }
    proof {
        assert(s@.subrange(0, s@.len() as int) =~= s@);
    }
    Some(acc)
}

/// `s` with every space removed.
pub open spec fn strip_spaces_spec(s: Seq<char>) -> Seq<char>
    decreases s.len(),
{
    if s.len() == 0 {
        Seq::empty()
    } else if s.last() == ' ' {
        strip_spaces_spec(s.drop_last())
    } else {
        strip_spaces_spec(s.drop_last()).push(s.last())
    }
}

/// Removes every space from `s`, keeping the other characters in order.
pub fn strip_spaces(s: &str) -> (r: String)
    ensures
        r@ == strip_spaces_spec(s@),
{
    let len = s.unicode_len();
    let mut r = String::new();
    let mut i: usize = 0;
    while i < len
        invariant
            0 <= i <= len,
            len == s@.len(),
            r@ == strip_spaces_spec(s@.subrange(0, i as int)),
        decreases len - i,
    {
        let c = s.get_char(i);
        proof {
            let p1 = s@.subrange(0, i + 1);
            assert(p1.drop_last() =~= s@.subrange(0, i as int));
            assert(p1.last() == s@[i as int]);
        }
        if !(c == ' ') {
            let piece = s.substring_char(i, i + 1);
            proof {
                assert(piece@ =~= seq![s@[i as int]]);
            }
            r.append(piece);
            proof {
                assert(r@ =~= strip_spaces_spec(s@.subrange(0, i + 1)));
            }
        }
        i = i + 1;
    }
    proof {
        assert(s@.subrange(0, s@.len() as int) =~= s@);
    }
    r
}

} // verus!
