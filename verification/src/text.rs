//! Character-level text utilities shared by the command router, the
//! repository resolver and the configuration parser: splitting on a
//! separator, parsing bounded decimal numbers, and rendering small decimal
//! numbers.

use vstd::prelude::*;

verus! {

/// One step of splitting: a separator opens a new empty token; any other
/// character extends the token under construction.
pub open spec fn split_step(acc: Seq<Seq<char>>, c: char, sep: char) -> Seq<Seq<char>>
    recommends
        acc.len() >= 1,
{
    if c == sep {
        acc.push(Seq::empty())
    } else {
        acc.update(acc.len() - 1, acc.last().push(c))
    }
}

/// The tokens of `s` split on the single separator `sep`, with empty tokens
/// kept, exactly as splitting on one separator character yields them: the
/// empty input gives one empty token, and each separator ends a token.
pub open spec fn split_chars(s: Seq<char>, sep: char) -> Seq<Seq<char>>
    decreases s.len(),
{
    if s.len() == 0 {
        seq![Seq::<char>::empty()]
    } else {
        split_step(split_chars(s.drop_last(), sep), s.last(), sep)
    }
}

/// A split always yields at least one token.
pub proof fn lemma_split_chars_len(s: Seq<char>, sep: char)
    ensures
        split_chars(s, sep).len() >= 1,
    decreases s.len(),
{
    if s.len() > 0 {
        lemma_split_chars_len(s.drop_last(), sep);
    }
}

/// Splits `s` on the separator `sep`, keeping empty tokens.
pub fn split_on(s: &str, sep: char) -> (tokens: Vec<String>)
    ensures
        tokens.deep_view() == split_chars(s@, sep),
        tokens.len() >= 1,
{
    let n = s.unicode_len();
    let mut done: Vec<String> = Vec::new();
    let mut cur: String = String::new();
    let mut i: usize = 0;
    while i < n
        invariant
            n == s@.len(),
            i <= n,
            done.deep_view().push(cur@) == split_chars(s@.take(i as int), sep),
        decreases n - i,
    {
        let ghost prev_acc = done.deep_view().push(cur@);
        let c = s.get_char(i);
        if c == sep {
            done.push(cur);
            cur = String::new();
            proof {
                assert(done.deep_view().push(cur@) =~~= prev_acc.push(Seq::<char>::empty()));
            }
        } else {
            let piece = s.substring_char(i, i + 1);
            cur.append(piece);
            proof {
                assert(piece@ =~= seq![s@[i as int]]);
                assert(done.deep_view().push(cur@) =~~= prev_acc.update(
                    prev_acc.len() - 1,
                    prev_acc.last().push(c),
                ));
            }
        }
        proof {
            assert(s@.take(i + 1).drop_last() =~= s@.take(i as int));
            assert(s@.take(i + 1).last() == s@[i as int]);
            assert(split_chars(s@.take(i + 1), sep) == split_step(
                split_chars(s@.take(i as int), sep),
                s@[i as int],
                sep,
            ));
            lemma_split_chars_len(s@.take(i as int), sep);
        }
        i += 1;
    }
    done.push(cur);
    proof {
        assert(s@.take(n as int) =~= s@);
    }
    done
}

/// Whether `c` is an ASCII decimal digit.
pub open spec fn is_dec_digit(c: char) -> bool {
    48 <= c as u32 <= 57
}

/// The numeric value of one decimal digit; other characters count as zero.
pub open spec fn dec_digit_val(c: char) -> nat {
    if is_dec_digit(c) {
        (c as u32 - 48) as nat
    } else {
        0
    }
}

/// The value of `s` read as a decimal numeral, most significant digit first.
pub open spec fn dec_value(s: Seq<char>) -> nat
    decreases s.len(),
{
    if s.len() == 0 {
        0
    } else {
        dec_value(s.drop_last()) * 10 + dec_digit_val(s.last())
    }
}

/// A non-empty, all-digit string.
pub open spec fn is_dec_string(s: Seq<char>) -> bool {
    s.len() >= 1 && forall|j: int| 0 <= j < s.len() ==> is_dec_digit(#[trigger] s[j])
}

/// Extending a numeral never lowers its value.
pub proof fn lemma_dec_value_prefix(s: Seq<char>, i: int)
    requires
        0 <= i <= s.len(),
    ensures
        dec_value(s) >= dec_value(s.take(i)),
    decreases s.len(),
{
    if i < s.len() {
        assert(s.drop_last().take(i) =~= s.take(i));
        lemma_dec_value_prefix(s.drop_last(), i);
    } else {
        assert(s.take(i) =~= s);
    }
}

/// Parses `s` as a decimal numeral no greater than `max`: `Some` exactly on
/// non-empty all-digit strings whose value fits the bound.
pub fn parse_decimal(s: &str, max: u32) -> (r: Option<u32>)
    ensures
        r is Some <==> is_dec_string(s@) && dec_value(s@) <= max,
        r is Some ==> r->0 == dec_value(s@) && r->0 <= max,
{
    let n = s.unicode_len();
    if n == 0 {
        return None;
    }
    let mut acc: u32 = 0;
    let mut i: usize = 0;
    while i < n
        invariant
            n == s@.len(),
            0 < n,
            i <= n,
            acc <= max,
            acc == dec_value(s@.take(i as int)),
            forall|j: int| 0 <= j < i ==> is_dec_digit(#[trigger] s@[j]),
        decreases n - i,
    {
        let c = s.get_char(i);
        let v = c as u32;
        if v < 48 || v > 57 {
            assert(!is_dec_digit(s@[i as int]));
            return None;
        }
        let d = v - 48;
        proof {
            assert(s@.take(i + 1).drop_last() =~= s@.take(i as int));
            assert(s@.take(i + 1).last() == s@[i as int]);
            assert(dec_value(s@.take(i + 1)) == acc * 10 + d);
        }
        if acc > max / 10 || (acc == max / 10 && d > max % 10) {
            proof {
                assert(acc * 10 + d > max) by (nonlinear_arith)
                    requires
                        acc > max / 10 || (acc == max / 10 && d > max % 10),
                        acc >= 0,
                        d >= 0,
                        max >= 0,
                ;
                lemma_dec_value_prefix(s@, i + 1);
            }
            return None;
        }
        proof {
            assert(acc * 10 + d <= max) by (nonlinear_arith)
                requires
                    acc <= max / 10,
                    acc == max / 10 ==> d <= max % 10,
                    0 <= d <= 9,
                    max >= 0,
                    acc >= 0,
            ;
        }
        acc = acc * 10 + d;
        i += 1;
    }
    proof {
        assert(s@.take(n as int) =~= s@);
    }
    Some(acc)
}

/// The character of one decimal digit.
pub open spec fn dec_digit_char(d: nat) -> char {
    if d == 0 {
        '0'
    } else if d == 1 {
        '1'
    } else if d == 2 {
        '2'
    } else if d == 3 {
        '3'
    } else if d == 4 {
        '4'
    } else if d == 5 {
        '5'
    } else if d == 6 {
        '6'
    } else if d == 7 {
        '7'
    } else if d == 8 {
        '8'
    } else {
        '9'
    }
}

/// The decimal rendering of `n`, most significant digit first, no sign and
/// no leading zero except for zero itself.
pub open spec fn dec_chars_of(n: nat) -> Seq<char>
    decreases n,
{
    if n < 10 {
        seq![dec_digit_char(n)]
    } else {
        dec_chars_of(n / 10).push(dec_digit_char(n % 10))
    }
}

/// Appends the decimal rendering of `n` to `out`.
pub fn push_decimal_u8(out: &mut String, n: u8)
    ensures
        final(out)@ == old(out)@ + dec_chars_of(n as nat),
    decreases n,
{
    proof {
        reveal_strlit("0123456789");
    }
    if n >= 10 {
        push_decimal_u8(out, n / 10);
    }
    let d = (n % 10) as usize;
    let digits = "0123456789";
    let piece = digits.substring_ascii(d, d + 1);
    proof {
        assert(piece@ =~= seq![dec_digit_char((n % 10) as nat)]);
    }
    out.append(piece);
    proof {
        if n >= 10 {
            assert(old(out)@ + dec_chars_of((n / 10) as nat) + piece@ =~= old(out)@
                + dec_chars_of(n as nat));
        } else {
            assert(old(out)@ + piece@ =~= old(out)@ + dec_chars_of(n as nat));
        }
    }
}

} // verus!
