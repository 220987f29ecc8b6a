//! Decimal text: rendering unsigned integers as decimal strings and
//! parsing decimal strings back, with exact specifications. Path names,
//! range headers and log messages are built from these.

use vstd::prelude::*;

verus! {

/// A decimal digit character.
pub open spec fn is_dec_digit(c: char) -> bool {
    '0' <= c && c <= '9'
}

/// The character for one digit value.
pub open spec fn digit_char(d: int) -> char {
    if d == 0 {
        '0'
    } else if d == 1 {
        '1'
    } else if d == 2 {
        '2'
    } else if d == 3 {
        '3'
    } else if d == 4 {
        '4'
    } else if d == 5 {
        '5'
    } else if d == 6 {
        '6'
    } else if d == 7 {
        '7'
    } else if d == 8 {
        '8'
    } else {
        '9'
    }
}

/// The value of one digit character.
pub open spec fn digit_val(c: char) -> int {
    c as int - '0' as int
}

/// The canonical decimal rendering of a natural number: no sign, no
/// leading zeros (a single `'0'` for zero).
pub open spec fn dec_of(n: nat) -> Seq<char>
    decreases n,
{
    if n < 10 {
        seq![digit_char(n as int)]
    } else {
        dec_of(n / 10).push(digit_char((n % 10) as int))
    }
}

/// Every character of `s` is a decimal digit.
pub open spec fn all_dec_digits(s: Seq<char>) -> bool {
    forall|i: int| 0 <= i < s.len() ==> is_dec_digit(s[i])
}

/// The number denoted by a digit string, most significant digit first.
pub open spec fn digits_val(s: Seq<char>) -> int
    decreases s.len(),
{
    if s.len() == 0 {
        0
    } else {
        digits_val(s.drop_last()) * 10 + digit_val(s.last())
    }
}

/// `digit_char` and `digit_val` are inverse on digit values.
pub proof fn lemma_digit_char_val(d: int)
    requires
        0 <= d < 10,
    ensures
        is_dec_digit(digit_char(d)),
        digit_val(digit_char(d)) == d,
{
}

/// Reading a rendering back gives the number it was made from.
pub proof fn lemma_dec_of_val(n: nat)
    ensures
        digits_val(dec_of(n)) == n,
    decreases n,
{
    if n < 10 {
        lemma_digit_char_val(n as int);
        let s = dec_of(n);
        assert(s.drop_last() =~= Seq::<char>::empty());
        assert(digits_val(s.drop_last()) == 0);
        assert(s.last() == digit_char(n as int));
        assert(digits_val(s) == 0 * 10 + digit_val(digit_char(n as int)));
    } else {
        lemma_dec_of_val(n / 10);
        lemma_digit_char_val((n % 10) as int);
        assert(dec_of(n).drop_last() =~= dec_of(n / 10));
        assert(digits_val(dec_of(n)) == (n / 10) * 10 + n % 10);
        assert((n / 10) * 10 + n % 10 == n) by {
            vstd::arithmetic::div_mod::lemma_fundamental_div_mod(n as int, 10);
        }
    }
}

/// Distinct numbers render as distinct strings.
pub proof fn lemma_dec_of_injective(a: nat, b: nat)
    requires
        dec_of(a) == dec_of(b),
    ensures
        a == b,
{
    lemma_dec_of_val(a);
    lemma_dec_of_val(b);
}

/// The digit part of a decimal numeral: everything after an optional
/// leading `'+'`.
pub open spec fn dec_body(s: Seq<char>) -> Seq<char> {
    if s.len() > 0 && s[0] == '+' {
        s.skip(1)
    } else {
        s
    }
}

/// `s` denotes a `u64`: an optional `'+'`, then at least one digit, and a
/// value that fits.
pub open spec fn parseable_u64(s: Seq<char>) -> bool {
    &&& dec_body(s).len() > 0
    &&& all_dec_digits(dec_body(s))
    &&& digits_val(dec_body(s)) <= u64::MAX
}

/// A digit string denotes a nonnegative number.
pub proof fn lemma_digits_val_nonneg(s: Seq<char>)
    requires
        all_dec_digits(s),
    ensures
        digits_val(s) >= 0,
    decreases s.len(),
{
    if s.len() > 0 {
        assert(all_dec_digits(s.drop_last()));
        lemma_digits_val_nonneg(s.drop_last());
        assert(is_dec_digit(s.last()));
    }
}

/// A digit string is worth at least any of its prefixes.
pub proof fn lemma_digits_val_prefix_le(s: Seq<char>, j: int)
    requires
        all_dec_digits(s),
        0 <= j <= s.len(),
    ensures
        digits_val(s.take(j)) <= digits_val(s),
    decreases s.len() - j,
{
    if j < s.len() {
        let t = s.take(j + 1);
        assert(all_dec_digits(t));
        assert(t.drop_last() =~= s.take(j));
        lemma_digits_val_nonneg(s.take(j));
        assert(is_dec_digit(t.last()));
        assert(digits_val(t) == digits_val(s.take(j)) * 10 + digit_val(t.last()));
        lemma_digits_val_prefix_le(s, j + 1);
    } else {
        assert(s.take(j) =~= s);
    }
}

/// Parses a decimal `u64` from `s`: an optional leading `'+'`, then one
/// or more digits, rejecting anything else and values that overflow.
pub fn parse_u64(s: &str) -> (r: Option<u64>)
    ensures
        parseable_u64(s@) ==> r == Some((digits_val(dec_body(s@)) as u64)),
        !parseable_u64(s@) ==> r is None,
{
    let len: usize = s.unicode_len();
    if len == 0 {
        return None;
    }
    let first: char = s.get_char(0);
    let start: usize = if first == '+' {
        1
    } else {
        0
    };
    proof {
        assert(dec_body(s@) =~= s@.subrange(start as int, len as int));
    }
    if start == len {
        return None;
    }
    let ghost body = s@.subrange(start as int, len as int);
    let mut acc: u64 = 0;
    let mut i: usize = start;
    while i < len
        invariant
            start <= i <= len,
            len == s@.len(),
            start < len,
            body == s@.subrange(start as int, len as int),
            dec_body(s@) == body,
            all_dec_digits(body.take(i - start)),
            acc == digits_val(body.take(i - start)),
        decreases len - i,
    {
        let c: char = s.get_char(i);
        let v: u32 = c as u32;
        proof {
            assert(body[i - start] == c);
        }
        if v < 48 || v > 57 {
            proof {
                assert(!is_dec_digit(c));
                assert(!all_dec_digits(body));
            }
            return None;
        }
        let d: u64 = (v - 48) as u64;
        proof {
            assert(is_dec_digit(c));
            assert(digit_val(c) == d);
            assert(body.take(i + 1 - start).drop_last() =~= body.take(i - start));
            assert(body.take(i + 1 - start).last() == c);
            assert(all_dec_digits(body.take(i + 1 - start)));
            assert(digits_val(body.take(i + 1 - start)) == acc * 10 + d);
        }
        let next: u64 = match acc.checked_mul(10) {
            Some(t) => match t.checked_add(d) {
                Some(t2) => t2,
                None => {
                    proof {
                        overflow_means_unparseable(body, i + 1 - start);
                    }
                    return None;
                },
            },
            None => {
                proof {
                    lemma_digits_val_nonneg(body.take(i + 1 - start));
                    overflow_means_unparseable(body, i + 1 - start);
                }
                return None;
            },
        };
        acc = next;
        i = i + 1;
    }
    proof {
        assert(body.take(len - start) =~= body);
    }
    Some(acc)
}

/// If some prefix of the digit part is already worth more than `u64::MAX`,
/// the whole numeral does not denote a `u64`.
proof fn overflow_means_unparseable(body: Seq<char>, j: int)
    requires
        0 <= j <= body.len(),
        digits_val(body.take(j)) > u64::MAX || !all_dec_digits(body.take(j)),
    ensures
        !(all_dec_digits(body) && digits_val(body) <= u64::MAX),
{
    if all_dec_digits(body) {
        assert(all_dec_digits(body.take(j)));
        lemma_digits_val_prefix_le(body, j);
    }
}

/// The digit characters as one-character string slices.
fn digit_str(d: u64) -> (s: &'static str)
    requires
        d < 10,
    ensures
        s@ =~= seq![digit_char(d as int)],
{
    proof {
        reveal_strlit("0");
        reveal_strlit("1");
        reveal_strlit("2");
        reveal_strlit("3");
        reveal_strlit("4");
        reveal_strlit("5");
        reveal_strlit("6");
        reveal_strlit("7");
        reveal_strlit("8");
        reveal_strlit("9");
    }
    if d == 0 {
        "0"
    } else if d == 1 {
        "1"
    } else if d == 2 {
        "2"
    } else if d == 3 {
        "3"
    } else if d == 4 {
        "4"
    } else if d == 5 {
        "5"
    } else if d == 6 {
        "6"
    } else if d == 7 {
        "7"
    } else if d == 8 {
        "8"
    } else {
        "9"
    }
}

/// The digit characters named by `rev`, read from its end to its start.
spec fn rev_digit_chars(rev: Seq<u64>) -> Seq<char> {
    Seq::new(rev.len(), |i: int| digit_char(rev[rev.len() - 1 - i] as int))
}

/// Pushing a digit onto `rev` prepends its character to the rendering.
proof fn lemma_rev_digit_chars_push(rev: Seq<u64>, d: u64)
    ensures
        rev_digit_chars(rev.push(d)) =~= seq![digit_char(d as int)] + rev_digit_chars(rev),
{
}

/// Renders `n` in decimal.
pub fn u64_to_string(n: u64) -> (s: String)
    ensures
        s@ == dec_of(n as nat),
{
    let mut rev: Vec<u64> = Vec::new();
    let d0: u64 = n % 10;
    let mut m: u64 = n / 10;
    proof {
        lemma_rev_digit_chars_push(Seq::<u64>::empty(), d0);
        if m == 0 {
            assert(dec_of(n as nat) =~= rev_digit_chars(seq![d0]));
        } else {
            assert(dec_of(n as nat) =~= dec_of(m as nat) + rev_digit_chars(seq![d0]));
        }
    }
    rev.push(d0);
    while m > 0
        invariant
            dec_of(n as nat) == if m > 0 {
                dec_of(m as nat) + rev_digit_chars(rev@)
            } else {
                rev_digit_chars(rev@)
            },
            forall|i: int| 0 <= i < rev@.len() ==> rev@[i] < 10,
        decreases m,
    {
        let d: u64 = m % 10;
        let m2: u64 = m / 10;
        proof {
            lemma_rev_digit_chars_push(rev@, d);
            if m2 == 0 {
                assert(dec_of(m as nat) =~= seq![digit_char(d as int)]);
                assert(dec_of(n as nat) =~= rev_digit_chars(rev@.push(d)));
            } else {
                assert(dec_of(m as nat) =~= dec_of(m2 as nat) + seq![digit_char(d as int)]);
                assert(dec_of(n as nat) =~= dec_of(m2 as nat) + rev_digit_chars(rev@.push(d)));
            }
        }
        rev.push(d);
        m = m2;
    }
    let mut s = String::new();
    let ghost target = rev_digit_chars(rev@);
    let mut i: usize = rev.len();
    while i > 0
        invariant
            i <= rev@.len(),
            forall|k: int| 0 <= k < rev@.len() ==> rev@[k] < 10,
            target == rev_digit_chars(rev@),
            s@ == target.take(rev@.len() - i),
        decreases i,
    {
        i = i - 1;
        let d: u64 = rev[i];
        s.append(digit_str(d));
        proof {
            assert(s@ =~= target.take(rev@.len() - i));
        }
    }
    proof {
        assert(s@ =~= target);
    }
    s
}

} // verus!
