//! Reading numbers out of argument text.

use vstd::prelude::*;

verus! {

/// Whether `c` is one of the ten ASCII digits.
pub open spec fn is_digit(c: char) -> bool {
    '0' <= c && c <= '9'
}

/// The number that the digit `c` stands for.
pub open spec fn digit_value(c: char) -> int {
    c as int - '0' as int
}

/// Whether every character of `s` is a digit.
pub open spec fn all_digits(s: Seq<char>) -> bool {
    forall|i: int| 0 <= i < s.len() ==> is_digit(#[trigger] s[i])
}

/// A numeral: one digit or more.
pub open spec fn is_numeral(s: Seq<char>) -> bool {
    s.len() > 0 && all_digits(s)
}

/// The value of a run of digits read in base ten, most significant digit first.
pub open spec fn decimal_value(s: Seq<char>) -> int
    decreases s.len(),
{
    if s.len() == 0 {
        0
    } else {
        10 * decimal_value(s.drop_last()) + digit_value(s.last())
    }
}

/// What is left of `s` once one leading `+` is taken away.
pub open spec fn without_plus(s: Seq<char>) -> Seq<char> {
    if s.len() > 0 && s[0] == '+' {
        s.skip(1)
    } else {
        s
    }
}

/// The number that `s` denotes as an unsigned decimal integer no larger than
/// `max`: an optional `+`, then a numeral. Anything else denotes nothing.
pub open spec fn unsigned_value(s: Seq<char>, max: int) -> Option<int> {
    let body = without_plus(s);
    if is_numeral(body) && decimal_value(body) <= max {
        Some(decimal_value(body))
    } else {
        None
    }
}

/// The number that `s` denotes as a signed decimal integer between `min` and
/// `max`: an optional `+` or `-`, then a numeral. Anything else denotes
/// nothing.
pub open spec fn signed_value(s: Seq<char>, min: int, max: int) -> Option<int> {
    if s.len() > 0 && s[0] == '-' {
        let body = s.skip(1);
        if is_numeral(body) && min <= -decimal_value(body) {
            Some(-decimal_value(body))
        } else {
            None
        }
    } else {
        unsigned_value(s, max)
    }
}

/// The characters of `s`, one by one.
pub fn chars_of(s: &str) -> (v: Vec<char>)
    ensures
        v@ == s@,
{
    let mut v: Vec<char> = Vec::new();
    for c in it: s.chars()
        invariant
            it.seq() == s@,
            v@ == it.seq().take(it.index() as int),
    {
        v.push(c);
    }
    v
}

/// Whether `token` and `word` are the same text.
pub fn token_is(token: &str, word: &str) -> (r: bool)
    ensures
        r == (token@ == word@),
{
    let left = chars_of(token);
    let right = chars_of(word);
    if left.len() != right.len() {
        return false;
    }
    let mut i: usize = 0;
    while i < left.len()
        invariant
            left@ == token@,
            right@ == word@,
            left.len() == right.len(),
            i <= left.len(),
            forall|k: int| 0 <= k < i ==> left@[k] == right@[k],
        decreases left.len() - i,
    {
        if left[i] != right[i] {
            return false;
        }
        i += 1;
    }
    assert(left@ =~= right@);
    true
}

/// A run of digits is worth at least as much as any of its prefixes.
proof fn lemma_decimal_value_prefix(s: Seq<char>, k: int)
    requires
        all_digits(s),
        0 <= k <= s.len(),
    ensures
        0 <= decimal_value(s.take(k)) <= decimal_value(s),
    decreases s.len(),
{
    if k == s.len() {
        assert(s.take(k) =~= s);
        if s.len() > 0 {
            lemma_decimal_value_prefix(s.drop_last(), k - 1);
            assert(s.drop_last().take(k - 1) =~= s.drop_last());
        }
    } else {
        lemma_decimal_value_prefix(s.drop_last(), k);
        assert(s.drop_last().take(k) =~= s.take(k));
    }
}

/// Reads the numeral that fills `chars` from `start` to the end, if it is one
/// and is worth no more than `max`.
fn parse_numeral(chars: &Vec<char>, start: usize, max: u64) -> (r: Option<u64>)
    requires
        start <= chars.len(),
        max <= 0xffff_ffff,
    ensures
        match r {
            Some(v) => is_numeral(chars@.skip(start as int)) && v <= max && v == decimal_value(
                chars@.skip(start as int),
            ),
            None => !is_numeral(chars@.skip(start as int)) || decimal_value(
                chars@.skip(start as int),
            ) > max,
        },
{
    let n = chars.len();
    let ghost body = chars@.skip(start as int);
    if start == n {
        return None;
    }
    let mut acc: u64 = 0;
    let mut i: usize = start;
    while i < n
        invariant
            start <= i <= n,
            n == chars.len(),
            body == chars@.skip(start as int),
            max <= 0xffff_ffff,
            all_digits(body.take(i - start)),
            acc == decimal_value(body.take(i - start)),
            acc <= max,
        decreases n - i,
    {
        let c = chars[i];
        if !(c >= '0' && c <= '9') {
            assert(!is_digit(body[i - start]));
            return None;
        }
        let d: u64 = (c as u64) - ('0' as u64);
        let next: u64 = acc * 10 + d;
        proof {
            let p = body.take(i - start + 1);
            assert(p.drop_last() =~= body.take(i - start));
            assert(p.last() == c);
            assert(next == decimal_value(p));
            assert(all_digits(p)) by {
                assert forall|k: int| 0 <= k < p.len() implies is_digit(#[trigger] p[k]) by {
                    if k < i - start {
                        assert(p[k] == body.take(i - start)[k]);
                    }
                }
            }
            if next > max && all_digits(body) {
                lemma_decimal_value_prefix(body, i - start + 1);
            }
        }
        if next > max {
            return None;
        }
        acc = next;
        i += 1;
    }
    assert(body.take(i - start) =~= body);
    Some(acc)
}

/// Reads `token` as a `u8`.
pub fn parse_u8(token: &str) -> (r: Option<u8>)
    ensures
        match r {
            Some(v) => unsigned_value(token@, 255) == Some(v as int),
            None => unsigned_value(token@, 255) is None,
        },
{
    let chars = chars_of(token);
    let start: usize = if chars.len() > 0 && chars[0] == '+' {
        1
    } else {
        0
    };
    assert(chars@.skip(start as int) =~= without_plus(token@));
    match parse_numeral(&chars, start, 255) {
        Some(v) => Some(v as u8),
        None => None,
    }
}

/// Reads `token` as a `u32`.
pub fn parse_u32(token: &str) -> (r: Option<u32>)
    ensures
        match r {
            Some(v) => unsigned_value(token@, 0xffff_ffff) == Some(v as int),
            None => unsigned_value(token@, 0xffff_ffff) is None,
        },
{
    let chars = chars_of(token);
    let start: usize = if chars.len() > 0 && chars[0] == '+' {
        1
    } else {
        0
    };
    assert(chars@.skip(start as int) =~= without_plus(token@));
    match parse_numeral(&chars, start, 0xffff_ffff) {
        Some(v) => Some(v as u32),
        None => None,
    }
}

/// Reads `token` as an `i32`.
pub fn parse_i32(token: &str) -> (r: Option<i32>)
    ensures
        match r {
            Some(v) => signed_value(token@, -0x8000_0000, 0x7fff_ffff) == Some(v as int),
            None => signed_value(token@, -0x8000_0000, 0x7fff_ffff) is None,
        },
{
    let chars = chars_of(token);
    if chars.len() > 0 && chars[0] == '-' {
        match parse_numeral(&chars, 1, 0x8000_0000) {
            Some(v) => {
                if v == 0x8000_0000 {
                    Some(i32::MIN)
                } else {
                    Some(-(v as i32))
                }
            },
            None => None,
        }
    } else {
        let start: usize = if chars.len() > 0 && chars[0] == '+' {
            1
        } else {
            0
        };
        assert(chars@.skip(start as int) =~= without_plus(token@));
        match parse_numeral(&chars, start, 0x7fff_ffff) {
            Some(v) => Some(v as i32),
            None => None,
        }
    }
}

/// Whether `c` is `+` or `-`.
pub open spec fn is_sign(c: char) -> bool {
    c == '+' || c == '-'
}

/// What is left of `s` once one leading sign is taken away.
pub open spec fn without_sign(s: Seq<char>) -> Seq<char> {
    if s.len() > 0 && is_sign(s[0]) {
        s.skip(1)
    } else {
        s
    }
}

/// Whether `s` is digits around a point at index `k`, with a digit on one
/// side at least.
pub open spec fn is_pointed_at(s: Seq<char>, k: int) -> bool {
    &&& 0 <= k < s.len()
    &&& s[k] == '.'
    &&& s.len() >= 2
    &&& all_digits(s.take(k))
    &&& all_digits(s.skip(k + 1))
}

/// A mantissa: a numeral, or digits around one point.
pub open spec fn is_mantissa(s: Seq<char>) -> bool {
    is_numeral(s) || exists|k: int| is_pointed_at(s, k)
}

/// An exponent: `e` or `E`, an optional sign, a numeral.
pub open spec fn is_exponent(s: Seq<char>) -> bool {
    &&& s.len() > 0
    &&& (s[0] == 'e' || s[0] == 'E')
    &&& is_numeral(without_sign(s.skip(1)))
}

/// Whether the first `k` characters of `s` are a mantissa and the rest is
/// empty or an exponent.
pub open spec fn is_number_split_at(s: Seq<char>, k: int) -> bool {
    &&& 0 <= k <= s.len()
    &&& is_mantissa(s.take(k))
    &&& (k == s.len() || is_exponent(s.skip(k)))
}

/// A decimal number without sign: a mantissa, then an optional exponent.
pub open spec fn is_number(s: Seq<char>) -> bool {
    exists|k: int| is_number_split_at(s, k)
}

/// A decimal number: an optional sign, a mantissa, an optional exponent.
pub open spec fn is_decimal_number(s: Seq<char>) -> bool {
    is_number(without_sign(s))
}

/// The end of the run of digits that starts at `from`.
fn digits_end(chars: &Vec<char>, from: usize) -> (to: usize)
    requires
        from <= chars.len(),
    ensures
        from <= to <= chars.len(),
        forall|i: int| from <= i < to ==> is_digit(#[trigger] chars@[i]),
        to < chars.len() ==> !is_digit(chars@[to as int]),
{
    let mut to: usize = from;
    while to < chars.len() && chars[to] >= '0' && chars[to] <= '9'
        invariant
            from <= to <= chars.len(),
            forall|i: int| from <= i < to ==> is_digit(#[trigger] chars@[i]),
        decreases chars.len() - to,
    {
        to += 1;
    }
    to
}

/// In a number, the mantissa ends where the digits and the point end.
proof fn lemma_mantissa_end(s: Seq<char>, a: int, m: int, k: int)
    requires
        0 <= a <= m <= s.len(),
        forall|i: int| 0 <= i < a ==> is_digit(#[trigger] s[i]),
        a < s.len() ==> !is_digit(s[a]),
        a < s.len() && s[a] == '.' ==> a < m && (forall|i: int|
            a < i < m ==> is_digit(#[trigger] s[i])) && (m < s.len() ==> !is_digit(s[m])),
        !(a < s.len() && s[a] == '.') ==> m == a,
        is_number_split_at(s, k),
    ensures
        k == m,
        a < s.len() && s[a] == '.' ==> m >= 2,
        !(a < s.len() && s[a] == '.') ==> m >= 1,
{
    let t = s.take(k);
    if k < s.len() {
        assert(s.skip(k)[0] == s[k]);
    }
    if is_numeral(t) {
        assert forall|i: int| 0 <= i < k implies is_digit(s[i]) by {
            assert(t[i] == s[i]);
        }
        if k > a {
            assert(is_digit(s[a]));
        }
        if k < a {
            assert(is_digit(s[k]));
        }
    } else {
        let j = choose|j: int| is_pointed_at(t, j);
        assert(t[j] == s[j]);
        assert forall|i: int| 0 <= i < j implies is_digit(s[i]) by {
            assert(t.take(j)[i] == s[i]);
        }
        assert forall|i: int| j < i < k implies is_digit(s[i]) by {
            assert(t.skip(j + 1)[i - j - 1] == s[i]);
        }
        if j > a {
            assert(is_digit(s[a]));
        }
        if j < a {
            assert(is_digit(s[j]));
        }
        if k > m {
            assert(is_digit(s[m]));
        }
        if k < m {
            assert(is_digit(s[k]));
        }
    }
}

/// Whether the characters of `chars` from `start` on are a number.
fn is_number_from(chars: &Vec<char>, start: usize) -> (r: bool)
    requires
        start <= chars.len(),
    ensures
        r == is_number(chars@.skip(start as int)),
{
    let n = chars.len();
    let ghost s = chars@.skip(start as int);
    let a = digits_end(chars, start);
    let pointed = a < n && chars[a] == '.';
    let m = if pointed {
        digits_end(chars, a + 1)
    } else {
        a
    };
    let digits = if pointed {
        m - start - 1
    } else {
        m - start
    };
    proof {
        assert forall|k: int| is_number_split_at(s, k) implies k == m - start && digits >= 1 by {
            lemma_mantissa_end(s, a - start, m - start, k);
        }
    }
    if digits == 0 {
        return false;
    }
    proof {
        let t = s.take(m - start);
        if pointed {
            assert(all_digits(t.take(a - start)));
            assert(all_digits(t.skip(a - start + 1)));
            assert(is_pointed_at(t, a - start));
        } else {
            assert(is_numeral(t));
        }
        assert(is_mantissa(t));
    }
    if m == n {
        assert(is_number_split_at(s, m - start));
        return true;
    }
    if !(chars[m] == 'e' || chars[m] == 'E') {
        assert(s.skip(m - start)[0] == chars@[m as int]);
        return false;
    }
    let p = if m + 1 < n && (chars[m + 1] == '+' || chars[m + 1] == '-') {
        m + 2
    } else {
        m + 1
    };
    let q = digits_end(chars, p);
    proof {
        let e = s.skip(m - start);
        assert(e[0] == chars@[m as int]);
        let d = without_sign(e.skip(1));
        assert(d =~= chars@.skip(p as int));
        if q > p && q == n {
            assert(is_numeral(d));
            assert(is_number_split_at(s, m - start));
        } else if q < n {
            assert(!is_digit(d[q - p]));
        }
    }
    q > p && q == n
}

/// Whether `token` is a decimal number.
pub fn is_decimal_token(token: &str) -> (r: bool)
    ensures
        r == is_decimal_number(token@),
{
    let chars = chars_of(token);
    let start: usize = if chars.len() > 0 && (chars[0] == '+' || chars[0] == '-') {
        1
    } else {
        0
    };
    assert(chars@.skip(start as int) =~= without_sign(token@));
    is_number_from(&chars, start)
}

} // verus!
