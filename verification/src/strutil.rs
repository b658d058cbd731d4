//! String helpers shared by the whole library: character classes, trimming,
//! single-character replacement, and decimal parsing and rendering.

use vstd::prelude::*;
use vstd::string::StrSliceExecFns;
use vstd::string::StringExecFns;

verus! {

/// The characters `str::trim` strips: the Unicode `White_Space` set.
pub open spec fn is_space(c: char) -> bool {
    c == ' ' || c == '\t' || c == '\n' || c == '\u{b}' || c == '\u{c}' || c == '\r'
        || c == '\u{85}' || c == '\u{a0}' || c == '\u{1680}'
        || ('\u{2000}' <= c && c <= '\u{200a}')
        || c == '\u{2028}' || c == '\u{2029}' || c == '\u{202f}' || c == '\u{205f}'
        || c == '\u{3000}'
}

pub open spec fn is_dec_digit(c: char) -> bool {
    '0' <= c && c <= '9'
}

/// Relies on `String::push`: appends the one character at the end.
#[verifier::external_body]
pub fn push_char(s: &mut String, c: char)
    ensures
        final(s)@ == old(s)@ + seq![c],
{
    s.push(c);
}

pub fn char_is_space(c: char) -> (r: bool)
    ensures
        r == is_space(c),
{
    c == ' ' || c == '\t' || c == '\n' || c == '\u{b}' || c == '\u{c}' || c == '\r'
        || c == '\u{85}' || c == '\u{a0}' || c == '\u{1680}'
        || ('\u{2000}' <= c && c <= '\u{200a}')
        || c == '\u{2028}' || c == '\u{2029}' || c == '\u{202f}' || c == '\u{205f}'
        || c == '\u{3000}'
}

pub fn char_is_dec_digit(c: char) -> (r: bool)
    ensures
        r == is_dec_digit(c),
{
    '0' <= c && c <= '9'
}

/// The spec-level trim: the subrange left after dropping white space from both
/// ends (everything, when the string is all white space).
pub open spec fn trimmed(s: Seq<char>) -> Seq<char> {
    if exists|i: int| 0 <= i < s.len() && !is_space(s[i]) {
        let lo = choose|lo: int|
            0 <= lo < s.len() && !is_space(s[lo]) && forall|j: int|
                0 <= j < lo ==> is_space(s[j]);
        let hi = choose|hi: int|
            lo <= hi < s.len() && !is_space(s[hi]) && forall|j: int|
                hi < j < s.len() ==> is_space(s[j]);
        s.subrange(lo, hi + 1)
    } else {
        Seq::empty()
    }
}

/// `str::trim`, verified: strips white space from both ends.
pub fn trim_str(s: &str) -> (r: &str)
    ensures
        r@ == trimmed(s@),
{
    let n: usize = s.unicode_len();
    let mut lo: usize = 0;
    while lo < n && char_is_space(s.get_char(lo))
        invariant
            0 <= lo <= n,
            n == s@.len(),
            forall|j: int| 0 <= j < lo ==> is_space(s@[j]),
        decreases n - lo,
    {
        lo = lo + 1;
    }
    if lo == n {
        proof {
            assert forall|i: int| 0 <= i < s@.len() implies is_space(s@[i]) by {}
        }
        let r = s.substring_char(0, 0);
        proof {
            assert(r@ =~= trimmed(s@));
        }
        return r;
    }
    let mut hi: usize = n - 1;
    while char_is_space(s.get_char(hi))
        invariant
            lo <= hi < n,
            n == s@.len(),
            !is_space(s@[lo as int]),
            forall|j: int| hi < j < n ==> is_space(s@[j]),
        decreases hi,
    {
        hi = hi - 1;
    }
    let r = s.substring_char(lo, hi + 1);
    proof {
        let lo0 = choose|l: int|
            0 <= l < s@.len() && !is_space(s@[l]) && forall|j: int| 0 <= j < l ==> is_space(s@[j]);
        let hi0 = choose|h: int|
            lo0 <= h < s@.len() && !is_space(s@[h]) && forall|j: int|
                h < j < s@.len() ==> is_space(s@[j]);
        assert(lo0 == lo as int);
        assert(hi0 == hi as int);
        assert(r@ =~= trimmed(s@));
    }
    r
}

/// The spec-level single-character replacement: each occurrence of `c` in `s`
/// becomes the sequence `rep`.
pub open spec fn replaced(s: Seq<char>, c: char, rep: Seq<char>) -> Seq<char>
    decreases s.len(),
{
    if s.len() == 0 {
        Seq::empty()
    } else {
        replaced(s.drop_last(), c, rep) + (if s.last() == c {
            rep
        } else {
            seq![s.last()]
        })
    }
}

/// `str::replace` for a one-character pattern, verified.
pub fn replace_char(s: &str, c: char, rep: &str) -> (r: String)
    ensures
        r@ == replaced(s@, c, rep@),
{
    let n: usize = s.unicode_len();
    let mut out = String::new();
    let mut i: usize = 0;
    while i < n
        invariant
            0 <= i <= n,
            n == s@.len(),
            out@ == replaced(s@.subrange(0, i as int), c, rep@),
        decreases n - i,
    {
        let ch = s.get_char(i);
        if ch == c {
            out.append(rep);
        } else {
            push_char(&mut out, ch);
        }
        proof {
            let pre = s@.subrange(0, i as int);
            let cur = s@.subrange(0, i + 1int);
            assert(cur.drop_last() =~= pre);
            assert(cur.last() == s@[i as int]);
        }
        i = i + 1;
    }
    proof {
        assert(s@.subrange(0, n as int) =~= s@);
    }
    out
}

/// The position just past the last occurrence of `c` in `s`, or 0 when `s`
/// has none.
pub open spec fn past_last(s: Seq<char>, c: char) -> int
    decreases s.len(),
{
    if s.len() == 0 {
        0
    } else if s.last() == c {
        s.len() as int
    } else {
        past_last(s.drop_last(), c)
    }
}

/// The segment after the last occurrence of `c`, or all of `s` when it has
/// none: what `rsplit(c).next()` and `split(c).last()` both give.
pub open spec fn after_last(s: Seq<char>, c: char) -> Seq<char> {
    s.skip(past_last(s, c))
}

/// The segment of `s` after its last `c`, verified against `after_last`.
pub fn suffix_after_last<'a>(s: &'a str, c: char) -> (r: &'a str)
    ensures
        r@ == after_last(s@, c),
{
    let n: usize = s.unicode_len();
    proof {
        assert(s@.subrange(0, n as int) =~= s@);
    }
    let mut k: usize = n;
    while k > 0 && s.get_char(k - 1) != c
        invariant
            0 <= k <= n,
            n == s@.len(),
            past_last(s@, c) == past_last(s@.subrange(0, k as int), c),
            forall|j: int| k <= j < n ==> s@[j] != c,
        decreases k,
    {
        proof {
            let cur = s@.subrange(0, k as int);
            assert(cur.drop_last() =~= s@.subrange(0, k - 1int));
            assert(cur.last() == s@[k - 1int]);
        }
        k = k - 1;
    }
    proof {
        if k > 0 {
            let cur = s@.subrange(0, k as int);
            assert(cur.last() == s@[k - 1int]);
            assert(past_last(cur, c) == k);
        }
        assert(past_last(s@, c) == k);
    }
    let r = s.substring_char(k, n);
    proof {
        assert(r@ =~= after_last(s@, c));
    }
    r
}

/// The numeric value of a sequence of decimal digits.
pub open spec fn dec_value(s: Seq<char>) -> nat
    decreases s.len(),
{
    if s.len() == 0 {
        0
    } else {
        dec_value(s.drop_last()) * 10 + ((s.last() as int - '0' as int) as nat)
    }
}

pub open spec fn all_dec_digits(s: Seq<char>) -> bool {
    forall|i: int| 0 <= i < s.len() ==> is_dec_digit(#[trigger] s[i])
}

/// Whether `usize::from_str` accepts `s`: at least one digit, an optional
/// leading `+`, and a value that fits.
pub open spec fn usize_accepts(s: Seq<char>) -> bool {
    (if s.len() > 0 && s[0] == '+' {
        s.len() > 1 && all_dec_digits(s.skip(1)) && dec_value(s.skip(1)) <= usize::MAX
    } else {
        s.len() > 0 && all_dec_digits(s) && dec_value(s) <= usize::MAX
    })
}

/// The value `usize::from_str` would return on an accepted string.
pub open spec fn usize_read(s: Seq<char>) -> nat {
    if s.len() > 0 && s[0] == '+' {
        dec_value(s.skip(1))
    } else {
        dec_value(s)
    }
}

/// `str::parse::<usize>`, verified: `Some` exactly on an optional `+` sign
/// followed by digits whose value fits in a `usize`.
pub fn parse_usize(s: &str) -> (r: Option<usize>)
    ensures
        r matches Some(v) ==> usize_accepts(s@) && v == usize_read(s@),
        r is None ==> !usize_accepts(s@),
{
    let n: usize = s.unicode_len();
    let start: usize = if n > 0 && s.get_char(0) == '+' {
        1
    } else {
        0
    };
    if n == start {
        return None;
    }
    let ghost digits = s@.skip(start as int);
    let mut acc: usize = 0;
    let mut i: usize = start;
    while i < n
        invariant
            start <= i <= n,
            n == s@.len(),
            start == 1 ==> s@[0] == '+',
            start == 0 ==> n == 0 || s@[0] != '+',
            start == 0 || start == 1,
            digits == s@.skip(start as int),
            all_dec_digits(s@.subrange(start as int, i as int)),
            acc == dec_value(s@.subrange(start as int, i as int)),
        decreases n - i,
    {
        let ch = s.get_char(i);
        if !char_is_dec_digit(ch) {
            proof {
                assert(digits[i - start] == s@[i as int]);
                assert(!all_dec_digits(digits));
                assert(s@.skip(0) =~= s@);
            }
            return None;
        }
        let d: u32 = ch as u32 - '0' as u32;
        proof {
            let pre = s@.subrange(start as int, i as int);
            let cur = s@.subrange(start as int, i + 1int);
            assert(cur.drop_last() =~= pre);
            assert(cur.last() == s@[i as int]);
            assert(all_dec_digits(cur)) by {
                assert(forall|j: int| 0 <= j < cur.len() - 1 ==> cur[j] == pre[j]);
            }
            assert(dec_value(cur) == dec_value(pre) * 10 + d);
        }
        let overflowed = match acc.checked_mul(10) {
            Some(acc10) => acc10.checked_add(d as usize),
            None => None,
        };
        match overflowed {
            Some(next) => {
                acc = next;
            },
            None => {
                proof {
                    let cur = s@.subrange(start as int, i + 1int);
                    assert(dec_value(cur) > usize::MAX);
                    if all_dec_digits(digits) {
                        lemma_dec_value_grows(cur, digits);
                    }
                    assert(s@.skip(0) =~= s@);
                }
                return None;
            },
        }
        i = i + 1;
    }
    proof {
        assert(s@.subrange(start as int, n as int) =~= digits);
        assert(s@.skip(0) =~= s@);
    }
    Some(acc)
}

/// The character for one decimal digit.
pub open spec fn digit_char(d: int) -> char {
    if d == 0 {
        '0'
    } else if d == 1 {
        '1'
    } else if d == 2 {
        '2'
    } else if d == 3 {
        '3'
    } else if d == 4 {
        '4'
    } else if d == 5 {
        '5'
    } else if d == 6 {
        '6'
    } else if d == 7 {
        '7'
    } else if d == 8 {
        '8'
    } else {
        '9'
    }
}

/// A number below 100 as two zero-padded digits.
pub open spec fn two_digits(n: int) -> Seq<char> {
    seq![digit_char(n / 10), digit_char(n % 10)]
}

/// A number below 10000 as four zero-padded digits.
pub open spec fn four_digits(n: int) -> Seq<char> {
    seq![
        digit_char(n / 1000),
        digit_char((n / 100) % 10),
        digit_char((n / 10) % 10),
        digit_char(n % 10),
    ]
}

/// A digit's character is a digit and reads back as the digit.
pub proof fn lemma_digit_char_value(d: int)
    requires
        0 <= d < 10,
    ensures
        is_dec_digit(digit_char(d)),
        digit_char(d) as int - '0' as int == d,
{
}

/// Reading a two-digit rendering back gives the number.
pub proof fn lemma_two_digits_value(n: int)
    requires
        0 <= n < 100,
    ensures
        all_dec_digits(two_digits(n)),
        dec_value(two_digits(n)) == n,
{
    let s = two_digits(n);
    lemma_digit_char_value(n / 10);
    lemma_digit_char_value(n % 10);
    assert(s.drop_last() =~= seq![digit_char(n / 10)]);
    assert(s.drop_last().drop_last() =~= Seq::<char>::empty());
    assert(dec_value(Seq::<char>::empty()) == 0);
    assert(dec_value(seq![digit_char(n / 10)]) == n / 10);
    assert(dec_value(s) == (n / 10) * 10 + n % 10);
    vstd::arithmetic::div_mod::lemma_fundamental_div_mod(n, 10);
}

/// Reading a four-digit rendering back gives the number.
pub proof fn lemma_four_digits_value(n: int)
    requires
        0 <= n < 10000,
    ensures
        all_dec_digits(four_digits(n)),
        dec_value(four_digits(n)) == n,
{
    let s = four_digits(n);
    lemma_digit_char_value(n / 1000);
    lemma_digit_char_value((n / 100) % 10);
    lemma_digit_char_value((n / 10) % 10);
    lemma_digit_char_value(n % 10);
    let s3 = seq![digit_char(n / 1000), digit_char((n / 100) % 10), digit_char((n / 10) % 10)];
    let s2 = seq![digit_char(n / 1000), digit_char((n / 100) % 10)];
    let s1 = seq![digit_char(n / 1000)];
    assert(s.drop_last() =~= s3);
    assert(s3.drop_last() =~= s2);
    assert(s2.drop_last() =~= s1);
    assert(s1.drop_last() =~= Seq::<char>::empty());
    assert(dec_value(Seq::<char>::empty()) == 0);
    assert(dec_value(s1) == n / 1000);
    assert(dec_value(s2) == (n / 1000) * 10 + (n / 100) % 10);
    assert(dec_value(s3) == dec_value(s2) * 10 + (n / 10) % 10);
    assert(dec_value(s) == dec_value(s3) * 10 + n % 10);
    lemma_digit_split(n);
}

/// Splitting a four-digit number into its decimal digits loses nothing.
proof fn lemma_digit_split(n: int)
    requires
        0 <= n < 10000,
    ensures
        n / 1000 * 1000 + (n / 100) % 10 * 100 + (n / 10) % 10 * 10 + n % 10 == n,
{
    vstd::arithmetic::div_mod::lemma_fundamental_div_mod(n, 10);
    vstd::arithmetic::div_mod::lemma_fundamental_div_mod(n / 10, 10);
    vstd::arithmetic::div_mod::lemma_fundamental_div_mod(n / 100, 10);
    assert(n / 10 / 10 == n / 100) by {
        vstd::arithmetic::div_mod::lemma_div_denominator(n, 10, 10);
    }
    assert(n / 100 / 10 == n / 1000) by {
        vstd::arithmetic::div_mod::lemma_div_denominator(n, 100, 10);
    }
    assert(n / 1000 % 10 == n / 1000) by {
        vstd::arithmetic::div_mod::lemma_small_mod((n / 1000) as nat, 10);
    }
}

/// The character for one decimal digit.
pub fn digit_to_char(d: u8) -> (c: char)
    requires
        d < 10,
    ensures
        c == digit_char(d as int),
{
    match d {
        0 => '0',
        1 => '1',
        2 => '2',
        3 => '3',
        4 => '4',
        5 => '5',
        6 => '6',
        7 => '7',
        8 => '8',
        _ => '9',
    }
}

/// Appends a number below 100 as two zero-padded digits.
pub fn push_two_digits(out: &mut String, n: u32)
    requires
        n < 100,
    ensures
        final(out)@ == old(out)@ + two_digits(n as int),
{
    push_char(out, digit_to_char((n / 10) as u8));
    push_char(out, digit_to_char((n % 10) as u8));
    proof {
        assert(old(out)@ + seq![digit_char(n as int / 10)] + seq![digit_char(n as int % 10)]
            =~= old(out)@ + two_digits(n as int));
    }
}

/// Appends a number below 10000 as four zero-padded digits.
pub fn push_four_digits(out: &mut String, n: u32)
    requires
        n < 10000,
    ensures
        final(out)@ == old(out)@ + four_digits(n as int),
{
    push_char(out, digit_to_char((n / 1000) as u8));
    push_char(out, digit_to_char((n / 100 % 10) as u8));
    push_char(out, digit_to_char((n / 10 % 10) as u8));
    push_char(out, digit_to_char((n % 10) as u8));
    proof {
        assert(old(out)@ + seq![digit_char(n as int / 1000)] + seq![
            digit_char((n as int / 100) % 10),
        ] + seq![digit_char((n as int / 10) % 10)] + seq![digit_char(n as int % 10)] =~= old(
            out,
        )@ + four_digits(n as int));
    }
}

/// The powers of ten.
pub open spec fn ten_pow(n: nat) -> nat
    decreases n,
{
    if n == 0 {
        1
    } else {
        10 * ten_pow((n - 1) as nat)
    }
}

/// A digit string's value stays under ten to its length.
pub proof fn lemma_dec_value_bound(s: Seq<char>)
    requires
        all_dec_digits(s),
    ensures
        dec_value(s) < ten_pow(s.len()),
    decreases s.len(),
{
    if s.len() > 0 {
        assert(all_dec_digits(s.drop_last()));
        lemma_dec_value_bound(s.drop_last());
        assert(dec_value(s.drop_last()) * 10 <= (ten_pow((s.len() - 1) as nat) - 1) * 10)
            by (nonlinear_arith)
            requires
                dec_value(s.drop_last()) <= ten_pow((s.len() - 1) as nat) - 1,
        ;
    }
}

/// Reads the digits of `s` between `from` and `to` as a number: `Some` exactly
/// when the range is all digits.
pub fn read_digit_range(s: &str, from: usize, to: usize) -> (r: Option<u32>)
    requires
        from <= to <= s@.len(),
        to - from <= 4,
    ensures
        r is Some <==> all_dec_digits(s@.subrange(from as int, to as int)),
        r matches Some(v) ==> v == dec_value(s@.subrange(from as int, to as int)) && v < 10000,
{
    let mut acc: u32 = 0;
    let mut i: usize = from;
    while i < to
        invariant
            from <= i <= to <= s@.len(),
            to - from <= 4,
            all_dec_digits(s@.subrange(from as int, i as int)),
            acc == dec_value(s@.subrange(from as int, i as int)),
            acc < ten_pow((i - from) as nat),
        decreases to - i,
    {
        let ch = s.get_char(i);
        if !char_is_dec_digit(ch) {
            proof {
                let whole = s@.subrange(from as int, to as int);
                assert(whole[i - from] == s@[i as int]);
            }
            return None;
        }
        let d: u32 = ch as u32 - '0' as u32;
        proof {
            let pre = s@.subrange(from as int, i as int);
            let cur = s@.subrange(from as int, i + 1int);
            assert(cur.drop_last() =~= pre);
            assert(cur.last() == s@[i as int]);
            assert(all_dec_digits(cur)) by {
                assert(forall|j: int| 0 <= j < cur.len() - 1 ==> cur[j] == pre[j]);
            }
            assert(ten_pow(((i + 1) - from) as nat) == 10 * ten_pow((i - from) as nat));
            assert(acc * 10 + d < 10 * ten_pow((i - from) as nat)) by (nonlinear_arith)
                requires
                    acc < ten_pow((i - from) as nat),
                    d < 10,
            ;
            assert(ten_pow(4) == 10000) by {
                reveal_with_fuel(ten_pow, 5);
            }
            lemma_ten_pow_monotonic(((i + 1) - from) as nat, 4);
        }
        acc = acc * 10 + d;
        i = i + 1;
    }
    proof {
        assert(ten_pow(4) == 10000) by {
            reveal_with_fuel(ten_pow, 5);
        }
        lemma_ten_pow_monotonic((to - from) as nat, 4);
    }
    Some(acc)
}

/// Ten to a smaller power is no larger.
proof fn lemma_ten_pow_monotonic(a: nat, b: nat)
    requires
        a <= b,
    ensures
        ten_pow(a) <= ten_pow(b),
    decreases b,
{
    if a < b {
        lemma_ten_pow_monotonic(a, (b - 1) as nat);
        assert(ten_pow(b) == 10 * ten_pow((b - 1) as nat));
        assert(ten_pow((b - 1) as nat) <= 10 * ten_pow((b - 1) as nat)) by (nonlinear_arith)
            requires
                ten_pow((b - 1) as nat) >= 0,
        ;
    }
}

/// A digit prefix never has a larger value than the whole digit string.
proof fn lemma_dec_value_grows(pre: Seq<char>, s: Seq<char>)
    requires
        pre.len() <= s.len(),
        forall|i: int| 0 <= i < pre.len() ==> pre[i] == s[i],
        all_dec_digits(s),
    ensures
        dec_value(pre) <= dec_value(s),
    decreases s.len(),
{
    if pre.len() == s.len() {
        assert(pre =~= s);
    } else {
        lemma_dec_value_grows(pre, s.drop_last());
        assert(all_dec_digits(s.drop_last()));
        assert(dec_value(s) >= dec_value(s.drop_last()) * 10);
        assert(dec_value(s.drop_last()) * 10 >= dec_value(s.drop_last())) by (nonlinear_arith);
    }
}

} // verus!
