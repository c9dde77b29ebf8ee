//! Characters, whitespace and decimal numbers: the lexical layer under the
//! program grammar and the interactive commands.
//!
//! Texts are modelled as `Seq<char>`. The executable functions work on a
//! window `lo..hi` of a `Vec<char>`, so that no part of a line is copied.

use vstd::prelude::*;
use vstd::string::StringExecFns;

verus! {

/// Whether `c` has the Unicode property White_Space.
pub open spec fn is_space(c: char) -> bool {
    let n = c as u32;
    ||| 0x09 <= n <= 0x0D
    ||| n == 0x20
    ||| n == 0x85
    ||| n == 0xA0
    ||| n == 0x1680
    ||| 0x2000 <= n <= 0x200A
    ||| n == 0x2028
    ||| n == 0x2029
    ||| n == 0x202F
    ||| n == 0x205F
    ||| n == 0x3000
}

/// Whether `c` is one of the ASCII digits `0` to `9`.
pub open spec fn is_digit(c: char) -> bool {
    0x30 <= c as u32 <= 0x39
}

/// The number that the digit `c` stands for.
pub open spec fn digit_value(c: char) -> nat {
    (c as u32 - 0x30) as nat
}

/// Whether every character of `s` is an ASCII digit.
pub open spec fn all_digits(s: Seq<char>) -> bool {
    forall|i: int| 0 <= i < s.len() ==> is_digit(#[trigger] s[i])
}

/// The number that a string of digits denotes in base ten, most significant
/// digit first. The empty string denotes 0.
pub open spec fn decimal_value(s: Seq<char>) -> nat
    decreases s.len(),
{
    if s.len() == 0 {
        0
    } else {
        10 * decimal_value(s.drop_last()) + digit_value(s.last())
    }
}

/// The number written as one or more digits and nothing else.
pub open spec fn digits_number(s: Seq<char>) -> Option<nat> {
    if s.len() > 0 && all_digits(s) {
        Some(decimal_value(s))
    } else {
        None
    }
}

/// The number that an unsigned decimal text denotes: an optional `+`, then
/// one or more digits. Any other text denotes nothing.
pub open spec fn unsigned_number(s: Seq<char>) -> Option<nat> {
    if s.len() > 0 && s[0] == '+' {
        digits_number(s.drop_first())
    } else {
        digits_number(s)
    }
}

/// The number that a signed decimal text denotes: an optional `+` or `-`,
/// then one or more digits.
pub open spec fn signed_number(s: Seq<char>) -> Option<int> {
    if s.len() > 0 && s[0] == '-' {
        match digits_number(s.drop_first()) {
            Some(n) => Some(-(n as int)),
            None => None,
        }
    } else {
        match unsigned_number(s) {
            Some(n) => Some(n as int),
            None => None,
        }
    }
}

/// `n` where it is present and at most `max`.
pub open spec fn at_most(n: Option<nat>, max: nat) -> Option<nat> {
    match n {
        Some(v) if v <= max => Some(v),
        _ => None,
    }
}

/// `n` where it is present and between `min` and `max`.
pub open spec fn within(n: Option<int>, min: int, max: int) -> Option<int> {
    match n {
        Some(v) if min <= v <= max => Some(v),
        _ => None,
    }
}

/// The number of whitespace characters at the start of `s`.
pub open spec fn leading_spaces(s: Seq<char>) -> nat
    decreases s.len(),
{
    if s.len() > 0 && is_space(s[0]) {
        1 + leading_spaces(s.drop_first())
    } else {
        0
    }
}

/// The number of whitespace characters at the end of `s`.
pub open spec fn trailing_spaces(s: Seq<char>) -> nat
    decreases s.len(),
{
    if s.len() > 0 && is_space(s.last()) {
        1 + trailing_spaces(s.drop_last())
    } else {
        0
    }
}

/// `s` without the whitespace at its start and at its end.
pub open spec fn trim(s: Seq<char>) -> Seq<char> {
    if leading_spaces(s) == s.len() {
        Seq::empty()
    } else {
        s.subrange(leading_spaces(s) as int, s.len() - trailing_spaces(s))
    }
}

/// The number of characters at the start of `s` that are not whitespace.
pub open spec fn word_len(s: Seq<char>) -> nat
    decreases s.len(),
{
    if s.len() > 0 && !is_space(s[0]) {
        1 + word_len(s.drop_first())
    } else {
        0
    }
}

/// The words of `s`: its maximal runs of characters that are not whitespace,
/// in order.
pub open spec fn words(s: Seq<char>) -> Seq<Seq<char>>
    decreases s.len(),
{
    let t = s.skip(leading_spaces(s) as int);
    if leading_spaces(s) >= s.len() {
        Seq::empty()
    } else {
        proof {
            lemma_leading_spaces_bound(s);
            lemma_word_len_bound(t);
        }
        seq![t.take(word_len(t) as int)] + words(t.skip(word_len(t) as int))
    }
}

/// There are no more leading spaces than characters, and what follows them
/// is no whitespace.
pub proof fn lemma_leading_spaces_bound(s: Seq<char>)
    ensures
        leading_spaces(s) <= s.len(),
        leading_spaces(s) < s.len() ==> !is_space(s[leading_spaces(s) as int]),
        forall|i: int| 0 <= i < leading_spaces(s) ==> is_space(#[trigger] s[i]),
    decreases s.len(),
{
    if s.len() > 0 && is_space(s[0]) {
        let t = s.drop_first();
        lemma_leading_spaces_bound(t);
        assert forall|i: int| 0 <= i < leading_spaces(s) implies is_space(#[trigger] s[i]) by {
            if i > 0 {
                assert(s[i] == t[i - 1]);
            }
        }
    }
}

/// A word is no longer than the text it starts, it has at least one
/// character where the text starts with one that is no whitespace, and
/// whitespace or the end follows it.
pub proof fn lemma_word_len_bound(s: Seq<char>)
    ensures
        word_len(s) <= s.len(),
        s.len() > 0 && !is_space(s[0]) ==> word_len(s) >= 1,
        word_len(s) < s.len() ==> is_space(s[word_len(s) as int]),
        forall|i: int| 0 <= i < word_len(s) ==> !is_space(#[trigger] s[i]),
    decreases s.len(),
{
    if s.len() > 0 && !is_space(s[0]) {
        let t = s.drop_first();
        lemma_word_len_bound(t);
        assert forall|i: int| 0 <= i < word_len(s) implies !is_space(#[trigger] s[i]) by {
            if i > 0 {
                assert(s[i] == t[i - 1]);
            }
        }
    }
}

/// If the first `n` characters of `s` are whitespace and the next one, if
/// any, is not, then `s` has `n` leading spaces.
pub proof fn lemma_leading_spaces_is(s: Seq<char>, n: nat)
    requires
        n <= s.len(),
        forall|i: int| 0 <= i < n ==> is_space(#[trigger] s[i]),
        n < s.len() ==> !is_space(s[n as int]),
    ensures
        leading_spaces(s) == n,
    decreases n,
{
    if n > 0 {
        let t = s.drop_first();
        assert forall|i: int| 0 <= i < n - 1 implies is_space(#[trigger] t[i]) by {
            assert(t[i] == s[i + 1]);
        }
        lemma_leading_spaces_is(t, (n - 1) as nat);
    }
}

/// If the last `n` characters of `s` are whitespace and the one before
/// them, if any, is not, then `s` has `n` trailing spaces.
pub proof fn lemma_trailing_spaces_is(s: Seq<char>, n: nat)
    requires
        n <= s.len(),
        forall|i: int| s.len() - n <= i < s.len() ==> is_space(#[trigger] s[i]),
        n < s.len() ==> !is_space(s[s.len() - n - 1]),
    ensures
        trailing_spaces(s) == n,
    decreases n,
{
    if n > 0 {
        let t = s.drop_last();
        assert forall|i: int| t.len() - (n - 1) <= i < t.len() implies is_space(
            #[trigger] t[i],
        ) by {
            assert(t[i] == s[i]);
        }
        lemma_trailing_spaces_is(t, (n - 1) as nat);
    }
}

/// If the first `n` characters of `s` are no whitespace and the next one,
/// if any, is, then the word that starts `s` has `n` characters.
pub proof fn lemma_word_len_is(s: Seq<char>, n: nat)
    requires
        n <= s.len(),
        forall|i: int| 0 <= i < n ==> !is_space(#[trigger] s[i]),
        n < s.len() ==> is_space(s[n as int]),
    ensures
        word_len(s) == n,
    decreases n,
{
    if n > 0 {
        let t = s.drop_first();
        assert forall|i: int| 0 <= i < n - 1 implies !is_space(#[trigger] t[i]) by {
            assert(t[i] == s[i + 1]);
        }
        lemma_word_len_is(t, (n - 1) as nat);
    }
}

/// The digits at the start of a digit string denote no more than the whole.
pub proof fn lemma_decimal_prefix(s: Seq<char>, k: int)
    requires
        0 <= k <= s.len(),
    ensures
        decimal_value(s.take(k)) <= decimal_value(s),
    decreases s.len(),
{
    if k == s.len() {
        assert(s.take(k) =~= s);
    } else {
        lemma_decimal_prefix(s.drop_last(), k);
        assert(s.drop_last().take(k) =~= s.take(k));
    }
}

/// Tests a character for the Unicode property White_Space.
pub fn is_whitespace(c: char) -> (b: bool)
    ensures
        b == is_space(c),
{
    let n: u32 = c as u32;
    (0x09 <= n && n <= 0x0D) || n == 0x20 || n == 0x85 || n == 0xA0 || n == 0x1680 || (0x2000 <= n
        && n <= 0x200A) || n == 0x2028 || n == 0x2029 || n == 0x202F || n == 0x205F || n == 0x3000
}

/// The characters of a string slice, in order.
pub fn chars_of(s: &str) -> (v: Vec<char>)
    ensures
        v@ == s@,
{
    let mut v: Vec<char> = Vec::new();
    let all = s.chars();
    for c in it: all
        invariant
            v@ == it.seq().take(it.index() as int),
    {
        v.push(c);
    }
    v
}

/// The bounds `(a, b)` of the window `lo..hi` of `s` without the whitespace
/// at its two ends.
pub fn trim_bounds(s: &Vec<char>, lo: usize, hi: usize) -> (r: (usize, usize))
    requires
        lo <= hi <= s.len(),
    ensures
        lo <= r.0 <= r.1 <= hi,
        s@.subrange(r.0 as int, r.1 as int) == trim(s@.subrange(lo as int, hi as int)),
        r.0 == lo + leading_spaces(s@.subrange(lo as int, hi as int)),
        r.1 == if r.0 == hi {
            hi as int
        } else {
            hi - trailing_spaces(s@.subrange(lo as int, hi as int))
        },
{
    let ghost w = s@.subrange(lo as int, hi as int);
    let mut a: usize = lo;
    while a < hi && is_whitespace(s[a])
        invariant
            lo <= a <= hi <= s.len(),
            forall|i: int| lo <= i < a ==> is_space(#[trigger] s@[i]),
        decreases hi - a,
    {
        a += 1;
    }
    proof {
        assert forall|i: int| 0 <= i < a - lo implies is_space(#[trigger] w[i]) by {
            assert(w[i] == s@[lo + i]);
        }
        lemma_leading_spaces_is(w, (a - lo) as nat);
    }
    if a == hi {
        proof {
            assert(s@.subrange(a as int, a as int) =~= Seq::<char>::empty());
        }
        return (a, a);
    }
    let mut b: usize = hi;
    while b > a && is_whitespace(s[b - 1])
        invariant
            lo <= a < hi <= s.len(),
            a <= b <= hi,
            !is_space(s@[a as int]),
            forall|i: int| b <= i < hi ==> is_space(#[trigger] s@[i]),
        decreases b,
    {
        b -= 1;
    }
    proof {
        assert(b > a);
        assert forall|i: int| w.len() - (hi - b) <= i < w.len() implies is_space(
            #[trigger] w[i],
        ) by {
            assert(w[i] == s@[lo + i]);
        }
        assert(w[w.len() - (hi - b) - 1] == s@[b - 1]);
        lemma_trailing_spaces_is(w, (hi - b) as nat);
        assert(w.subrange(a - lo, w.len() - (hi - b)) =~= s@.subrange(a as int, b as int));
    }
    (a, b)
}

/// Reads the window `lo..hi` of `s` as a string of digits that denotes a
/// number of at most `max`.
pub fn parse_digits(s: &Vec<char>, lo: usize, hi: usize, max: u64) -> (r: Option<u64>)
    requires
        lo <= hi <= s.len(),
    ensures
        r matches Some(v) ==> at_most(
            digits_number(s@.subrange(lo as int, hi as int)),
            max as nat,
        ) == Some(v as nat),
        r is None ==> at_most(digits_number(s@.subrange(lo as int, hi as int)), max as nat)
            is None,
{
    let ghost w = s@.subrange(lo as int, hi as int);
    if lo == hi {
        return None;
    }
    let mut i: usize = lo;
    let mut acc: u64 = 0;
    while i < hi
        invariant
            lo <= i <= hi <= s.len(),
            w == s@.subrange(lo as int, hi as int),
            all_digits(w.take(i - lo)),
            acc == decimal_value(w.take(i - lo)),
            acc <= max,
        decreases hi - i,
    {
        let c: char = s[i];
        let n: u32 = c as u32;
        proof {
            assert(w[i - lo] == c);
            assert(w.take(i - lo + 1).drop_last() =~= w.take(i - lo));
            assert(w.take(i - lo + 1).last() == c);
        }
        if n < 0x30 || n > 0x39 {
            return None;
        }
        let d: u64 = (n - 0x30) as u64;
        if d > max || acc > (max - d) / 10 {
            proof {
                if all_digits(w) {
                    lemma_decimal_prefix(w, i - lo + 1);
                }
            }
            return None;
        }
        acc = acc * 10 + d;
        i += 1;
        proof {
            assert forall|k: int| 0 <= k < w.take(i - lo).len() implies is_digit(
                #[trigger] w.take(i - lo)[k],
            ) by {
                if k < i - lo - 1 {
                    assert(w.take(i - lo)[k] == w.take(i - lo - 1)[k]);
                }
            }
        }
    }
    proof {
        assert(w.take(hi - lo) =~= w);
    }
    Some(acc)
}

/// Reads the window `lo..hi` of `s` as an unsigned decimal number of at
/// most `max`: an optional `+`, then one or more digits.
pub fn parse_unsigned(s: &Vec<char>, lo: usize, hi: usize, max: u64) -> (r: Option<u64>)
    requires
        lo <= hi <= s.len(),
    ensures
        r matches Some(v) ==> at_most(
            unsigned_number(s@.subrange(lo as int, hi as int)),
            max as nat,
        ) == Some(v as nat),
        r is None ==> at_most(unsigned_number(s@.subrange(lo as int, hi as int)), max as nat)
            is None,
{
    let ghost w = s@.subrange(lo as int, hi as int);
    if lo < hi && s[lo] == '+' {
        proof {
            assert(w[0] == s@[lo as int]);
            assert(w.drop_first() =~= s@.subrange(lo + 1, hi as int));
        }
        parse_digits(s, lo + 1, hi, max)
    } else {
        proof {
            if lo < hi {
                assert(w[0] == s@[lo as int]);
            }
        }
        parse_digits(s, lo, hi, max)
    }
}

/// Reads the window `lo..hi` of `s` as a signed decimal number that fits in
/// an `i64`: an optional `+` or `-`, then one or more digits.
pub fn parse_signed(s: &Vec<char>, lo: usize, hi: usize) -> (r: Option<i64>)
    requires
        lo <= hi <= s.len(),
    ensures
        r matches Some(v) ==> within(
            signed_number(s@.subrange(lo as int, hi as int)),
            i64::MIN as int,
            i64::MAX as int,
        ) == Some(v as int),
        r is None ==> within(
            signed_number(s@.subrange(lo as int, hi as int)),
            i64::MIN as int,
            i64::MAX as int,
        ) is None,
{
    let ghost w = s@.subrange(lo as int, hi as int);
    if lo < hi && s[lo] == '-' {
        proof {
            assert(w[0] == s@[lo as int]);
            assert(w.drop_first() =~= s@.subrange(lo + 1, hi as int));
        }
        match parse_digits(s, lo + 1, hi, 0x8000_0000_0000_0000) {
            Some(m) => {
                if m == 0x8000_0000_0000_0000 {
                    Some(i64::MIN)
                } else {
                    Some(-(m as i64))
                }
            },
            None => None,
        }
    } else {
        proof {
            if lo < hi {
                assert(w[0] == s@[lo as int]);
            }
        }
        match parse_unsigned(s, lo, hi, 0x7fff_ffff_ffff_ffff) {
            Some(m) => Some(m as i64),
            None => None,
        }
    }
}

/// The words in the window `lo..hi` of `s`, in order.
pub fn split_words(s: &Vec<char>, lo: usize, hi: usize) -> (r: Vec<Vec<char>>)
    requires
        lo <= hi <= s.len(),
    ensures
        r@.len() == words(s@.subrange(lo as int, hi as int)).len(),
        forall|k: int|
            0 <= k < r@.len() ==> (#[trigger] r@[k])@ == words(s@.subrange(lo as int, hi as int))[k],
{
    let ghost w = s@.subrange(lo as int, hi as int);
    let mut r: Vec<Vec<char>> = Vec::new();
    let mut i: usize = lo;
    loop
        invariant
            lo <= i <= hi <= s.len(),
            w == s@.subrange(lo as int, hi as int),
            words(w).len() == r@.len() + words(s@.subrange(i as int, hi as int)).len(),
            forall|k: int| 0 <= k < r@.len() ==> (#[trigger] r@[k])@ == words(w)[k],
            forall|k: int|
                0 <= k < words(s@.subrange(i as int, hi as int)).len() ==> words(w)[r@.len() + k]
                    == #[trigger] words(s@.subrange(i as int, hi as int))[k],
        ensures
            r@.len() == words(w).len(),
            forall|k: int| 0 <= k < r@.len() ==> (#[trigger] r@[k])@ == words(w)[k],
        decreases hi - i,
    {
        let ghost rest = s@.subrange(i as int, hi as int);
        let mut a: usize = i;
        while a < hi && is_whitespace(s[a])
            invariant
                i <= a <= hi <= s.len(),
                forall|j: int| i <= j < a ==> is_space(#[trigger] s@[j]),
            decreases hi - a,
        {
            a += 1;
        }
        proof {
            assert forall|j: int| 0 <= j < a - i implies is_space(#[trigger] rest[j]) by {
                assert(rest[j] == s@[i + j]);
            }
            lemma_leading_spaces_is(rest, (a - i) as nat);
        }
        if a == hi {
            break ;
        }
        let mut word: Vec<char> = Vec::new();
        let mut b: usize = a;
        while b < hi && !is_whitespace(s[b])
            invariant
                a <= b <= hi <= s.len(),
                word@ == s@.subrange(a as int, b as int),
                forall|j: int| a <= j < b ==> !is_space(#[trigger] s@[j]),
            decreases hi - b,
        {
            word.push(s[b]);
            b += 1;
            proof {
                assert(word@ =~= s@.subrange(a as int, b as int));
            }
        }
        proof {
            let t = rest.skip(a - i);
            assert(t =~= s@.subrange(a as int, hi as int));
            assert forall|j: int| 0 <= j < b - a implies !is_space(#[trigger] t[j]) by {
                assert(t[j] == s@[a + j]);
            }
            lemma_word_len_is(t, (b - a) as nat);
            assert(t.take(b - a) =~= s@.subrange(a as int, b as int));
            assert(t.skip(b - a) =~= s@.subrange(b as int, hi as int));
            let tail = words(s@.subrange(b as int, hi as int));
            assert(words(rest) == seq![s@.subrange(a as int, b as int)] + tail);
            assert(words(rest)[0] == s@.subrange(a as int, b as int));
            assert forall|k: int| 0 <= k < tail.len() implies words(w)[r@.len() + 1 + k]
                == #[trigger] tail[k] by {
                assert(words(rest)[k + 1] == tail[k]);
            }
        }
        r.push(word);
        i = b;
    }
    r
}

/// The character that stands for the number `d` below ten.
pub open spec fn digit_char(d: nat) -> char {
    if d == 0 {
        '0'
    } else if d == 1 {
        '1'
    } else if d == 2 {
        '2'
    } else if d == 3 {
        '3'
    } else if d == 4 {
        '4'
    } else if d == 5 {
        '5'
    } else if d == 6 {
        '6'
    } else if d == 7 {
        '7'
    } else if d == 8 {
        '8'
    } else {
        '9'
    }
}

/// The number `n` in base ten, most significant digit first, with no
/// leading zero but for 0 itself.
pub open spec fn decimal(n: nat) -> Seq<char>
    decreases n,
{
    if n < 10 {
        seq![digit_char(n)]
    } else {
        decimal(n / 10).push(digit_char(n % 10))
    }
}

/// The integer `n` in base ten, with `-` before it where it is negative.
pub open spec fn signed_decimal(n: int) -> Seq<char> {
    if n < 0 {
        seq!['-'] + decimal((-n) as nat)
    } else {
        decimal(n as nat)
    }
}

/// A number in base ten is a string of digits that denotes the number.
pub proof fn law_decimal_reads_back(n: nat)
    ensures
        digits_number(decimal(n)) == Some(n),
        unsigned_number(decimal(n)) == Some(n),
        signed_number(decimal(n)) == Some(n as int),
    decreases n,
{
    let s = decimal(n);
    if n < 10 {
        assert(s.drop_last() =~= Seq::<char>::empty());
        assert(decimal_value(s) == 10 * decimal_value(s.drop_last()) + digit_value(s.last()));
    } else {
        law_decimal_reads_back(n / 10);
        let t = decimal(n / 10);
        assert(s.drop_last() =~= t);
        assert(s.last() == digit_char(n % 10));
        assert forall|i: int| 0 <= i < s.len() implies is_digit(#[trigger] s[i]) by {
            if i < t.len() {
                assert(s[i] == t[i]);
            }
        }
        assert(decimal_value(s) == 10 * decimal_value(t) + digit_value(s.last()));
    }
    assert(all_digits(s));
}

/// A negative integer in base ten reads back as that integer.
pub proof fn law_signed_decimal_reads_back(n: int)
    ensures
        signed_number(signed_decimal(n)) == Some(n),
{
    if n < 0 {
        let s = signed_decimal(n);
        law_decimal_reads_back((-n) as nat);
        assert(s.drop_first() =~= decimal((-n) as nat));
    } else {
        law_decimal_reads_back(n as nat);
    }
}

/// The digit that stands for `d`, as a text.
fn digit_text(d: u64) -> (r: &'static str)
    requires
        d < 10,
    ensures
        r@ == seq![digit_char(d as nat)],
{
    proof {
        reveal_strlit("0");
        reveal_strlit("1");
        reveal_strlit("2");
        reveal_strlit("3");
        reveal_strlit("4");
        reveal_strlit("5");
        reveal_strlit("6");
        reveal_strlit("7");
        reveal_strlit("8");
        reveal_strlit("9");
    }
    let r: &'static str = if d == 0 {
        "0"
    } else if d == 1 {
        "1"
    } else if d == 2 {
        "2"
    } else if d == 3 {
        "3"
    } else if d == 4 {
        "4"
    } else if d == 5 {
        "5"
    } else if d == 6 {
        "6"
    } else if d == 7 {
        "7"
    } else if d == 8 {
        "8"
    } else {
        "9"
    };
    proof {
        assert(r@ =~= seq![digit_char(d as nat)]);
    }
    r
}

/// Writes `n` in base ten at the end of `out`.
pub fn push_decimal(out: &mut String, n: u64)
    ensures
        final(out)@ == old(out)@ + decimal(n as nat),
    decreases n,
{
    if n >= 10 {
        push_decimal(out, n / 10);
    }
    out.append(digit_text(n % 10));
    proof {
        if n >= 10 {
            assert(out@ =~= old(out)@ + decimal(n as nat));
        }
    }
}

/// Writes the integer `n` in base ten at the end of `out`.
pub fn push_signed_decimal(out: &mut String, n: i64)
    ensures
        final(out)@ == old(out)@ + signed_decimal(n as int),
{
    if n < 0 {
        proof {
            reveal_strlit("-");
        }
        out.append("-");
        let magnitude: u64 = if n == i64::MIN {
            0x8000_0000_0000_0000
        } else {
            (-n) as u64
        };
        push_decimal(out, magnitude);
        proof {
            assert(out@ =~= old(out)@ + signed_decimal(n as int));
        }
    } else {
        push_decimal(out, n as u64);
    }
}

} // verus!
