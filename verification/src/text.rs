//! Character-level helpers on strings: conversions between `String` and `Vec<char>`, comparisons
//! and the recognizers of the number formats accepted in queries.

use vstd::prelude::*;
use vstd::string::StrSliceExecFns;

verus! {

/// Appends a character at the end of the string (`String::push`).
#[verifier::external_body]
pub(crate) fn push_char(s: &mut String, c: char)
    ensures
        final(s)@ == old(s)@.push(c),
{
    s.push(c);
}

/// Returns the characters of the string.
pub fn chars_of(s: &str) -> (r: Vec<char>)
    ensures
        r@ == s@,
{
    let n = s.unicode_len();
    let mut r: Vec<char> = Vec::new();
    let mut i: usize = 0;
    while i < n
        invariant
            n == s@.len(),
            i <= n,
            r@ == s@.subrange(0, i as int),
        decreases n - i,
    {
        let c = s.get_char(i);
        r.push(c);
        i = i + 1;
    }
    r
}

/// Builds a string out of a sequence of characters.
pub fn string_from_chars(v: &[char]) -> (r: String)
    ensures
        r@ == v@,
{
    let mut r = String::new();
    let mut i: usize = 0;
    while i < v.len()
        invariant
            i <= v@.len(),
            r@ == v@.subrange(0, i as int),
        decreases v@.len() - i,
    {
        push_char(&mut r, v[i]);
        i = i + 1;
    }
    r
}

/// Returns a copy of the string.
pub fn copy_string(s: &str) -> (r: String)
    ensures
        r@ == s@,
{
    let v = chars_of(s);
    string_from_chars(v.as_slice())
}

/// Concatenates two strings.
pub fn concat(a: &str, b: &str) -> (r: String)
    ensures
        r@ == a@ + b@,
{
    let mut v = chars_of(a);
    let w = chars_of(b);
    let mut i: usize = 0;
    while i < w.len()
        invariant
            i <= w@.len(),
            v@ == a@ + w@.subrange(0, i as int),
        decreases w@.len() - i,
    {
        v.push(w[i]);
        i = i + 1;
    }
    assert(w@.subrange(0, w@.len() as int) == w@);
    string_from_chars(v.as_slice())
}

/// Compares two sequences of characters.
pub fn chars_eq(a: &[char], b: &[char]) -> (r: bool)
    ensures
        r == (a@ == b@),
{
    if a.len() != b.len() {
        return false;
    }
    let mut i: usize = 0;
    while i < a.len()
        invariant
            a@.len() == b@.len(),
            i <= a@.len(),
            forall|j: int| 0 <= j < i ==> a@[j] == b@[j],
        decreases a@.len() - i,
    {
        if a[i] != b[i] {
            return false;
        }
        i = i + 1;
    }
    assert(a@ =~= b@);
    true
}

/// Compares two strings.
pub fn str_eq(a: &str, b: &str) -> (r: bool)
    ensures
        r == (a@ == b@),
{
    let x = chars_of(a);
    let y = chars_of(b);
    chars_eq(x.as_slice(), y.as_slice())
}

/// Checks whether the string starts with the given character.
pub fn starts_with_char(s: &str, c: char) -> (r: bool)
    ensures
        r == (s@.len() > 0 && s@[0] == c),
{
    let v = chars_of(s);
    v.len() > 0 && v[0] == c
}

/// Checks whether the string starts with the given prefix.
pub fn starts_with(s: &str, prefix: &str) -> (r: bool)
    ensures
        r == (s@.len() >= prefix@.len() && s@.subrange(0, prefix@.len() as int) == prefix@),
{
    let v = chars_of(s);
    let p = chars_of(prefix);
    if v.len() < p.len() {
        return false;
    }
    let mut i: usize = 0;
    while i < p.len()
        invariant
            p@ == prefix@,
            v@ == s@,
            p@.len() <= v@.len(),
            i <= p@.len(),
            forall|j: int| 0 <= j < i ==> v@[j] == p@[j],
        decreases p@.len() - i,
    {
        if v[i] != p[i] {
            assert(s@.subrange(0, prefix@.len() as int)[i as int] != prefix@[i as int]);
            return false;
        }
        i = i + 1;
    }
    assert(s@.subrange(0, prefix@.len() as int) =~= prefix@);
    true
}

// -------------------------------------------------------------------------------------------------
// Decimal digits

/// A decimal digit.
pub open spec fn is_digit(c: char) -> bool {
    '0' <= c && c <= '9'
}

/// All characters are decimal digits.
pub open spec fn all_digits(s: Seq<char>) -> bool {
    forall|i: int| 0 <= i < s.len() ==> is_digit(#[trigger] s[i])
}

/// The value of a digit.
pub open spec fn digit_value(c: char) -> int {
    (c as int) - ('0' as int)
}

/// The value of a sequence of decimal digits.
pub open spec fn digits_value(s: Seq<char>) -> int
    decreases s.len(),
{
    if s.len() == 0 {
        0
    } else {
        digits_value(s.drop_last()) * 10 + digit_value(s.last())
    }
}

/// Text of a non-empty run of digits, optionally preceded by a plus sign, whose value does not
/// exceed `limit`.
pub open spec fn unsigned_text_value(s: Seq<char>, limit: int) -> Option<int> {
    let body = if s.len() > 0 && s[0] == '+' { s.drop_first() } else { s };
    if body.len() > 0 && all_digits(body) && digits_value(body) <= limit {
        Some(digits_value(body))
    } else {
        None
    }
}

/// Value of the text of a signed integer in the range `[-neg_limit, pos_limit]`: an optional sign
/// followed by a non-empty run of digits.
pub open spec fn signed_text_value(s: Seq<char>, neg_limit: int, pos_limit: int) -> Option<int> {
    if s.len() > 0 && s[0] == '-' {
        let body = s.drop_first();
        if body.len() > 0 && all_digits(body) && digits_value(body) <= neg_limit {
            Some(-digits_value(body))
        } else {
            None
        }
    } else {
        unsigned_text_value(s, pos_limit)
    }
}

proof fn lemma_digits_value_nonneg(s: Seq<char>)
    requires
        all_digits(s),
    ensures
        digits_value(s) >= 0,
    decreases s.len(),
{
    if s.len() > 0 {
        assert(all_digits(s.drop_last()));
        lemma_digits_value_nonneg(s.drop_last());
    }
}

/// The value of the text of a signed integer lies in the range it was read with.
pub proof fn lemma_signed_text_value_range(s: Seq<char>, neg_limit: int, pos_limit: int)
    requires
        0 <= neg_limit,
        0 <= pos_limit,
    ensures
        signed_text_value(s, neg_limit, pos_limit) matches Some(v) ==> -neg_limit <= v
            <= pos_limit,
{
    if s.len() > 0 && s[0] == '-' {
        if all_digits(s.drop_first()) {
            lemma_digits_value_nonneg(s.drop_first());
        }
    } else {
        let body = if s.len() > 0 && s[0] == '+' { s.drop_first() } else { s };
        if all_digits(body) {
            lemma_digits_value_nonneg(body);
        }
    }
}

proof fn lemma_digits_value_grows(s: Seq<char>, i: int)
    requires
        all_digits(s),
        0 <= i <= s.len(),
    ensures
        digits_value(s.subrange(0, i)) <= digits_value(s),
    decreases s.len() - i,
{
    if i < s.len() {
        let p = s.subrange(0, i);
        let q = s.subrange(0, i + 1);
        assert(q.drop_last() =~= p);
        assert(all_digits(p));
        lemma_digits_value_nonneg(p);
        assert(is_digit(q.last()));
        lemma_digits_value_grows(s, i + 1);
    } else {
        assert(s.subrange(0, i) =~= s);
    }
}

/// Reads the run of decimal digits `s[start..]`; returns its value when the run is non-empty,
/// made of digits only and not larger than `limit`.
pub fn parse_digits(s: &[char], start: usize, limit: u64) -> (r: Option<u64>)
    requires
        start <= s@.len(),
    ensures
        ({
            let body = s@.subrange(start as int, s@.len() as int);
            match r {
                Some(v) => body.len() > 0 && all_digits(body) && digits_value(body) <= limit
                    && v == digits_value(body),
                None => !(body.len() > 0 && all_digits(body) && digits_value(body) <= limit),
            }
        }),
{
    let ghost body = s@.subrange(start as int, s@.len() as int);
    if start == s.len() {
        return None;
    }
    let mut value: u64 = 0;
    let mut i: usize = start;
    while i < s.len()
        invariant
            start <= i <= s@.len(),
            body == s@.subrange(start as int, s@.len() as int),
            all_digits(body.subrange(0, i - start)),
            value == digits_value(body.subrange(0, i - start)),
            value <= limit,
        decreases s@.len() - i,
    {
        let c = s[i];
        if !('0' <= c && c <= '9') {
            assert(body[i - start] == c);
            return None;
        }
        let d = (c as u64) - ('0' as u64);
        proof {
            let p = body.subrange(0, i - start);
            let q = body.subrange(0, i - start + 1);
            assert(q.drop_last() =~= p);
            assert(q.last() == c);
            assert(all_digits(q)) by {
                assert forall|j: int| 0 <= j < q.len() implies is_digit(#[trigger] q[j]) by {
                    if j < p.len() {
                        assert(q[j] == p[j]);
                    }
                }
            }
        }
        if d > limit || value > (limit - d) / 10 {
            proof {
                let q = body.subrange(0, i - start + 1);
                assert(digits_value(q) == value * 10 + d);
                assert(digits_value(q) > limit) by (nonlinear_arith)
                    requires
                        d > limit || value > (limit - d) / 10,
                        digits_value(q) == value * 10 + d,
                        value >= 0,
                ;
                if all_digits(body) {
                    lemma_digits_value_grows(body, i - start + 1);
                }
            }
            return None;
        }
        proof {
            assert(value * 10 + d <= limit) by (nonlinear_arith)
                requires
                    value <= (limit - d) / 10,
                    d <= 9,
            ;
        }
        value = value * 10 + d;
        i = i + 1;
    }
    assert(body.subrange(0, body.len() as int) =~= body);
    Some(value)
}


// -------------------------------------------------------------------------------------------------
// Signed integers

/// Reads the text of a signed integer in the range `[-neg_limit, pos_limit]`.
pub fn parse_signed(s: &[char], neg_limit: u64, pos_limit: u64) -> (r: Option<i128>)
    ensures
        match signed_text_value(s@, neg_limit as int, pos_limit as int) {
            Some(v) => r == Some(v as i128),
            None => r is None,
        },
{
    if s.len() > 0 && s[0] == '-' {
        let v = parse_digits(s, 1, neg_limit);
        assert(s@.subrange(1, s@.len() as int) =~= s@.drop_first());
        match v {
            Some(v) => Some(-(v as i128)),
            None => None,
        }
    } else if s.len() > 0 && s[0] == '+' {
        let v = parse_digits(s, 1, pos_limit);
        assert(s@.subrange(1, s@.len() as int) =~= s@.drop_first());
        match v {
            Some(v) => Some(v as i128),
            None => None,
        }
    } else {
        let v = parse_digits(s, 0, pos_limit);
        assert(s@.subrange(0, s@.len() as int) =~= s@);
        match v {
            Some(v) => Some(v as i128),
            None => None,
        }
    }
}

// -------------------------------------------------------------------------------------------------
// Floating point literals

/// The character is the given ASCII letter in either case.
pub open spec fn ci_char(c: char, lower: char) -> bool {
    c == lower || ((lower as u32) >= 32 && (c as u32) == (lower as u32) - 32)
}

/// The text equals the given lower-case ASCII word, ignoring case.
pub open spec fn ci_word(s: Seq<char>, word: Seq<char>) -> bool {
    s.len() == word.len() && forall|i: int| 0 <= i < s.len() ==> ci_char(#[trigger] s[i], word[i])
}

/// Number of consecutive digits starting at position `i`.
pub open spec fn digit_run(s: Seq<char>, i: int) -> int
    decreases s.len() - i,
{
    if 0 <= i < s.len() && is_digit(s[i]) {
        1 + digit_run(s, i + 1)
    } else {
        0
    }
}

/// A decimal number: digits, an optional fraction (a dot and digits) with at least one digit in
/// all, then optionally an exponent (`e` or `E`, an optional sign and at least one digit).
pub open spec fn is_decimal(s: Seq<char>) -> bool {
    let int_digits = digit_run(s, 0);
    let has_dot = int_digits < s.len() && s[int_digits] == '.';
    let frac_digits = if has_dot { digit_run(s, int_digits + 1) } else { 0 };
    let end = if has_dot { int_digits + 1 + frac_digits } else { int_digits };
    int_digits + frac_digits >= 1 && (end == s.len() || (
        (s[end] == 'e' || s[end] == 'E') && {
            let sign = end + 1 < s.len() && (s[end + 1] == '+' || s[end + 1] == '-');
            let start = if sign { end + 2 } else { end + 1 };
            digit_run(s, start) >= 1 && start + digit_run(s, start) == s.len()
        }))
}

/// Text accepted as a floating point number: an optional sign followed by a decimal number or,
/// in any case, `inf`, `infinity` or `nan`.
pub open spec fn is_float_text(s: Seq<char>) -> bool {
    let body = if s.len() > 0 && (s[0] == '+' || s[0] == '-') { s.drop_first() } else { s };
    ||| ci_word(body, "inf"@)
    ||| ci_word(body, "infinity"@)
    ||| ci_word(body, "nan"@)
    ||| is_decimal(body)
}


proof fn lemma_digit_run_bounds(s: Seq<char>, i: int)
    requires
        0 <= i,
    ensures
        0 <= digit_run(s, i),
        i <= s.len() ==> i + digit_run(s, i) <= s.len(),
    decreases s.len() - i,
{
    if 0 <= i < s.len() && is_digit(s[i]) {
        lemma_digit_run_bounds(s, i + 1);
    }
}

/// Counts the consecutive digits starting at position `i`.
pub fn digit_run_len(s: &[char], i: usize) -> (r: usize)
    requires
        i <= s@.len(),
    ensures
        r == digit_run(s@, i as int),
        i + r <= s@.len(),
{
    let mut j: usize = i;
    while j < s.len() && '0' <= s[j] && s[j] <= '9'
        invariant
            i <= j <= s@.len(),
            digit_run(s@, i as int) == (j - i) + digit_run(s@, j as int),
        decreases s@.len() - j,
    {
        j = j + 1;
    }
    proof {
        lemma_digit_run_bounds(s@, j as int);
    }
    j - i
}

/// Checks whether the text is a decimal number.
pub fn is_decimal_text(s: &[char]) -> (r: bool)
    ensures
        r == is_decimal(s@),
{
    let n = s.len();
    let int_digits = digit_run_len(s, 0);
    let has_dot = int_digits < n && s[int_digits] == '.';
    let frac_digits = if has_dot { digit_run_len(s, int_digits + 1) } else { 0 };
    let end = if has_dot { int_digits + 1 + frac_digits } else { int_digits };
    if int_digits + frac_digits < 1 {
        return false;
    }
    if end == n {
        return true;
    }
    if !(s[end] == 'e' || s[end] == 'E') {
        return false;
    }
    let sign = end + 1 < n && (s[end + 1] == '+' || s[end + 1] == '-');
    let start = if sign { end + 2 } else { end + 1 };
    let run = digit_run_len(s, start);
    run >= 1 && start + run == n
}

/// Compares the text with a lower-case ASCII word ignoring case.
pub fn ci_word_eq(s: &[char], word: &str) -> (r: bool)
    ensures
        r == ci_word(s@, word@),
{
    let w = chars_of(word);
    if s.len() != w.len() {
        return false;
    }
    let mut i: usize = 0;
    while i < s.len()
        invariant
            w@ == word@,
            s@.len() == w@.len(),
            i <= s@.len(),
            forall|j: int| 0 <= j < i ==> ci_char(#[trigger] s@[j], w@[j]),
        decreases s@.len() - i,
    {
        let c = s[i];
        let l = w[i];
        if !(c == l || ((l as u32) >= 32 && (c as u32) == (l as u32) - 32)) {
            assert(!ci_char(s@[i as int], w@[i as int]));
            return false;
        }
        i = i + 1;
    }
    true
}

/// Checks whether the text is accepted as a floating point number.
pub fn is_float(s: &[char]) -> (r: bool)
    ensures
        r == is_float_text(s@),
{
    let signed = s.len() > 0 && (s[0] == '+' || s[0] == '-');
    let mut body: Vec<char> = Vec::new();
    let mut i: usize = if signed { 1 } else { 0 };
    while i < s.len()
        invariant
            (if signed { 1int } else { 0int }) <= i <= s@.len(),
            body@ == s@.subrange(if signed { 1int } else { 0int }, i as int),
        decreases s@.len() - i,
    {
        body.push(s[i]);
        i = i + 1;
    }
    proof {
        if signed {
            assert(body@ =~= s@.drop_first());
        } else {
            assert(body@ =~= s@);
        }
    }
    ci_word_eq(body.as_slice(), "inf") || ci_word_eq(body.as_slice(), "infinity")
        || ci_word_eq(body.as_slice(), "nan") || is_decimal_text(body.as_slice())
}

}
