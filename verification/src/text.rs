//! Small verified helpers on text.

use vstd::prelude::*;
use vstd::string::StrSliceExecFns;
use vstd::string::StringExecFns;

verus! {

/// Compares two strings character by character.
pub fn text_eq(a: &str, b: &str) -> (r: bool)
    ensures
        r == (a@ == b@),
{
    let n = a.unicode_len();
    let m = b.unicode_len();
    if n != m {
        return false;
    }
    let mut i: usize = 0;
    while i < n
        invariant
            n == a@.len(),
            m == b@.len(),
            n == m,
            i <= n,
            forall|j: int| 0 <= j < i ==> a@[j] == b@[j],
        decreases n - i,
    {
        if a.get_char(i) != b.get_char(i) {
            return false;
        }
        i = i + 1;
    }
    assert(a@ =~= b@);
    true
}

} // verus!

verus! {

/// Appends one character. Trusted: calls `String::push`, which std documents as
/// appending the given char to the end of the string.
#[verifier::external_body]
pub(crate) fn push_char(s: &mut String, c: char)
    ensures
        final(s)@ == old(s)@.push(c),
{
    s.push(c);
}

} // verus!

verus! {

pub open spec fn has_prefix(s: Seq<char>, prefix: Seq<char>) -> bool {
    prefix.len() <= s.len() && s.take(prefix.len() as int) == prefix
}

/// Whether `s` begins with `prefix`.
pub fn starts_with(s: &str, prefix: &str) -> (r: bool)
    ensures
        r == has_prefix(s@, prefix@),
{
    let n = s.unicode_len();
    let m = prefix.unicode_len();
    if m > n {
        return false;
    }
    let mut i: usize = 0;
    while i < m
        invariant
            n == s@.len(),
            m == prefix@.len(),
            m <= n,
            i <= m,
            forall|j: int| 0 <= j < i ==> s@[j] == prefix@[j],
        decreases m - i,
    {
        if s.get_char(i) != prefix.get_char(i) {
            assert(s@.take(m as int)[i as int] != prefix@[i as int]);
            return false;
        }
        i = i + 1;
    }
    assert(s@.take(m as int) =~= prefix@);
    true
}

/// The rest of `s` after `prefix`, if `s` begins with it.
pub fn strip_prefix<'a>(s: &'a str, prefix: &str) -> (rest: Option<&'a str>)
    ensures
        match rest {
            Some(r) => has_prefix(s@, prefix@) && r@ == s@.skip(prefix@.len() as int),
            None => !has_prefix(s@, prefix@),
        },
{
    if starts_with(s, prefix) {
        let n = s.unicode_len();
        let m = prefix.unicode_len();
        Some(s.substring_char(m, n))
    } else {
        None
    }
}

} // verus!

verus! {

/// The decimal digits of `n`, most significant first, without leading zeros ("0" for zero).
pub open spec fn decimal_seq(n: nat) -> Seq<char>
    decreases n,
{
    if n < 10 {
        seq![(48 + n) as char]
    } else {
        decimal_seq(n / 10).push((48 + n % 10) as char)
    }
}

/// The number that decimal digits `s` write.
pub open spec fn decimal_value(s: Seq<char>) -> nat
    decreases s.len(),
{
    if s.len() == 0 {
        0
    } else {
        decimal_value(s.drop_last()) * 10 + ((s.last() as nat - 48) as nat)
    }
}

pub proof fn lemma_decimal_round_trip(n: nat)
    ensures
        decimal_value(decimal_seq(n)) == n,
        decimal_seq(n).len() >= 1,
        forall|i: int| 0 <= i < decimal_seq(n).len() ==> '0' <= #[trigger] decimal_seq(n)[i] <= '9',
    decreases n,
{
    if n >= 10 {
        lemma_decimal_round_trip(n / 10);
        assert(decimal_seq(n).drop_last() =~= decimal_seq(n / 10));
        let s = decimal_seq(n);
        let d = n % 10;
        assert(s.last() == (48 + d) as char);
        assert(((48 + d) as char) as nat == 48 + d);
        assert((n / 10) * 10 + d == n);
        assert(decimal_value(s) == decimal_value(s.drop_last()) * 10 + ((s.last() as nat - 48) as nat));
        assert forall|i: int| 0 <= i < s.len() implies '0' <= #[trigger] s[i] <= '9' by {
            if i < s.len() - 1 {
                assert(s[i] == decimal_seq(n / 10)[i]);
            }
        }
    } else {
        assert(seq![(48 + n) as char].drop_last() =~= Seq::<char>::empty());
        assert(((48 + n) as char) as nat == 48 + n);
        assert(decimal_value(Seq::<char>::empty()) == 0);
        assert(decimal_seq(n).last() == (48 + n) as char);
    }
}

/// Different numbers are written differently.
pub proof fn decimal_seq_injective(a: nat, b: nat)
    requires
        decimal_seq(a) == decimal_seq(b),
    ensures
        a == b,
{
    lemma_decimal_round_trip(a);
    lemma_decimal_round_trip(b);
}

/// The decimal text of `n`.
pub fn decimal_text(n: u128) -> (text: String)
    ensures
        text@ == decimal_seq(n as nat),
    decreases n,
{
    if n < 10 {
        let mut text = String::new();
        push_char(&mut text, ((n as u8) + 48) as char);
        assert(text@ =~= seq![(48 + n) as char]);
        text
    } else {
        let mut text = decimal_text(n / 10);
        push_char(&mut text, (((n % 10) as u8) + 48) as char);
        text
    }
}

/// `count` times the text `unit`.
pub open spec fn repeat_seq(unit: Seq<char>, count: nat) -> Seq<char>
    decreases count,
{
    if count == 0 {
        Seq::empty()
    } else {
        repeat_seq(unit, (count - 1) as nat) + unit
    }
}

/// Appends `count` copies of `unit`.
pub fn push_repeated(s: &mut String, unit: &str, count: usize)
    ensures
        final(s)@ == old(s)@ + repeat_seq(unit@, count as nat),
{
    let mut i: usize = 0;
    while i < count
        invariant
            i <= count,
            s@ == old(s)@ + repeat_seq(unit@, i as nat),
        decreases count - i,
    {
        s.append(unit);
        i = i + 1;
        assert(s@ =~= old(s)@ + repeat_seq(unit@, i as nat));
    }
}

} // verus!

verus! {

/// Whether `c` has the Unicode White_Space property.
pub open spec fn is_white_space(c: char) -> bool {
    ('\u{9}' <= c <= '\u{d}') || c == ' ' || c == '\u{85}' || c == '\u{a0}' || c == '\u{1680}' || ('\u{2000}' <= c
        <= '\u{200a}') || c == '\u{2028}' || c == '\u{2029}' || c == '\u{202f}' || c == '\u{205f}' || c == '\u{3000}'
}

fn white_space(c: char) -> (r: bool)
    ensures
        r == is_white_space(c),
{
    ('\u{9}' <= c && c <= '\u{d}') || c == ' ' || c == '\u{85}' || c == '\u{a0}' || c == '\u{1680}' || ('\u{2000}'
        <= c && c <= '\u{200a}') || c == '\u{2028}' || c == '\u{2029}' || c == '\u{202f}' || c == '\u{205f}' || c
        == '\u{3000}'
}

/// The number of white-space characters at the start of `s`.
pub open spec fn leading_white_space(s: Seq<char>) -> int
    decreases s.len(),
{
    if s.len() > 0 && is_white_space(s[0]) {
        1 + leading_white_space(s.skip(1))
    } else {
        0
    }
}

/// The number of white-space characters at the end of `s`.
pub open spec fn trailing_white_space(s: Seq<char>) -> int
    decreases s.len(),
{
    if s.len() > 0 && is_white_space(s.last()) {
        1 + trailing_white_space(s.drop_last())
    } else {
        0
    }
}

/// `s` without white space at either end.
pub open spec fn trim_spec(s: Seq<char>) -> Seq<char> {
    let front = leading_white_space(s);
    if front == s.len() {
        Seq::empty()
    } else {
        s.subrange(front, s.len() - trailing_white_space(s))
    }
}

proof fn lemma_leading_white_space(s: Seq<char>, i: int)
    requires
        0 <= i <= s.len(),
        forall|j: int| 0 <= j < i ==> is_white_space(#[trigger] s[j]),
    ensures
        leading_white_space(s) == i + leading_white_space(s.skip(i)),
    decreases i,
{
    if i > 0 {
        assert(is_white_space(s[0]));
        assert(s.skip(1).skip(i - 1) =~= s.skip(i));
        assert forall|j: int| 0 <= j < i - 1 implies is_white_space(#[trigger] s.skip(1)[j]) by {
            assert(s.skip(1)[j] == s[j + 1]);
        }
        lemma_leading_white_space(s.skip(1), i - 1);
    } else {
        assert(s.skip(0) =~= s);
    }
}

proof fn lemma_trailing_white_space(s: Seq<char>, i: int)
    requires
        0 <= i <= s.len(),
        forall|j: int| s.len() - i <= j < s.len() ==> is_white_space(#[trigger] s[j]),
    ensures
        trailing_white_space(s) == i + trailing_white_space(s.take(s.len() - i)),
    decreases i,
{
    if i > 0 {
        assert(is_white_space(s[s.len() - 1]));
        assert(s.drop_last().take(s.len() - i) =~= s.take(s.len() - i));
        assert forall|j: int| s.len() - 1 - (i - 1) <= j < s.len() - 1 implies is_white_space(
            #[trigger] s.drop_last()[j],
        ) by {
            assert(s.drop_last()[j] == s[j]);
        }
        lemma_trailing_white_space(s.drop_last(), i - 1);
    } else {
        assert(s.take(s.len() as int) =~= s);
    }
}

proof fn lemma_white_space_bounds(s: Seq<char>)
    ensures
        0 <= leading_white_space(s) <= s.len(),
        0 <= trailing_white_space(s) <= s.len(),
    decreases s.len(),
{
    if s.len() > 0 {
        lemma_white_space_bounds(s.skip(1));
        lemma_white_space_bounds(s.drop_last());
    }
}

/// `s` without white space at either end.
pub fn trim(s: &str) -> (t: &str)
    ensures
        t@ == trim_spec(s@),
{
    let n = s.unicode_len();
    let mut front: usize = 0;
    while front < n && white_space(s.get_char(front))
        invariant
            n == s@.len(),
            front <= n,
            forall|j: int| 0 <= j < front ==> is_white_space(#[trigger] s@[j]),
        decreases n - front,
    {
        front = front + 1;
    }
    proof {
        lemma_leading_white_space(s@, front as int);
        if front < n {
            assert(leading_white_space(s@.skip(front as int)) == 0);
        } else {
            lemma_white_space_bounds(s@.skip(front as int));
        }
    }
    if front == n {
        proof {
            reveal_strlit("");
        }
        return "";
    }
    let mut back: usize = 0;
    while back < n - front && white_space(s.get_char(n - 1 - back))
        invariant
            n == s@.len(),
            front < n,
            back <= n - front,
            forall|j: int| n - back <= j < n ==> is_white_space(#[trigger] s@[j]),
        decreases n - front - back,
    {
        back = back + 1;
    }
    proof {
        lemma_trailing_white_space(s@, back as int);
        if back < n - front {
            assert(trailing_white_space(s@.take(n - back)) == 0) by {
                assert(s@.take(n - back).last() == s@[n - 1 - back]);
            }
        } else {
            assert(!is_white_space(s@[front as int]));
            assert(false);
        }
    }
    s.substring_char(front, n - back)
}

/// Whether every character of `s` is a decimal digit.
pub open spec fn all_digits(s: Seq<char>) -> bool {
    forall|i: int| 0 <= i < s.len() ==> '0' <= #[trigger] s[i] <= '9'
}

/// The digits of a number's text: what follows an optional leading `+`.
pub open spec fn unsigned_digits(s: Seq<char>) -> Seq<char> {
    if s.len() > 0 && s[0] == '+' {
        s.skip(1)
    } else {
        s
    }
}

/// What parsing `s` as an unsigned integer no larger than `max` gives: an optional `+`, then at
/// least one decimal digit, for a number no larger than `max`.
pub open spec fn parse_unsigned_spec(s: Seq<char>, max: u64) -> Option<u64> {
    let digits = unsigned_digits(s);
    if digits.len() > 0 && all_digits(digits) && decimal_value(digits) <= max {
        Some(decimal_value(digits) as u64)
    } else {
        None
    }
}

/// What parsing `s` as a `u32` gives.
pub open spec fn parse_u32_spec(s: Seq<char>) -> Option<u32> {
    match parse_unsigned_spec(s, u32::MAX as u64) {
        Some(v) => Some(v as u32),
        None => None,
    }
}

/// What parsing `s` as a `usize` gives.
pub open spec fn parse_usize_spec(s: Seq<char>) -> Option<usize> {
    match parse_unsigned_spec(s, usize::MAX as u64) {
        Some(v) => Some(v as usize),
        None => None,
    }
}

proof fn lemma_decimal_value_grows(s: Seq<char>, i: int, j: int)
    requires
        0 <= i <= j <= s.len(),
        all_digits(s),
    ensures
        decimal_value(s.take(i)) <= decimal_value(s.take(j)),
    decreases j - i,
{
    if i < j {
        lemma_decimal_value_grows(s, i, j - 1);
        assert(s.take(j).drop_last() =~= s.take(j - 1));
        assert('0' <= s[j - 1] <= '9');
    }
}

/// Parses `s` as an unsigned integer no larger than `max`, as `str::parse` does for unsigned
/// types.
fn parse_unsigned(s: &str, max: u64) -> (value: Option<u64>)
    ensures
        value == parse_unsigned_spec(s@, max),
{
    let n = s.unicode_len();
    let start: usize = if n > 0 && s.get_char(0) == '+' {
        1
    } else {
        0
    };
    let ghost digits = unsigned_digits(s@);
    assert(digits =~= s@.skip(start as int));
    if start == n {
        return None;
    }
    let mut value: u128 = 0;
    let mut i: usize = start;
    while i < n
        invariant
            n == s@.len(),
            start <= i <= n,
            digits == s@.skip(start as int),
            digits == unsigned_digits(s@),
            all_digits(digits.take(i - start)),
            value == decimal_value(digits.take(i - start)),
            value <= max,
        decreases n - i,
    {
        let c = s.get_char(i);
        if c < '0' || c > '9' {
            assert(!all_digits(digits)) by {
                assert(digits[i - start] == c);
            }
            assert(parse_unsigned_spec(s@, max) is None);
            return None;
        }
        let ghost prefix = digits.take(i - start + 1);
        assert(prefix.drop_last() =~= digits.take(i - start));
        assert(prefix.last() == c);
        let d: u128 = (c as u128) - 48;
        value = value * 10 + d;
        assert(all_digits(prefix)) by {
            assert forall|k: int| 0 <= k < prefix.len() implies '0' <= #[trigger] prefix[k] <= '9' by {
                if k < prefix.len() - 1 {
                    assert(prefix[k] == digits.take(i - start)[k]);
                }
            }
        }
        assert(value == decimal_value(prefix));
        i = i + 1;
        if value > max as u128 {
            proof {
                if all_digits(digits) {
                    lemma_decimal_value_grows(digits, i - start, digits.len() as int);
                    assert(digits.take(digits.len() as int) =~= digits);
                    assert(decimal_value(digits) > max);
                }
            }
            assert(parse_unsigned_spec(s@, max) is None);
            return None;
        }
    }
    assert(digits.take(i - start) =~= digits);
    Some(value as u64)
}

/// Whether text `a` comes before text `b`: at the first place where they differ, `a` has the
/// smaller character, or `a` ends there and `b` does not. This is the order of `str`, whose
/// bytes in UTF-8 order as the characters do.
pub open spec fn text_lt(a: Seq<char>, b: Seq<char>) -> bool
    decreases a.len(),
{
    if a.len() == 0 {
        b.len() > 0
    } else if b.len() == 0 {
        false
    } else if a[0] != b[0] {
        a[0] < b[0]
    } else {
        text_lt(a.skip(1), b.skip(1))
    }
}

/// Whether text `a` comes before text `b`.
pub fn text_less(a: &str, b: &str) -> (less: bool)
    ensures
        less == text_lt(a@, b@),
{
    let n = a.unicode_len();
    let m = b.unicode_len();
    let mut i: usize = 0;
    assert(a@.skip(0) =~= a@ && b@.skip(0) =~= b@);
    while i < n && i < m
        invariant
            n == a@.len(),
            m == b@.len(),
            i <= n,
            i <= m,
            text_lt(a@, b@) == text_lt(a@.skip(i as int), b@.skip(i as int)),
        decreases n - i,
    {
        let x = a.get_char(i);
        let y = b.get_char(i);
        assert(a@.skip(i as int)[0] == x && b@.skip(i as int)[0] == y);
        if x != y {
            return x < y;
        }
        assert(a@.skip(i as int).skip(1) =~= a@.skip(i as int + 1));
        assert(b@.skip(i as int).skip(1) =~= b@.skip(i as int + 1));
        i = i + 1;
    }
    i == n && i < m
}

/// The order of texts is transitive.
pub proof fn lemma_text_lt_transitive(a: Seq<char>, b: Seq<char>, c: Seq<char>)
    requires
        text_lt(a, b),
        text_lt(b, c),
    ensures
        text_lt(a, c),
    decreases a.len(),
{
    if a.len() > 0 && b.len() > 0 && c.len() > 0 && a[0] == b[0] && b[0] == c[0] {
        lemma_text_lt_transitive(a.skip(1), b.skip(1), c.skip(1));
    }
}

/// Of two different texts, one comes before the other.
pub proof fn lemma_text_lt_total(a: Seq<char>, b: Seq<char>)
    requires
        a != b,
    ensures
        text_lt(a, b) || text_lt(b, a),
    decreases a.len(),
{
    if a.len() == 0 && b.len() == 0 {
        assert(a =~= b);
    } else if a.len() > 0 && b.len() > 0 && a[0] == b[0] {
        if a.skip(1) == b.skip(1) {
            assert(a =~= seq![a[0]] + a.skip(1));
            assert(b =~= seq![b[0]] + b.skip(1));
        }
        lemma_text_lt_total(a.skip(1), b.skip(1));
    }
}

/// Whether texts `keys` come in increasing order, so that none occurs twice.
pub open spec fn texts_ascending(keys: Seq<Seq<char>>) -> bool {
    forall|i: int, j: int| 0 <= i < j < keys.len() ==> text_lt(#[trigger] keys[i], #[trigger] keys[j])
}

/// Whether `needle` occurs in `haystack`.
pub open spec fn contains_text(haystack: Seq<char>, needle: Seq<char>) -> bool {
    exists|i: int| 0 <= i && i + needle.len() <= haystack.len() && #[trigger] haystack.subrange(i, i + needle.len()) == needle
}

/// Whether `needle` occurs in `haystack`, as `str::contains` tells for a text pattern.
pub fn text_contains(haystack: &str, needle: &str) -> (found: bool)
    ensures
        found == contains_text(haystack@, needle@),
{
    let n = haystack.unicode_len();
    let m = needle.unicode_len();
    if m > n {
        return false;
    }
    let mut i: usize = 0;
    while i <= n - m
        invariant
            n == haystack@.len(),
            m == needle@.len(),
            m <= n,
            i <= n - m + 1,
            forall|j: int| 0 <= j < i ==> #[trigger] haystack@.subrange(j, j + m) != needle@,
        decreases n - m + 1 - i,
    {
        if text_eq(haystack.substring_char(i, i + m), needle) {
            return true;
        }
        if i == n - m {
            return false;
        }
        i = i + 1;
    }
    false
}

/// What parsing `s` as an `i64` gives: a leading `-` and at least one decimal digit for a
/// number no smaller than `i64::MIN`, or an unsigned number no larger than `i64::MAX`.
pub open spec fn parse_i64_spec(s: Seq<char>) -> Option<i64> {
    if s.len() > 0 && s[0] == '-' {
        let digits = s.skip(1);
        if digits.len() > 0 && all_digits(digits) && decimal_value(digits) <= 0x8000_0000_0000_0000 {
            Some((0 - decimal_value(digits)) as i64)
        } else {
            None
        }
    } else {
        match parse_unsigned_spec(s, 0x7fff_ffff_ffff_ffff) {
            Some(v) => Some(v as i64),
            None => None,
        }
    }
}

/// Parses `s` as an `i64`, as `str::parse` does.
pub fn parse_i64(s: &str) -> (value: Option<i64>)
    ensures
        value == parse_i64_spec(s@),
{
    let n = s.unicode_len();
    if n > 0 && s.get_char(0) == '-' {
        let rest = s.substring_char(1, n);
        assert(rest@ =~= s@.skip(1));
        if n > 1 && rest.get_char(0) == '+' {
            assert(!all_digits(s@.skip(1)) || s@.skip(1).len() == 0) by {
                assert(s@.skip(1)[0] == '+');
            }
            return None;
        }
        assert(unsigned_digits(rest@) =~= rest@);
        match parse_unsigned(rest, 0x8000_0000_0000_0000) {
            Some(v) => {
                let negated: i128 = 0 - (v as i128);
                Some(negated as i64)
            },
            None => None,
        }
    } else {
        match parse_unsigned(s, 0x7fff_ffff_ffff_ffff) {
            Some(v) => Some(v as i64),
            None => None,
        }
    }
}

/// Parses `s` as a `u32`, as `str::parse` does.
pub fn parse_u32(s: &str) -> (value: Option<u32>)
    ensures
        value == parse_u32_spec(s@),
{
    match parse_unsigned(s, 0xffff_ffff) {
        Some(v) => Some(v as u32),
        None => None,
    }
}

/// Parses `s` as a `usize`, as `str::parse` does.
pub fn parse_usize(s: &str) -> (value: Option<usize>)
    ensures
        value == parse_usize_spec(s@),
{
    match parse_unsigned(s, usize::MAX as u64) {
        Some(v) => Some(v as usize),
        None => None,
    }
}

/// The trimmed text, if anything is left of it.
pub fn non_empty_text(value: &str) -> (text: Option<String>)
    ensures
        text matches Some(t) ==> t@ == trim_spec(value@),
        text is None <==> trim_spec(value@).len() == 0,
{
    let t = trim(value);
    if t.unicode_len() == 0 {
        None
    } else {
        Some(t.to_owned())
    }
}

/// The number after trimming, if the rest is one.
pub fn parse_optional_u32(value: &str) -> (parsed: Option<u32>)
    ensures
        parsed == parse_u32_spec(trim_spec(value@)),
{
    parse_u32(trim(value))
}

/// The decimal text of a number, or nothing.
pub fn optional_u32(value: Option<u32>) -> (text: String)
    ensures
        text@ == (match value {
            Some(v) => decimal_seq(v as nat),
            None => Seq::empty(),
        }),
{
    match value {
        Some(v) => decimal_text(v as u128),
        None => String::new(),
    }
}

/// The text shown for an optional number.
pub open spec fn optional_u32_spec(value: Option<u32>) -> Seq<char> {
    match value {
        Some(v) => decimal_seq(v as nat),
        None => Seq::empty(),
    }
}

/// Reading back the text shown for an optional number gives the number back.
pub proof fn optional_u32_round_trip(value: Option<u32>)
    ensures
        parse_u32_spec(trim_spec(optional_u32_spec(value))) == value,
{
    let t = optional_u32_spec(value);
    match value {
        Some(v) => {
            lemma_decimal_round_trip(v as nat);
            assert('0' <= t[0] <= '9');
            assert(!is_white_space(t[0]));
            assert(!is_white_space(t.last()));
            assert(leading_white_space(t) == 0);
            assert(trailing_white_space(t) == 0);
            assert(t.subrange(0, t.len() as int) =~= t);
            assert(trim_spec(t) == t);
            assert(unsigned_digits(t) == t);
            assert(all_digits(t));
        },
        None => {
            assert(leading_white_space(t) == 0);
            assert(trim_spec(t) == t);
        },
    }
}

} // verus!
