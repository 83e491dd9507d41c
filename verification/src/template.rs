//! Filling a format node's template: each placeholder `{k}` takes the text of the `k`-th value.

use vstd::prelude::*;
use crate::text::{decimal_seq, decimal_text, push_char, text_eq};
use vstd::string::StrSliceExecFns;
use vstd::string::StringExecFns;

verus! {

/// `s` from position `i` on, with every occurrence of the non-empty `pattern` replaced by
/// `replacement`, occurrences found from left to right without overlapping.
pub open spec fn replace_from(s: Seq<char>, pattern: Seq<char>, replacement: Seq<char>, i: int) -> Seq<char>
    decreases s.len() - i,
{
    if i < 0 || i >= s.len() {
        Seq::empty()
    } else if pattern.len() > 0 && i + pattern.len() <= s.len() && s.subrange(i, i + pattern.len()) == pattern {
        replacement + replace_from(s, pattern, replacement, i + pattern.len())
    } else {
        seq![s[i]] + replace_from(s, pattern, replacement, i + 1)
    }
}

/// `s` with every occurrence of the non-empty `pattern` replaced by `replacement`.
pub open spec fn replace_spec(s: Seq<char>, pattern: Seq<char>, replacement: Seq<char>) -> Seq<char> {
    replace_from(s, pattern, replacement, 0)
}

/// `s` with every occurrence of the non-empty `pattern` replaced by `replacement`, as
/// `str::replace` does.
pub fn replace_text(s: &str, pattern: &str, replacement: &str) -> (out: String)
    requires
        pattern@.len() > 0,
    ensures
        out@ == replace_spec(s@, pattern@, replacement@),
{
    let n = s.unicode_len();
    let m = pattern.unicode_len();
    let mut out = String::new();
    let mut i: usize = 0;
    proof {
        assert(out@ + replace_from(s@, pattern@, replacement@, 0) =~= replace_from(s@, pattern@, replacement@, 0));
    }
    while i < n
        invariant
            n == s@.len(),
            m == pattern@.len(),
            m > 0,
            i <= n,
            out@ + replace_from(s@, pattern@, replacement@, i as int) == replace_spec(s@, pattern@, replacement@),
        decreases n - i,
    {
        let ghost before = out@;
        let ghost rest = replace_from(s@, pattern@, replacement@, i as int);
        if m <= n - i && text_eq(s.substring_char(i, i + m), pattern) {
            out.append(replacement);
            proof {
                let next = replace_from(s@, pattern@, replacement@, i + m);
                assert(rest == replacement@ + next);
                assert(before + (replacement@ + next) =~= (before + replacement@) + next);
            }
            i = i + m;
        } else {
            let c = s.get_char(i);
            push_char(&mut out, c);
            proof {
                let next = replace_from(s@, pattern@, replacement@, i + 1);
                assert(rest == seq![c] + next);
                assert(before + (seq![c] + next) =~= before.push(c) + next);
            }
            i = i + 1;
        }
    }
    proof {
        assert(out@ + replace_from(s@, pattern@, replacement@, i as int) =~= out@);
    }
    out
}

/// The placeholder of the `k`-th value: `{k}`.
pub open spec fn placeholder(k: nat) -> Seq<char> {
    seq!['{'] + decimal_seq(k) + seq!['}']
}

/// The template after the placeholders from `k` on were filled, in order, with their texts.
pub open spec fn fill_from(template: Seq<char>, texts: Seq<Seq<char>>, k: int) -> Seq<char>
    decreases texts.len() - k,
{
    if k < 0 || k >= texts.len() {
        template
    } else {
        fill_from(replace_spec(template, placeholder(k as nat), texts[k]), texts, k + 1)
    }
}

/// What a format node writes: its template, each placeholder `{0}`, `{1}`, ... replaced in
/// turn by the text of the value at that position.
pub open spec fn format_template_spec(template: Seq<char>, texts: Seq<Seq<char>>) -> Seq<char> {
    fill_from(template, texts, 0)
}

pub open spec fn texts_of(texts: Seq<String>) -> Seq<Seq<char>> {
    texts.map_values(|t: String| t@)
}

fn placeholder_text(k: usize) -> (p: String)
    ensures
        p@ == placeholder(k as nat),
{
    let mut p = String::new();
    push_char(&mut p, '{');
    let digits = decimal_text(k as u128);
    p.append(digits.as_str());
    push_char(&mut p, '}');
    assert(p@ =~= placeholder(k as nat));
    p
}

/// Fills the template of a format node with the texts of its values.
pub fn format_template(template: &str, texts: &[String]) -> (out: String)
    ensures
        out@ == format_template_spec(template@, texts_of(texts@)),
{
    let ghost ts = texts_of(texts@);
    let mut out = template.to_owned();
    let mut k: usize = 0;
    while k < texts.len()
        invariant
            k <= texts.len(),
            ts == texts_of(texts@),
            fill_from(out@, ts, k as int) == format_template_spec(template@, ts),
        decreases texts.len() - k,
    {
        let p = placeholder_text(k);
        assert(p@.len() > 0) by {
            assert(p@[0] == '{');
        }
        out = replace_text(out.as_str(), p.as_str(), texts[k].as_str());
        k = k + 1;
    }
    out
}

} // verus!
