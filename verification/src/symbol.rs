//! Stable identifiers of definition graph entities.

use vstd::prelude::*;
use vstd::string::StrSliceExecFns;

verus! {

/// Identifier of an entity of the definition graph (model, field, menu,
/// page, route, permission, function, node, port ...).
#[derive(Clone, Copy, Debug, PartialEq, Eq, Structural, PartialOrd, Ord, Hash)]
pub struct SymbolId {
    pub value: u128,
}

impl SymbolId {
    /// Wraps a raw 128-bit identifier.
    pub fn from_u128(value: u128) -> (id: SymbolId)
        ensures
            id.value == value,
    {
        SymbolId { value }
    }
}

} // verus!

verus! {

pub open spec fn pow16(n: nat) -> nat
    decreases n,
{
    if n == 0 {
        1
    } else {
        16 * pow16((n - 1) as nat)
    }
}

/// The `n` lowest hexadecimal digits of `v`, most significant first.
pub open spec fn nibbles(v: nat, n: nat) -> Seq<nat>
    decreases n,
{
    if n == 0 {
        Seq::empty()
    } else {
        nibbles(v / 16, (n - 1) as nat).push(v % 16)
    }
}

/// The number written by hexadecimal digits `ds`, most significant first.
pub open spec fn digits_value(ds: Seq<nat>) -> nat
    decreases ds.len(),
{
    if ds.len() == 0 {
        0
    } else {
        digits_value(ds.subrange(0, ds.len() - 1)) * 16 + ds[ds.len() - 1]
    }
}

/// The lower-case hexadecimal digit of `d < 16`.
pub open spec fn hex_char(d: nat) -> char {
    if d < 10 {
        (48 + d) as char
    } else {
        (87 + d) as char
    }
}

/// The value of a hexadecimal digit in either case.
pub open spec fn hex_value(c: char) -> Option<nat> {
    if '0' <= c && c <= '9' {
        Some((c as nat - 48) as nat)
    } else if 'a' <= c && c <= 'f' {
        Some((c as nat - 87) as nat)
    } else if 'A' <= c && c <= 'F' {
        Some((c as nat - 55) as nat)
    } else {
        None
    }
}

pub open spec fn is_hyphen_position(k: int) -> bool {
    k == 8 || k == 13 || k == 18 || k == 23
}

/// Number of group separators before position `k` of an identifier's text.
pub open spec fn separators_before(k: int) -> int {
    (if k > 8 { 1int } else { 0 }) + (if k > 13 { 1int } else { 0 }) + (if k > 18 { 1int } else { 0 }) + (if k
        > 23 {
        1int
    } else {
        0
    })
}

/// The text of an identifier: its 32 lower-case hexadecimal digits, most significant first, in
/// groups of 8-4-4-4-12 joined by `-`.
pub open spec fn symbol_text(v: u128) -> Seq<char> {
    Seq::new(
        36,
        |k: int|
            if is_hyphen_position(k) {
                '-'
            } else {
                hex_char(nibbles(v as nat, 32)[k - separators_before(k)])
            },
    )
}

/// The values of the digits of `s`, skipping the separator positions.
pub open spec fn text_digits(s: Seq<char>) -> Seq<nat>
    decreases s.len(),
{
    if s.len() == 0 {
        Seq::empty()
    } else {
        text_digits(s.subrange(0, s.len() - 1)) + if is_hyphen_position(s.len() - 1) {
            Seq::<nat>::empty()
        } else {
            seq![hex_value(s[s.len() - 1])->0]
        }
    }
}

/// Whether `s` has the shape of an identifier's text (hexadecimal digits in either case).
pub open spec fn well_formed_symbol_text(s: Seq<char>) -> bool {
    &&& s.len() == 36
    &&& forall|k: int|
        0 <= k < 36 ==> (if is_hyphen_position(k) {
            #[trigger] s[k] == '-'
        } else {
            hex_value(s[k]) is Some
        })
}

/// The identifier that `s` denotes, if it is well formed.
pub open spec fn parse_symbol_spec(s: Seq<char>) -> Option<u128> {
    if well_formed_symbol_text(s) {
        Some(digits_value(text_digits(s)) as u128)
    } else {
        None
    }
}

pub proof fn lemma_pow16_positive(n: nat)
    ensures
        pow16(n) > 0,
    decreases n,
{
    if n > 0 {
        lemma_pow16_positive((n - 1) as nat);
    }
}

pub proof fn lemma_pow16_32()
    ensures
        pow16(32) == 0x1_0000_0000_0000_0000_0000_0000_0000_0000,
{
    reveal_with_fuel(pow16, 33);
}

pub proof fn lemma_nibbles(v: nat, n: nat)
    ensures
        nibbles(v, n).len() == n,
        forall|k: int| 0 <= k < n ==> #[trigger] nibbles(v, n)[k] < 16,
        digits_value(nibbles(v, n)) == v % pow16(n),
    decreases n,
{
    if n > 0 {
        lemma_nibbles(v / 16, (n - 1) as nat);
        lemma_pow16_positive((n - 1) as nat);
        let ns = nibbles(v, n);
        assert(ns.subrange(0, ns.len() - 1) =~= nibbles(v / 16, (n - 1) as nat));
        vstd::arithmetic::div_mod::lemma_mod_breakdown(v as int, 16, pow16((n - 1) as nat) as int);
    }
}

pub proof fn lemma_digits_value_bound(ds: Seq<nat>)
    requires
        forall|k: int| 0 <= k < ds.len() ==> #[trigger] ds[k] < 16,
    ensures
        digits_value(ds) < pow16(ds.len()),
    decreases ds.len(),
{
    if ds.len() > 0 {
        let init = ds.subrange(0, ds.len() - 1);
        assert forall|k: int| 0 <= k < init.len() implies #[trigger] init[k] < 16 by {
            assert(init[k] == ds[k]);
        }
        lemma_digits_value_bound(init);
    }
}

pub proof fn lemma_hex_round_trip(d: nat)
    requires
        d < 16,
    ensures
        hex_value(hex_char(d)) == Some(d),
{
}

} // verus!

verus! {

pub proof fn lemma_text_digits_step(s: Seq<char>, k: int)
    requires
        0 <= k < s.len(),
    ensures
        text_digits(s.take(k + 1)) == text_digits(s.take(k)) + if is_hyphen_position(k) {
            Seq::<nat>::empty()
        } else {
            seq![hex_value(s[k])->0]
        },
{
    assert(s.take(k + 1).subrange(0, k) =~= s.take(k));
}

pub proof fn lemma_text_digits_len(s: Seq<char>, k: int)
    requires
        0 <= k <= s.len(),
    ensures
        text_digits(s.take(k)).len() == k - separators_before(k),
    decreases k,
{
    if k > 0 {
        lemma_text_digits_len(s, k - 1);
        lemma_text_digits_step(s, k - 1);
    }
}

pub proof fn lemma_digits_value_step(ds: Seq<nat>, d: nat)
    ensures
        digits_value(ds + seq![d]) == digits_value(ds) * 16 + d,
{
    assert((ds + seq![d]).subrange(0, ds.len() as int) =~= ds);
}

/// The digits of an identifier's text are the identifier's nibbles.
pub proof fn lemma_symbol_text_digits(v: u128, k: int)
    requires
        0 <= k <= 36,
    ensures
        text_digits(symbol_text(v).take(k)) == nibbles(v as nat, 32).take(k - separators_before(k)),
    decreases k,
{
    lemma_nibbles(v as nat, 32);
    if k == 0 {
        assert(symbol_text(v).take(0) =~= Seq::<char>::empty());
        assert(nibbles(v as nat, 32).take(0) =~= Seq::<nat>::empty());
    } else {
        lemma_symbol_text_digits(v, k - 1);
        lemma_text_digits_step(symbol_text(v), k - 1);
        if !is_hyphen_position(k - 1) {
            let i = k - 1 - separators_before(k - 1);
            lemma_hex_round_trip(nibbles(v as nat, 32)[i]);
        }
        assert(text_digits(symbol_text(v).take(k)) =~= nibbles(v as nat, 32).take(k - separators_before(k)));
    }
}

/// Reading an identifier's text gives the identifier back.
pub proof fn symbol_text_round_trip(v: u128)
    ensures
        parse_symbol_spec(symbol_text(v)) == Some(v),
{
    lemma_nibbles(v as nat, 32);
    lemma_symbol_text_digits(v, 36);
    assert(symbol_text(v).take(36) =~= symbol_text(v));
    assert(nibbles(v as nat, 32).take(32) =~= nibbles(v as nat, 32));
    lemma_pow16_32();
    assert forall|k: int| 0 <= k < 36 implies (if is_hyphen_position(k) {
        #[trigger] symbol_text(v)[k] == '-'
    } else {
        hex_value(symbol_text(v)[k]) is Some
    }) by {
        if !is_hyphen_position(k) {
            lemma_hex_round_trip(nibbles(v as nat, 32)[k - separators_before(k)]);
        }
    }
}

} // verus!

verus! {

fn nibble_digits(v: u128, n: usize) -> (ds: Vec<u8>)
    requires
        n <= 32,
    ensures
        ds@.len() == n,
        forall|k: int| 0 <= k < n ==> #[trigger] ds@[k] as nat == nibbles(v as nat, n as nat)[k],
    decreases n,
{
    if n == 0 {
        Vec::new()
    } else {
        let mut ds = nibble_digits(v / 16, n - 1);
        let ghost prev = ds@;
        let d = (v % 16) as u8;
        ds.push(d);
        proof {
            lemma_nibbles(v as nat, n as nat);
            lemma_nibbles((v / 16) as nat, (n - 1) as nat);
            assert(nibbles(v as nat, n as nat) == nibbles((v / 16) as nat, (n - 1) as nat).push((v % 16) as nat));
            assert forall|k: int| 0 <= k < n implies #[trigger] ds@[k] as nat == nibbles(v as nat, n as nat)[k] by {
                if k < n - 1 {
                    assert(ds@[k] == prev[k]);
                }
            }
        }
        ds
    }
}

fn hex_digit_char(d: u8) -> (c: char)
    requires
        d < 16,
    ensures
        c == hex_char(d as nat),
{
    if d < 10 {
        (d + 48) as char
    } else {
        (d + 87) as char
    }
}

fn hex_digit_value(c: char) -> (d: Option<u8>)
    ensures
        match d {
            Some(x) => hex_value(c) == Some(x as nat),
            None => hex_value(c) is None,
        },
{
    if '0' <= c && c <= '9' {
        Some(((c as u32) - 48) as u8)
    } else if 'a' <= c && c <= 'f' {
        Some(((c as u32) - 87) as u8)
    } else if 'A' <= c && c <= 'F' {
        Some(((c as u32) - 55) as u8)
    } else {
        None
    }
}

impl SymbolId {
    /// The text of the identifier: 8-4-4-4-12 lower-case hexadecimal digits.
    pub fn to_text(&self) -> (text: String)
        ensures
            text@ == symbol_text(self.value),
    {
        let ds = nibble_digits(self.value, 32);
        proof {
            lemma_nibbles(self.value as nat, 32);
        }
        let mut text = String::new();
        let mut k: usize = 0;
        let mut d: usize = 0;
        while k < 36
            invariant
                k <= 36,
                ds@.len() == 32,
                forall|j: int| 0 <= j < 32 ==> #[trigger] ds@[j] as nat == nibbles(self.value as nat, 32)[j],
                forall|j: int| 0 <= j < 32 ==> #[trigger] nibbles(self.value as nat, 32)[j] < 16,
                d == k - separators_before(k as int),
                text@ == symbol_text(self.value).take(k as int),
            decreases 36 - k,
        {
            if k == 8 || k == 13 || k == 18 || k == 23 {
                crate::text::push_char(&mut text, '-');
            } else {
                let c = hex_digit_char(ds[d]);
                crate::text::push_char(&mut text, c);
                d = d + 1;
            }
            k = k + 1;
            assert(text@ =~= symbol_text(self.value).take(k as int));
        }
        assert(symbol_text(self.value).take(36) =~= symbol_text(self.value));
        text
    }

    /// Reads an identifier from its text; the hexadecimal digits may be in either case.
    pub fn parse(text: &str) -> (id: Option<SymbolId>)
        ensures
            match id {
                Some(i) => parse_symbol_spec(text@) == Some(i.value),
                None => parse_symbol_spec(text@) is None,
            },
    {
        let n = text.unicode_len();
        if n != 36 {
            return None;
        }
        let ghost s = text@;
        let mut value: u128 = 0;
        let mut k: usize = 0;
        while k < 36
            invariant
                k <= 36,
                s == text@,
                s.len() == 36,
                forall|j: int| 0 <= j < k ==> (if is_hyphen_position(j) {
                    #[trigger] s[j] == '-'
                } else {
                    hex_value(s[j]) is Some
                }),
                forall|j: int| 0 <= j < text_digits(s.take(k as int)).len() ==> #[trigger] text_digits(s.take(k as int))[j] < 16,
                value as nat == digits_value(text_digits(s.take(k as int))),
            decreases 36 - k,
        {
            let c = text.get_char(k);
            proof {
                lemma_text_digits_step(s, k as int);
                lemma_text_digits_len(s, k as int);
            }
            if k == 8 || k == 13 || k == 18 || k == 23 {
                if c != '-' {
                    return None;
                }
            } else {
                match hex_digit_value(c) {
                    Some(d) => {
                        proof {
                            let ds = text_digits(s.take(k as int));
                            lemma_digits_value_bound(ds);
                            assert(ds.len() <= 31);
                            lemma_pow16_mono(ds.len(), 31);
                            lemma_pow16_31();
                            lemma_digits_value_step(ds, d as nat);
                        }
                        value = value * 16 + d as u128;
                    },
                    None => {
                        return None;
                    },
                }
            }
            k = k + 1;
            proof {
                let ds = text_digits(s.take(k as int));
                assert forall|j: int| 0 <= j < ds.len() implies #[trigger] ds[j] < 16 by {
                    let prev = text_digits(s.take(k as int - 1));
                    if j < prev.len() {
                        assert(ds[j] == prev[j]);
                    }
                }
            }
        }
        proof {
            assert(s.take(36) =~= s);
            let ds = text_digits(s);
            lemma_digits_value_bound(ds);
        }
        Some(SymbolId { value })
    }
}

pub proof fn lemma_pow16_mono(a: nat, b: nat)
    requires
        a <= b,
    ensures
        pow16(a) <= pow16(b),
    decreases b,
{
    if a < b {
        lemma_pow16_mono(a, (b - 1) as nat);
        lemma_pow16_positive((b - 1) as nat);
    }
}

pub proof fn lemma_pow16_31()
    ensures
        pow16(31) == 0x1000_0000_0000_0000_0000_0000_0000_0000,
{
    reveal_with_fuel(pow16, 32);
}

} // verus!
