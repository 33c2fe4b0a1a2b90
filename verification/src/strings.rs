//! Decimal rendering of identifiers and the token-id composition.
//!
//! Series identifiers are decimal strings and token identifiers are
//! `series_id ++ " - " ++ ordinal`. Because decimal digits never contain the
//! delimiter's space, a token id splits back uniquely into its series id and
//! ordinal; the lemmas here make that precise and give system-wide token-id
//! uniqueness by construction.

use vstd::prelude::*;

verus! {

/// The character for one decimal digit value.
pub open spec fn digit_char(d: nat) -> char {
    if d == 0 { '0' }
    else if d == 1 { '1' }
    else if d == 2 { '2' }
    else if d == 3 { '3' }
    else if d == 4 { '4' }
    else if d == 5 { '5' }
    else if d == 6 { '6' }
    else if d == 7 { '7' }
    else if d == 8 { '8' }
    else { '9' }
}

/// Whether `c` is one of the ten decimal digit characters.
pub open spec fn is_digit(c: char) -> bool {
    c == '0' || c == '1' || c == '2' || c == '3' || c == '4' || c == '5' || c == '6' || c == '7'
        || c == '8' || c == '9'
}

/// The value a decimal digit character stands for.
pub open spec fn digit_val(c: char) -> nat {
    if c == '0' { 0 }
    else if c == '1' { 1 }
    else if c == '2' { 2 }
    else if c == '3' { 3 }
    else if c == '4' { 4 }
    else if c == '5' { 5 }
    else if c == '6' { 6 }
    else if c == '7' { 7 }
    else if c == '8' { 8 }
    else { 9 }
}

/// The usual decimal rendering of `n`, most significant digit first.
pub open spec fn decimal_seq(n: nat) -> Seq<char>
    decreases n,
{
    if n < 10 {
        seq![digit_char(n)]
    } else {
        decimal_seq(n / 10) + seq![digit_char(n % 10)]
    }
}

/// The number a sequence of digit characters denotes.
pub open spec fn seq_val(s: Seq<char>) -> nat
    decreases s.len(),
{
    if s.len() == 0 {
        0
    } else {
        seq_val(s.drop_last()) * 10 + digit_val(s.last())
    }
}

/// Whether every character of `s` is a decimal digit.
pub open spec fn all_digits(s: Seq<char>) -> bool {
    forall|i: int| 0 <= i < s.len() ==> is_digit(#[trigger] s[i])
}

/// A decimal rendering is nonempty, consists of digits, and denotes its number.
pub proof fn lemma_decimal_seq(n: nat)
    ensures
        decimal_seq(n).len() >= 1,
        all_digits(decimal_seq(n)),
        seq_val(decimal_seq(n)) == n,
    decreases n,
{
    if n < 10 {
        let s = decimal_seq(n);
        assert(s =~= seq![digit_char(n)]);
        assert(s.drop_last() =~= Seq::<char>::empty());
        assert(seq_val(s.drop_last()) == 0);
        assert(s.last() == digit_char(n));
        assert(digit_val(digit_char(n)) == n);
        assert(seq_val(s) == 0 * 10 + digit_val(digit_char(n)));
    } else {
        lemma_decimal_seq(n / 10);
        let s = decimal_seq(n);
        assert(s =~= decimal_seq(n / 10) + seq![digit_char(n % 10)]);
        assert(s.drop_last() =~= decimal_seq(n / 10));
        assert(s.last() == digit_char(n % 10));
        assert(digit_val(digit_char(n % 10)) == n % 10);
        assert(seq_val(s) == (n / 10) * 10 + n % 10);
        assert((n / 10) * 10 + n % 10 == n) by (nonlinear_arith);
        assert(forall|i: int| 0 <= i < s.len() ==> is_digit(#[trigger] s[i])) by {
            assert(forall|i: int|
                0 <= i < decimal_seq(n / 10).len() ==> is_digit(#[trigger] s[i]));
        }
    }
}

/// Two numbers with the same decimal rendering are equal.
pub proof fn lemma_decimal_injective(m: nat, n: nat)
    requires
        decimal_seq(m) == decimal_seq(n),
    ensures
        m == n,
{
    lemma_decimal_seq(m);
    lemma_decimal_seq(n);
}

/// The delimiter between an identifier's parts: `" - "`.
pub open spec fn delim_seq() -> Seq<char> {
    seq![' ', '-', ' ']
}

/// The token id for ordinal `ordinal` within series number `series_n`.
pub open spec fn token_id_seq(series_n: nat, ordinal: nat) -> Seq<char> {
    decimal_seq(series_n) + delim_seq() + decimal_seq(ordinal)
}

/// Token ids determine their series number and ordinal: the digits of a
/// series id never contain the delimiter's leading space, so equal token ids
/// force equal series numbers and equal ordinals.
pub proof fn lemma_token_id_injective(a: nat, b: nat, c: nat, d: nat)
    requires
        token_id_seq(a, b) == token_id_seq(c, d),
    ensures
        a == c,
        b == d,
{
    lemma_decimal_seq(a);
    lemma_decimal_seq(b);
    lemma_decimal_seq(c);
    lemma_decimal_seq(d);
    let da = decimal_seq(a);
    let db = decimal_seq(b);
    let dc = decimal_seq(c);
    let dd = decimal_seq(d);
    let s1 = token_id_seq(a, b);
    let s2 = token_id_seq(c, d);
    assert(s1.len() == da.len() + 3 + db.len());
    assert(s2.len() == dc.len() + 3 + dd.len());
    assert(s1[da.len() as int] == ' ');
    assert(s2[dc.len() as int] == ' ');
    if da.len() < dc.len() {
        assert(s2[da.len() as int] == dc[da.len() as int]);
        assert(is_digit(dc[da.len() as int]));
        assert(false);
    }
    if dc.len() < da.len() {
        assert(s1[dc.len() as int] == da[dc.len() as int]);
        assert(is_digit(da[dc.len() as int]));
        assert(false);
    }
    assert(da.len() == dc.len());
    assert(da =~= dc) by {
        assert(forall|i: int| 0 <= i < da.len() ==> s1[i] == #[trigger] da[i]);
        assert(forall|i: int| 0 <= i < dc.len() ==> s2[i] == #[trigger] dc[i]);
    }
    lemma_decimal_injective(a, c);
    assert(db =~= dd) by {
        assert(forall|i: int|
            0 <= i < db.len() ==> s1[da.len() + 3 + i] == #[trigger] db[i]);
        assert(forall|i: int|
            0 <= i < dd.len() ==> s2[dc.len() + 3 + i] == #[trigger] dd[i]);
    }
    lemma_decimal_injective(b, d);
}

/// The string slice for one decimal digit value.
pub fn digit_str(d: u64) -> (r: &'static str)
    requires
        d < 10,
    ensures
        r@ == seq![digit_char(d as nat)],
{
    proof {
        reveal_strlit("0");
        reveal_strlit("1");
        reveal_strlit("2");
        reveal_strlit("3");
        reveal_strlit("4");
        reveal_strlit("5");
        reveal_strlit("6");
        reveal_strlit("7");
        reveal_strlit("8");
        reveal_strlit("9");
    }
    let r = if d == 0 { "0" }
    else if d == 1 { "1" }
    else if d == 2 { "2" }
    else if d == 3 { "3" }
    else if d == 4 { "4" }
    else if d == 5 { "5" }
    else if d == 6 { "6" }
    else if d == 7 { "7" }
    else if d == 8 { "8" }
    else { "9" };
    proof {
        assert(r@ =~= seq![digit_char(d as nat)]);
    }
    r
}

/// The decimal string for `n`.
pub fn u64_to_decimal(n: u64) -> (r: String)
    ensures
        r@ == decimal_seq(n as nat),
    decreases n,
{
    if n < 10 {
        let mut s = String::new();
        s.append(digit_str(n));
        proof {
            assert(s@ =~= decimal_seq(n as nat));
        }
        s
    } else {
        let mut s = u64_to_decimal(n / 10);
        s.append(digit_str(n % 10));
        proof {
            assert(s@ =~= decimal_seq(n as nat));
        }
        s
    }
}

/// The delimiter string `" - "` between an event or series name and what
/// qualifies it (for instance `Concert - VIP`), and between the parts of a
/// token id.
pub fn title_delimiter() -> (r: &'static str)
    ensures
        r@ == delim_seq(),
{
    proof {
        reveal_strlit(" - ");
    }
    let r = " - ";
    proof {
        assert(r@ =~= delim_seq());
    }
    r
}

/// The token id string for ordinal `ordinal` of the series named by the
/// decimal string `series_id`.
pub fn make_token_id(series_id: &String, ordinal: u64) -> (r: String)
    ensures
        r@ == series_id@ + delim_seq() + decimal_seq(ordinal as nat),
{
    let mut r = series_id.clone();
    r.append(title_delimiter());
    let ord = u64_to_decimal(ordinal);
    r.append(ord.as_str());
    r
}

} // verus!
