//! Character-level helpers shared by the key normaliser, the scalar
//! coercions and the section extractor: ASCII case folding, decimal
//! parsing, and plain string comparison proved against the views.

use vstd::prelude::*;

verus! {

/// ASCII lower-casing of one character; everything outside `A..Z` is kept.
pub open spec fn lower_char(c: char) -> char {
    if 'A' <= c && c <= 'Z' {
        (((c as u8) + 32) as char)
    } else {
        c
    }
}

/// ASCII lower-casing of a character sequence.
pub open spec fn lower(s: Seq<char>) -> Seq<char> {
    s.map_values(|c: char| lower_char(c))
}

/// Key normalisation: dashes and underscores are interchangeable in
/// document keys, so both are folded to the lower-cased dash form.
pub open spec fn kebab_char(c: char) -> char {
    if c == '_' {
        '-'
    } else {
        lower_char(c)
    }
}

/// The canonical form of a document key: lower-cased, underscores as dashes.
pub open spec fn norm_key(s: Seq<char>) -> Seq<char> {
    s.map_values(|c: char| kebab_char(c))
}

/// Dashes replaced by underscores, as the default output name demands.
pub open spec fn dash_to_underscore(s: Seq<char>) -> Seq<char> {
    s.map_values(|c: char| if c == '-' { '_' } else { c })
}

/// Executable ASCII lower-casing of one character.
pub fn lower_char_x(c: char) -> (r: char)
    ensures
        r == lower_char(c),
{
    if 'A' <= c && c <= 'Z' {
        ((c as u8) + 32) as char
    } else {
        c
    }
}

/// Executable key normalisation of one character.
pub fn kebab_char_x(c: char) -> (r: char)
    ensures
        r == kebab_char(c),
{
    if c == '_' {
        '-'
    } else {
        lower_char_x(c)
    }
}

/// Character-by-character string equality, proved against the views.
pub fn str_eq(a: &str, b: &str) -> (r: bool)
    ensures
        r == (a@ == b@),
{
    let n = a.unicode_len();
    if n != b.unicode_len() {
        return false;
    }
    let mut i: usize = 0;
    while i < n
        invariant
            n == a@.len(),
            n == b@.len(),
            i <= n,
            forall|j: int| 0 <= j < i ==> a@[j] == b@[j],
        decreases n - i,
    {
        if a.get_char(i) != b.get_char(i) {
            return false;
        }
        i = i + 1;
    }
    proof {
        assert(a@ =~= b@);
    }
    true
}

/// Case-insensitive comparison against an already-lower-cased pattern.
pub fn str_eq_lower(a: &str, b: &str) -> (r: bool)
    ensures
        r == (lower(a@) == b@),
{
    let n = a.unicode_len();
    if n != b.unicode_len() {
        proof {
            assert(lower(a@).len() == a@.len());
        }
        return false;
    }
    let mut i: usize = 0;
    while i < n
        invariant
            n == a@.len(),
            n == b@.len(),
            i <= n,
            forall|j: int| 0 <= j < i ==> lower_char(a@[j]) == b@[j],
        decreases n - i,
    {
        if lower_char_x(a.get_char(i)) != b.get_char(i) {
            proof {
                assert(lower(a@)[i as int] != b@[i as int]);
            }
            return false;
        }
        i = i + 1;
    }
    proof {
        assert(lower(a@) =~= b@);
    }
    true
}

/// Whether a raw document key names the same field as a canonical key.
pub fn key_matches(key: &str, canonical: &str) -> (r: bool)
    ensures
        r == (norm_key(key@) == canonical@),
{
    let n = key.unicode_len();
    if n != canonical.unicode_len() {
        proof {
            assert(norm_key(key@).len() == key@.len());
        }
        return false;
    }
    let mut i: usize = 0;
    while i < n
        invariant
            n == key@.len(),
            n == canonical@.len(),
            i <= n,
            forall|j: int| 0 <= j < i ==> kebab_char(key@[j]) == canonical@[j],
        decreases n - i,
    {
        if kebab_char_x(key.get_char(i)) != canonical.get_char(i) {
            proof {
                assert(norm_key(key@)[i as int] != canonical@[i as int]);
            }
            return false;
        }
        i = i + 1;
    }
    proof {
        assert(norm_key(key@) =~= canonical@);
    }
    true
}

/// Relies on `String::push`: appends exactly one character.
#[verifier::external_body]
pub fn push_char(s: &mut String, c: char)
    ensures
        final(s)@ == old(s)@.push(c),
{
    s.push(c);
}

/// Builds the string with every dash replaced by an underscore.
pub fn replace_dashes(s: &str) -> (r: String)
    ensures
        r@ == dash_to_underscore(s@),
{
    let n = s.unicode_len();
    let mut out = String::new();
    let mut i: usize = 0;
    while i < n
        invariant
            n == s@.len(),
            i <= n,
            out@ == dash_to_underscore(s@.take(i as int)),
        decreases n - i,
    {
        let c = s.get_char(i);
        let mapped = if c == '-' {
            '_'
        } else {
            c
        };
        push_char(&mut out, mapped);
        proof {
            assert(s@.take(i + 1).drop_last() =~= s@.take(i as int));
            assert(dash_to_underscore(s@.take(i + 1)) =~= dash_to_underscore(
                s@.take(i as int),
            ).push(mapped));
        }
        i = i + 1;
    }
    proof {
        assert(s@.take(n as int) =~= s@);
    }
    out
}

/// Decimal digit test.
pub open spec fn is_digit(c: char) -> bool {
    '0' <= c && c <= '9'
}

/// Numeric value of one decimal digit.
pub open spec fn digit_val(c: char) -> nat {
    (c as int - '0' as int) as nat
}

/// Every character of the sequence is a decimal digit.
pub open spec fn all_digits(s: Seq<char>) -> bool {
    forall|i: int| 0 <= i < s.len() ==> is_digit(s[i])
}

/// The value of a digit sequence read in base ten.
pub open spec fn dec_val(s: Seq<char>) -> nat
    decreases s.len(),
{
    if s.len() == 0 {
        0
    } else {
        dec_val(s.drop_last()) * 10 + digit_val(s.last())
    }
}

/// A prefix of a digit string never exceeds the whole string's value.
proof fn lemma_dec_val_take_le(s: Seq<char>, j: int)
    requires
        0 <= j <= s.len(),
    ensures
        dec_val(s.take(j)) <= dec_val(s),
    decreases s.len() - j,
{
    if j == s.len() {
        assert(s.take(j) =~= s);
    } else {
        assert(s.take(j + 1).drop_last() =~= s.take(j));
        assert(dec_val(s.take(j + 1)) == dec_val(s.take(j)) * 10 + digit_val(s.take(j + 1).last()));
        lemma_dec_val_take_le(s, j + 1);
    }
}

/// A digit string's value is bounded by its number of digits.
pub proof fn lemma_dec_val_bound(s: Seq<char>)
    requires
        all_digits(s),
    ensures
        s.len() == 0 ==> dec_val(s) == 0,
        s.len() <= 1 ==> dec_val(s) <= 9,
        s.len() <= 2 ==> dec_val(s) <= 99,
        s.len() <= 3 ==> dec_val(s) <= 999,
        s.len() <= 4 ==> dec_val(s) <= 9999,
        s.len() <= 5 ==> dec_val(s) <= 99999,
    decreases s.len(),
{
    if s.len() > 0 {
        assert(all_digits(s.drop_last()));
        lemma_dec_val_bound(s.drop_last());
        assert(is_digit(s.last()));
        assert(digit_val(s.last()) <= 9);
    }
}

/// The digit part of an integer literal: an optional leading plus sign
/// is accepted, as standard decimal parsing does.
pub open spec fn digits_part(s: Seq<char>) -> Seq<char> {
    if s.len() > 0 && s[0] == '+' {
        s.skip(1)
    } else {
        s
    }
}

/// What parsing an unsigned 32-bit decimal from a raw string yields:
/// an optional plus sign, then at least one digit, value within range.
pub open spec fn parse_u32_spec(s: Seq<char>) -> Option<u32> {
    let d = digits_part(s);
    if d.len() > 0 && all_digits(d) && dec_val(d) <= u32::MAX {
        Some(dec_val(d) as u32)
    } else {
        None
    }
}

/// Parses an unsigned 32-bit decimal, rejecting any other shape.
pub fn parse_u32(s: &str) -> (r: Option<u32>)
    ensures
        r == parse_u32_spec(s@),
{
    let n = s.unicode_len();
    let start: usize = if n > 0 && s.get_char(0) == '+' {
        1
    } else {
        0
    };
    proof {
        assert(digits_part(s@) =~= s@.skip(start as int));
    }
    let ghost d = s@.skip(start as int);
    if start >= n {
        return None;
    }
    let mut acc: u32 = 0;
    let mut i: usize = start;
    while i < n
        invariant
            start <= i <= n,
            n == s@.len(),
            start < n,
            d == digits_part(s@),
            d == s@.skip(start as int),
            d.len() == n - start,
            all_digits(d.take(i - start)),
            acc == dec_val(d.take(i - start)),
            forall|j: int| 0 <= j < d.len() ==> d[j] == s@[start + j],
        decreases n - i,
    {
        let c = s.get_char(i);
        if !('0' <= c && c <= '9') {
            proof {
                assert(d[i - start] == c);
                assert(!all_digits(d));
            }
            return None;
        }
        let dv: u32 = (c as u8 - 48) as u32;
        proof {
            assert(dv == digit_val(c));
        }
        if acc > (u32::MAX - dv) / 10 {
            proof {
                assert(d.take(i - start + 1).drop_last() =~= d.take(i - start));
                assert(d.take(i - start + 1).last() == c);
                assert(dec_val(d.take(i - start + 1)) == acc * 10 + dv);
                assert(acc * 10 + dv > u32::MAX) by (nonlinear_arith)
                    requires
                        acc > (u32::MAX - dv) / 10,
                        dv <= 9,
                ;
                lemma_dec_val_take_le(d, i - start + 1);
            }
            return None;
        }
        proof {
            assert(acc * 10 + dv <= u32::MAX) by (nonlinear_arith)
                requires
                    acc <= (u32::MAX - dv) / 10,
                    dv <= 9,
            ;
            assert(d.take(i - start + 1).drop_last() =~= d.take(i - start));
            assert(d.take(i - start + 1).last() == c);
        }
        acc = acc * 10 + dv;
        i = i + 1;
    }
    proof {
        assert(d.take(n - start) =~= d);
    }
    Some(acc)
}

/// What parsing a boolean from a raw string yields: exactly the two
/// literal tokens are accepted.
pub open spec fn parse_bool_spec(s: Seq<char>) -> Option<bool> {
    if s == "true"@ {
        Some(true)
    } else if s == "false"@ {
        Some(false)
    } else {
        None
    }
}

/// Parses the literal boolean tokens, rejecting anything else.
pub fn parse_bool(s: &str) -> (r: Option<bool>)
    ensures
        r == parse_bool_spec(s@),
{
    if str_eq(s, "true") {
        Some(true)
    } else if str_eq(s, "false") {
        Some(false)
    } else {
        None
    }
}

} // verus!
