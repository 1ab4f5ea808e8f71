//! Row identifiers (UUIDs held as 128-bit integers) and their text form.

use vstd::prelude::*;

verus! {

/// The value of one hexadecimal digit, in either case.
pub open spec fn hex_digit_value(c: char) -> Option<nat> {
    let n: int = c as int;
    if 48 <= n <= 57 {
        Some((n - 48) as nat)
    } else if 97 <= n <= 102 {
        Some((n - 87) as nat)
    } else if 65 <= n <= 70 {
        Some((n - 55) as nat)
    } else {
        None
    }
}

/// The number written by a string of hexadecimal digits, most significant first.
pub open spec fn hex_value(s: Seq<char>) -> Option<nat>
    decreases s.len(),
{
    if s.len() == 0 {
        Some(0)
    } else {
        match (hex_value(s.drop_last()), hex_digit_value(s.last())) {
            (Some(high), Some(low)) => Some(high * 16 + low),
            _ => None,
        }
    }
}

/// The lower-case hexadecimal digit for a value below 16.
pub open spec fn lower_hex_char(d: nat) -> char {
    if d < 10 {
        (48 + d) as char
    } else {
        (87 + d) as char
    }
}

/// The last `n` hexadecimal digits of `v`, lower case, most significant first.
pub open spec fn hex_text(v: nat, n: nat) -> Seq<char>
    decreases n,
{
    if n == 0 {
        Seq::empty()
    } else {
        hex_text(v / 16, (n - 1) as nat).push(lower_hex_char(v % 16))
    }
}

pub open spec fn pow16(n: nat) -> nat
    decreases n,
{
    if n == 0 {
        1
    } else {
        16 * pow16((n - 1) as nat)
    }
}

/// The hyphenated lower-case form of a UUID: 8-4-4-4-12 hexadecimal digits.
pub open spec fn uuid_hyphenated(v: u128) -> Seq<char> {
    let h = hex_text(v as nat, 32);
    h.subrange(0, 8) + seq!['-'] + h.subrange(8, 12) + seq!['-'] + h.subrange(12, 16) + seq![
        '-',
    ] + h.subrange(16, 20) + seq!['-'] + h.subrange(20, 32)
}

/// The value of a 36-character hyphenated UUID text (hyphens at 8, 13, 18 and 23).
pub open spec fn hyphenated_value(s: Seq<char>) -> Option<nat> {
    if s.len() == 36 && s[8] == '-' && s[13] == '-' && s[18] == '-' && s[23] == '-' {
        hex_value(
            s.subrange(0, 8) + s.subrange(9, 13) + s.subrange(14, 18) + s.subrange(19, 23)
                + s.subrange(24, 36),
        )
    } else {
        None
    }
}

pub open spec fn ascii_lower(c: char) -> char {
    if 65 <= c as int <= 90 {
        ((c as int) + 32) as char
    } else {
        c
    }
}

/// `urn:uuid:`, compared without regard to ASCII case.
pub open spec fn is_urn_prefix(s: Seq<char>) -> bool {
    let p = seq!['u', 'r', 'n', ':', 'u', 'u', 'i', 'd', ':'];
    s.len() == 9 && forall|i: int| 0 <= i < 9 ==> ascii_lower(#[trigger] s[i]) == p[i]
}

/// The UUID that a text denotes: 32 digits, the hyphenated form, the hyphenated
/// form in braces, or the hyphenated form behind a `urn:uuid:` prefix.
pub open spec fn uuid_parse(s: Seq<char>) -> Option<u128> {
    let v: Option<nat> = if s.len() == 32 {
        hex_value(s)
    } else if s.len() == 36 {
        hyphenated_value(s)
    } else if s.len() == 38 && s[0] == '{' && s[37] == '}' {
        hyphenated_value(s.subrange(1, 37))
    } else if s.len() == 45 && is_urn_prefix(s.subrange(0, 9)) {
        hyphenated_value(s.subrange(9, 45))
    } else {
        None
    };
    match v {
        Some(n) => Some(n as u128),
        None => None,
    }
}

proof fn lemma_pow16_positive(n: nat)
    ensures
        pow16(n) > 0,
    decreases n,
{
    if n > 0 {
        lemma_pow16_positive((n - 1) as nat);
    }
}

proof fn lemma_hex_text_value(v: nat, n: nat)
    ensures
        hex_text(v, n).len() == n,
        hex_value(hex_text(v, n)) == Some(v % pow16(n)),
    decreases n,
{
    if n > 0 {
        let m: nat = (n - 1) as nat;
        lemma_hex_text_value(v / 16, m);
        lemma_pow16_positive(m);
        let t = hex_text(v, n);
        assert(t.drop_last() =~= hex_text(v / 16, m));
        assert(hex_digit_value(lower_hex_char(v % 16)) == Some(v % 16));
        let x: int = v as int;
        let p: int = pow16(m) as int;
        vstd::arithmetic::div_mod::lemma_mod_breakdown(x, 16, p);
        assert(x % (16 * p) == 16 * ((x / 16) % p) + x % 16);
        assert(pow16(n) as int == 16 * p);
        assert(hex_value(t) == Some(((v / 16) % pow16(m)) * 16 + v % 16));
        assert(((x / 16) % p) * 16 == 16 * ((x / 16) % p)) by (nonlinear_arith);
    }
}

/// The hyphenated text of a UUID denotes that UUID.
pub proof fn lemma_uuid_text_parses(v: u128)
    ensures
        uuid_hyphenated(v).len() == 36,
        uuid_parse(uuid_hyphenated(v)) == Some(v),
{
    let h = hex_text(v as nat, 32);
    lemma_hex_text_value(v as nat, 32);
    reveal_with_fuel(pow16, 33);
    assert(pow16(32) == 0x1_0000_0000_0000_0000_0000_0000_0000_0000nat);
    let s = uuid_hyphenated(v);
    assert(s.len() == 36);
    assert(s.subrange(0, 8) + s.subrange(9, 13) + s.subrange(14, 18) + s.subrange(19, 23)
        + s.subrange(24, 36) =~= h);
}

/// `Uuid::parse_str` of the `uuid` crate; its result read as a 128-bit integer
/// (most significant byte first, as `Uuid::as_u128` reads it). The contract
/// claims that the text is accepted exactly in the four forms that
/// `uuid_parse` lists, with digits of either case, and gives that value.
#[verifier::external_body]
fn parse_uuid_text(text: &str) -> (r: Result<u128, uuid::Error>)
    ensures
        match r {
            Ok(v) => uuid_parse(text@) == Some(v),
            Err(_) => uuid_parse(text@) is None,
        },
{
    match uuid::Uuid::parse_str(text) {
        Ok(id) => Ok(id.as_u128()),
        Err(e) => Err(e),
    }
}

} // verus!

verus! {

/// `Uuid::to_string` of the `uuid` crate for the UUID with the given value
/// (`Uuid::from_u128`). The contract claims the documented display form: the
/// hyphenated lower-case text, 8-4-4-4-12 digits, most significant first.
#[verifier::external_body]
pub(crate) fn format_uuid(v: u128) -> (text: String)
    ensures
        text@ == uuid_hyphenated(v),
{
    uuid::Uuid::from_u128(v).to_string()
}

/// The UUID that a text denotes, in one of the forms that `uuid_parse` lists.
pub fn parse_uuid(text: &str) -> (r: Result<u128, crate::error::StoreError>)
    ensures
        match r {
            Ok(v) => uuid_parse(text@) == Some(v),
            Err(e) => uuid_parse(text@) is None && e is Uuid,
        },
{
    match parse_uuid_text(text) {
        Ok(v) => Ok(v),
        Err(e) => Err(crate::error::StoreError::Uuid(e)),
    }
}

/// The hyphenated lower-case text of a UUID.
pub fn uuid_to_text(v: u128) -> (text: String)
    ensures
        text@ == uuid_hyphenated(v),
        uuid_parse(text@) == Some(v),
{
    let text = format_uuid(v);
    proof {
        lemma_uuid_text_parses(v);
    }
    text
}

} // verus!
