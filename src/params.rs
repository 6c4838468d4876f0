//! The canonical text of one query parameter, as it enters a cache key.
//!
//! Addresses and 32-byte hashes are written in the lower-case form that
//! alloy gives them, so that differently cased spellings of one value share a
//! key; any other parameter keeps its compact JSON text.
use alloy_primitives::{Address, B256};
use vstd::prelude::*;

verus! {

pub open spec fn is_hex_char(c: char) -> bool {
    (('0' as u32) <= (c as u32) && (c as u32) <= ('9' as u32)) || (('a' as u32) <= (c as u32) && (c
        as u32) <= ('f' as u32)) || (('A' as u32) <= (c as u32) && (c as u32) <= ('F' as u32))
}

pub open spec fn lower_hex_char(c: char) -> char {
    match c {
        'A' => 'a',
        'B' => 'b',
        'C' => 'c',
        'D' => 'd',
        'E' => 'e',
        'F' => 'f',
        _ => c,
    }
}

/// The text after an optional `0x` or `0X` prefix.
pub open spec fn hex_body(s: Seq<char>) -> Seq<char> {
    if s.len() >= 2 && s[0] == '0' && (s[1] == 'x' || s[1] == 'X') {
        s.subrange(2, s.len() as int)
    } else {
        s
    }
}

/// The lower-case `0x` form of an `n`-byte value written in hex, if the
/// text is one.
pub open spec fn fixed_hex_form(s: Seq<char>, n: nat) -> Option<Seq<char>> {
    let d = hex_body(s);
    if d.len() == 2 * n && forall|i: int| 0 <= i < d.len() ==> is_hex_char(#[trigger] d[i]) {
        Some(seq!['0', 'x'] + d.map_values(|c: char| lower_hex_char(c)))
    } else {
        None
    }
}

/// Relies on alloy_primitives' `Address::from_str` (hex decoding of 20
/// bytes, with an optional `0x` or `0X` prefix, either case), then its
/// `LowerHex` form with the `0x` prefix.
#[verifier::external_body]
fn read_address(s: &str) -> (r: Option<String>)
    ensures
        match r {
            Some(t) => fixed_hex_form(s@, 20) == Some(t@),
            None => fixed_hex_form(s@, 20) is None,
        },
{
    match s.parse::<Address>() {
        Ok(a) => Some(format!("{:#x}", a)),
        Err(_) => None,
    }
}

/// Relies on alloy_primitives' `B256::from_str` (hex decoding of 32 bytes,
/// with an optional `0x` or `0X` prefix, either case), then its `LowerHex`
/// form with the `0x` prefix.
#[verifier::external_body]
fn read_hash(s: &str) -> (r: Option<String>)
    ensures
        match r {
            Some(t) => fixed_hex_form(s@, 32) == Some(t@),
            None => fixed_hex_form(s@, 32) is None,
        },
{
    match s.parse::<B256>() {
        Ok(h) => Some(format!("{:#x}", h)),
        Err(_) => None,
    }
}

pub open spec fn quoted(t: Seq<char>) -> Seq<char> {
    seq!['"'] + t + seq!['"']
}

/// The key text of a parameter, given its address form, its hash form
/// and its JSON text.
pub open spec fn param_spec(
    address: Option<Seq<char>>,
    hash: Option<Seq<char>>,
    json: Seq<char>,
) -> Seq<char> {
    match address {
        Some(a) => quoted(a),
        None => match hash {
            Some(h) => quoted(h),
            None => json,
        },
    }
}

fn quote(t: &str) -> (r: String)
    ensures
        r@ == quoted(t@),
{
    let mut out = String::new();
    out.append("\"");
    out.append(t);
    out.append("\"");
    proof {
        reveal_strlit("\"");
        assert(out@ =~= quoted(t@));
    }
    out
}

/// The key text of a parameter whose JSON text is `json`; `text` is its
/// content when the parameter is a JSON string.
pub fn param_text(text: Option<&str>, json: String) -> (r: String)
    ensures
        match text {
            Some(s) => r@ == param_spec(fixed_hex_form(s@, 20), fixed_hex_form(s@, 32), json@),
            None => r@ == json@,
        },
{
    match text {
        Some(s) => {
            match read_address(s) {
                Some(a) => quote(a.as_str()),
                None => match read_hash(s) {
                    Some(h) => quote(h.as_str()),
                    None => json,
                },
            }
        },
        None => json,
    }
}

} // verus!
