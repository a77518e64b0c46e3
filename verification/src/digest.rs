//! Session identifiers: the digest of a username, written in decimal.
//!
//! The identifier is a pure function of the username, so every login of one
//! user yields the same identifier. It is not a secret: whoever can compute the
//! digest of a username can present that user's identifier, and two usernames
//! with the same 64-bit digest share one identifier.

use std::collections::hash_map::DefaultHasher;
use std::hash::Hash;
use std::hash::Hasher;
use vstd::prelude::*;
use vstd::std_specs::hash::DefaultHasherAdditionalSpecFns;
use vstd::string::StringExecFns;

verus! {

/// The state of a hasher after a string has been fed to it, as a function of
/// the state before and of the string's characters.
pub uninterp spec fn hasher_fed_str(state: Seq<Seq<u8>>, text: Seq<char>) -> Seq<Seq<u8>>;

/// Feeds `text` to `state` through `<str as Hash>::hash`. The standard
/// library promises that equal strings feed equal data; the contract claims
/// only that the new state is determined by the old one and by the text.
#[verifier::external_body]
fn feed_str(state: &mut DefaultHasher, text: &str)
    ensures
        final(state)@ == hasher_fed_str(old(state)@, text@),
{
    text.hash(state);
}

/// The 64-bit digest of a string under the standard library's default hasher.
pub open spec fn spec_calculate_hash(text: Seq<char>) -> u64 {
    DefaultHasher::spec_finish(hasher_fed_str(Seq::<Seq<u8>>::empty(), text))
}

/// Hashes a string with a freshly created default hasher.
pub fn calculate_hash(t: &str) -> (digest: u64)
    ensures
        digest == spec_calculate_hash(t@),
{
    let mut s = DefaultHasher::new();
    feed_str(&mut s, t);
    s.finish()
}

/// The character that writes the digit `d`.
pub open spec fn digit_char(d: nat) -> char {
    if d == 0 {
        '0'
    } else if d == 1 {
        '1'
    } else if d == 2 {
        '2'
    } else if d == 3 {
        '3'
    } else if d == 4 {
        '4'
    } else if d == 5 {
        '5'
    } else if d == 6 {
        '6'
    } else if d == 7 {
        '7'
    } else if d == 8 {
        '8'
    } else {
        '9'
    }
}

/// The decimal numeral of `n`: no sign, no leading zero, `"0"` for zero.
pub open spec fn decimal(n: nat) -> Seq<char>
    decreases n,
{
    if n < 10 {
        seq![digit_char(n)]
    } else {
        decimal(n / 10).push(digit_char(n % 10))
    }
}

/// The session identifier of a username: its digest, in decimal.
pub open spec fn session_id(username: Seq<char>) -> Seq<char> {
    decimal(spec_calculate_hash(username) as nat)
}

fn digit_str(d: u64) -> (s: &'static str)
    requires
        d < 10,
    ensures
        s@ == seq![digit_char(d as nat)],
{
    proof {
        reveal_strlit("0");
        reveal_strlit("1");
        reveal_strlit("2");
        reveal_strlit("3");
        reveal_strlit("4");
        reveal_strlit("5");
        reveal_strlit("6");
        reveal_strlit("7");
        reveal_strlit("8");
        reveal_strlit("9");
    }
    let s = if d == 0 {
        "0"
    } else if d == 1 {
        "1"
    } else if d == 2 {
        "2"
    } else if d == 3 {
        "3"
    } else if d == 4 {
        "4"
    } else if d == 5 {
        "5"
    } else if d == 6 {
        "6"
    } else if d == 7 {
        "7"
    } else if d == 8 {
        "8"
    } else {
        "9"
    };
    assert(s@ =~= seq![digit_char(d as nat)]);
    s
}

fn append_decimal(out: &mut String, n: u64)
    ensures
        final(out)@ == old(out)@ + decimal(n as nat),
    decreases n,
{
    if n >= 10 {
        append_decimal(out, n / 10);
    }
    out.append(digit_str(n % 10));
    assert(out@ =~= old(out)@ + decimal(n as nat));
}

/// Writes `n` as a decimal numeral.
pub fn to_decimal(n: u64) -> (text: String)
    ensures
        text@ == decimal(n as nat),
{
    let mut text = String::new();
    append_decimal(&mut text, n);
    assert(text@ =~= decimal(n as nat));
    text
}

/// Derives the session identifier of `username`.
pub fn derive(username: &str) -> (id: String)
    ensures
        id@ == session_id(username@),
{
    to_decimal(calculate_hash(username))
}

} // verus!
