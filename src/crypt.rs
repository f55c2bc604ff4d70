//! The public operations: salt strings from random bytes, hashing, and
//! reading the zero-terminated strings they return.
use vstd::prelude::*;
use vstd::utf8::valid_utf8;
use vstd::string::StringSliceAdditionalSpecFns;
use crate::base64::{
    all_symbols, encode, is_symbol, lemma_decode_len, lemma_last_symbol, lemma_round_trip, value,
};
use crate::engine::{compute_digest, digest, MAX_COST, MIN_COST};
use crate::error::{CryptError, ErrorKind};
use crate::format::{
    format_hash, format_salt, hash_text, is_version_tag, lemma_salt_round_trip, parse_salt, setting_salt,
    setting_text, text_cost, valid_setting, version_of_tag, Version, HASH_LEN, SETTING_LEN,
};

verus! {

/// Longest accepted password, in bytes.
pub const MAX_PASSWORD_LEN: usize = 72;

/// Whether `b` holds a zero byte.
pub open spec fn has_zero(b: Seq<u8>) -> bool {
    exists|i: int| 0 <= i < b.len() && b[i] == 0
}

/// Whether `pw` is an acceptable password: 1 to 72 bytes, none of them zero.
pub open spec fn valid_password(pw: Seq<u8>) -> bool {
    1 <= pw.len() <= MAX_PASSWORD_LEN && !has_zero(pw)
}

/// Whether `cost` is an acceptable cost.
pub open spec fn valid_cost(cost: u8) -> bool {
    MIN_COST <= cost <= MAX_COST
}

/// What hashing password `pw` with salt string `salt` gives: the
/// zero-terminated hash string, or the kind of error.
pub open spec fn hash_spec(pw: Seq<u8>, salt: Seq<u8>) -> Result<Seq<u8>, ErrorKind> {
    if !valid_password(pw) {
        Err(ErrorKind::InvalidPassword)
    } else if !valid_setting(salt) {
        Err(ErrorKind::InvalidSaltFormat)
    } else {
        let cost = text_cost(salt) as u8;
        let raw = setting_salt(salt);
        Ok(hash_text(version_of_tag(salt[2]), cost, raw, digest(pw, raw, cost as nat)).push(0u8))
    }
}

/// The bytes of a successful result, or the kind of error.
pub open spec fn outcome<const N: usize>(r: Result<[u8; N], CryptError>) -> Result<Seq<u8>, ErrorKind> {
    match r {
        Ok(a) => Ok(a@),
        Err(e) => Err(e.kind),
    }
}

/// What making a salt string of cost `cost` from raw salt `raw` gives.
pub open spec fn salt_spec(cost: u8, raw: Seq<u8>) -> Result<Seq<u8>, ErrorKind> {
    if valid_cost(cost) {
        Ok(setting_text(Version::V2b, cost, raw).push(0u8))
    } else {
        Err(ErrorKind::InvalidCost)
    }
}

/// Relies on std::str::from_utf8: accepts exactly the valid UTF-8 byte
/// strings and borrows them unchanged.
#[verifier::external_body]
fn utf8<'a>(b: &'a [u8]) -> (r: Option<&'a str>)
    ensures
        r is Some <==> valid_utf8(b@),
        r matches Some(s) ==> s.spec_bytes() == b@,
{
    std::str::from_utf8(b).ok()
}

/// Whether `b` holds a zero byte.
fn contains_zero(b: &[u8]) -> (r: bool)
    ensures
        r == has_zero(b@),
{
    let mut i: usize = 0;
    while i < b.len()
        invariant
            i <= b@.len(),
            forall|j: int| 0 <= j < i ==> b@[j] != 0,
        decreases b@.len() - i,
    {
        if b[i] == 0 {
            assert(b@[i as int] == 0);
            return true;
        }
        i = i + 1;
    }
    false
}

fn copy_terminated<const N: usize>(v: &Vec<u8>) -> (r: [u8; N])
    requires
        v@.len() + 1 == N,
    ensures
        r@ == v@.push(0u8),
{
    let mut a: [u8; N] = [0u8; N];
    let mut i: usize = 0;
    while i < v.len()
        invariant
            v@.len() + 1 == N,
            a@.len() == N,
            i <= v@.len(),
            forall|j: int| 0 <= j < i ==> a@[j] == #[trigger] v@[j],
            forall|j: int| i <= j < N ==> a@[j] == 0,
        decreases v@.len() - i,
    {
        a[i] = v[i];
        i = i + 1;
    }
    assert(a@ =~= v@.push(0u8));
    a
}

/// Checks that `cost` lies in `4..=31`; callers that draw random bytes for a
/// salt check the cost first, so that no entropy is spent on a bad cost.
pub fn check_cost(cost: u8) -> (r: Result<(), CryptError>)
    ensures
        r is Ok <==> valid_cost(cost),
        r matches Err(e) ==> e.kind == ErrorKind::InvalidCost && e.errno == 22,
{
    if cost < MIN_COST || cost > MAX_COST {
        return Err(CryptError::with_kind(ErrorKind::InvalidCost, String::from_str("cost must be between 4 and 31")));
    }
    Ok(())
}

/// Generate salt for a BCrypt hash from sixteen random bytes `raw`: the
/// zero-terminated salt string of version `2b` and cost `cost`.
pub fn gen_salt_from(cost: u8, raw: &[u8; 16]) -> (r: Result<[u8; 30], CryptError>)
    ensures
        outcome(r) == salt_spec(cost, raw@),
{
    if let Err(e) = check_cost(cost) {
        return Err(e);
    }
    let text = format_salt(Version::V2b, cost, raw);
    proof {
        lemma_salt_round_trip(Version::V2b, cost, raw@);
    }
    Ok(copy_terminated(&text))
}

/// Compute BCrypt hash from a password and salt: the zero-terminated hash
/// string of `password` under the salt string at the start of `salt`.
#[verifier::rlimit(40)]
pub fn hash(password: &str, salt: &[u8]) -> (r: Result<[u8; 61], CryptError>)
    ensures
        outcome(r) == hash_spec(password.spec_bytes(), salt@),
{
    let pw = password.as_bytes();
    if pw.len() == 0 {
        return Err(CryptError::with_kind(ErrorKind::InvalidPassword, String::from_str("password cannot be empty")));
    }
    if pw.len() > MAX_PASSWORD_LEN {
        return Err(CryptError::with_kind(ErrorKind::InvalidPassword, String::from_str("password length must not exceed 72")));
    }
    if contains_zero(pw) {
        return Err(CryptError::with_kind(ErrorKind::InvalidPassword, String::from_str("password must not contain NULL characters")));
    }
    let s = match parse_salt(salt) {
        Ok(s) => s,
        Err(e) => return Err(e),
    };
    let d = compute_digest(pw, &s.raw, s.cost);
    let text = format_hash(s.version, s.cost, &s.raw, &d);
    proof {
        lemma_round_trip(s.raw@);
        lemma_round_trip(d@);
    }
    Ok(copy_terminated(&text))
}

/// Convert a nul-terminated byte slice into a borrowed string: the bytes
/// must end in their only zero byte and be UTF-8 before it.
pub fn to_str<'a>(bytes: &'a [u8]) -> (r: Result<&'a str, CryptError>)
    ensures
        r is Ok <==> bytes@.len() >= 1 && bytes@.last() == 0 && !has_zero(bytes@.drop_last())
            && valid_utf8(bytes@.drop_last()),
        r matches Ok(s) ==> s.spec_bytes() == bytes@.drop_last(),
        r matches Err(e) ==> e.kind == ErrorKind::InvalidArgument,
{
    let n = bytes.len();
    if n == 0 || bytes[n - 1] != 0 {
        return Err(CryptError::invalid_arg(String::from_str("data provided is not nul terminated")));
    }
    let (body, _) = bytes.split_at(n - 1);
    assert(body@ =~= bytes@.drop_last());
    if contains_zero(body) {
        return Err(CryptError::invalid_arg(String::from_str("data provided contains an interior nul byte")));
    }
    assert(body@ =~= bytes@.drop_last());
    match utf8(body) {
        Some(s) => Ok(s),
        None => Err(CryptError::invalid_arg(String::from_str("invalid utf-8 sequence"))),
    }
}

/// Hashing is a function of its inputs: two results that `hash` may return
/// for the same password and salt string are equal, byte for byte.
pub proof fn lemma_hash_deterministic(
    pw: Seq<u8>,
    salt: Seq<u8>,
    r1: Result<[u8; 61], CryptError>,
    r2: Result<[u8; 61], CryptError>,
)
    requires
        outcome(r1) == hash_spec(pw, salt),
        outcome(r2) == hash_spec(pw, salt),
    ensures
        outcome(r1) == outcome(r2),
        r1 matches Ok(a) ==> (r2 matches Ok(b) && a == b),
{
    if let Ok(a) = r1 {
        if let Ok(b) = r2 {
            assert(a@ == b@);
            assert(a =~= b);
        }
    }
}

/// An empty password, or one of more than 72 bytes, is rejected as an
/// invalid password whatever the salt.
pub proof fn lemma_bad_password_length_rejected(pw: Seq<u8>, salt: Seq<u8>)
    requires
        pw.len() == 0 || pw.len() > MAX_PASSWORD_LEN,
    ensures
        hash_spec(pw, salt) == Err::<Seq<u8>, ErrorKind>(ErrorKind::InvalidPassword),
{
}

/// With an acceptable password, a salt string shorter than 29 bytes is
/// rejected as a malformed salt.
pub proof fn lemma_short_salt_rejected(pw: Seq<u8>, salt: Seq<u8>)
    requires
        valid_password(pw),
        salt.len() < SETTING_LEN,
    ensures
        hash_spec(pw, salt) == Err::<Seq<u8>, ErrorKind>(ErrorKind::InvalidSaltFormat),
{
}

/// A salt string whose version letter is not one of `a`, `b`, `y` is not
/// well formed, so parsing it fails and hashing with it is rejected.
pub proof fn lemma_unknown_version_rejected(pw: Seq<u8>, salt: Seq<u8>)
    requires
        valid_password(pw),
        salt.len() >= 3,
        !is_version_tag(salt[2]),
    ensures
        !valid_setting(salt),
        hash_spec(pw, salt) == Err::<Seq<u8>, ErrorKind>(ErrorKind::InvalidSaltFormat),
{
}

/// With an acceptable password and salt string, hashing succeeds with a
/// 60-character hash string and its terminating zero byte; salt and digest
/// fields are of the alphabet, and their last characters hold no bits beyond
/// the 16 salt and 23 digest bytes.
pub proof fn lemma_hash_length(pw: Seq<u8>, salt: Seq<u8>)
    requires
        valid_password(pw),
        valid_setting(salt),
    ensures
        hash_spec(pw, salt) is Ok,
        hash_spec(pw, salt)->Ok_0.len() == HASH_LEN + 1,
        hash_spec(pw, salt)->Ok_0.last() == 0,
        all_symbols(hash_spec(pw, salt)->Ok_0.subrange(7, 60), 53),
        value(hash_spec(pw, salt)->Ok_0[28]) % 16 == 0,
        value(hash_spec(pw, salt)->Ok_0[59]) % 4 == 0,
{
    let cost = text_cost(salt) as u8;
    let raw = setting_salt(salt);
    lemma_decode_len(salt.subrange(7, 29), 16);
    lemma_round_trip(raw);
    let d = digest(pw, raw, cost as nat);
    lemma_round_trip(d);
    lemma_last_symbol(raw);
    lemma_last_symbol(d);
    let t = hash_spec(pw, salt)->Ok_0;
    let st = setting_text(version_of_tag(salt[2]), cost, raw);
    assert(t == (st + encode(d)).push(0u8));
    assert forall|i: int| 0 <= i < 53 implies is_symbol(#[trigger] t.subrange(7, 60)[i]) by {
        if i < 22 {
            assert(t.subrange(7, 60)[i] == encode(raw)[i]);
        } else {
            assert(t.subrange(7, 60)[i] == encode(d)[i - 22]);
        }
    }
    assert(t[28] == encode(raw).last());
    assert(t[59] == encode(d).last());
}

} // verus!
