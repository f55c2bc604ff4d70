//! The crypt string format: `$2<v>$<two-digit cost>$<22-char salt>`, and for a
//! hash the 31-character digest after it.
use vstd::prelude::*;
use crate::base64::{
    all_symbols, decode, decode_bytes, encode, encode_bytes, encoded_len, lemma_last_symbol,
    lemma_round_trip, value,
};
use crate::error::{CryptError, ErrorKind};

verus! {

/// Length of a salt string: tag, cost and encoded salt.
pub const SETTING_LEN: usize = 29;

/// Length of a hash string: a salt string and the encoded digest.
pub const HASH_LEN: usize = 60;

/// Number of characters of the encoded salt.
pub const SALT_CHARS: usize = 22;

/// Version tags of the format.
#[derive(Clone, Copy, Debug, PartialEq, Eq, Structural)]
pub enum Version {
    /// `$2a$`
    V2a,
    /// `$2b$`
    V2b,
    /// `$2y$`
    V2y,
}

/// The letter after `$2` that marks `v`.
pub open spec fn version_tag(v: Version) -> u8 {
    match v {
        Version::V2a => 97u8,
        Version::V2b => 98u8,
        Version::V2y => 121u8,
    }
}

/// Whether `c` marks a version.
pub open spec fn is_version_tag(c: u8) -> bool {
    c == 97 || c == 98 || c == 121
}

/// The version that the letter `c` marks.
pub open spec fn version_of_tag(c: u8) -> Version {
    if c == 97 {
        Version::V2a
    } else if c == 98 {
        Version::V2b
    } else {
        Version::V2y
    }
}

/// A parsed salt string.
#[derive(Clone, Copy, Debug)]
pub struct Salt {
    pub version: Version,
    pub cost: u8,
    pub raw: [u8; 16],
}

/// The salt string for version `v`, cost `cost` and raw salt `raw`.
pub open spec fn setting_text(v: Version, cost: u8, raw: Seq<u8>) -> Seq<u8> {
    seq![36u8, 50u8, version_tag(v), 36u8, (48 + cost / 10) as u8, (48 + cost % 10) as u8, 36u8]
        + encode(raw)
}

/// The hash string: the salt string followed by the encoded digest.
pub open spec fn hash_text(v: Version, cost: u8, raw: Seq<u8>, digest: Seq<u8>) -> Seq<u8> {
    setting_text(v, cost, raw) + encode(digest)
}

/// Whether `c` is an ASCII digit.
pub open spec fn is_digit(c: u8) -> bool {
    48 <= c <= 57
}

/// The cost written in the two digits at positions 4 and 5 of `t`.
pub open spec fn text_cost(t: Seq<u8>) -> int {
    (t[4] - 48) * 10 + (t[5] - 48)
}

/// Whether the first 29 characters of `t` are a well-formed salt string with
/// a known version and a cost in `4..=31`.
pub open spec fn valid_setting(t: Seq<u8>) -> bool {
    &&& t.len() >= SETTING_LEN
    &&& t[0] == 36 && t[1] == 50 && is_version_tag(t[2]) && t[3] == 36
    &&& is_digit(t[4]) && is_digit(t[5])
    &&& 4 <= text_cost(t) <= 31
    &&& t[6] == 36
    &&& all_symbols(t.subrange(7, 29), SALT_CHARS as int)
}

/// The raw salt that the salt field of `t` decodes to.
pub open spec fn setting_salt(t: Seq<u8>) -> Seq<u8> {
    decode(t.subrange(7, 29), 16)
}

fn version_letter(v: Version) -> (c: u8)
    ensures
        c == version_tag(v),
{
    match v {
        Version::V2a => 97,
        Version::V2b => 98,
        Version::V2y => 121,
    }
}

/// Parses the salt string at the start of `text` (the first 29 bytes; the
/// rest, such as the digest of a hash string, is ignored).
pub fn parse_salt(text: &[u8]) -> (r: Result<Salt, CryptError>)
    ensures
        r is Ok <==> valid_setting(text@),
        r matches Ok(s) ==> s.version == version_of_tag(text@[2]) && s.cost == text_cost(text@)
            && s.raw@ == setting_salt(text@),
        r matches Err(e) ==> e.kind == ErrorKind::InvalidSaltFormat,
{
    if text.len() < SETTING_LEN {
        return Err(CryptError::with_kind(ErrorKind::InvalidSaltFormat, String::from_str("salt string too short")));
    }
    let tag = text[2];
    let d0 = text[4];
    let d1 = text[5];
    if text[0] != 36 || text[1] != 50 || !(tag == 97 || tag == 98 || tag == 121) || text[3] != 36
        || text[6] != 36 || d0 < 48 || d0 > 57 || d1 < 48 || d1 > 57 {
        return Err(CryptError::with_kind(ErrorKind::InvalidSaltFormat, String::from_str("malformed salt string")));
    }
    let cost: u8 = (d0 - 48) * 10 + (d1 - 48);
    if cost < 4 || cost > 31 {
        return Err(CryptError::with_kind(ErrorKind::InvalidSaltFormat, String::from_str("cost out of range in salt string")));
    }
    let mut chars: [u8; 22] = [0u8; 22];
    let mut i: usize = 0;
    while i < SALT_CHARS
        invariant
            text@.len() >= SETTING_LEN,
            i <= SALT_CHARS,
            forall|j: int| 0 <= j < i ==> chars@[j] == #[trigger] text@[7 + j],
        decreases SALT_CHARS - i,
    {
        chars[i] = text[7 + i];
        i = i + 1;
    }
    assert forall|j: int| 0 <= j < 22 implies chars@[j] == #[trigger] text@.subrange(7, 29)[j] by {
        assert(chars@[j] == text@[7 + j]);
    }
    assert(chars@ =~= text@.subrange(7, 29));
    match decode_bytes(chars.as_slice(), 16) {
        None => Err(CryptError::with_kind(ErrorKind::InvalidSaltFormat, String::from_str("salt holds a character outside the alphabet"))),
        Some(v) => {
            let mut raw: [u8; 16] = [0u8; 16];
            let mut k: usize = 0;
            while k < 16
                invariant
                    v@.len() == 16,
                    k <= 16,
                    forall|j: int| 0 <= j < k ==> raw@[j] == #[trigger] v@[j],
                decreases 16 - k,
            {
                raw[k] = v[k];
                k = k + 1;
            }
            assert(raw@ =~= v@);
            let version = if tag == 97 {
                Version::V2a
            } else if tag == 98 {
                Version::V2b
            } else {
                Version::V2y
            };
            Ok(Salt { version, cost, raw })
        },
    }
}

/// Writes the salt string for version `v`, cost `cost` and raw salt `raw`.
pub fn format_salt(v: Version, cost: u8, raw: &[u8; 16]) -> (r: Vec<u8>)
    requires
        cost <= 99,
    ensures
        r@ == setting_text(v, cost, raw@),
{
    let mut out: Vec<u8> = Vec::new();
    out.push(36);
    out.push(50);
    out.push(version_letter(v));
    out.push(36);
    out.push(48 + cost / 10);
    out.push(48 + cost % 10);
    out.push(36);
    let enc = encode_bytes(raw.as_slice());
    let mut i: usize = 0;
    let ghost head = out@;
    while i < enc.len()
        invariant
            i <= enc@.len(),
            out@ == head + enc@.take(i as int),
        decreases enc@.len() - i,
    {
        out.push(enc[i]);
        i = i + 1;
        assert(out@ =~= head + enc@.take(i as int));
    }
    assert(enc@.take(enc@.len() as int) =~= enc@);
    assert(head =~= seq![36u8, 50u8, version_tag(v), 36u8, (48 + cost / 10) as u8, (48 + cost % 10) as u8, 36u8]);
    out
}

/// Writes the hash string for version `v`, cost `cost`, raw salt `raw` and
/// digest `digest`.
pub fn format_hash(v: Version, cost: u8, raw: &[u8; 16], digest: &[u8; 23]) -> (r: Vec<u8>)
    requires
        cost <= 99,
    ensures
        r@ == hash_text(v, cost, raw@, digest@),
{
    let mut out = format_salt(v, cost, raw);
    let enc = encode_bytes(digest.as_slice());
    let mut i: usize = 0;
    let ghost head = out@;
    while i < enc.len()
        invariant
            i <= enc@.len(),
            out@ == head + enc@.take(i as int),
        decreases enc@.len() - i,
    {
        out.push(enc[i]);
        i = i + 1;
        assert(out@ =~= head + enc@.take(i as int));
    }
    assert(enc@.take(enc@.len() as int) =~= enc@);
    out
}

/// A salt string written for any version, any cost in `4..=31` and any 16
/// raw bytes parses back to that version, cost and raw salt; its last salt
/// character carries only the two bits left of the sixteenth byte.
pub proof fn lemma_salt_round_trip(v: Version, cost: u8, raw: Seq<u8>)
    requires
        4 <= cost <= 31,
        raw.len() == 16,
    ensures
        valid_setting(setting_text(v, cost, raw)),
        version_of_tag(setting_text(v, cost, raw)[2]) == v,
        text_cost(setting_text(v, cost, raw)) == cost,
        setting_salt(setting_text(v, cost, raw)) == raw,
        setting_text(v, cost, raw).len() == SETTING_LEN,
        value(setting_text(v, cost, raw)[28]) % 16 == 0,
{
    lemma_last_symbol(raw);
    let t = setting_text(v, cost, raw);
    lemma_round_trip(raw);
    let e = encode(raw);
    assert(encoded_len(16) == 22);
    assert(t.subrange(7, 29) =~= e);
    assert forall|i: int| 0 <= i < 22 implies crate::base64::is_symbol(#[trigger] t.subrange(7, 29)[i]) by {
        assert(t.subrange(7, 29)[i] == e[i]);
    }
}

} // verus!
