//! The base64 variant of the crypt string format: alphabet `./A-Za-z0-9`,
//! three bytes to four characters, a final partial group keeping only the
//! characters it needs and no padding.
use vstd::prelude::*;

verus! {

/// The character that stands for the 6-bit value `v`.
pub open spec fn symbol(v: int) -> u8 {
    if v == 0 {
        46u8
    } else if v == 1 {
        47u8
    } else if v < 28 {
        (65 + v - 2) as u8
    } else if v < 54 {
        (97 + v - 28) as u8
    } else {
        (48 + v - 54) as u8
    }
}

/// Whether `c` is a character of the alphabet.
pub open spec fn is_symbol(c: u8) -> bool {
    c == 46 || c == 47 || (65 <= c <= 90) || (97 <= c <= 122) || (48 <= c <= 57)
}

/// The 6-bit value of the alphabet character `c`.
pub open spec fn value(c: u8) -> int {
    if c == 46 {
        0
    } else if c == 47 {
        1
    } else if 65 <= c <= 90 {
        c - 65 + 2
    } else if 97 <= c <= 122 {
        c - 97 + 28
    } else {
        c - 48 + 54
    }
}

/// The characters of one group: two for one byte, three for two, four for
/// three or more (of which the first three are used).
pub open spec fn encode_group(b: Seq<u8>) -> Seq<u8> {
    let x0 = b[0] as int;
    let x1 = b[1] as int;
    let x2 = b[2] as int;
    let c0 = symbol(x0 / 4);
    if b.len() == 1 {
        seq![c0, symbol((x0 % 4) * 16)]
    } else if b.len() == 2 {
        seq![c0, symbol((x0 % 4) * 16 + x1 / 16), symbol((x1 % 16) * 4)]
    } else {
        seq![
            c0,
            symbol((x0 % 4) * 16 + x1 / 16),
            symbol((x1 % 16) * 4 + x2 / 64),
            symbol(x2 % 64),
        ]
    }
}

/// The encoding of `b`.
pub open spec fn encode(b: Seq<u8>) -> Seq<u8>
    decreases b.len(),
{
    if b.len() == 0 {
        seq![]
    } else if b.len() <= 3 {
        encode_group(b)
    } else {
        encode_group(b) + encode(b.skip(3))
    }
}

/// Number of characters that encode `n` bytes.
pub open spec fn encoded_len(n: nat) -> nat {
    4 * (n / 3) + if n % 3 == 0 {
        0
    } else {
        n % 3 + 1
    }
}

/// The `k` bytes (1 to 3) that the characters at the start of `c` decode to.
pub open spec fn decode_group(c: Seq<u8>, k: nat) -> Seq<u8> {
    let b0 = (value(c[0]) * 4 + value(c[1]) / 16) as u8;
    let b1 = ((value(c[1]) % 16) * 16 + value(c[2]) / 4) as u8;
    let b2 = ((value(c[2]) % 4) * 64 + value(c[3])) as u8;
    if k == 1 {
        seq![b0]
    } else if k == 2 {
        seq![b0, b1]
    } else {
        seq![b0, b1, b2]
    }
}

/// The `n` bytes that the characters `c` decode to; the bits of a final
/// partial group that hold no byte are ignored.
pub open spec fn decode(c: Seq<u8>, n: nat) -> Seq<u8>
    decreases n,
{
    if n == 0 {
        seq![]
    } else if n <= 3 {
        decode_group(c, n)
    } else {
        decode_group(c, 3) + decode(c.skip(4), (n - 3) as nat)
    }
}

/// Whether the first `len` characters of `c` all belong to the alphabet.
pub open spec fn all_symbols(c: Seq<u8>, len: int) -> bool {
    forall|i: int| 0 <= i < len ==> is_symbol(#[trigger] c[i])
}

/// Decoding gives as many bytes as asked for.
pub proof fn lemma_decode_len(c: Seq<u8>, n: nat)
    ensures
        decode(c, n).len() == n,
    decreases n,
{
    if n > 3 {
        lemma_decode_len(c.skip(4), (n - 3) as nat);
    }
}

proof fn lemma_symbol_value(v: int)
    requires
        0 <= v < 64,
    ensures
        is_symbol(symbol(v)),
        value(symbol(v)) == v,
{
}

proof fn lemma_group_round_trip(b: Seq<u8>)
    requires
        1 <= b.len(),
    ensures
        encode_group(b).len() == if b.len() >= 3 { 4 } else { b.len() + 1 },
        all_symbols(encode_group(b), encode_group(b).len() as int),
        decode_group(encode_group(b), if b.len() >= 3 { 3 } else { b.len() }) =~= b.take(
            if b.len() >= 3 { 3 } else { b.len() as int },
        ),
{
    let x0 = b[0] as int;
    lemma_symbol_value(x0 / 4);
    if b.len() == 1 {
        lemma_symbol_value((x0 % 4) * 16);
    } else {
        let x1 = b[1] as int;
        lemma_symbol_value((x0 % 4) * 16 + x1 / 16);
        if b.len() == 2 {
            lemma_symbol_value((x1 % 16) * 4);
        } else {
            let x2 = b[2] as int;
            lemma_symbol_value((x1 % 16) * 4 + x2 / 64);
            lemma_symbol_value(x2 % 64);
        }
    }
}

/// Decoding the encoding of any byte sequence gives it back, and the encoding
/// has `encoded_len` characters, all of the alphabet.
pub proof fn lemma_round_trip(b: Seq<u8>)
    ensures
        encode(b).len() == encoded_len(b.len()),
        all_symbols(encode(b), encode(b).len() as int),
        decode(encode(b), b.len()) == b,
    decreases b.len(),
{
    if b.len() == 0 {
        assert(decode(encode(b), b.len()) =~= b);
    } else if b.len() <= 3 {
        lemma_group_round_trip(b);
        assert(b.take(b.len() as int) =~= b);
    } else {
        let rest = b.skip(3);
        lemma_group_round_trip(b);
        lemma_round_trip(rest);
        let g = encode_group(b);
        let e = encode(b);
        assert(e == g + encode(rest));
        assert(e.skip(4) =~= encode(rest));
        assert forall|i: int| 0 <= i < e.len() implies is_symbol(#[trigger] e[i]) by {
            if i >= 4 {
                assert(e[i] == encode(rest)[i - 4]);
            }
        }
        assert(decode_group(e, 3) =~= decode_group(g, 3));
        assert(b =~= b.take(3) + rest);
    }
}

/// The character for the 6-bit value `v`.
pub fn symbol_of(v: u8) -> (c: u8)
    requires
        v < 64,
    ensures
        c == symbol(v as int),
{
    if v == 0 {
        46
    } else if v == 1 {
        47
    } else if v < 28 {
        65 + v - 2
    } else if v < 54 {
        97 + v - 28
    } else {
        48 + v - 54
    }
}

/// The 6-bit value of `c`, or `None` where `c` is not of the alphabet.
pub fn value_of(c: u8) -> (r: Option<u8>)
    ensures
        r is Some <==> is_symbol(c),
        r matches Some(v) ==> v == value(c) && v < 64,
{
    if c == 46 {
        Some(0)
    } else if c == 47 {
        Some(1)
    } else if 65 <= c && c <= 90 {
        Some(c - 65 + 2)
    } else if 97 <= c && c <= 122 {
        Some(c - 97 + 28)
    } else if 48 <= c && c <= 57 {
        Some(c - 48 + 54)
    } else {
        None
    }
}

/// Encodes `b`.
pub fn encode_bytes(b: &[u8]) -> (r: Vec<u8>)
    ensures
        r@ == encode(b@),
{
    let mut out: Vec<u8> = Vec::new();
    let mut i: usize = 0;
    assert(b@.skip(0) =~= b@);
    assert(out@ + encode(b@.skip(0)) =~= encode(b@));
    while i < b.len()
        invariant
            i <= b@.len(),
            out@ + encode(b@.skip(i as int)) == encode(b@),
        decreases b@.len() - i,
    {
        let ghost rest = b@.skip(i as int);
        let x0 = b[i];
        out.push(symbol_of(x0 / 4));
        if i + 1 == b.len() {
            out.push(symbol_of((x0 % 4) * 16));
            i = i + 1;
        } else {
            let x1 = b[i + 1];
            out.push(symbol_of((x0 % 4) * 16 + x1 / 16));
            if i + 2 == b.len() {
                out.push(symbol_of((x1 % 16) * 4));
                i = i + 2;
            } else {
                let x2 = b[i + 2];
                out.push(symbol_of((x1 % 16) * 4 + x2 / 64));
                out.push(symbol_of(x2 % 64));
                i = i + 3;
                assert(rest.skip(3) =~= b@.skip(i as int));
            }
        }
        assert(b@.skip(i as int).len() == 0 ==> encode(b@.skip(i as int)) =~= Seq::<u8>::empty());
        assert(out@ + encode(b@.skip(i as int)) =~= encode(b@));
    }
    assert(b@.skip(i as int) =~= Seq::<u8>::empty());
    assert(out@ =~= encode(b@));
    out
}

/// Decodes `n` bytes from the first `encoded_len(n)` characters of `c`, or
/// gives `None` where one of those characters is not of the alphabet.
pub fn decode_bytes(c: &[u8], n: usize) -> (r: Option<Vec<u8>>)
    requires
        c@.len() >= encoded_len(n as nat),
    ensures
        r is Some <==> all_symbols(c@, encoded_len(n as nat) as int),
        r matches Some(v) ==> v@ == decode(c@, n as nat) && v@.len() == n,
{
    proof {
        lemma_decode_len(c@, n as nat);
    }
    let clen = c.len();
    let q: usize = n / 3;
    let rem: usize = n % 3;
    assert(4 * q + (if rem == 0 { 0int } else { rem + 1 }) == encoded_len(n as nat));
    let len: usize = 4 * q + if rem == 0 { 0 } else { rem + 1 };
    let mut vals: Vec<u8> = Vec::new();
    let mut i: usize = 0;
    while i < len
        invariant
            len == encoded_len(n as nat),
            len <= c@.len(),
            i <= len,
            vals@.len() == i,
            all_symbols(c@, i as int),
            forall|j: int| 0 <= j < i ==> vals@[j] == value(#[trigger] c@[j]) && vals@[j] < 64,
        decreases len - i,
    {
        match value_of(c[i]) {
            Some(v) => vals.push(v),
            None => return None,
        }
        i = i + 1;
    }
    let mut out: Vec<u8> = Vec::new();
    let mut g: usize = 0;
    let mut left: usize = n;
    assert(c@.skip(0) =~= c@);
    assert(out@ + decode(c@.skip(0), n as nat) =~= decode(c@, n as nat));
    while left > 0
        invariant
            len == encoded_len(n as nat),
            len <= c@.len(),
            vals@.len() == len,
            forall|j: int| 0 <= j < len ==> vals@[j] == value(#[trigger] c@[j]) && vals@[j] < 64,
            left <= n,
            left > 0 ==> (n - left) % 3 == 0 && g == 4 * ((n - left) / 3),
            out@ + decode(c@.skip(g as int), left as nat) == decode(c@, n as nat),
        decreases left,
    {
        let ghost cs = c@.skip(g as int);
        let v0 = vals[g];
        let v1 = vals[g + 1];
        out.push(v0 * 4 + v1 / 16);
        if left == 1 {
            left = 0;
        } else {
            let v2 = vals[g + 2];
            out.push((v1 % 16) * 16 + v2 / 4);
            if left == 2 {
                left = 0;
            } else {
                let v3 = vals[g + 3];
                out.push((v2 % 4) * 64 + v3);
                left = left - 3;
                g = g + 4;
                assert(cs.skip(4) =~= c@.skip(g as int));
            }
        }
        assert(left == 0 ==> decode(c@.skip(g as int), left as nat) =~= Seq::<u8>::empty());
        assert(out@ + decode(c@.skip(g as int), left as nat) =~= decode(c@, n as nat));
    }
    assert(out@ + Seq::<u8>::empty() =~= out@);
    Some(out)
}

/// The last character of an encoding carries only the bits left over: its
/// low four bits are zero after one byte of a final group, its low two bits
/// after two.
pub proof fn lemma_last_symbol(b: Seq<u8>)
    requires
        b.len() % 3 != 0,
    ensures
        encode(b).len() > 0,
        b.len() % 3 == 1 ==> value(encode(b).last()) % 16 == 0,
        b.len() % 3 == 2 ==> value(encode(b).last()) % 4 == 0,
    decreases b.len(),
{
    if b.len() <= 3 {
        let x0 = b[0] as int;
        if b.len() == 1 {
            lemma_symbol_value((x0 % 4) * 16);
        } else {
            lemma_symbol_value((b[1] as int % 16) * 4);
        }
    } else {
        let rest = b.skip(3);
        lemma_last_symbol(rest);
        assert(encode(b) == encode_group(b) + encode(rest));
        assert(encode(b).last() == encode(rest).last());
    }
}

} // verus!
