//! The expensive key schedule and the digest it yields.
use vstd::prelude::*;
use vstd::arithmetic::power2::{lemma_pow2_unfold, pow2};
use vstd::bits::lemma_u64_shl_is_mul;
use vstd::bits::lemma_u64_pow2_no_overflow;
use vstd::arithmetic::div_mod::{
    lemma_fundamental_div_mod, lemma_fundamental_div_mod_converse, lemma_mod_pos_bound,
    lemma_small_mod,
};
use crate::blowfish::{
    encrypt, encrypt_block, expand, expand_blocks, expand_state, initial_state, mix_key, mix_key_words,
    PI_WORDS, STATE_WORDS,
};

verus! {

/// Smallest accepted cost.
pub const MIN_COST: u8 = 4;

/// Largest accepted cost.
pub const MAX_COST: u8 = 31;

/// Number of digest bytes that a hash string carries.
pub const DIGEST_BYTES: usize = 23;

/// How often each block of the magic text is encrypted.
pub const MAGIC_ROUNDS: usize = 64;

/// "OrpheanBeholderScryDoubt" as six big-endian words.
pub const MAGIC: [u32; 6] = [0x4f727068, 0x65616e42, 0x65686f6c, 0x64657253, 0x63727944, 0x6f756274];

/// The big-endian word of four bytes.
pub open spec fn word_of(a: u8, b: u8, c: u8, d: u8) -> u32 {
    (a as int * 0x1000000 + b as int * 0x10000 + c as int * 0x100 + d as int) as u32
}

/// The eighteen words that the bytes of `k`, repeated as often as needed,
/// make when read four at a time.
pub open spec fn key_words(k: Seq<u8>) -> Seq<u32> {
    Seq::new(
        18,
        |i: int|
            word_of(
                k[(4 * i) % k.len() as int],
                k[(4 * i + 1) % k.len() as int],
                k[(4 * i + 2) % k.len() as int],
                k[(4 * i + 3) % k.len() as int],
            ),
    )
}

/// The key that a password gives: its bytes and a terminating zero byte.
pub open spec fn password_key(pw: Seq<u8>) -> Seq<u8> {
    pw.push(0u8)
}

/// Data words of a key expansion that mixes in no data.
pub open spec fn no_data() -> Seq<u32> {
    seq![0u32, 0u32, 0u32, 0u32]
}

/// State after `n` rounds of the expensive loop, each of which expands with
/// the password key and then with the salt as key.
pub open spec fn eks_rounds(s: Seq<u32>, kw: Seq<u32>, sw: Seq<u32>, n: nat) -> Seq<u32>
    decreases n,
{
    if n == 0 {
        s
    } else {
        let t = eks_rounds(s, kw, sw, (n - 1) as nat);
        expand(mix_key(expand(mix_key(t, kw), no_data()), sw), no_data())
    }
}

/// The state that the expensive key schedule makes of password `pw`, raw
/// salt `salt` and cost `cost`: the initial constants keyed by the password with
/// the salt as data, then `2^cost` rounds.
pub open spec fn eks_setup(pw: Seq<u8>, salt: Seq<u8>, cost: nat) -> Seq<u32> {
    let kw = key_words(password_key(pw));
    let sw = key_words(salt);
    eks_rounds(expand(mix_key(PI_WORDS@, kw), sw), kw, sw, pow2(cost))
}

/// The block `(l, r)` encrypted `n` times in a row under `s`.
pub open spec fn encrypt_times(s: Seq<u32>, l: u32, r: u32, n: nat) -> (u32, u32)
    decreases n,
{
    if n == 0 {
        (l, r)
    } else {
        let p = encrypt_times(s, l, r, (n - 1) as nat);
        encrypt(s, p.0, p.1)
    }
}

/// The six words of the magic text, each of its three blocks encrypted
/// 64 times in a row under `s`.
pub open spec fn digest_words(s: Seq<u32>) -> Seq<u32> {
    Seq::new(
        6,
        |i: int|
            {
                let b = i - i % 2;
                let e = encrypt_times(s, MAGIC@[b], MAGIC@[b + 1], MAGIC_ROUNDS as nat);
                if i % 2 == 0 {
                    e.0
                } else {
                    e.1
                }
            },
    )
}

/// The bytes of words `w`, each most significant byte first.
pub open spec fn word_bytes(w: Seq<u32>) -> Seq<u8> {
    Seq::new(
        4 * w.len(),
        |i: int|
            {
                let x = w[i / 4] as int;
                let k = i % 4;
                (if k == 0 {
                    x / 0x1000000
                } else if k == 1 {
                    (x / 0x10000) % 0x100
                } else if k == 2 {
                    (x / 0x100) % 0x100
                } else {
                    x % 0x100
                }) as u8
            },
    )
}

/// The raw bcrypt digest of password `pw` under raw salt `salt` and cost
/// `cost`: the first 23 bytes of the encrypted magic text.
pub open spec fn digest(pw: Seq<u8>, salt: Seq<u8>, cost: nat) -> Seq<u8> {
    word_bytes(digest_words(eks_setup(pw, salt, cost))).take(DIGEST_BYTES as int)
}

proof fn lemma_next_index(x: int, n: int, j: int)
    requires
        n > 0,
        x >= 0,
        j == x % n,
    ensures
        (if j + 1 == n { 0 } else { j + 1 }) == (x + 1) % n,
{
    lemma_fundamental_div_mod(x, n);
    let q = x / n;
    if j + 1 == n {
        assert(x + 1 == (q + 1) * n + 0) by (nonlinear_arith)
            requires x == n * q + j, j + 1 == n;
        lemma_fundamental_div_mod_converse(x + 1, n, q + 1, 0);
    } else {
        lemma_mod_pos_bound(x, n);
        lemma_fundamental_div_mod_converse(x + 1, n, q, j + 1);
    }
}

/// The words of `key_words(k)`.
pub fn key_words_of(k: &[u8]) -> (w: [u32; 18])
    requires
        k@.len() > 0,
    ensures
        w@ == key_words(k@),
{
    let n = k.len();
    let mut w: [u32; 18] = [0u32; 18];
    let mut i: usize = 0;
    let mut j: usize = 0;
    assert(0int % (n as int) == 0) by {
        lemma_small_mod(0, n as nat);
    }
    while i < 18
        invariant
            n == k@.len(),
            n > 0,
            i <= 18,
            j == (4 * i) % (n as int),
            forall|m: int| 0 <= m < i ==> w@[m] == #[trigger] key_words(k@)[m],
        decreases 18 - i,
    {
        let a = k[j];
        let j1: usize = if j + 1 == n { 0 } else { j + 1 };
        let b = k[j1];
        let j2: usize = if j1 + 1 == n { 0 } else { j1 + 1 };
        let c = k[j2];
        let j3: usize = if j2 + 1 == n { 0 } else { j2 + 1 };
        let d = k[j3];
        proof {
            let x = 4 * i as int;
            lemma_next_index(x, n as int, j as int);
            lemma_next_index(x + 1, n as int, j1 as int);
            lemma_next_index(x + 2, n as int, j2 as int);
        }
        let v: u32 = (a as u32) * 0x1000000 + (b as u32) * 0x10000 + (c as u32) * 0x100 + (d as u32);
        w[i] = v;
        j = if j3 + 1 == n { 0 } else { j3 + 1 };
        proof {
            lemma_next_index(4 * i as int + 3, n as int, j3 as int);
        }
        i = i + 1;
    }
    assert(w@ =~= key_words(k@));
    w
}

/// The password bytes followed by a zero byte.
fn password_key_of(pw: &[u8]) -> (k: Vec<u8>)
    ensures
        k@ == password_key(pw@),
{
    let mut k: Vec<u8> = Vec::new();
    let mut i: usize = 0;
    while i < pw.len()
        invariant
            i <= pw@.len(),
            k@ == pw@.take(i as int),
        decreases pw@.len() - i,
    {
        k.push(pw[i]);
        i = i + 1;
        assert(k@ =~= pw@.take(i as int));
    }
    k.push(0u8);
    assert(k@ =~= password_key(pw@));
    k
}

/// Runs the expensive key schedule: the state `eks_setup(pw, salt, cost)`.
pub fn eks_state(pw: &[u8], salt: &[u8; 16], cost: u8) -> (s: Vec<u32>)
    requires
        cost <= MAX_COST,
    ensures
        s@ == eks_setup(pw@, salt@, cost as nat),
        s@.len() == STATE_WORDS,
{
    let key = password_key_of(pw);
    let kw = key_words_of(key.as_slice());
    let sw18 = key_words_of(salt.as_slice());
    let sw: [u32; 4] = [sw18[0], sw18[1], sw18[2], sw18[3]];
    let zero: [u32; 4] = [0u32; 4];
    proof {
        assert(sw@ =~= key_words(salt@).take(4));
        assert(zero@ =~= no_data());
    }
    let mut s = initial_state();
    mix_key_words(&mut s, &kw);
    expand_state(&mut s, &sw);
    proof {
        assert(expand(mix_key(PI_WORDS@, kw@), sw@) == expand(mix_key(PI_WORDS@, kw@), key_words(salt@))) by {
            lemma_expand_first_four(mix_key(PI_WORDS@, kw@), sw@, key_words(salt@));
        }
    }
    let ghost s0 = s@;
    proof {
        lemma_u64_pow2_no_overflow(cost as nat);
        lemma_u64_shl_is_mul(1u64, cost as u64);
    }
    let total: u64 = 1u64 << (cost as u64);
    let mut n: u64 = 0;
    while n < total
        invariant
            total == pow2(cost as nat),
            n <= total,
            s@.len() == STATE_WORDS,
            s@ == eks_rounds(s0, kw@, sw18@, n as nat),
            kw@ == key_words(key@),
            sw18@ == key_words(salt@),
            zero@ == no_data(),
        decreases total - n,
    {
        mix_key_words(&mut s, &kw);
        expand_state(&mut s, &zero);
        mix_key_words(&mut s, &sw18);
        expand_state(&mut s, &zero);
        n = n + 1;
    }
    s
}

proof fn lemma_expand_first_four(s: Seq<u32>, d: Seq<u32>, e: Seq<u32>)
    requires
        d.len() == 4,
        e.len() >= 4,
        d == e.take(4),
    ensures
        expand(s, d) == expand(s, e),
{
    lemma_expand_blocks_first_four(s, d, e, 521);
}

proof fn lemma_expand_blocks_first_four(s: Seq<u32>, d: Seq<u32>, e: Seq<u32>, n: nat)
    requires
        d.len() == 4,
        e.len() >= 4,
        d == e.take(4),
    ensures
        expand_blocks(s, d, n) == expand_blocks(s, e, n),
    decreases n,
{
    if n > 0 {
        lemma_expand_blocks_first_four(s, d, e, (n - 1) as nat);
        let k = 2 * ((n - 1) % 2);
        assert(d[k] == e[k] && d[k + 1] == e[k + 1]);
    }
}

/// Encrypts the block `(l, r)` `MAGIC_ROUNDS` times in a row.
fn encrypt_repeated(s: &Vec<u32>, l: u32, r: u32) -> (out: (u32, u32))
    requires
        s@.len() == STATE_WORDS,
    ensures
        out == encrypt_times(s@, l, r, MAGIC_ROUNDS as nat),
{
    let mut p: (u32, u32) = (l, r);
    let mut i: usize = 0;
    while i < MAGIC_ROUNDS
        invariant
            s@.len() == STATE_WORDS,
            i <= MAGIC_ROUNDS,
            p == encrypt_times(s@, l, r, i as nat),
        decreases MAGIC_ROUNDS - i,
    {
        p = encrypt_block(s, p.0, p.1);
        i = i + 1;
    }
    p
}

/// Computes `digest(pw, salt, cost)`.
pub fn compute_digest(pw: &[u8], salt: &[u8; 16], cost: u8) -> (r: [u8; 23])
    requires
        cost <= MAX_COST,
    ensures
        r@ == digest(pw@, salt@, cost as nat),
{
    let s = eks_state(pw, salt, cost);
    let mut words: [u32; 6] = [0u32; 6];
    let mut b: usize = 0;
    while b < 6
        invariant
            s@.len() == STATE_WORDS,
            s@ == eks_setup(pw@, salt@, cost as nat),
            b <= 6,
            b % 2 == 0,
            forall|i: int| 0 <= i < b ==> words@[i] == #[trigger] digest_words(s@)[i],
        decreases 6 - b,
    {
        let e = encrypt_repeated(&s, MAGIC[b], MAGIC[b + 1]);
        words[b] = e.0;
        words[b + 1] = e.1;
        proof {
            assert(digest_words(s@)[b as int] == e.0);
            assert(digest_words(s@)[b + 1] == e.1);
        }
        b = b + 2;
    }
    assert(words@ =~= digest_words(s@));
    let mut out: [u8; 23] = [0u8; 23];
    let mut i: usize = 0;
    while i < DIGEST_BYTES
        invariant
            i <= DIGEST_BYTES,
            words@ == digest_words(eks_setup(pw@, salt@, cost as nat)),
            forall|m: int| 0 <= m < i ==> out@[m] == #[trigger] word_bytes(words@)[m],
        decreases DIGEST_BYTES - i,
    {
        let w = words[i / 4];
        let k = i % 4;
        let v: u32 = if k == 0 {
            w / 0x1000000
        } else if k == 1 {
            (w / 0x10000) % 0x100
        } else if k == 2 {
            (w / 0x100) % 0x100
        } else {
            w % 0x100
        };
        out[i] = v as u8;
        i = i + 1;
    }
    assert(out@ =~= word_bytes(words@).take(DIGEST_BYTES as int));
    out
}

/// Running `a` rounds of the expensive loop and then `b` more is running
/// `a + b` rounds.
pub proof fn lemma_rounds_compose(s: Seq<u32>, kw: Seq<u32>, sw: Seq<u32>, a: nat, b: nat)
    ensures
        eks_rounds(eks_rounds(s, kw, sw, a), kw, sw, b) == eks_rounds(s, kw, sw, a + b),
    decreases b,
{
    if b > 0 {
        lemma_rounds_compose(s, kw, sw, a, (b - 1) as nat);
        assert((a + b - 1) as nat == a + (b - 1) as nat);
    }
}

/// Raising the cost by one doubles the work: the loop of cost `cost + 1` is
/// the loop of cost `cost` run twice over.
pub proof fn lemma_cost_doubles_rounds(s: Seq<u32>, kw: Seq<u32>, sw: Seq<u32>, cost: nat)
    ensures
        pow2(cost + 1) == 2 * pow2(cost),
        eks_rounds(s, kw, sw, pow2(cost + 1)) == eks_rounds(
            eks_rounds(s, kw, sw, pow2(cost)),
            kw,
            sw,
            pow2(cost),
        ),
{
    lemma_pow2_unfold(cost + 1);
    lemma_rounds_compose(s, kw, sw, pow2(cost), pow2(cost));
}

} // verus!
