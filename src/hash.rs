//! Murmur3 over codepoints: each `char` of the key is one 32-bit block.
use vstd::prelude::*;
use vstd::std_specs::iter::IteratorSpec;
use vstd::utf8::{char_is_scalar, encode_scalar, encode_utf8};

verus! {

/// Rotate a 32-bit word left by `r` bits, `0 < r < 32`.
pub open spec fn rotl(x: u32, r: u32) -> u32 {
    (x << r) | (x >> ((32 - r) as u32))
}

/// The mixing step of one block `c` into the accumulator `h`.
pub open spec fn mix_block(h: u32, c: u32) -> u32 {
    let k = rotl(c.wrapping_mul(0xcc9e2d51u32), 15).wrapping_mul(0x1b873593u32);
    rotl(h ^ k, 13).wrapping_mul(5u32).wrapping_add(0xe6546b64u32)
}

/// The accumulator after mixing every codepoint of `cs`, in order, into `seed`.
pub open spec fn mix_all(seed: u32, cs: Seq<char>) -> u32
    decreases cs.len(),
{
    if cs.len() == 0 {
        seed
    } else {
        mix_block(mix_all(seed, cs.drop_last()), cs.last() as u32)
    }
}

/// The avalanche finalization of an accumulator.
pub open spec fn avalanche(h: u32) -> u32 {
    let h1 = h ^ (h >> 16u32);
    let h2 = h1.wrapping_mul(0x85ebca6bu32);
    let h3 = h2 ^ (h2 >> 13u32);
    let h4 = h3.wrapping_mul(0xc2b2ae35u32);
    h4 ^ (h4 >> 16u32)
}

/// The number of codepoints of `key` that are hashed under `limit`.
pub open spec fn hashed_count(key: Seq<char>, limit: int) -> int {
    if limit < key.len() {
        limit
    } else {
        key.len() as int
    }
}

/// The UTF-8 byte length of the codepoints `cs`.
pub open spec fn utf8_len(cs: Seq<char>) -> nat {
    encode_utf8(cs).len()
}

/// Murmur3 of the first `limit` codepoints of `key`: the blocks, then the byte
/// length of that prefix folded in, then the avalanche.
pub open spec fn murmur3_of(key: Seq<char>, seed: u32, limit: int) -> u32 {
    let prefix = key.take(hashed_count(key, limit));
    avalanche(mix_all(seed, prefix) ^ (utf8_len(prefix) as u32))
}

/// Murmur3 of the whole of `key`.
pub open spec fn hash_of(key: Seq<char>, seed: u32) -> u32 {
    murmur3_of(key, seed, key.len() as int)
}

/// The UTF-8 length of one codepoint.
pub open spec fn char_width(c: char) -> nat {
    if (c as u32) < 0x80 {
        1
    } else if (c as u32) < 0x800 {
        2
    } else if (c as u32) < 0x10000 {
        3
    } else {
        4
    }
}

proof fn lemma_scalar_width(c: char)
    ensures
        encode_scalar(c as u32).len() == char_width(c),
{
    broadcast use char_is_scalar;

}

proof fn lemma_utf8_len_push(cs: Seq<char>, c: char)
    ensures
        utf8_len(cs.push(c)) == utf8_len(cs) + char_width(c),
    decreases cs.len(),
{
    lemma_scalar_width(c);
    let pushed = cs.push(c);
    if cs.len() == 0 {
        assert(pushed.drop_first() =~= Seq::<char>::empty());
        assert(encode_utf8(pushed) == encode_scalar(c as u32) + encode_utf8(pushed.drop_first()));
    } else {
        assert(pushed.drop_first() =~= cs.drop_first().push(c));
        lemma_utf8_len_push(cs.drop_first(), c);
        lemma_scalar_width(cs[0]);
        assert(encode_utf8(pushed) == encode_scalar(cs[0] as u32) + encode_utf8(
            pushed.drop_first(),
        ));
        assert(encode_utf8(cs) == encode_scalar(cs[0] as u32) + encode_utf8(cs.drop_first()));
    }
}

proof fn lemma_utf8_len_prefix(cs: Seq<char>, n: int)
    requires
        0 <= n <= cs.len(),
    ensures
        n <= utf8_len(cs.take(n)) <= utf8_len(cs),
{
    lemma_utf8_len_at_least(cs, n);
    lemma_utf8_len_grows(cs, n);
}

proof fn lemma_utf8_len_at_least(cs: Seq<char>, n: int)
    requires
        0 <= n <= cs.len(),
    ensures
        n <= utf8_len(cs.take(n)),
    decreases n,
{
    if n > 0 {
        lemma_utf8_len_at_least(cs, n - 1);
        assert(cs.take(n) =~= cs.take(n - 1).push(cs[n - 1]));
        lemma_utf8_len_push(cs.take(n - 1), cs[n - 1]);
    }
}

proof fn lemma_utf8_len_grows(cs: Seq<char>, n: int)
    requires
        0 <= n <= cs.len(),
    ensures
        utf8_len(cs.take(n)) <= utf8_len(cs),
    decreases cs.len() - n,
{
    if n < cs.len() {
        lemma_utf8_len_grows(cs, n + 1);
        assert(cs.take(n + 1) =~= cs.take(n).push(cs[n]));
        lemma_utf8_len_push(cs.take(n), cs[n]);
    } else {
        assert(cs.take(n) =~= cs);
    }
}

/// With a limit at or beyond the key's codepoint count, the limited hash is
/// the hash of the whole key.
pub proof fn lemma_limit_covers_key(key: Seq<char>, seed: u32, limit: int)
    requires
        limit >= key.len(),
    ensures
        murmur3_of(key, seed, limit) == hash_of(key, seed),
{
}

/// The hash is a function of the key's codepoints and the seed alone: equal
/// keys under equal seeds hash equal, whichever call computes them.
pub proof fn lemma_hash_deterministic(a: Seq<char>, b: Seq<char>, seed: u32)
    requires
        a == b,
    ensures
        hash_of(a, seed) == hash_of(b, seed),
        forall|limit: int| murmur3_of(a, seed, limit) == murmur3_of(b, seed, limit),
{
}

fn rotate_left(x: u32, r: u32) -> (y: u32)
    requires
        0 < r < 32,
    ensures
        y == rotl(x, r),
{
    (x << r) | (x >> (32 - r))
}

fn char_width_exec(c: char) -> (w: usize)
    ensures
        w == char_width(c),
{
    let v = c as u32;
    if v < 0x80 {
        1
    } else if v < 0x800 {
        2
    } else if v < 0x10000 {
        3
    } else {
        4
    }
}

/// Compute Murmur3 hash function of the first limit codepoints of a string,
/// using each char as a u32 block.
/// Returns: (murmur3 hash, how many bytes of key were hashed (e.g. key[..n]))
pub fn murmur3(key: &str, seed: u32, limit: u32) -> (r: (u32, usize))
    ensures
        r.0 == murmur3_of(key@, seed, limit as int),
        r.1 == utf8_len(key@.take(hashed_count(key@, limit as int))),
{
    hash_prefix(key, seed, limit as usize)
}

/// Murmur3 of the whole string, with each char as a u32 block.
pub fn hash(key: &str, seed: u32) -> (r: u32)
    ensures
        r == hash_of(key@, seed),
{
    proof {
        lemma_utf8_len_prefix(key@, key@.len() as int);
        assert(key@.take(key@.len() as int) =~= key@);
    }
    let total = key.as_bytes().len();
    hash_prefix(key, seed, total).0
}

fn hash_prefix(key: &str, seed: u32, limit: usize) -> (r: (u32, usize))
    ensures
        r.0 == murmur3_of(key@, seed, limit as int),
        r.1 == utf8_len(key@.take(hashed_count(key@, limit as int))),
{
    let total = key.as_bytes().len();
    proof {
        lemma_utf8_len_prefix(key@, 0);
        assert(key@.take(0) =~= Seq::<char>::empty());
    }
    let mut h = seed;
    let mut n: usize = 0;
    let mut bytes_hashed: usize = 0;
    let mut chars = key.chars();
    loop
        invariant
            total == utf8_len(key@),
            n <= key@.len(),
            n <= limit,
            chars.remaining() == key@.skip(n as int),
            h == mix_all(seed, key@.take(n as int)),
            bytes_hashed == utf8_len(key@.take(n as int)),
        ensures
            n as int == hashed_count(key@, limit as int),
            h == mix_all(seed, key@.take(n as int)),
            bytes_hashed == utf8_len(key@.take(n as int)),
        decreases key@.len() - n,
    {
        if n >= limit {
            break;
        }
        match chars.next() {
            None => {
                break;
            },
            Some(c) => {
                proof {
                    assert(key@.take(n + 1) =~= key@.take(n as int).push(c));
                    assert(key@.take(n + 1).drop_last() =~= key@.take(n as int));
                    lemma_utf8_len_push(key@.take(n as int), c);
                    lemma_utf8_len_prefix(key@, n + 1);
                    assert(key@.skip(n + 1) =~= key@.skip(n as int).drop_first());
                }
                let k = rotate_left((c as u32).wrapping_mul(0xcc9e2d51u32), 15).wrapping_mul(
                    0x1b873593u32,
                );
                h = rotate_left(h ^ k, 13).wrapping_mul(5u32).wrapping_add(0xe6546b64u32);
                bytes_hashed = bytes_hashed + char_width_exec(c);
                n = n + 1;
            },
        }
    }
    h ^= bytes_hashed as u32;
    // Finalize with avalanche
    h ^= h >> 16u32;
    h = h.wrapping_mul(0x85ebca6bu32);
    h ^= h >> 13u32;
    h = h.wrapping_mul(0xc2b2ae35u32);
    h ^= h >> 16u32;
    (h, bytes_hashed)
}

} // verus!
