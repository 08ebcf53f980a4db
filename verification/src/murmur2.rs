//! The 32-bit Murmur2 hash with the seed and constants of the Java Kafka client,
//! so that a key lands on the same partition whichever client produced it.
use vstd::prelude::*;

verus! {

/// Seed of the Kafka variant of Murmur2.
pub const MURMUR2_SEED: u32 = 0x9747b28c;

/// Multiplier of Murmur2.
pub const MURMUR2_M: u32 = 0x5bd1e995;

/// Shift applied to each block while it is mixed.
pub const MURMUR2_R: u32 = 24;

/// The little-endian word made of the four bytes of `data` at `start .. start + 4`.
pub open spec fn le_word(data: Seq<u8>, start: int) -> u32 {
    (data[start] as u32) | ((data[start + 1] as u32) << 8u32) | ((data[start + 2] as u32) << 16u32)
        | ((data[start + 3] as u32) << 24u32)
}

/// The hash state after folding the block `k` into the state `h`.
pub open spec fn mix_block(h: u32, k: u32) -> u32 {
    let k1 = k.wrapping_mul(MURMUR2_M);
    let k2 = k1 ^ (k1 >> MURMUR2_R);
    let k3 = k2.wrapping_mul(MURMUR2_M);
    h.wrapping_mul(MURMUR2_M) ^ k3
}

/// The state before any block: the seed mixed with the length (taken modulo 2^32).
pub open spec fn initial_state(data: Seq<u8>) -> u32 {
    MURMUR2_SEED ^ (data.len() as u32)
}

/// The state after the first `n` whole four-byte blocks of `data`.
pub open spec fn mix_blocks(data: Seq<u8>, n: nat) -> u32
    decreases n,
{
    if n == 0 {
        initial_state(data)
    } else {
        mix_block(mix_blocks(data, (n - 1) as nat), le_word(data, 4 * (n - 1)))
    }
}

/// The state after the one to three bytes that follow the last whole block
/// (which start at `start`); unchanged when there are none.
pub open spec fn mix_tail(h: u32, data: Seq<u8>, start: int) -> u32 {
    let rest = data.len() - start;
    if rest == 3 {
        let h1 = h ^ ((data[start + 2] as u32) << 16u32);
        let h2 = h1 ^ ((data[start + 1] as u32) << 8u32);
        let h3 = h2 ^ (data[start] as u32);
        h3.wrapping_mul(MURMUR2_M)
    } else if rest == 2 {
        let h1 = h ^ ((data[start + 1] as u32) << 8u32);
        let h2 = h1 ^ (data[start] as u32);
        h2.wrapping_mul(MURMUR2_M)
    } else if rest == 1 {
        let h1 = h ^ (data[start] as u32);
        h1.wrapping_mul(MURMUR2_M)
    } else {
        h
    }
}

/// The final avalanche of Murmur2.
pub open spec fn final_mix(h: u32) -> u32 {
    let h1 = h ^ (h >> 13u32);
    let h2 = h1.wrapping_mul(MURMUR2_M);
    h2 ^ (h2 >> 15u32)
}

/// Murmur2 of `data`: every whole block, then the tail, then the final mix.
pub open spec fn murmur2(data: Seq<u8>) -> u32 {
    let blocks = data.len() / 4;
    final_mix(mix_tail(mix_blocks(data, blocks), data, (4 * blocks) as int))
}

/// Murmur2 hash of `data`, as the Java Kafka client computes it.
pub fn murmur2_hash(data: &[u8]) -> (hash: u32)
    ensures
        hash == murmur2(data@),
{
    let len = data.len();
    let mut h: u32 = MURMUR2_SEED ^ (len as u32);
    let mut i: usize = 0;

    while len - i >= 4
        invariant
            len == data@.len(),
            i <= len,
            i % 4 == 0,
            h == mix_blocks(data@, (i / 4) as nat),
        decreases len - i,
    {
        let mut k: u32 = (data[i] as u32) | ((data[i + 1] as u32) << 8u32) | ((data[i + 2] as u32)
            << 16u32) | ((data[i + 3] as u32) << 24u32);
        assert(k == le_word(data@, i as int));

        k = k.wrapping_mul(MURMUR2_M);
        k = k ^ (k >> MURMUR2_R);
        k = k.wrapping_mul(MURMUR2_M);

        h = h.wrapping_mul(MURMUR2_M);
        h = h ^ k;

        assert((i + 4) / 4 == i / 4 + 1);
        i = i + 4;
    }

    assert(i / 4 == len / 4);
    assert(i == 4 * (len / 4));

    let rest = len - i;
    if rest == 3 {
        h = h ^ ((data[i + 2] as u32) << 16u32);
        h = h ^ ((data[i + 1] as u32) << 8u32);
        h = h ^ (data[i] as u32);
        h = h.wrapping_mul(MURMUR2_M);
    } else if rest == 2 {
        h = h ^ ((data[i + 1] as u32) << 8u32);
        h = h ^ (data[i] as u32);
        h = h.wrapping_mul(MURMUR2_M);
    } else if rest == 1 {
        h = h ^ (data[i] as u32);
        h = h.wrapping_mul(MURMUR2_M);
    }

    h = h ^ (h >> 13u32);
    h = h.wrapping_mul(MURMUR2_M);
    h = h ^ (h >> 15u32);
    h
}

/// The bytes of `data` at `start .. start + count` read as an unsigned little-endian
/// number: every byte counts as its value `0 ..= 255`.
pub open spec fn le_value(data: Seq<u8>, start: int, count: nat) -> nat
    decreases count,
{
    if count == 0 {
        0
    } else {
        data[start] as nat + 256 * le_value(data, start + 1, (count - 1) as nat)
    }
}

/// The state after the tail bytes at `start ..` are folded in, read as one unsigned
/// little-endian number: `(h ^ tail) * M` when there is a tail, `h` otherwise.
pub open spec fn absorb_tail(h: u32, data: Seq<u8>, start: int) -> u32 {
    let rest = data.len() - start;
    if 0 < rest < 4 {
        (h ^ (le_value(data, start, rest as nat) as u32)).wrapping_mul(MURMUR2_M)
    } else {
        h
    }
}

/// Every block of four bytes is read as an unsigned little-endian word: byte `j` of the
/// block contributes `byte * 256^j` and nothing else.
pub proof fn lemma_block_is_unsigned_le(data: Seq<u8>, start: int)
    requires
        0 <= start,
        start + 4 <= data.len(),
    ensures
        le_word(data, start) as nat == le_value(data, start, 4),
        le_word(data, start) as nat == data[start] + 256 * data[start + 1] + 65536 * data[start
            + 2] + 16777216 * data[start + 3],
{
    let a = data[start];
    let b = data[start + 1];
    let c = data[start + 2];
    let d = data[start + 3];
    assert(((a as u32) | ((b as u32) << 8u32) | ((c as u32) << 16u32) | ((d as u32) << 24u32))
        == a as u32 + 256 * (b as u32) + 65536 * (c as u32) + 16777216 * (d as u32))
        by (bit_vector);
    assert(le_value(data, start + 3, 1) == d as nat + 256 * le_value(data, start + 4, 0));
    assert(le_value(data, start + 2, 2) == c as nat + 256 * le_value(data, start + 3, 1));
    assert(le_value(data, start + 1, 3) == b as nat + 256 * le_value(data, start + 2, 2));
}

/// The one to three bytes after the last whole block are folded in as one unsigned
/// little-endian number (each byte `0 ..= 255`, never sign-extended), XORed into the state
/// and multiplied by `M`.
pub proof fn lemma_tail_is_unsigned_le(h: u32, data: Seq<u8>, start: int)
    requires
        0 <= start <= data.len(),
    ensures
        mix_tail(h, data, start) == absorb_tail(h, data, start),
        data.len() - start == 1 ==> absorb_tail(h, data, start) == (h ^ (data[start] as u32))
            .wrapping_mul(MURMUR2_M),
        data.len() - start == 2 ==> absorb_tail(h, data, start) == (h ^ ((data[start] + 256
            * data[start + 1]) as u32)).wrapping_mul(MURMUR2_M),
        data.len() - start == 3 ==> absorb_tail(h, data, start) == (h ^ ((data[start] + 256
            * data[start + 1] + 65536 * data[start + 2]) as u32)).wrapping_mul(MURMUR2_M),
{
    let rest = data.len() - start;
    if rest == 1 {
        let a = data[start];
        assert(le_value(data, start, 1) == a as nat + 256 * le_value(data, start + 1, 0));
    } else if rest == 2 {
        let a = data[start];
        let b = data[start + 1];
        assert(le_value(data, start + 1, 1) == b as nat + 256 * le_value(data, start + 2, 0));
        assert(le_value(data, start, 2) == a as nat + 256 * le_value(data, start + 1, 1));
        assert((h ^ ((b as u32) << 8u32)) ^ (a as u32) == h ^ ((a as u32 + 256 * (b as u32))
            as u32)) by (bit_vector);
    } else if rest == 3 {
        let a = data[start];
        let b = data[start + 1];
        let c = data[start + 2];
        assert(le_value(data, start + 2, 1) == c as nat + 256 * le_value(data, start + 3, 0));
        assert(le_value(data, start + 1, 2) == b as nat + 256 * le_value(data, start + 2, 1));
        assert(le_value(data, start, 3) == a as nat + 256 * le_value(data, start + 1, 2));
        assert(((h ^ ((c as u32) << 16u32)) ^ ((b as u32) << 8u32)) ^ (a as u32) == h ^ ((a
            as u32 + 256 * (b as u32) + 65536 * (c as u32)) as u32)) by (bit_vector);
    }
}

/// Murmur2 of `data`, with every byte read as unsigned (as the Java client reads
/// `data[i] & 0xff`): the whole blocks, each an unsigned little-endian word, then the
/// tail as one unsigned little-endian number, then the final mix.
pub proof fn lemma_murmur2_reads_bytes_unsigned(data: Seq<u8>)
    ensures
        murmur2(data) == final_mix(
            absorb_tail(mix_blocks(data, data.len() / 4), data, (4 * (data.len() / 4)) as int),
        ),
        forall|k: nat|
            k < data.len() / 4 ==> #[trigger] mix_blocks(data, k + 1) == mix_block(
                mix_blocks(data, k),
                le_value(data, (4 * k) as int, 4) as u32,
            ),
{
    let n = data.len() / 4;
    lemma_tail_is_unsigned_le(mix_blocks(data, n), data, (4 * n) as int);
    assert forall|k: nat| k < data.len() / 4 implies #[trigger] mix_blocks(data, k + 1)
        == mix_block(mix_blocks(data, k), le_value(data, (4 * k) as int, 4) as u32) by {
        lemma_block_is_unsigned_le(data, (4 * k) as int);
    }
}

} // verus!
