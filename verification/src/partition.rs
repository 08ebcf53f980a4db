//! How a partition is chosen for a message: keyed messages by the Murmur2 hash of the key,
//! as the Java Kafka client does; messages without a key (or with an empty one) round-robin.
use crate::murmur2::murmur2;
use vstd::arithmetic::div_mod::{lemma_fundamental_div_mod, lemma_fundamental_div_mod_converse};
use vstd::math::abs;
use vstd::prelude::*;

verus! {

/// The partition of a non-empty key: `(murmur2(key) & 0x7fffffff) % partition_count`.
/// The hash is made non-negative first, so for a positive count the partition lies in
/// `0 .. partition_count`.
pub open spec fn keyed_partition(key: Seq<u8>, partition_count: i32) -> i32 {
    ((murmur2(key) & 0x7fff_ffffu32) as i32) % partition_count
}

/// The round-robin partition for the counter value `counter`: the counter modulo the
/// partition count, both taken as `u32`, the result taken back as `i32`.
pub open spec fn round_robin_partition(counter: u32, partition_count: i32) -> i32 {
    (counter % (partition_count as u32)) as i32
}

/// A message with this key is placed by the hash of the key; a missing or empty key is
/// placed round-robin.
pub open spec fn uses_key_hash(key: Option<&str>) -> bool {
    match key {
        Some(k) => k@.len() > 0,
        None => false,
    }
}

/// The non-negative part of a hash that selects the partition.
pub fn positive_part(hash: u32) -> (p: i32)
    ensures
        p == (hash & 0x7fff_ffffu32) as i32,
        0 <= p,
{
    let masked = hash & 0x7fff_ffffu32;
    assert(masked <= 0x7fff_ffffu32) by (bit_vector)
        requires
            masked == hash & 0x7fff_ffffu32,
    ;
    masked as i32
}

/// The partition that a non-empty key is sent to.
pub fn partition_for_key(key: &[u8], partition_count: i32) -> (partition: i32)
    requires
        partition_count != 0,
    ensures
        partition == keyed_partition(key@, partition_count),
        partition as int == (murmur2(key@) as int % 0x8000_0000) % (abs(partition_count as int) as int),
{
    proof {
        lemma_keyed_partition_hashes_whole_key(key@, partition_count);
    }
    let hash = crate::murmur2::murmur2_hash(key);
    let p = positive_part(hash);
    p % partition_count
}

/// The partition that the round-robin counter value `counter` selects.
pub fn partition_for_counter(counter: u32, partition_count: i32) -> (partition: i32)
    requires
        partition_count != 0,
    ensures
        partition == round_robin_partition(counter, partition_count),
{
    let divisor = partition_count as u32;
    assert(divisor != 0) by (bit_vector)
        requires
            divisor == partition_count as u32,
            partition_count != 0,
    ;
    (counter % divisor) as i32
}

/// For any non-zero partition count, a keyed partition lies in `0 .. |partition_count|`;
/// for a positive count, in `0 .. partition_count`.
pub proof fn lemma_keyed_partition_in_range(key: Seq<u8>, partition_count: i32)
    requires
        partition_count != 0,
    ensures
        0 <= keyed_partition(key, partition_count),
        partition_count > 0 ==> keyed_partition(key, partition_count) < partition_count,
        partition_count < 0 ==> keyed_partition(key, partition_count) < -partition_count,
{
    let h = murmur2(key);
    let masked = h & 0x7fff_ffffu32;
    assert(masked <= 0x7fff_ffffu32) by (bit_vector)
        requires
            masked == h & 0x7fff_ffffu32,
    ;
}

/// For a positive partition count, a round-robin partition lies in `0 .. partition_count`.
pub proof fn lemma_round_robin_in_range(counter: u32, partition_count: i32)
    requires
        partition_count > 0,
    ensures
        0 <= round_robin_partition(counter, partition_count) < partition_count,
{
}

/// Successive counter values select successive partitions, wrapping around at the
/// partition count (for a positive count, while the counter itself does not wrap).
pub proof fn lemma_round_robin_advances(counter: u32, partition_count: i32)
    requires
        partition_count > 0,
        counter < u32::MAX,
    ensures
        round_robin_partition((counter + 1) as u32, partition_count) == (round_robin_partition(
            counter,
            partition_count,
        ) + 1) % (partition_count as int),
{
    let n = partition_count as int;
    let c = counter as int;
    assert((c + 1) % n == (c % n + 1) % n) by {
        vstd::arithmetic::div_mod::lemma_add_mod_noop(c, 1, n);
        if n > 1 {
            vstd::arithmetic::div_mod::lemma_small_mod(1nat, n as nat);
        }
    }
}

/// The partition of a non-empty key is the Murmur2 hash of all of its bytes with the top
/// bit cleared (the hash modulo 2^31), taken modulo the size of the partition count.
pub proof fn lemma_keyed_partition_hashes_whole_key(key: Seq<u8>, partition_count: i32)
    requires
        partition_count != 0,
    ensures
        keyed_partition(key, partition_count) as int == (murmur2(key) as int % 0x8000_0000) % (abs(
            partition_count as int,
        ) as int),
{
    let h = murmur2(key);
    let masked = h & 0x7fff_ffffu32;
    assert(masked == h % 0x8000_0000) by (bit_vector)
        requires
            masked == h & 0x7fff_ffffu32,
    ;
    let m = masked as int;
    let n = partition_count as int;
    let r = keyed_partition(key, partition_count) as int;
    assert(r == m % n);
    lemma_fundamental_div_mod(m, n);
    if n > 0 {
        lemma_fundamental_div_mod_converse(m, n, m / n, r);
    } else {
        lemma_keyed_partition_in_range(key, partition_count);
        assert(m == (-(m / n)) * (-n) + r) by (nonlinear_arith)
            requires
                m == n * (m / n) + r,
        ;
        lemma_fundamental_div_mod_converse(m, -n, -(m / n), r);
    }
}

} // verus!
