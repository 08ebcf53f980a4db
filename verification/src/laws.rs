//! What holds of partition choice and message preparation across calls and states.
use crate::broker::{sasl_plain_config, sasl_scram_sha512_config};
use crate::config::{AuthType, KafkaConfig};
use crate::partition::{
    keyed_partition, lemma_keyed_partition_in_range, lemma_round_robin_advances,
    lemma_round_robin_in_range, uses_key_hash,
};
use crate::producer::{
    after_choice, chosen_partition, fresh_state, initialized_state, record_holds, refusal,
    security_plan_for, OutgoingRecord, ProducerError, ProducerState, SecurityPlan,
};
use rskafka::client::Client;
use vstd::arithmetic::div_mod::{
    lemma_add_mod_noop, lemma_add_mod_noop_right, lemma_fundamental_div_mod_converse,
    lemma_small_mod,
};
use vstd::prelude::*;
use vstd::string::StringSliceAdditionalSpecFns;

verus! {

/// A non-empty key always goes to the same partition, whatever the producer has sent
/// before, and choosing it leaves the producer as it was.
pub proof fn lemma_same_key_same_partition(
    s1: ProducerState,
    s2: ProducerState,
    key: &str,
    partition_count: i32,
)
    requires
        key@.len() > 0,
    ensures
        chosen_partition(s1, Some(key), partition_count) == chosen_partition(
            s2,
            Some(key),
            partition_count,
        ),
        chosen_partition(s1, Some(key), partition_count) == keyed_partition(
            key.spec_bytes(),
            partition_count,
        ),
        after_choice(s1, Some(key)) == s1,
{
}

/// An empty key is placed exactly as a missing one: round-robin.
pub proof fn lemma_empty_key_is_keyless(s: ProducerState, key: &str, partition_count: i32)
    requires
        key@.len() == 0,
    ensures
        chosen_partition(s, Some(key), partition_count) == chosen_partition(
            s,
            None,
            partition_count,
        ),
        after_choice(s, Some(key)) == after_choice(s, None),
{
}

/// For a positive partition count, every chosen partition lies in `0 .. partition_count`.
pub proof fn lemma_chosen_partition_in_range(
    s: ProducerState,
    key: Option<&str>,
    partition_count: i32,
)
    requires
        partition_count > 0,
    ensures
        0 <= chosen_partition(s, key, partition_count) < partition_count,
{
    match key {
        Some(k) => {
            if k@.len() > 0 {
                lemma_keyed_partition_in_range(k.spec_bytes(), partition_count);
            } else {
                lemma_round_robin_in_range(s.round_robin_counter, partition_count);
            }
        },
        None => lemma_round_robin_in_range(s.round_robin_counter, partition_count),
    }
}

/// Two keyless messages in a row go to consecutive partitions, wrapping around at the
/// partition count (while the round-robin counter does not wrap).
pub proof fn lemma_keyless_messages_rotate(s: ProducerState, partition_count: i32)
    requires
        partition_count > 0,
        s.round_robin_counter < u32::MAX,
    ensures
        chosen_partition(after_choice(s, None), None, partition_count) == (chosen_partition(
            s,
            None,
            partition_count,
        ) + 1) % (partition_count as int),
        after_choice(s, None).round_robin_counter == s.round_robin_counter + 1,
{
    lemma_round_robin_advances(s.round_robin_counter, partition_count);
}

/// Choosing a partition never changes the configuration, the client or the partition count.
pub proof fn lemma_choice_keeps_connection(s: ProducerState, key: Option<&str>)
    ensures
        after_choice(s, key).config == s.config,
        after_choice(s, key).client == s.client,
        after_choice(s, key).partition_count == s.partition_count,
{
}

/// A new producer refuses to prepare records until it is initialized; once initialized it
/// prepares them, and keeps doing so after any number of partition choices.
pub proof fn lemma_ready_after_initialize(
    config: KafkaConfig,
    s: ProducerState,
    client: Client,
    partition_count: i32,
    key: Option<&str>,
)
    ensures
        refusal(fresh_state(config)) == Some(ProducerError::NotInitialized),
        refusal(initialized_state(s, client, partition_count)) is None,
        refusal(after_choice(initialized_state(s, client, partition_count), key)) is None,
        initialized_state(s, client, partition_count).round_robin_counter == s.round_robin_counter,
{
}

/// The partitions chosen for `m` keyless messages in a row, starting in state `s`.
pub open spec fn keyless_run(s: ProducerState, partition_count: i32, m: nat) -> Seq<i32>
    decreases m,
{
    if m == 0 {
        Seq::empty()
    } else {
        seq![chosen_partition(s, None, partition_count)] + keyless_run(
            after_choice(s, None),
            partition_count,
            (m - 1) as nat,
        )
    }
}

/// The state after a partition was chosen for each key of `keys`, in order.
pub open spec fn after_choices<'a>(s: ProducerState, keys: Seq<Option<&'a str>>) -> ProducerState
    decreases keys.len(),
{
    if keys.len() == 0 {
        s
    } else {
        after_choices(after_choice(s, keys[0]), keys.subrange(1, keys.len() as int))
    }
}

/// How many of `keys` are missing or empty, and so placed round-robin.
pub open spec fn keyless_count<'a>(keys: Seq<Option<&'a str>>) -> nat
    decreases keys.len(),
{
    if keys.len() == 0 {
        0
    } else {
        (if uses_key_hash(keys[0]) {
            0nat
        } else {
            1nat
        }) + keyless_count(keys.subrange(1, keys.len() as int))
    }
}

proof fn lemma_keyless_run_len(s: ProducerState, partition_count: i32, m: nat)
    ensures
        keyless_run(s, partition_count, m).len() == m,
    decreases m,
{
    if m > 0 {
        lemma_keyless_run_len(after_choice(s, None), partition_count, (m - 1) as nat);
    }
}

/// The `i`-th of `m` keyless choices from `s` takes the counter value `counter + i`.
proof fn lemma_keyless_run_at(s: ProducerState, partition_count: i32, m: nat, i: int)
    requires
        partition_count > 0,
        0 <= i < m,
        s.round_robin_counter + m <= 0x1_0000_0000,
    ensures
        keyless_run(s, partition_count, m)[i] == (s.round_robin_counter + i) % (
        partition_count as int),
    decreases m,
{
    lemma_keyless_run_len(after_choice(s, None), partition_count, (m - 1) as nat);
    if i > 0 {
        lemma_keyless_run_at(after_choice(s, None), partition_count, (m - 1) as nat, i - 1);
    }
}

/// Some choice of `run` is the partition `p`.
pub open spec fn run_reaches(run: Seq<i32>, p: int) -> bool {
    exists|i: int| 0 <= i < run.len() && run[i] == p
}

/// `(r + i) % n` for `r` and `i` both below `n`.
proof fn lemma_mod_of_small_sum(r: int, i: int, n: int)
    requires
        0 <= r < n,
        0 <= i < n,
    ensures
        (r + i) % n == if r + i < n {
            r + i
        } else {
            r + i - n
        },
{
    if r + i < n {
        lemma_fundamental_div_mod_converse(r + i, n, 0, r + i);
    } else {
        lemma_fundamental_div_mod_converse(r + i, n, 1, r + i - n);
    }
}

/// `partition_count` keyless messages in a row, from any state (while the round-robin
/// counter does not wrap), go to every partition exactly once.
pub proof fn lemma_keyless_messages_cover_partitions(s: ProducerState, partition_count: i32)
    requires
        partition_count > 0,
        s.round_robin_counter + partition_count <= 0x1_0000_0000,
    ensures
        ({
            let run = keyless_run(s, partition_count, partition_count as nat);
            &&& run.len() == partition_count
            &&& forall|i: int| 0 <= i < partition_count ==> 0 <= #[trigger] run[i] < partition_count
            &&& forall|i: int, j: int|
                0 <= i < j < partition_count ==> #[trigger] run[i] != #[trigger] run[j]
            &&& forall|p: int| 0 <= p < partition_count ==> #[trigger] run_reaches(run, p)
        }),
{
    let n = partition_count as int;
    let c = s.round_robin_counter as int;
    let run = keyless_run(s, partition_count, n as nat);
    lemma_keyless_run_len(s, partition_count, n as nat);
    let r = c % n;
    assert forall|i: int| 0 <= i < n implies #[trigger] run[i] == if r + i < n {
        r + i
    } else {
        r + i - n
    } by {
        lemma_keyless_run_at(s, partition_count, n as nat, i);
        lemma_add_mod_noop_right(c, i, n);
        lemma_add_mod_noop(c, i, n);
        lemma_small_mod(i as nat, n as nat);
        lemma_mod_of_small_sum(r, i, n);
    }
    assert forall|p: int| 0 <= p < n implies #[trigger] run_reaches(run, p) by {
        let i = if p >= r {
            p - r
        } else {
            p - r + n
        };
        assert(run[i] == p);
    }
}

/// Choosing partitions for any keys, in any order, changes nothing but the round-robin
/// counter, which advances by the number of keyless messages, modulo 2^32.
pub proof fn lemma_choices_advance_counter<'a>(s: ProducerState, keys: Seq<Option<&'a str>>)
    ensures
        after_choices(s, keys).round_robin_counter == (s.round_robin_counter + keyless_count(keys))
            % 0x1_0000_0000,
        after_choices(s, keys).config == s.config,
        after_choices(s, keys).client == s.client,
        after_choices(s, keys).partition_count == s.partition_count,
    decreases keys.len(),
{
    let m = 0x1_0000_0000int;
    let c = s.round_robin_counter as int;
    if keys.len() == 0 {
        lemma_small_mod(c as nat, m as nat);
    } else {
        let rest = keys.subrange(1, keys.len() as int);
        let s1 = after_choice(s, keys[0]);
        lemma_choices_advance_counter(s1, rest);
        let b: int = if uses_key_hash(keys[0]) {
            0
        } else {
            1
        };
        assert(s1.round_robin_counter == (c + b) % m) by {
            if c + b < m {
                lemma_small_mod((c + b) as nat, m as nat);
            } else {
                lemma_fundamental_div_mod_converse(c + b, m, 1, c + b - m);
            }
        }
        lemma_add_mod_noop_right(keyless_count(rest) as int, c + b, m);
    }
}

/// After `j` keyless messages since a producer was made (with any keyed ones between), the
/// next keyless or empty-keyed message goes to partition `(j mod 2^32) % partition_count`,
/// and the counter then stands at `j + 1` modulo 2^32.
pub proof fn lemma_next_keyless_partition<'a>(
    config: KafkaConfig,
    keys: Seq<Option<&'a str>>,
    partition_count: i32,
)
    requires
        partition_count > 0,
    ensures
        ({
            let s = after_choices(fresh_state(config), keys);
            let j = (keyless_count(keys) % 0x1_0000_0000) as int;
            &&& s.round_robin_counter == j
            &&& chosen_partition(s, None, partition_count) == j % (partition_count as int)
            &&& after_choice(s, None).round_robin_counter == (keyless_count(keys) + 1)
                % 0x1_0000_0000
        }),
{
    let m = 0x1_0000_0000int;
    let j = keyless_count(keys) as int;
    lemma_choices_advance_counter(fresh_state(config), keys);
    let s = after_choices(fresh_state(config), keys);
    assert(after_choice(s, None).round_robin_counter == (j % m + 1) % m) by {
        if j % m + 1 < m {
            lemma_small_mod((j % m + 1) as nat, m as nat);
        } else {
            lemma_fundamental_div_mod_converse(j % m + 1, m, 1, 0);
        }
    }
    lemma_add_mod_noop_right(1, j, m);
}

/// A prepared record carries a key exactly when the message has one, and then the key's
/// UTF-8 bytes; a missing key is never sent as an empty one. The value is sent as its
/// UTF-8 bytes.
pub proof fn lemma_record_key_follows_message_key(
    record: OutgoingRecord,
    partition: i32,
    key: Option<&str>,
    value: &str,
)
    requires
        record_holds(record, partition, key, value),
    ensures
        record.key is None <==> key is None,
        key matches Some(k) ==> record.key matches Some(bytes) && bytes@ == k.spec_bytes(),
        record.value@ == value.spec_bytes(),
        record.partition == partition,
{
}

/// SASL plans carry the configured username as the username and the configured password
/// as the password, for both mechanisms.
pub proof fn lemma_sasl_plan_keeps_credentials(auth: AuthType, plan: SecurityPlan)
    requires
        security_plan_for(auth, plan),
    ensures
        auth matches AuthType::SaslPlain { username, password } ==> plan == (SecurityPlan::Sasl {
            config: sasl_plain_config(username@, password@),
        }),
        auth matches AuthType::SaslScram { username, password } ==> plan == (SecurityPlan::Sasl {
            config: sasl_scram_sha512_config(username@, password@),
        }),
{
}

} // verus!
