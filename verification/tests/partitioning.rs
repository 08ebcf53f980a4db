use kafka_producer::config::{AuthType, KafkaConfig};
use kafka_producer::murmur2::murmur2_hash;
use kafka_producer::partition::{partition_for_counter, partition_for_key, positive_part};
use kafka_producer::producer::KafkaProducer;

fn plain_producer() -> KafkaProducer {
    KafkaProducer::new(KafkaConfig {
        name: "test".to_string(),
        bootstrap_servers: "localhost:9092".to_string(),
        auth_type: AuthType::Plain,
    })
}

#[test]
fn test_partition_calculation_consistency() {
    let mut producer = KafkaProducer::new(KafkaConfig {
        name: "test".to_string(),
        bootstrap_servers: "localhost:9092".to_string(),
        auth_type: AuthType::Plain,
    });

    let partition_count = 3;

    // Test that same keys always go to same partition
    let key1_partition1 = producer.calculate_partition(Some("test-key"), partition_count);
    let key1_partition2 = producer.calculate_partition(Some("test-key"), partition_count);
    assert_eq!(
        key1_partition1, key1_partition2,
        "Same key should always go to same partition"
    );

    // Test that different keys can go to different partitions
    let key2_partition = producer.calculate_partition(Some("different-key"), partition_count);
    assert!(
        key2_partition >= 0 && key2_partition < partition_count,
        "Partition should be within valid range"
    );

    // Test null key uses round-robin
    let null_partition1 = producer.calculate_partition(None, partition_count);
    let null_partition2 = producer.calculate_partition(None, partition_count);
    assert!(
        null_partition1 >= 0 && null_partition1 < partition_count,
        "Null key partition should be within valid range"
    );
    assert!(
        null_partition2 >= 0 && null_partition2 < partition_count,
        "Null key partition should be within valid range"
    );

    // Test empty key uses round-robin
    let empty_partition = producer.calculate_partition(Some(""), partition_count);
    assert!(
        empty_partition >= 0 && empty_partition < partition_count,
        "Empty key partition should be within valid range"
    );

    println!("Partition tests passed:");
    println!("  'test-key' -> partition {}", key1_partition1);
    println!("  'different-key' -> partition {}", key2_partition);
    println!("  null key -> partition {}", null_partition1);
    println!("  empty key -> partition {}", empty_partition);
}

#[test]
fn test_murmur2_hash_known_values() {
    let test_cases = vec![
        ("", 0x106aa070u32),
        ("a", 0x6a4abccc),
        ("abc", 0x0e3db2e7),
        ("message", 0x4b7ba4d1),
        ("test-key", 0x4e44bdfb),
    ];

    for (input, expected) in test_cases {
        let actual = murmur2_hash(input.as_bytes());
        println!(
            "murmur2('{}') = 0x{:08x} (expected: 0x{:08x})",
            input, actual, expected
        );
        assert!(actual > 0 || input.is_empty(), "Hash should be calculated");
    }
}

#[test]
fn murmur2_matches_java_kafka_client() {
    // Values of org.apache.kafka.common.utils.Utils.murmur2, which returns a Java int.
    let java_cases: Vec<(&str, i32)> = vec![
        ("21", -973932308),
        ("foobar", -790332482),
        ("a-little-bit-long-string", -985981536),
        ("a-little-bit-longer-string", -1486304829),
        ("lkjh234lh9fiuh90y23oiuhsafujhadof229phr9h19h89h8", -58897971),
        ("abc", 479470107),
    ];
    for (input, java) in java_cases {
        assert_eq!(murmur2_hash(input.as_bytes()) as i32, java, "murmur2({:?})", input);
    }
}

#[test]
fn murmur2_exact_values_for_every_tail_length() {
    assert_eq!(murmur2_hash(b""), 0x106e08d9);
    assert_eq!(murmur2_hash(b"a"), 0xa2d0b27c);
    assert_eq!(murmur2_hash(b"abc"), 0x1c94221b);
    assert_eq!(murmur2_hash(b"abcd"), 0xb11ab5f4);
    assert_eq!(murmur2_hash(b"abcde"), 0x1b897edd);
    assert_eq!(murmur2_hash(b"message"), 0x24d62d50);
    assert_eq!(murmur2_hash(b"test-key"), 0xb0119039);
    assert_eq!(murmur2_hash(b"different-key"), 0xe2fe2fec);
    assert_eq!(murmur2_hash(b"key1"), 0x01b38bc4);
    assert_eq!(murmur2_hash(b"test-key-long"), 0x49a2a8e5);
}

#[test]
fn positive_part_clears_the_sign_bit() {
    assert_eq!(positive_part(0xb0119039), 0x30119039);
    assert_eq!(positive_part(0xffff_ffff), 0x7fff_ffff);
    assert_eq!(positive_part(0x1234), 0x1234);
}

#[test]
fn keyed_partitions_are_exact() {
    let mut producer = plain_producer();
    assert_eq!(producer.calculate_partition(Some("test-key"), 3), 2);
    assert_eq!(producer.calculate_partition(Some("different-key"), 3), 2);
    assert_eq!(producer.calculate_partition(Some("key3"), 3), 1);
    assert_eq!(producer.calculate_partition(Some("abc"), 3), 0);
    assert_eq!(producer.calculate_partition(Some("test-key"), 7), 806457401 % 7);
    assert_eq!(partition_for_key(b"test-key", 3), 2);
}

#[test]
fn keyed_partition_with_negative_count_stays_non_negative() {
    assert_eq!(partition_for_key(b"test-key", -3), 2);
    assert_eq!(partition_for_key(b"key3", -3), 1);
}

#[test]
fn keyless_messages_rotate_over_partitions() {
    let mut producer = plain_producer();
    let seen: Vec<i32> = (0..7).map(|_| producer.calculate_partition(None, 3)).collect();
    assert_eq!(seen, vec![0, 1, 2, 0, 1, 2, 0]);
}

#[test]
fn empty_key_takes_the_round_robin_turn() {
    let mut producer = plain_producer();
    assert_eq!(producer.calculate_partition(None, 4), 0);
    assert_eq!(producer.calculate_partition(Some(""), 4), 1);
    assert_eq!(producer.calculate_partition(None, 4), 2);
}

#[test]
fn keyed_messages_do_not_advance_the_round_robin() {
    let mut producer = plain_producer();
    assert_eq!(producer.calculate_partition(None, 5), 0);
    producer.calculate_partition(Some("key1"), 5);
    producer.calculate_partition(Some("key2"), 5);
    assert_eq!(producer.calculate_partition(None, 5), 1);
}

#[test]
fn round_robin_counter_values_map_to_partitions() {
    assert_eq!(partition_for_counter(0, 3), 0);
    assert_eq!(partition_for_counter(10, 3), 1);
    assert_eq!(partition_for_counter(u32::MAX, 3), 0);
    // A negative count is taken as an unsigned divisor, as the counter arithmetic does.
    assert_eq!(partition_for_counter(5, -1), 5);
    assert_eq!(partition_for_counter(u32::MAX, -1), 0);
}

#[test]
fn a_run_of_keyless_messages_visits_each_partition_once() {
    let mut producer = plain_producer();
    producer.calculate_partition(None, 5);
    producer.calculate_partition(None, 5);
    let mut run: Vec<i32> = (0..5).map(|_| producer.calculate_partition(None, 5)).collect();
    assert_eq!(run, vec![2, 3, 4, 0, 1]);
    run.sort();
    assert_eq!(run, vec![0, 1, 2, 3, 4]);
}

#[test]
fn counter_counts_only_keyless_messages() {
    let mut producer = plain_producer();
    let keys = [None, Some("key1"), Some(""), Some("abc"), None, None, Some("key2")];
    for key in keys {
        producer.calculate_partition(key, 7);
    }
    // Four keyless choices so far, so the next one takes counter value 4.
    assert_eq!(producer.calculate_partition(None, 7), 4);
    assert_eq!(producer.calculate_partition(Some(""), 3), 5 % 3);
}
