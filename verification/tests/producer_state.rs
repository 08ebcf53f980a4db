use kafka_producer::config::{create_kafka_configs, AuthType, KafkaConfig};
use kafka_producer::producer::{
    ca_cert_path, find_partition_count, security_plan, KafkaProducer, ProducerError,
    SecurityPlan, TopicMetadata,
};
use kafka_producer::text::replace_all_str;

fn config_with(auth_type: AuthType) -> KafkaConfig {
    KafkaConfig {
        name: "broker".to_string(),
        bootstrap_servers: "localhost:9093".to_string(),
        auth_type,
    }
}

#[test]
fn new_producer_is_not_initialized() {
    let producer = KafkaProducer::new(config_with(AuthType::Plain));
    assert!(producer.client().is_none());
    assert_eq!(producer.partition_count(), None);
    assert_eq!(producer.config().name, "broker");
}

#[test]
fn preparing_before_initialize_is_refused() {
    let mut producer = KafkaProducer::new(config_with(AuthType::Plain));
    let refused = producer.prepare_record(Some("key1"), "Hello from Rust!");
    assert!(matches!(refused, Err(ProducerError::NotInitialized)));
    let refused = producer.prepare_record(None, "Message with null key");
    match refused {
        Err(e) => assert_eq!(e.message(), "Producer not initialized. Call initialize() first."),
        Ok(_) => panic!("an uninitialized producer prepared a record"),
    }
    // A refusal does not use up a round-robin turn.
    assert_eq!(producer.calculate_partition(None, 3), 0);
}

#[test]
fn error_messages() {
    assert_eq!(
        ProducerError::PartitionCountUnavailable.message(),
        "Partition count not available. Call initialize() first."
    );
    assert_eq!(
        ProducerError::TopicNotFound { topic: "orders".to_string() }.message(),
        "Topic 'orders' not found in broker metadata"
    );
}

#[test]
fn partition_count_of_first_matching_topic() {
    let topics = vec![
        TopicMetadata { name: "other".to_string(), partitions: vec![0] },
        TopicMetadata { name: "test-topic-1".to_string(), partitions: vec![0, 1, 2] },
        TopicMetadata { name: "test-topic-1".to_string(), partitions: vec![0] },
    ];
    assert_eq!(find_partition_count(&topics, "test-topic-1").unwrap(), 3);
    assert_eq!(find_partition_count(&topics, "other").unwrap(), 1);
}

#[test]
fn missing_topic_is_reported_by_name() {
    let topics = vec![TopicMetadata { name: "other".to_string(), partitions: vec![0, 1] }];
    match find_partition_count(&topics, "test-topic-1") {
        Err(e) => {
            assert!(matches!(&e, ProducerError::TopicNotFound { topic } if topic == "test-topic-1"));
            assert_eq!(e.message(), "Topic 'test-topic-1' not found in broker metadata");
        }
        Ok(n) => panic!("found {} partitions of a missing topic", n),
    }
    assert!(find_partition_count(&Vec::new(), "x").is_err());
}

#[test]
fn topic_without_partitions_has_count_zero() {
    let topics = vec![TopicMetadata { name: "empty".to_string(), partitions: vec![] }];
    assert_eq!(find_partition_count(&topics, "empty").unwrap(), 0);
}

#[test]
fn ca_certificate_sits_beside_the_truststore() {
    assert_eq!(
        ca_cert_path("./config/ssl/kafka.client.truststore.jks"),
        "./config/ssl/ca-cert"
    );
    assert_eq!(ca_cert_path("/etc/ssl/truststore.p12"), "/etc/ssl/truststore.p12");
    assert_eq!(
        ca_cert_path("kafka.client.truststore.jks/kafka.client.truststore.jks"),
        "ca-cert/ca-cert"
    );
}

#[test]
fn replacement_scans_left_to_right_without_overlap() {
    assert_eq!(replace_all_str("aaaa", "aa", "b"), "bb");
    assert_eq!(replace_all_str("aaa", "aa", "b"), "ba");
    assert_eq!(replace_all_str("xyz", "q", "r"), "xyz");
    assert_eq!(replace_all_str("", "q", "r"), "");
    assert_eq!(replace_all_str("héllo wörld", "ö", "oe"), "héllo woerld");
    assert_eq!("aaa".replace("aa", "b"), replace_all_str("aaa", "aa", "b"));
}

#[test]
fn security_plans_follow_the_auth_type() {
    assert!(matches!(security_plan(&AuthType::Plain), SecurityPlan::Plaintext));

    let plain = security_plan(&AuthType::SaslPlain {
        username: "admin".to_string(),
        password: "admin-secret".to_string(),
    });
    match plain {
        SecurityPlan::Sasl { config } => {
            let shown = format!("{:?}", config);
            assert!(shown.starts_with("Plain("), "{}", shown);
            assert!(shown.contains("\"admin\"") && shown.contains("\"admin-secret\""), "{}", shown);
        }
        _ => panic!("SASL/PLAIN did not give a SASL plan"),
    }

    let scram = security_plan(&AuthType::SaslScram {
        username: "testuser".to_string(),
        password: "testuser-secret".to_string(),
    });
    match scram {
        SecurityPlan::Sasl { config } => {
            let shown = format!("{:?}", config);
            assert!(shown.starts_with("ScramSha512("), "{}", shown);
            assert!(shown.contains("\"testuser\"") && shown.contains("\"testuser-secret\""));
        }
        _ => panic!("SASL/SCRAM did not give a SASL plan"),
    }

    let configs = create_kafka_configs();
    match security_plan(&configs[3].auth_type) {
        SecurityPlan::Tls { ca_cert_path } => assert_eq!(ca_cert_path, "./config/ssl/ca-cert"),
        _ => panic!("SSL did not give a TLS plan"),
    }
    match security_plan(&configs[4].auth_type) {
        SecurityPlan::MutualTls { client_cert_path, client_key_path, ca_cert_path } => {
            assert_eq!(client_cert_path, "./config/ssl/client.crt");
            assert_eq!(client_key_path, "./config/ssl/client.key");
            assert_eq!(ca_cert_path, "./config/ssl/ca-cert");
        }
        _ => panic!("mTLS did not give a mutual TLS plan"),
    }
}

#[test]
fn client_plan_uses_the_bootstrap_server_and_backoff() {
    let producer = KafkaProducer::new(config_with(AuthType::Plain));
    let plan = producer.client_plan();
    assert_eq!(plan.bootstrap_servers, vec!["localhost:9093".to_string()]);
    assert_eq!(plan.backoff.init_backoff_ms, 100);
    assert_eq!(plan.backoff.max_backoff_ms, 1000);
    assert_eq!(plan.backoff.deadline_ms, 30000);
    assert!(matches!(plan.security, SecurityPlan::Plaintext));
}

#[test]
fn the_five_test_brokers() {
    let configs = create_kafka_configs();
    assert_eq!(configs.len(), 5);
    let names: Vec<&str> = configs.iter().map(|c| c.name.as_str()).collect();
    assert_eq!(
        names,
        vec![
            "kafka-unified-plaintext",
            "kafka-unified-sasl-plain",
            "kafka-unified-sasl-scram",
            "kafka-unified-tls",
            "kafka-unified-mtls"
        ]
    );
    let servers: Vec<&str> = configs.iter().map(|c| c.bootstrap_servers.as_str()).collect();
    assert_eq!(
        servers,
        vec!["localhost:9092", "localhost:9093", "localhost:9094", "localhost:9095", "localhost:9096"]
    );
    assert!(matches!(configs[0].auth_type, AuthType::Plain));
    assert!(matches!(&configs[1].auth_type,
        AuthType::SaslPlain { username, password } if username == "admin" && password == "admin-secret"));
    assert!(matches!(&configs[2].auth_type,
        AuthType::SaslScram { username, password } if username == "admin" && password == "admin-secret"));
    assert!(matches!(&configs[3].auth_type,
        AuthType::Ssl { keystore_path, keystore_password, truststore_path, truststore_password }
            if keystore_path == "./config/ssl/kafka.client.keystore.jks"
                && keystore_password == "keystorepassword"
                && truststore_path == "./config/ssl/kafka.client.truststore.jks"
                && truststore_password == "truststorepassword"));
    assert!(matches!(&configs[4].auth_type,
        AuthType::MTls { client_cert_path, client_key_path, truststore_path, truststore_password }
            if client_cert_path == "./config/ssl/client.crt"
                && client_key_path == "./config/ssl/client.key"
                && truststore_path == "./config/ssl/kafka.client.truststore.jks"
                && truststore_password == "truststorepassword"));
}
