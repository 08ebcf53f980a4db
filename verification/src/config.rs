//! Broker configurations: where a broker listens and how a client authenticates to it.
use vstd::prelude::*;

verus! {

/// A broker to produce to: a display name, its bootstrap address and its authentication.
#[derive(Debug, Clone)]
pub struct KafkaConfig {
    pub name: String,
    pub bootstrap_servers: String,
    pub auth_type: AuthType,
}

/// How a client authenticates to a broker.
#[derive(Debug, Clone)]
pub enum AuthType {
    Plain,
    SaslPlain { username: String, password: String },
    SaslScram { username: String, password: String },
    Ssl {
        keystore_path: String,
        keystore_password: String,
        truststore_path: String,
        truststore_password: String,
    },
    MTls {
        client_cert_path: String,
        client_key_path: String,
        truststore_path: String,
        truststore_password: String,
    },
}

/// `c` has the given name and bootstrap address.
pub open spec fn config_has(c: KafkaConfig, name: Seq<char>, servers: Seq<char>) -> bool {
    c.name@ == name && c.bootstrap_servers@ == servers
}

/// The five listeners of the unified test broker, one per authentication method.
pub fn create_kafka_configs() -> (configs: Vec<KafkaConfig>)
    ensures
        configs@.len() == 5,
        config_has(configs@[0], "kafka-unified-plaintext"@, "localhost:9092"@),
        configs@[0].auth_type is Plain,
        config_has(configs@[1], "kafka-unified-sasl-plain"@, "localhost:9093"@),
        configs@[1].auth_type matches AuthType::SaslPlain { username, password } && username@
            == "admin"@ && password@ == "admin-secret"@,
        config_has(configs@[2], "kafka-unified-sasl-scram"@, "localhost:9094"@),
        configs@[2].auth_type matches AuthType::SaslScram { username, password } && username@
            == "admin"@ && password@ == "admin-secret"@,
        config_has(configs@[3], "kafka-unified-tls"@, "localhost:9095"@),
        configs@[3].auth_type matches AuthType::Ssl {
            keystore_path,
            keystore_password,
            truststore_path,
            truststore_password,
        } && keystore_path@ == "./config/ssl/kafka.client.keystore.jks"@ && keystore_password@
            == "keystorepassword"@ && truststore_path@ == "./config/ssl/kafka.client.truststore.jks"@
            && truststore_password@ == "truststorepassword"@,
        config_has(configs@[4], "kafka-unified-mtls"@, "localhost:9096"@),
        configs@[4].auth_type matches AuthType::MTls {
            client_cert_path,
            client_key_path,
            truststore_path,
            truststore_password,
        } && client_cert_path@ == "./config/ssl/client.crt"@ && client_key_path@
            == "./config/ssl/client.key"@ && truststore_path@
            == "./config/ssl/kafka.client.truststore.jks"@ && truststore_password@
            == "truststorepassword"@,
{
    let mut configs: Vec<KafkaConfig> = Vec::new();
    configs.push(
        KafkaConfig {
            name: String::from_str("kafka-unified-plaintext"),
            bootstrap_servers: String::from_str("localhost:9092"),
            auth_type: AuthType::Plain,
        },
    );
    configs.push(
        KafkaConfig {
            name: String::from_str("kafka-unified-sasl-plain"),
            bootstrap_servers: String::from_str("localhost:9093"),
            auth_type: AuthType::SaslPlain {
                username: String::from_str("admin"),
                password: String::from_str("admin-secret"),
            },
        },
    );
    configs.push(
        KafkaConfig {
            name: String::from_str("kafka-unified-sasl-scram"),
            bootstrap_servers: String::from_str("localhost:9094"),
            auth_type: AuthType::SaslScram {
                username: String::from_str("admin"),
                password: String::from_str("admin-secret"),
            },
        },
    );
    configs.push(
        KafkaConfig {
            name: String::from_str("kafka-unified-tls"),
            bootstrap_servers: String::from_str("localhost:9095"),
            auth_type: AuthType::Ssl {
                keystore_path: String::from_str("./config/ssl/kafka.client.keystore.jks"),
                keystore_password: String::from_str("keystorepassword"),
                truststore_path: String::from_str("./config/ssl/kafka.client.truststore.jks"),
                truststore_password: String::from_str("truststorepassword"),
            },
        },
    );
    configs.push(
        KafkaConfig {
            name: String::from_str("kafka-unified-mtls"),
            bootstrap_servers: String::from_str("localhost:9096"),
            auth_type: AuthType::MTls {
                client_cert_path: String::from_str("./config/ssl/client.crt"),
                client_key_path: String::from_str("./config/ssl/client.key"),
                truststore_path: String::from_str("./config/ssl/kafka.client.truststore.jks"),
                truststore_password: String::from_str("truststorepassword"),
            },
        },
    );
    configs
}

} // verus!
