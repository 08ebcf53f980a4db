//! The producer's state and the decisions it makes: when it may send, to which partition a
//! message goes, what record it sends, and how it connects to a broker.
use crate::broker::{make_sasl_plain, make_sasl_scram_sha512, sasl_plain_config, sasl_scram_sha512_config};
use crate::config::{AuthType, KafkaConfig};
use crate::partition::{
    keyed_partition, partition_for_counter, partition_for_key, round_robin_partition,
    uses_key_hash,
};
use crate::text::{replace_all, replace_all_str};
use rskafka::client::{Client, SaslConfig};
use vstd::prelude::*;
use vstd::string::StringSliceAdditionalSpecFns;

verus! {

/// What a producer is, as its contracts see it.
pub struct ProducerState {
    pub config: KafkaConfig,
    /// The client, once one is held.
    pub client: Option<Client>,
    pub partition_count: Option<i32>,
    pub round_robin_counter: u32,
}

/// A producer for one broker: its configuration, once initialized a client and the
/// partition count of its topic, and the counter that spreads keyless messages.
pub struct KafkaProducer {
    config: KafkaConfig,
    client: Option<Client>,
    partition_count: Option<i32>,
    round_robin_counter: u32,
}

impl View for KafkaProducer {
    type V = ProducerState;

    closed spec fn view(&self) -> ProducerState {
        ProducerState {
            config: self.config,
            client: self.client,
            partition_count: self.partition_count,
            round_robin_counter: self.round_robin_counter,
        }
    }
}

/// Why a message could not be prepared, or a topic's partition count not found.
#[derive(Debug)]
pub enum ProducerError {
    NotInitialized,
    PartitionCountUnavailable,
    TopicNotFound { topic: String },
}

impl ProducerError {
    /// The text that describes the error.
    pub open spec fn describe(&self) -> Seq<char> {
        match self {
            ProducerError::NotInitialized => "Producer not initialized. Call initialize() first."@,
            ProducerError::PartitionCountUnavailable =>
                "Partition count not available. Call initialize() first."@,
            ProducerError::TopicNotFound { topic } => "Topic '"@ + topic@
                + "' not found in broker metadata"@,
        }
    }

    /// The text that describes the error.
    pub fn message(&self) -> (text: String)
        ensures
            text@ == self.describe(),
    {
        match self {
            ProducerError::NotInitialized => String::from_str(
                "Producer not initialized. Call initialize() first.",
            ),
            ProducerError::PartitionCountUnavailable => String::from_str(
                "Partition count not available. Call initialize() first.",
            ),
            ProducerError::TopicNotFound { topic } => {
                let mut text = String::from_str("Topic '");
                text.append(topic.as_str());
                text.append("' not found in broker metadata");
                text
            },
        }
    }
}

/// What a broker reports of one topic: its name and the ids of its partitions.
pub struct TopicMetadata {
    pub name: String,
    pub partitions: Vec<i32>,
}

/// A record ready to be sent: the partition it goes to, the bytes of its key, if any, and
/// the bytes of its value.
pub struct OutgoingRecord {
    pub partition: i32,
    pub key: Option<Vec<u8>>,
    pub value: Vec<u8>,
}

/// Retry timing of a client, in milliseconds (the growth factor of the delay is 2).
#[derive(PartialEq, Eq, Structural, Debug, Clone, Copy)]
pub struct BackoffPlan {
    pub init_backoff_ms: u64,
    pub max_backoff_ms: u64,
    pub deadline_ms: u64,
}

/// How a client secures its connection to a broker.
pub enum SecurityPlan {
    Plaintext,
    Sasl { config: SaslConfig },
    Tls { ca_cert_path: String },
    MutualTls { client_cert_path: String, client_key_path: String, ca_cert_path: String },
}

/// Everything a client needs to connect: the bootstrap servers, retry timing and security.
pub struct ClientPlan {
    pub bootstrap_servers: Vec<String>,
    pub backoff: BackoffPlan,
    pub security: SecurityPlan,
}

/// The file name of the JKS truststore, which the PEM CA certificate sits beside.
pub open spec fn truststore_file_name() -> Seq<char> {
    "kafka.client.truststore.jks"@
}

/// The file name of the PEM CA certificate.
pub open spec fn ca_cert_file_name() -> Seq<char> {
    "ca-cert"@
}

/// The path of the PEM CA certificate that goes with a truststore path.
pub open spec fn ca_cert_path_for(truststore_path: Seq<char>) -> Seq<char> {
    replace_all(truststore_path, truststore_file_name(), ca_cert_file_name())
}

/// The retry timing every client uses: from 100 ms up to 1 s between tries, 30 s in all.
pub open spec fn default_backoff() -> BackoffPlan {
    BackoffPlan { init_backoff_ms: 100, max_backoff_ms: 1000, deadline_ms: 30000 }
}

/// `plan` is how a client authenticates as `auth` says.
pub open spec fn security_plan_for(auth: AuthType, plan: SecurityPlan) -> bool {
    match auth {
        AuthType::Plain => plan is Plaintext,
        AuthType::SaslPlain { username, password } => plan matches SecurityPlan::Sasl { config }
            && config == sasl_plain_config(username@, password@),
        AuthType::SaslScram { username, password } => plan matches SecurityPlan::Sasl { config }
            && config == sasl_scram_sha512_config(username@, password@),
        AuthType::Ssl { truststore_path, .. } => plan matches SecurityPlan::Tls { ca_cert_path }
            && ca_cert_path@ == ca_cert_path_for(truststore_path@),
        AuthType::MTls { client_cert_path, client_key_path, truststore_path, .. } => {
            &&& plan matches SecurityPlan::MutualTls { client_cert_path: cert, client_key_path: key, ca_cert_path }
            &&& cert@ == client_cert_path@
            &&& key@ == client_key_path@
            &&& ca_cert_path@ == ca_cert_path_for(truststore_path@)
        },
    }
}

/// The state of a producer just made for `config`.
pub open spec fn fresh_state(config: KafkaConfig) -> ProducerState {
    ProducerState { config, client: None, partition_count: None, round_robin_counter: 0 }
}

/// The state of a producer once it holds a client and the partition count of its topic.
pub open spec fn initialized_state(s: ProducerState, client: Client, partition_count: i32) -> ProducerState {
    ProducerState { client: Some(client), partition_count: Some(partition_count), ..s }
}

/// Why a producer in state `s` refuses to prepare a record, if it does.
pub open spec fn refusal(s: ProducerState) -> Option<ProducerError> {
    if s.client is None {
        Some(ProducerError::NotInitialized)
    } else if s.partition_count is None {
        Some(ProducerError::PartitionCountUnavailable)
    } else {
        None
    }
}

/// The partition that a producer in state `s` picks for a message with this key.
pub open spec fn chosen_partition(s: ProducerState, key: Option<&str>, partition_count: i32) -> i32 {
    match key {
        Some(k) if k@.len() > 0 => keyed_partition(k.spec_bytes(), partition_count),
        _ => round_robin_partition(s.round_robin_counter, partition_count),
    }
}

/// The state of the producer once it has picked a partition for a message with this key:
/// a keyless message advances the round-robin counter (wrapping at `u32::MAX`).
pub open spec fn after_choice(s: ProducerState, key: Option<&str>) -> ProducerState {
    if uses_key_hash(key) {
        s
    } else {
        ProducerState { round_robin_counter: s.round_robin_counter.wrapping_add(1), ..s }
    }
}

/// `record` carries this partition, the key's bytes (or none) and the value's bytes.
pub open spec fn record_holds(
    record: OutgoingRecord,
    partition: i32,
    key: Option<&str>,
    value: &str,
) -> bool {
    &&& record.partition == partition
    &&& match key {
        Some(k) => record.key matches Some(bytes) && bytes@ == k.spec_bytes(),
        None => record.key is None,
    }
    &&& record.value@ == value.spec_bytes()
}

/// `topics[i]` is the first topic named `topic`.
pub open spec fn is_first_topic_named(topics: Seq<TopicMetadata>, topic: Seq<char>, i: int) -> bool {
    &&& 0 <= i < topics.len()
    &&& topics[i].name@ == topic
    &&& forall|j: int| 0 <= j < i ==> topics[j].name@ != topic
}

/// The path of the PEM CA certificate beside a truststore: every occurrence of the
/// truststore's file name replaced by `ca-cert`.
pub fn ca_cert_path(truststore_path: &str) -> (path: String)
    ensures
        path@ == ca_cert_path_for(truststore_path@),
{
    proof {
        reveal_strlit("kafka.client.truststore.jks");
    }
    replace_all_str(truststore_path, "kafka.client.truststore.jks", "ca-cert")
}

/// How a client authenticates as `auth` says: which SASL mechanism with which
/// credentials, or which certificate files to load.
pub fn security_plan(auth: &AuthType) -> (plan: SecurityPlan)
    ensures
        security_plan_for(*auth, plan),
        auth matches AuthType::SaslPlain { username, password } ==> plan matches SecurityPlan::Sasl {
            config,
        } && config == sasl_plain_config(username@, password@),
        auth matches AuthType::SaslScram { username, password } ==> plan matches SecurityPlan::Sasl {
            config,
        } && config == sasl_scram_sha512_config(username@, password@),
{
    match auth {
        AuthType::Plain => SecurityPlan::Plaintext,
        AuthType::SaslPlain { username, password } => SecurityPlan::Sasl {
            config: make_sasl_plain(username.clone(), password.clone()),
        },
        AuthType::SaslScram { username, password } => SecurityPlan::Sasl {
            config: make_sasl_scram_sha512(username.clone(), password.clone()),
        },
        AuthType::Ssl { truststore_path, .. } => SecurityPlan::Tls {
            ca_cert_path: ca_cert_path(truststore_path.as_str()),
        },
        AuthType::MTls { client_cert_path, client_key_path, truststore_path, .. } => {
            SecurityPlan::MutualTls {
                client_cert_path: client_cert_path.clone(),
                client_key_path: client_key_path.clone(),
                ca_cert_path: ca_cert_path(truststore_path.as_str()),
            }
        },
    }
}

/// The partition count of the first topic named `topic`, or `TopicNotFound` when no
/// topic has that name.
pub fn find_partition_count(topics: &Vec<TopicMetadata>, topic: &str) -> (count: Result<
    i32,
    ProducerError,
>)
    ensures
        match count {
            Ok(n) => exists|i: int|
                is_first_topic_named(topics@, topic@, i) && n == topics@[i].partitions@.len() as i32,
            Err(e) => {
                &&& forall|i: int| 0 <= i < topics@.len() ==> topics@[i].name@ != topic@
                &&& e matches ProducerError::TopicNotFound { topic: t }
                &&& t@ == topic@
            },
        },
{
    let wanted = String::from_str(topic);
    let mut i: usize = 0;
    while i < topics.len()
        invariant
            i <= topics@.len(),
            wanted@ == topic@,
            forall|j: int| 0 <= j < i ==> topics@[j].name@ != topic@,
        decreases topics@.len() - i,
    {
        if topics[i].name == wanted {
            assert(is_first_topic_named(topics@, topic@, i as int));
            return Ok(topics[i].partitions.len() as i32);
        }
        i = i + 1;
    }
    Err(ProducerError::TopicNotFound { topic: wanted })
}

impl KafkaProducer {
    /// A producer for `config` that is not yet initialized.
    pub fn new(config: KafkaConfig) -> (producer: Self)
        ensures
            producer@ == fresh_state(config),
    {
        KafkaProducer { config, client: None, partition_count: None, round_robin_counter: 0 }
    }

    /// Keeps the connected client and the partition count of the topic.
    pub fn initialize(&mut self, client: Client, partition_count: i32)
        ensures
            final(self)@ == initialized_state(old(self)@, client, partition_count),
    {
        self.client = Some(client);
        self.partition_count = Some(partition_count);
    }

    /// The configuration of the broker.
    pub fn config(&self) -> (config: &KafkaConfig)
        ensures
            *config == self@.config,
    {
        &self.config
    }

    /// The client, once initialized.
    pub fn client(&self) -> (client: Option<&Client>)
        ensures
            match client {
                Some(c) => self@.client == Some(*c),
                None => self@.client is None,
            },
    {
        match &self.client {
            Some(c) => Some(c),
            None => None,
        }
    }

    /// The partition count of the topic, once initialized.
    pub fn partition_count(&self) -> (count: Option<i32>)
        ensures
            count == self@.partition_count,
    {
        self.partition_count
    }

    /// The bootstrap server, retry timing and security with which to connect to the broker.
    pub fn client_plan(&self) -> (plan: ClientPlan)
        ensures
            plan.bootstrap_servers@.len() == 1,
            plan.bootstrap_servers@[0]@ == self@.config.bootstrap_servers@,
            plan.backoff == default_backoff(),
            security_plan_for(self@.config.auth_type, plan.security),
    {
        let mut bootstrap_servers: Vec<String> = Vec::new();
        bootstrap_servers.push(self.config.bootstrap_servers.clone());
        ClientPlan {
            bootstrap_servers,
            backoff: BackoffPlan { init_backoff_ms: 100, max_backoff_ms: 1000, deadline_ms: 30000 },
            security: security_plan(&self.config.auth_type),
        }
    }

    /// The partition for a message with this key: by the Murmur2 hash of a non-empty key,
    /// round-robin (advancing the counter) for a missing or empty one.
    pub fn calculate_partition(&mut self, key: Option<&str>, partition_count: i32) -> (partition:
        i32)
        requires
            partition_count != 0,
        ensures
            partition == chosen_partition(old(self)@, key, partition_count),
            final(self)@ == after_choice(old(self)@, key),
    {
        match key {
            Some(k) if !k.is_empty() => partition_for_key(k.as_bytes(), partition_count),
            _ => {
                let current = self.round_robin_counter;
                self.round_robin_counter = current.wrapping_add(1);
                partition_for_counter(current, partition_count)
            },
        }
    }

    /// The record for a message with this key and value: refused while the producer holds
    /// no client, or no partition count; otherwise placed on the partition that
    /// `calculate_partition` picks.
    pub fn prepare_record(&mut self, key: Option<&str>, value: &str) -> (record: Result<
        OutgoingRecord,
        ProducerError,
    >)
        requires
            old(self)@.client is Some ==> old(self)@.partition_count != Some(0i32),
        ensures
            final(self)@.config == old(self)@.config,
            final(self)@.client == old(self)@.client,
            final(self)@.partition_count == old(self)@.partition_count,
            record matches Ok(r) ==> (r.key is None <==> key is None),
            record matches Ok(r) ==> r.value@ == value.spec_bytes(),
            match refusal(old(self)@) {
                Some(e) => record == Err::<OutgoingRecord, ProducerError>(e) && final(self)@ == old(
                    self,
                )@,
                None => {
                    let n = old(self)@.partition_count->0;
                    &&& record matches Ok(r)
                    &&& record_holds(r, chosen_partition(old(self)@, key, n), key, value)
                    &&& final(self)@ == after_choice(old(self)@, key)
                },
            },
    {
        if self.client.is_none() {
            return Err(ProducerError::NotInitialized);
        }
        let partition_count = match self.partition_count {
            Some(n) => n,
            None => {
                return Err(ProducerError::PartitionCountUnavailable);
            },
        };
        let partition = self.calculate_partition(key, partition_count);
        let key_bytes = match key {
            Some(k) => Some(k.as_bytes_vec()),
            None => None,
        };
        Ok(OutgoingRecord { partition, key: key_bytes, value: value.as_bytes_vec() })
    }
}

} // verus!
