# kafka_producer

A Kafka producer whose decisions are verified with Verus: which partition a message
goes to (Murmur2 of the key, as the Java client computes it, or round-robin for keyless
messages), when a producer may send, what record it sends, and how it connects to a
broker (SASL credentials, CA certificate and client identity read from PEM text).

- `src/murmur2.rs`: the hash, proved equal to its block-by-block definition.
- `src/partition.rs`: partition arithmetic and its range and rotation laws.
- `src/producer.rs`: producer state, record preparation, connection plans, topic lookup.
- `src/laws.rs`: properties that relate calls and producer states.
- `src/text.rs`: substring replacement (the CA certificate path beside a truststore).
- `src/tls.rs`, `src/broker.rs`: the rustls, rustls-pemfile and rskafka calls the library makes.
- `src/config.rs`: broker configurations.
- `app/main.rs`: the program that connects to the five test brokers and sends messages.
