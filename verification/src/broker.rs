//! The rskafka types that the producer carries, and the SASL settings built from credentials.
use rskafka::client::{Client, Credentials, SaslConfig};
use vstd::prelude::*;

verus! {

/// A connected rskafka client; the producer holds it and never looks inside.
#[verifier::external_type_specification]
#[verifier::external_body]
pub struct ExClient(Client);

/// rskafka's SASL mechanism together with its credentials.
#[verifier::external_type_specification]
#[verifier::external_body]
pub struct ExSaslConfig(SaslConfig);

/// The SASL/PLAIN setting that `SaslConfig::Plain(Credentials::new(username, password))` makes.
pub uninterp spec fn sasl_plain_config(username: Seq<char>, password: Seq<char>) -> SaslConfig;

/// The SASL/SCRAM-SHA-512 setting that
/// `SaslConfig::ScramSha512(Credentials { username, password })` makes.
pub uninterp spec fn sasl_scram_sha512_config(username: Seq<char>, password: Seq<char>) -> SaslConfig;

/// Calls `rskafka::client::Credentials::new` and wraps the credentials in
/// `SaslConfig::Plain`. Both only store the two strings, so the result is a function of
/// their contents alone, named `sasl_plain_config`.
#[verifier::external_body]
pub(crate) fn make_sasl_plain(username: String, password: String) -> (config: SaslConfig)
    ensures
        config == sasl_plain_config(username@, password@),
{
    SaslConfig::Plain(Credentials::new(username, password))
}

/// Builds `rskafka::client::Credentials` from the two strings and wraps them in
/// `SaslConfig::ScramSha512`; the result is a function of the strings' contents alone,
/// named `sasl_scram_sha512_config`.
#[verifier::external_body]
pub(crate) fn make_sasl_scram_sha512(username: String, password: String) -> (config: SaslConfig)
    ensures
        config == sasl_scram_sha512_config(username@, password@),
{
    SaslConfig::ScramSha512(Credentials { username, password })
}

} // verus!
