//! The client configuration of `rdkafka`, as far as this library fills it.

use rdkafka::ClientConfig;
use vstd::prelude::*;

verus! {

/// `ClientConfig` of `rdkafka`. Nothing inside it is visible here; what it
/// holds is spoken of through `config_entries`.
#[verifier::external_type_specification]
#[verifier::external_body]
pub struct ExClientConfig(rdkafka::ClientConfig);

/// The parameters that a client configuration holds: each key that was set,
/// with the value that was set for it last.
pub uninterp spec fn config_entries(config: ClientConfig) -> Map<Seq<char>, Seq<char>>;

/// `ClientConfig::new` of `rdkafka`: the new configuration holds no parameter.
pub assume_specification[ ClientConfig::new ]() -> (config: ClientConfig)
    ensures
        config_entries(config) == (Map::<Seq<char>, Seq<char>>::empty()),
;

/// `ClientConfig::set` of `rdkafka`: afterwards `key` stands for `value`,
/// whatever it stood for before, and every other key is as it was.
#[verifier::external_body]
pub(crate) fn set_entry(config: &mut ClientConfig, key: &str, value: &str)
    ensures
        config_entries(*final(config)) == config_entries(*old(config)).insert(key@, value@),
{
    config.set(key, value);
}

} // verus!
