//! From settings to the configuration that a client is created from.

use crate::client::{config_entries, set_entry};
use crate::number::{decimal_text, render_decimal};
use crate::settings::{
    ConsumerSettings, ConsumerSettingsView, KafkaSettings, KafkaSettingsView, ProducerSettings,
    SecurityProtocol, SecurityProtocolView,
};
use rdkafka::ClientConfig;
use uuid::Uuid;
use vstd::prelude::*;

verus! {

impl KafkaSettingsView {
    /// The parameters that every client takes from these settings: where the
    /// brokers are and how to speak to them.
    pub open spec fn connection_entries(self) -> Map<Seq<char>, Seq<char>> {
        match self.security_protocol {
            SecurityProtocolView::Plaintext => map![
                "bootstrap.servers"@ => self.bootstrap_servers,
                "security.protocol"@ => "PLAINTEXT"@,
            ],
            SecurityProtocolView::SaslSsl { sasl_username, sasl_password } => map![
                "bootstrap.servers"@ => self.bootstrap_servers,
                "security.protocol"@ => "SASL_SSL"@,
                "sasl.mechanism"@ => "PLAIN"@,
                "sasl.username"@ => sasl_username,
                "sasl.password"@ => sasl_password,
            ],
        }
    }
}

impl KafkaSettings {
    /// Sets the connection parameters in `config` and hands `config` back.
    /// What `config` held under other keys stays.
    pub fn config<'a>(&self, config: &'a mut ClientConfig) -> (out: &'a mut ClientConfig)
        ensures
            config_entries(*out) == config_entries(*old(config)).union_prefer_right(
                self@.connection_entries(),
            ),
            *final(config) == *final(out),
    {
        set_entry(config, "bootstrap.servers", self.bootstrap_servers.as_str());
        set_entry(config, "security.protocol", self.security_protocol.name());
        match &self.security_protocol {
            SecurityProtocol::Plaintext => {},
            SecurityProtocol::SaslSsl { sasl_username, sasl_password } => {
                set_entry(config, "sasl.mechanism", "PLAIN");
                set_entry(config, "sasl.username", sasl_username.as_str());
                set_entry(config, "sasl.password", sasl_password.as_str());
            },
        }
        config
    }
}

/// Why no client can be made from the settings as they are.
#[derive(Debug, Clone, Copy, PartialEq, Eq, Structural)]
pub enum ContractError {
    /// A consumer was asked for and the settings hold no consumer settings.
    NoConsumerSettings,
    /// A producer was asked for and the settings hold no producer settings.
    NoProducerSettings,
}

impl ContractError {
    /// What the error says.
    pub open spec fn message_spec(self) -> Seq<char> {
        match self {
            ContractError::NoConsumerSettings => "Consumer settings not specified"@,
            ContractError::NoProducerSettings => "Producer settings not specified"@,
        }
    }

    /// Says which settings are missing.
    pub fn message(&self) -> (text: &'static str)
        ensures
            text@ == self.message_spec(),
    {
        match self {
            ContractError::NoConsumerSettings => "Consumer settings not specified",
            ContractError::NoProducerSettings => "Producer settings not specified",
        }
    }
}

/// Whether `c` is a digit of lower-case hexadecimal.
pub open spec fn is_lower_hex(c: char) -> bool {
    ('0' <= c && c <= '9') || ('a' <= c && c <= 'f')
}

/// Whether `s` has the shape of a hyphenated UUID in lower case: 36
/// characters, hyphens after the 8th, 12th, 16th and 20th hexadecimal digit.
pub open spec fn is_uuid_text(s: Seq<char>) -> bool {
    &&& s.len() == 36
    &&& forall|i: int|
        0 <= i < 36 ==> if i == 8 || i == 13 || i == 18 || i == 23 {
            #[trigger] s[i] == '-'
        } else {
            is_lower_hex(s[i])
        }
}

/// `Uuid::new_v4` of `uuid`, written by its `Display`: a random UUID in the
/// hyphenated lower-case form. Only the shape of the text is claimed; which
/// UUID comes is left open, and two calls may differ. The call panics where
/// the operating system hands out no random bytes.
#[verifier::external_body]
fn random_uuid_text() -> (text: String)
    ensures
        is_uuid_text(text@),
{
    Uuid::new_v4().to_string()
}

impl ConsumerSettingsView {
    /// The group id that a client joins under: `group_id` itself, or, where a
    /// unique id is asked for, `group_id`, an underscore and `suffix`.
    pub open spec fn resolved_group_id(self, suffix: Seq<char>) -> Seq<char> {
        if self.unique_id {
            self.group_id + seq!['_'] + suffix
        } else {
            self.group_id
        }
    }
}

impl ConsumerSettings {
    /// The group id that a client joins under, made with `suffix` where a
    /// unique id is asked for.
    pub fn resolved_group_id(&self, suffix: &str) -> (id: String)
        ensures
            id@ == self@.resolved_group_id(suffix@),
    {
        let mut id: String = self.group_id.clone();
        if self.unique_id {
            proof {
                reveal_strlit("_");
            }
            id.append("_");
            id.append(suffix);
        }
        id
    }
}

impl KafkaSettingsView {
    /// The parameters of a consumer that joins the group `group_id`.
    pub open spec fn consumer_entries(self, group_id: Seq<char>) -> Map<Seq<char>, Seq<char>> {
        self.connection_entries().insert("group.id"@, group_id)
    }

    /// The parameters of a producer with the delivery policy `producer`.
    pub open spec fn producer_entries(self, producer: ProducerSettings) -> Map<
        Seq<char>,
        Seq<char>,
    > {
        self.connection_entries().insert("acks"@, producer.acks.render_spec()).insert(
            "retries"@,
            decimal_text(producer.retries as nat),
        )
    }
}

/// What a consumer is made from: the configuration to create the client
/// with, and the topics to subscribe it to once it is created.
#[derive(Debug)]
pub struct ConsumerPlan {
    /// The connection parameters and the group id.
    pub config: ClientConfig,
    /// The topics, in the order of the settings, none left out.
    pub topics: Vec<String>,
}

/// Plans a consumer whose unique group id, where the settings ask for one,
/// ends in `suffix`. Fails where the settings hold no consumer settings, and
/// only there.
pub fn consumer_with_suffix(settings: &KafkaSettings, suffix: &str) -> (r: Result<
    ConsumerPlan,
    ContractError,
>)
    ensures
        settings.consumer is None ==> r matches Err(ContractError::NoConsumerSettings),
        settings.consumer matches Some(consumer) ==> {
            &&& r matches Ok(plan)
            &&& config_entries(plan.config) == settings@.consumer_entries(
                consumer@.resolved_group_id(suffix@),
            )
            &&& plan.topics.deep_view() == consumer@.input_topics
        },
{
    let consumer: &ConsumerSettings = match &settings.consumer {
        Some(consumer) => consumer,
        None => {
            return Err(ContractError::NoConsumerSettings);
        },
    };
    let group_id: String = consumer.resolved_group_id(suffix);
    let mut config: ClientConfig = ClientConfig::new();
    let filled: &mut ClientConfig = settings.config(&mut config);
    set_entry(filled, "group.id", group_id.as_str());
    let topics: Vec<String> = consumer.input_topics.clone();
    Ok(ConsumerPlan { config, topics })
}

/// Plans a consumer. Where the settings ask for a unique group id, a fresh
/// random UUID is the suffix: each plan gets its own, and none is made where
/// none is asked for. Fails where the settings hold no consumer settings,
/// and only there.
pub fn consumer(settings: &KafkaSettings) -> (r: Result<ConsumerPlan, ContractError>)
    ensures
        settings.consumer is None ==> r matches Err(ContractError::NoConsumerSettings),
        settings.consumer matches Some(consumer) ==> {
            &&& r matches Ok(plan)
            &&& plan.topics.deep_view() == consumer@.input_topics
            &&& exists|suffix: Seq<char>|
                is_uuid_text(suffix) && #[trigger] settings@.consumer_entries(
                    consumer@.resolved_group_id(suffix),
                ) == config_entries(plan.config)
        },
{
    let unique_id: bool = match &settings.consumer {
        Some(consumer) => consumer.unique_id,
        None => {
            return Err(ContractError::NoConsumerSettings);
        },
    };
    if unique_id {
        let suffix: String = random_uuid_text();
        consumer_with_suffix(settings, suffix.as_str())
    } else {
        let r = consumer_with_suffix(settings, "");
        proof {
            let consumer = settings.consumer->0@;
            let any = Seq::new(36, |i: int| if i == 8 || i == 13 || i == 18 || i == 23 {
                '-'
            } else {
                '0'
            });
            assert(consumer.resolved_group_id(any) == consumer.resolved_group_id(""@));
        }
        r
    }
}

/// The configuration to create a producer with. Fails where the settings
/// hold no producer settings, and only there.
pub fn producer(settings: &KafkaSettings) -> (r: Result<ClientConfig, ContractError>)
    ensures
        settings.producer is None ==> r matches Err(ContractError::NoProducerSettings),
        settings.producer matches Some(producer) ==> {
            &&& r matches Ok(config)
            &&& config_entries(config) == settings@.producer_entries(producer)
        },
{
    let producer: &ProducerSettings = match &settings.producer {
        Some(producer) => producer,
        None => {
            return Err(ContractError::NoProducerSettings);
        },
    };
    let acks: String = producer.acks.render();
    let retries: String = render_decimal(producer.retries);
    let mut config: ClientConfig = ClientConfig::new();
    let filled: &mut ClientConfig = settings.config(&mut config);
    set_entry(filled, "acks", acks.as_str());
    set_entry(filled, "retries", retries.as_str());
    Ok(config)
}

/// The keys that this library sets differ from one another, by their length
/// or by a character.
proof fn lemma_wire_keys_distinct()
    ensures
        "bootstrap.servers"@ != "security.protocol"@,
        "bootstrap.servers"@.len() == 17,
        "security.protocol"@.len() == 17,
        "sasl.mechanism"@.len() == 14,
        "sasl.username"@.len() == 13,
        "sasl.password"@.len() == 13,
        "sasl.username"@ != "sasl.password"@,
        "group.id"@.len() == 8,
        "acks"@.len() == 4,
        "retries"@.len() == 7,
{
    reveal_strlit("bootstrap.servers");
    reveal_strlit("security.protocol");
    reveal_strlit("sasl.mechanism");
    reveal_strlit("sasl.username");
    reveal_strlit("sasl.password");
    reveal_strlit("group.id");
    reveal_strlit("acks");
    reveal_strlit("retries");
    assert("bootstrap.servers"@[0] != "security.protocol"@[0]);
    assert("sasl.username"@[5] != "sasl.password"@[5]);
}

/// What every client is configured with, for all settings: the bootstrap
/// servers and the name of the protocol; with credentials, also the
/// mechanism `PLAIN`, the user name and the password; and no other key.
pub proof fn lemma_connection_entries(settings: KafkaSettingsView)
    ensures
        settings.connection_entries()["bootstrap.servers"@] == settings.bootstrap_servers,
        settings.connection_entries()["security.protocol"@] == settings.security_protocol.name(),
        settings.security_protocol is Plaintext ==> settings.connection_entries().dom() == set![
            "bootstrap.servers"@,
            "security.protocol"@,
        ],
        settings.security_protocol matches SecurityProtocolView::SaslSsl {
            sasl_username,
            sasl_password,
        } ==> {
            &&& settings.connection_entries()["sasl.mechanism"@] == "PLAIN"@
            &&& settings.connection_entries()["sasl.username"@] == sasl_username
            &&& settings.connection_entries()["sasl.password"@] == sasl_password
            &&& settings.connection_entries().dom() == set![
                "bootstrap.servers"@,
                "security.protocol"@,
                "sasl.mechanism"@,
                "sasl.username"@,
                "sasl.password"@,
            ]
        },
{
    lemma_wire_keys_distinct();
}

/// A consumer is configured with the connection parameters as they are and
/// with its group id, and with nothing else.
pub proof fn lemma_consumer_entries(settings: KafkaSettingsView, group_id: Seq<char>)
    ensures
        settings.consumer_entries(group_id)["group.id"@] == group_id,
        !settings.connection_entries().dom().contains("group.id"@),
        settings.consumer_entries(group_id).remove("group.id"@) == settings.connection_entries(),
{
    lemma_wire_keys_distinct();
    lemma_connection_entries(settings);
}

/// A producer is configured with the connection parameters as they are,
/// with its acknowledgments as `all` or a decimal count and with its retries
/// as a decimal count, and with nothing else.
pub proof fn lemma_producer_entries(settings: KafkaSettingsView, producer: ProducerSettings)
    ensures
        settings.producer_entries(producer)["acks"@] == producer.acks.render_spec(),
        settings.producer_entries(producer)["retries"@] == decimal_text(producer.retries as nat),
        !settings.connection_entries().dom().contains("acks"@),
        !settings.connection_entries().dom().contains("retries"@),
        settings.producer_entries(producer).remove("acks"@).remove("retries"@)
            == settings.connection_entries(),
{
    lemma_wire_keys_distinct();
    lemma_connection_entries(settings);
}

/// Without a unique id the group id is the configured one, whatever the
/// suffix; with it, the group id is the configured one, an underscore and
/// the suffix, so that two suffixes give the same group id only where they
/// are the same suffix.
pub proof fn lemma_resolved_group_id(
    consumer: ConsumerSettingsView,
    suffix: Seq<char>,
    other: Seq<char>,
)
    ensures
        !consumer.unique_id ==> consumer.resolved_group_id(suffix) == consumer.group_id,
        consumer.unique_id ==> consumer.resolved_group_id(suffix).len() == consumer.group_id.len()
            + 1 + suffix.len(),
        consumer.unique_id && consumer.resolved_group_id(suffix) == consumer.resolved_group_id(
            other,
        ) ==> suffix == other,
{
    if consumer.unique_id && consumer.resolved_group_id(suffix) == consumer.resolved_group_id(
        other,
    ) {
        let same = consumer.resolved_group_id(other);
        let skip = consumer.group_id.len() + 1;
        assert(same.len() == skip + other.len());
        assert forall|i: int| 0 <= i < suffix.len() implies suffix[i] == other[i] by {
            assert(same[skip + i] == other[i]);
        }
    }
}

} // verus!
