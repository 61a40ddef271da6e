//! The settings of a Kafka client, and how they are read from a
//! configuration source.
//!
//! The source is flat: the fields of the security protocol, of the consumer
//! and of the producer stand beside `bootstrap_servers`, each under its own
//! key. The policy is explicit and has no silent default:
//!
//! - `bootstrap_servers` and `security_protocol` must be there.
//! - The consumer settings are there as soon as one of `group_id`,
//!   `input_topics` and `unique_id` is; then `group_id` and `input_topics`
//!   must both be, and `unique_id` is `false` unless it is given.
//! - The producer settings are there as soon as one of `acks` and `retries`
//!   is; the other one then takes its default.
//!
//! A default applies only where the key is absent, never where its value is
//! empty.

use crate::number::{
    decimal_text, is_digit, lemma_decimal_round_trip, lemma_decimal_text_digits, parse_decimal,
    parse_decimal_spec, render_decimal, without_sign,
};
use crate::source::{
    lemma_field_keys_distinct, lookup_spec, outcome, value_of, value_of_spec, Field,
    SchemaError,
};
use crate::text::{split_commas, str_eq, vec_from_str};
use vstd::prelude::*;

verus! {

/// How the client speaks to the brokers.
#[derive(Debug, Clone, PartialEq)]
pub enum SecurityProtocol {
    /// No encryption and no credentials.
    Plaintext,
    /// TLS, with a user name and a password.
    SaslSsl { sasl_username: String, sasl_password: String },
}

/// A security protocol as plain values.
pub enum SecurityProtocolView {
    Plaintext,
    SaslSsl { sasl_username: Seq<char>, sasl_password: Seq<char> },
}

impl View for SecurityProtocol {
    type V = SecurityProtocolView;

    open spec fn view(&self) -> SecurityProtocolView {
        match self {
            SecurityProtocol::Plaintext => SecurityProtocolView::Plaintext,
            SecurityProtocol::SaslSsl { sasl_username, sasl_password } => {
                SecurityProtocolView::SaslSsl {
                    sasl_username: sasl_username@,
                    sasl_password: sasl_password@,
                }
            },
        }
    }
}

impl DeepView for SecurityProtocol {
    type V = SecurityProtocolView;

    open spec fn deep_view(&self) -> SecurityProtocolView {
        self@
    }
}

/// What a consumer needs beyond the connection.
#[derive(Debug, Clone, PartialEq)]
pub struct ConsumerSettings {
    /// The consumer group to join.
    pub group_id: String,
    /// The topics to subscribe to, in order.
    pub input_topics: Vec<String>,
    /// Whether each client gets a group id of its own, made of `group_id`
    /// and a random suffix.
    pub unique_id: bool,
}

/// Consumer settings as plain values.
pub struct ConsumerSettingsView {
    pub group_id: Seq<char>,
    pub input_topics: Seq<Seq<char>>,
    pub unique_id: bool,
}

impl View for ConsumerSettings {
    type V = ConsumerSettingsView;

    open spec fn view(&self) -> ConsumerSettingsView {
        ConsumerSettingsView {
            group_id: self.group_id@,
            input_topics: self.input_topics.deep_view(),
            unique_id: self.unique_id,
        }
    }
}

impl DeepView for ConsumerSettings {
    type V = ConsumerSettingsView;

    open spec fn deep_view(&self) -> ConsumerSettingsView {
        self@
    }
}

/// How many brokers must confirm a message before it counts as sent.
#[derive(Debug, Clone, Copy, PartialEq, Eq, Structural)]
pub enum Acks {
    /// Every replica that is in sync.
    All,
    /// This many brokers.
    Count(usize),
}

/// The acknowledgments asked for where the source names none.
pub const DEFAULT_ACKS: usize = 1;

/// The retries allowed where the source names none.
pub const DEFAULT_RETRIES: usize = 2147483647;

impl Acks {
    /// What `s` asks for: `all`, or a decimal count. `None` for any other text.
    pub open spec fn parse_spec(s: Seq<char>) -> Option<Acks> {
        if s == "all"@ {
            Some(Acks::All)
        } else {
            match parse_decimal_spec(s) {
                Some(n) => Some(Acks::Count(n)),
                None => None,
            }
        }
    }

    /// The text that the client configuration takes for these acknowledgments.
    pub open spec fn render_spec(self) -> Seq<char> {
        match self {
            Acks::All => "all"@,
            Acks::Count(n) => decimal_text(n as nat),
        }
    }

    /// Reads an acknowledgment policy: the word `all`, in lower case, or a
    /// decimal count.
    pub fn parse(s: &str) -> (r: Option<Acks>)
        ensures
            r == Acks::parse_spec(s@),
    {
        if str_eq(s, "all") {
            Some(Acks::All)
        } else {
            match parse_decimal(s) {
                Some(n) => Some(Acks::Count(n)),
                None => None,
            }
        }
    }

    /// Writes the policy as the client configuration takes it: `all`, or the
    /// count in decimal.
    pub fn render(&self) -> (s: String)
        ensures
            s@ == self.render_spec(),
    {
        match self {
            Acks::All => "all".to_owned(),
            Acks::Count(n) => render_decimal(*n),
        }
    }
}

/// What a producer needs beyond the connection.
#[derive(Debug, Clone, Copy, PartialEq, Eq, Structural)]
pub struct ProducerSettings {
    /// The acknowledgments to wait for.
    pub acks: Acks,
    /// How often a failed send is tried again.
    pub retries: usize,
}

impl DeepView for ProducerSettings {
    type V = ProducerSettings;

    open spec fn deep_view(&self) -> ProducerSettings {
        *self
    }
}

impl Default for ProducerSettings {
    fn default() -> (settings: ProducerSettings)
        ensures
            settings == (ProducerSettings {
                acks: Acks::Count(DEFAULT_ACKS),
                retries: DEFAULT_RETRIES,
            }),
    {
        ProducerSettings { acks: Acks::Count(DEFAULT_ACKS), retries: DEFAULT_RETRIES }
    }
}

/// The settings of a Kafka client.
#[derive(Debug, Clone, PartialEq)]
pub struct KafkaSettings {
    /// The brokers to contact first.
    pub bootstrap_servers: String,
    /// How to speak to them.
    pub security_protocol: SecurityProtocol,
    /// What a consumer needs; without it no consumer can be made.
    pub consumer: Option<ConsumerSettings>,
    /// What a producer needs; without it no producer can be made.
    pub producer: Option<ProducerSettings>,
}

/// Settings as plain values.
pub struct KafkaSettingsView {
    pub bootstrap_servers: Seq<char>,
    pub security_protocol: SecurityProtocolView,
    pub consumer: Option<ConsumerSettingsView>,
    pub producer: Option<ProducerSettings>,
}

impl View for KafkaSettings {
    type V = KafkaSettingsView;

    open spec fn view(&self) -> KafkaSettingsView {
        KafkaSettingsView {
            bootstrap_servers: self.bootstrap_servers@,
            security_protocol: self.security_protocol@,
            consumer: self.consumer.deep_view(),
            producer: self.producer,
        }
    }
}

impl DeepView for KafkaSettings {
    type V = KafkaSettingsView;

    open spec fn deep_view(&self) -> KafkaSettingsView {
        self@
    }
}

/// The word that the source and the client configuration use for the
/// protocol without credentials.
pub open spec fn plaintext_name() -> Seq<char> {
    "PLAINTEXT"@
}

/// The word that the source and the client configuration use for the
/// protocol with credentials.
pub open spec fn sasl_ssl_name() -> Seq<char> {
    "SASL_SSL"@
}

impl SecurityProtocolView {
    /// The word that names this protocol.
    pub open spec fn name(self) -> Seq<char> {
        match self {
            SecurityProtocolView::Plaintext => plaintext_name(),
            SecurityProtocolView::SaslSsl { .. } => sasl_ssl_name(),
        }
    }

    /// The entries that write this protocol in a source: its name, and
    /// after it the credentials where it has them.
    pub open spec fn entries(self) -> Seq<(Seq<char>, Seq<char>)> {
        match self {
            SecurityProtocolView::Plaintext => seq![
                (Field::SecurityProtocol.spec_key(), plaintext_name()),
            ],
            SecurityProtocolView::SaslSsl { sasl_username, sasl_password } => seq![
                (Field::SecurityProtocol.spec_key(), sasl_ssl_name()),
                (Field::SaslUsername.spec_key(), sasl_username),
                (Field::SaslPassword.spec_key(), sasl_password),
            ],
        }
    }
}

impl SecurityProtocol {
    /// The protocol that `source` selects. The name must be there and be one
    /// of the two known words, in upper case; the protocol with credentials
    /// needs the user name and the password beside it.
    pub open spec fn decode_spec(source: Seq<(Seq<char>, Seq<char>)>) -> Result<
        SecurityProtocolView,
        SchemaError,
    > {
        match value_of_spec(source, Field::SecurityProtocol) {
            None => Err(SchemaError::MissingField(Field::SecurityProtocol)),
            Some(name) => if name == plaintext_name() {
                Ok(SecurityProtocolView::Plaintext)
            } else if name == sasl_ssl_name() {
                match value_of_spec(source, Field::SaslUsername) {
                    None => Err(SchemaError::MissingField(Field::SaslUsername)),
                    Some(sasl_username) => match value_of_spec(source, Field::SaslPassword) {
                        None => Err(SchemaError::MissingField(Field::SaslPassword)),
                        Some(sasl_password) => Ok(
                            SecurityProtocolView::SaslSsl { sasl_username, sasl_password },
                        ),
                    },
                }
            } else {
                Err(SchemaError::InvalidDiscriminator)
            },
        }
    }

    /// The word that names this protocol, in the source and in the client
    /// configuration alike.
    pub fn name(&self) -> (word: &'static str)
        ensures
            word@ == self@.name(),
    {
        match self {
            SecurityProtocol::Plaintext => "PLAINTEXT",
            SecurityProtocol::SaslSsl { .. } => "SASL_SSL",
        }
    }

    /// Reads the security protocol from `source`.
    pub fn decode(source: &[(String, String)]) -> (r: Result<SecurityProtocol, SchemaError>)
        ensures
            outcome(r) == SecurityProtocol::decode_spec(source.deep_view()),
    {
        let name: &str = match value_of(source, Field::SecurityProtocol) {
            Some(name) => name,
            None => {
                return Err(SchemaError::MissingField(Field::SecurityProtocol));
            },
        };
        if str_eq(name, "PLAINTEXT") {
            Ok(SecurityProtocol::Plaintext)
        } else if str_eq(name, "SASL_SSL") {
            let sasl_username: &str = match value_of(source, Field::SaslUsername) {
                Some(value) => value,
                None => {
                    return Err(SchemaError::MissingField(Field::SaslUsername));
                },
            };
            let sasl_password: &str = match value_of(source, Field::SaslPassword) {
                Some(value) => value,
                None => {
                    return Err(SchemaError::MissingField(Field::SaslPassword));
                },
            };
            Ok(
                SecurityProtocol::SaslSsl {
                    sasl_username: sasl_username.to_owned(),
                    sasl_password: sasl_password.to_owned(),
                },
            )
        } else {
            Err(SchemaError::InvalidDiscriminator)
        }
    }

    /// Writes the protocol as the entries that `decode` reads it from.
    pub fn encode(&self) -> (entries: Vec<(String, String)>)
        ensures
            entries.deep_view() == self@.entries(),
    {
        let mut entries: Vec<(String, String)> = Vec::new();
        entries.push((Field::SecurityProtocol.key().to_owned(), self.name().to_owned()));
        match self {
            SecurityProtocol::Plaintext => {},
            SecurityProtocol::SaslSsl { sasl_username, sasl_password } => {
                entries.push((Field::SaslUsername.key().to_owned(), sasl_username.clone()));
                entries.push((Field::SaslPassword.key().to_owned(), sasl_password.clone()));
            },
        }
        entries
    }
}

/// What the text of `unique_id` says: `true` or `false`, written so.
pub open spec fn parse_flag_spec(s: Seq<char>) -> Option<bool> {
    if s == "true"@ {
        Some(true)
    } else if s == "false"@ {
        Some(false)
    } else {
        None
    }
}

/// Reads a flag: the word `true` or the word `false`, in lower case.
pub fn parse_flag(s: &str) -> (r: Option<bool>)
    ensures
        r == parse_flag_spec(s@),
{
    if str_eq(s, "true") {
        Some(true)
    } else if str_eq(s, "false") {
        Some(false)
    } else {
        None
    }
}

impl ConsumerSettings {
    /// Whether `source` speaks of a consumer at all.
    pub open spec fn present_spec(source: Seq<(Seq<char>, Seq<char>)>) -> bool {
        ||| value_of_spec(source, Field::GroupId) is Some
        ||| value_of_spec(source, Field::InputTopics) is Some
        ||| value_of_spec(source, Field::UniqueId) is Some
    }

    /// The consumer settings that `source` holds: none where it speaks of no
    /// consumer; else the group id and the topics, which must both be there,
    /// and the flag, `false` where it is absent.
    pub open spec fn decode_spec(source: Seq<(Seq<char>, Seq<char>)>) -> Result<
        Option<ConsumerSettingsView>,
        SchemaError,
    > {
        if !Self::present_spec(source) {
            Ok(None)
        } else {
            match value_of_spec(source, Field::GroupId) {
                None => Err(SchemaError::MissingField(Field::GroupId)),
                Some(group_id) => match value_of_spec(source, Field::InputTopics) {
                    None => Err(SchemaError::MissingField(Field::InputTopics)),
                    Some(topics) => {
                        let flag = match value_of_spec(source, Field::UniqueId) {
                            None => Some(false),
                            Some(text) => parse_flag_spec(text),
                        };
                        match flag {
                            None => Err(SchemaError::InvalidValue(Field::UniqueId)),
                            Some(unique_id) => Ok(
                                Some(
                                    ConsumerSettingsView {
                                        group_id,
                                        input_topics: split_commas(topics),
                                        unique_id,
                                    },
                                ),
                            ),
                        }
                    },
                },
            }
        }
    }

    /// Reads the consumer settings from `source`, if it holds any.
    pub fn decode(source: &[(String, String)]) -> (r: Result<
        Option<ConsumerSettings>,
        SchemaError,
    >)
        ensures
            outcome(r) == ConsumerSettings::decode_spec(source.deep_view()),
    {
        let group_id: Option<&str> = value_of(source, Field::GroupId);
        let topics: Option<&str> = value_of(source, Field::InputTopics);
        let flag: Option<&str> = value_of(source, Field::UniqueId);
        if group_id.is_none() && topics.is_none() && flag.is_none() {
            return Ok(None);
        }
        let group_id: &str = match group_id {
            Some(value) => value,
            None => {
                return Err(SchemaError::MissingField(Field::GroupId));
            },
        };
        let topics: &str = match topics {
            Some(value) => value,
            None => {
                return Err(SchemaError::MissingField(Field::InputTopics));
            },
        };
        let unique_id: bool = match flag {
            None => false,
            Some(text) => match parse_flag(text) {
                Some(value) => value,
                None => {
                    return Err(SchemaError::InvalidValue(Field::UniqueId));
                },
            },
        };
        Ok(
            Some(
                ConsumerSettings {
                    group_id: group_id.to_owned(),
                    input_topics: vec_from_str(topics),
                    unique_id,
                },
            ),
        )
    }
}

impl ProducerSettings {
    /// Whether `source` speaks of a producer at all.
    pub open spec fn present_spec(source: Seq<(Seq<char>, Seq<char>)>) -> bool {
        ||| value_of_spec(source, Field::Acks) is Some
        ||| value_of_spec(source, Field::Retries) is Some
    }

    /// The producer settings that `source` holds: none where it speaks of no
    /// producer; else what it says of acknowledgments and retries, with the
    /// default for the one that is absent.
    pub open spec fn decode_spec(source: Seq<(Seq<char>, Seq<char>)>) -> Result<
        Option<ProducerSettings>,
        SchemaError,
    > {
        if !Self::present_spec(source) {
            Ok(None)
        } else {
            let acks = match value_of_spec(source, Field::Acks) {
                None => Some(Acks::Count(DEFAULT_ACKS)),
                Some(text) => Acks::parse_spec(text),
            };
            let retries = match value_of_spec(source, Field::Retries) {
                None => Some(DEFAULT_RETRIES),
                Some(text) => parse_decimal_spec(text),
            };
            match acks {
                None => Err(SchemaError::InvalidValue(Field::Acks)),
                Some(acks) => match retries {
                    None => Err(SchemaError::InvalidValue(Field::Retries)),
                    Some(retries) => Ok(Some(ProducerSettings { acks, retries })),
                },
            }
        }
    }

    /// Reads the producer settings from `source`, if it holds any.
    pub fn decode(source: &[(String, String)]) -> (r: Result<
        Option<ProducerSettings>,
        SchemaError,
    >)
        ensures
            r == ProducerSettings::decode_spec(source.deep_view()),
    {
        let acks: Option<&str> = value_of(source, Field::Acks);
        let retries: Option<&str> = value_of(source, Field::Retries);
        if acks.is_none() && retries.is_none() {
            return Ok(None);
        }
        let acks: Acks = match acks {
            None => Acks::Count(DEFAULT_ACKS),
            Some(text) => match Acks::parse(text) {
                Some(value) => value,
                None => {
                    return Err(SchemaError::InvalidValue(Field::Acks));
                },
            },
        };
        let retries: usize = match retries {
            None => DEFAULT_RETRIES,
            Some(text) => match parse_decimal(text) {
                Some(value) => value,
                None => {
                    return Err(SchemaError::InvalidValue(Field::Retries));
                },
            },
        };
        Ok(Some(ProducerSettings { acks, retries }))
    }
}

impl KafkaSettings {
    /// The settings that `source` holds. The fields are read in this order,
    /// and the first that fails gives the error: the bootstrap servers, the
    /// security protocol, the consumer, the producer.
    pub open spec fn decode_spec(source: Seq<(Seq<char>, Seq<char>)>) -> Result<
        KafkaSettingsView,
        SchemaError,
    > {
        match value_of_spec(source, Field::BootstrapServers) {
            None => Err(SchemaError::MissingField(Field::BootstrapServers)),
            Some(bootstrap_servers) => match SecurityProtocol::decode_spec(source) {
                Err(e) => Err(e),
                Ok(security_protocol) => match ConsumerSettings::decode_spec(source) {
                    Err(e) => Err(e),
                    Ok(consumer) => match ProducerSettings::decode_spec(source) {
                        Err(e) => Err(e),
                        Ok(producer) => Ok(
                            KafkaSettingsView {
                                bootstrap_servers,
                                security_protocol,
                                consumer,
                                producer,
                            },
                        ),
                    },
                },
            },
        }
    }

    /// Reads the settings from `source`, a flat list of keys and values.
    pub fn decode(source: &[(String, String)]) -> (r: Result<KafkaSettings, SchemaError>)
        ensures
            outcome(r) == KafkaSettings::decode_spec(source.deep_view()),
    {
        let bootstrap_servers: &str = match value_of(source, Field::BootstrapServers) {
            Some(value) => value,
            None => {
                return Err(SchemaError::MissingField(Field::BootstrapServers));
            },
        };
        let security_protocol: SecurityProtocol = match SecurityProtocol::decode(source) {
            Ok(value) => value,
            Err(e) => {
                return Err(e);
            },
        };
        let consumer: Option<ConsumerSettings> = match ConsumerSettings::decode(source) {
            Ok(value) => value,
            Err(e) => {
                return Err(e);
            },
        };
        let producer: Option<ProducerSettings> = match ProducerSettings::decode(source) {
            Ok(value) => value,
            Err(e) => {
                return Err(e);
            },
        };
        Ok(
            KafkaSettings {
                bootstrap_servers: bootstrap_servers.to_owned(),
                security_protocol,
                consumer,
                producer,
            },
        )
    }
}

/// Reading looks at the nine fields and at nothing else: two sources that
/// give every field the same value are read alike, whatever the order of
/// their entries and whatever other keys they hold.
pub proof fn lemma_decode_reads_fields_only(
    a: Seq<(Seq<char>, Seq<char>)>,
    b: Seq<(Seq<char>, Seq<char>)>,
)
    requires
        forall|field: Field| value_of_spec(a, field) == value_of_spec(b, field),
    ensures
        KafkaSettings::decode_spec(a) == KafkaSettings::decode_spec(b),
{
    assert(SecurityProtocol::decode_spec(a) == SecurityProtocol::decode_spec(b));
    assert(ConsumerSettings::decode_spec(a) == ConsumerSettings::decode_spec(b));
    assert(ProducerSettings::decode_spec(a) == ProducerSettings::decode_spec(b));
}

/// Reading a protocol from the entries that write it gives the protocol
/// back, whichever protocol it is and whatever its credentials are.
pub proof fn lemma_protocol_round_trip(protocol: SecurityProtocolView)
    ensures
        SecurityProtocol::decode_spec(protocol.entries()) matches Ok(read) && read == protocol,
{
    lemma_field_keys_distinct();
    lemma_protocol_names_distinct();
    reveal_with_fuel(lookup_spec, 4);
}

/// The two protocol names are different words.
pub proof fn lemma_protocol_names_distinct()
    ensures
        plaintext_name() != sasl_ssl_name(),
{
    reveal_strlit("PLAINTEXT");
    reveal_strlit("SASL_SSL");
    assert("PLAINTEXT"@.len() != "SASL_SSL"@.len());
}

/// The protocol with credentials cannot be read without its user name: the
/// error names the user name, whatever else the source holds.
pub proof fn lemma_sasl_needs_username(source: Seq<(Seq<char>, Seq<char>)>)
    requires
        value_of_spec(source, Field::SecurityProtocol) == Some(sasl_ssl_name()),
        value_of_spec(source, Field::SaslUsername) is None,
    ensures
        SecurityProtocol::decode_spec(source) matches Err(
            SchemaError::MissingField(Field::SaslUsername),
        ),
        KafkaSettings::decode_spec(source) is Err,
{
    lemma_protocol_names_distinct();
}

/// The protocol with credentials cannot be read without its password: where
/// the user name is there, the error names the password.
pub proof fn lemma_sasl_needs_password(source: Seq<(Seq<char>, Seq<char>)>)
    requires
        value_of_spec(source, Field::SecurityProtocol) == Some(sasl_ssl_name()),
        value_of_spec(source, Field::SaslUsername) is Some,
        value_of_spec(source, Field::SaslPassword) is None,
    ensures
        SecurityProtocol::decode_spec(source) matches Err(
            SchemaError::MissingField(Field::SaslPassword),
        ),
        KafkaSettings::decode_spec(source) is Err,
{
    lemma_protocol_names_distinct();
}

/// Reading what `render` wrote gives the policy back, for every policy.
pub proof fn lemma_acks_round_trip(acks: Acks)
    ensures
        Acks::parse_spec(acks.render_spec()) == Some(acks),
{
    match acks {
        Acks::All => {},
        Acks::Count(n) => {
            lemma_decimal_round_trip(n as nat);
            lemma_decimal_text_digits(n as nat);
            reveal_strlit("all");
        },
    }
}

/// Where the source gives the retries and no acknowledgments, one
/// acknowledgment is asked for.
pub proof fn lemma_acks_default(source: Seq<(Seq<char>, Seq<char>)>, retries: usize)
    requires
        value_of_spec(source, Field::Acks) is None,
        value_of_spec(source, Field::Retries) matches Some(text) && parse_decimal_spec(text)
            == Some(retries),
    ensures
        ProducerSettings::decode_spec(source) matches Ok(Some(producer)) && producer == (
            ProducerSettings { acks: Acks::Count(1), retries }),
{
}

/// Where the source gives the acknowledgments and no retries, the retries
/// are the largest 32-bit signed number.
pub proof fn lemma_retries_default(source: Seq<(Seq<char>, Seq<char>)>, acks: Acks)
    requires
        value_of_spec(source, Field::Retries) is None,
        value_of_spec(source, Field::Acks) matches Some(text) && Acks::parse_spec(text) == Some(
            acks,
        ),
    ensures
        ProducerSettings::decode_spec(source) matches Ok(Some(producer)) && producer == (
            ProducerSettings { acks, retries: 2147483647 }),
{
}

/// A default stands in for an absent key only: acknowledgments that are
/// there and empty are an invalid value.
pub proof fn lemma_empty_acks_are_invalid(source: Seq<(Seq<char>, Seq<char>)>)
    requires
        value_of_spec(source, Field::Acks) matches Some(text) && text.len() == 0,
    ensures
        ProducerSettings::decode_spec(source) matches Err(SchemaError::InvalidValue(Field::Acks)),
{
    reveal_strlit("all");
}

/// A default stands in for an absent key only: retries that are there and
/// empty are an invalid value, where the acknowledgments are not one already.
pub proof fn lemma_empty_retries_are_invalid(source: Seq<(Seq<char>, Seq<char>)>)
    requires
        value_of_spec(source, Field::Retries) matches Some(text) && text.len() == 0,
        value_of_spec(source, Field::Acks) matches Some(text) ==> Acks::parse_spec(text) is Some,
    ensures
        ProducerSettings::decode_spec(source) matches Err(
            SchemaError::InvalidValue(Field::Retries),
        ),
{
}

} // verus!
