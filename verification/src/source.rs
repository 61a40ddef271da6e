//! The configuration source: an ordered list of keys with their values, all
//! text, in one flat namespace.

use crate::text::str_eq;
use vstd::prelude::*;

verus! {

/// A field that the settings are read from.
#[derive(Debug, Clone, Copy, PartialEq, Eq, Structural)]
pub enum Field {
    BootstrapServers,
    SecurityProtocol,
    SaslUsername,
    SaslPassword,
    GroupId,
    InputTopics,
    UniqueId,
    Acks,
    Retries,
}

impl Field {
    /// The key under which the source holds this field.
    pub open spec fn spec_key(self) -> Seq<char> {
        match self {
            Field::BootstrapServers => "bootstrap_servers"@,
            Field::SecurityProtocol => "security_protocol"@,
            Field::SaslUsername => "sasl_username"@,
            Field::SaslPassword => "sasl_password"@,
            Field::GroupId => "group_id"@,
            Field::InputTopics => "input_topics"@,
            Field::UniqueId => "unique_id"@,
            Field::Acks => "acks"@,
            Field::Retries => "retries"@,
        }
    }

    /// The key under which the source holds this field.
    pub fn key(self) -> (k: &'static str)
        ensures
            k@ == self.spec_key(),
    {
        match self {
            Field::BootstrapServers => "bootstrap_servers",
            Field::SecurityProtocol => "security_protocol",
            Field::SaslUsername => "sasl_username",
            Field::SaslPassword => "sasl_password",
            Field::GroupId => "group_id",
            Field::InputTopics => "input_topics",
            Field::UniqueId => "unique_id",
            Field::Acks => "acks",
            Field::Retries => "retries",
        }
    }
}

/// Why a source could not be read as settings.
#[derive(Debug, Clone, Copy, PartialEq, Eq, Structural)]
pub enum SchemaError {
    /// A field that must be there is not.
    MissingField(Field),
    /// The security protocol is named by a word that stands for none.
    InvalidDiscriminator,
    /// A field is there, with a value that it cannot take.
    InvalidValue(Field),
}

impl SchemaError {
    /// What the error says, with the key of the field it is about.
    pub open spec fn message_spec(self) -> Seq<char> {
        match self {
            SchemaError::MissingField(field) => "missing field `"@ + field.spec_key() + "`"@,
            SchemaError::InvalidDiscriminator => {
                "unknown security protocol, expected `PLAINTEXT` or `SASL_SSL`"@
            },
            SchemaError::InvalidValue(field) => "invalid value for field `"@ + field.spec_key()
                + "`"@,
        }
    }

    /// Says what is wrong, naming the key of the field.
    pub fn message(&self) -> (text: String)
        ensures
            text@ == self.message_spec(),
    {
        match self {
            SchemaError::MissingField(field) => {
                let mut text: String = "missing field `".to_owned();
                text.append(field.key());
                text.append("`");
                text
            },
            SchemaError::InvalidDiscriminator => {
                "unknown security protocol, expected `PLAINTEXT` or `SASL_SSL`".to_owned()
            },
            SchemaError::InvalidValue(field) => {
                let mut text: String = "invalid value for field `".to_owned();
                text.append(field.key());
                text.append("`");
                text
            },
        }
    }
}

/// The outcome of reading, with what was read taken as plain values.
pub open spec fn outcome<T: DeepView>(r: Result<T, SchemaError>) -> Result<T::V, SchemaError> {
    match r {
        Ok(value) => Ok(value.deep_view()),
        Err(e) => Err(e),
    }
}

/// The value that `source` gives for `key`: that of the first entry with this
/// key, `None` where no entry has it.
pub open spec fn lookup_spec(source: Seq<(Seq<char>, Seq<char>)>, key: Seq<char>) -> Option<
    Seq<char>,
>
    decreases source.len(),
{
    if source.len() == 0 {
        None
    } else if source[0].0 == key {
        Some(source[0].1)
    } else {
        lookup_spec(source.drop_first(), key)
    }
}

/// The value that `source` gives for `field`.
pub open spec fn value_of_spec(source: Seq<(Seq<char>, Seq<char>)>, field: Field) -> Option<
    Seq<char>,
> {
    lookup_spec(source, field.spec_key())
}

/// Finds the value of the first entry of `source` whose key is `key`.
pub fn lookup<'a>(source: &'a [(String, String)], key: &str) -> (found: Option<&'a str>)
    ensures
        match found {
            Some(value) => lookup_spec(source.deep_view(), key@) == Some(value@),
            None => lookup_spec(source.deep_view(), key@) is None,
        },
{
    let ghost entries = source.deep_view();
    let mut i: usize = 0;
    assert(entries.skip(0) =~= entries);
    while i < source.len()
        invariant
            i <= source.len(),
            entries == source.deep_view(),
            lookup_spec(entries, key@) == lookup_spec(entries.skip(i as int), key@),
        decreases source.len() - i,
    {
        assert(entries.skip(i as int).drop_first() =~= entries.skip(i + 1));
        if str_eq(source[i].0.as_str(), key) {
            return Some(source[i].1.as_str());
        }
        i = i + 1;
    }
    None
}

/// Finds the value that `source` gives for `field`.
pub fn value_of<'a>(source: &'a [(String, String)], field: Field) -> (found: Option<&'a str>)
    ensures
        match found {
            Some(value) => value_of_spec(source.deep_view(), field) == Some(value@),
            None => value_of_spec(source.deep_view(), field) is None,
        },
{
    lookup(source, field.key())
}

/// No two fields share a key.
pub proof fn lemma_field_keys_distinct()
    ensures
        forall|a: Field, b: Field| a != b ==> a.spec_key() != b.spec_key(),
{
    reveal_strlit("bootstrap_servers");
    reveal_strlit("security_protocol");
    reveal_strlit("sasl_username");
    reveal_strlit("sasl_password");
    reveal_strlit("group_id");
    reveal_strlit("input_topics");
    reveal_strlit("unique_id");
    reveal_strlit("acks");
    reveal_strlit("retries");
    assert forall|a: Field, b: Field| a != b implies a.spec_key() != b.spec_key() by {
        if a.spec_key().len() == b.spec_key().len() {
            if a == Field::BootstrapServers || a == Field::SecurityProtocol {
                assert(a.spec_key()[0] != b.spec_key()[0]);
            } else {
                assert(a.spec_key()[5] != b.spec_key()[5]);
            }
        }
    }
}

} // verus!
