use kafka_settings::settings::{parse_flag, DEFAULT_ACKS, DEFAULT_RETRIES};
use kafka_settings::source::{lookup, value_of};
use kafka_settings::{
    Acks, ConsumerSettings, Field, KafkaSettings, ProducerSettings, SchemaError,
    SecurityProtocol,
};

fn source(entries: &[(&str, &str)]) -> Vec<(String, String)> {
    entries
        .iter()
        .map(|(key, value)| (key.to_string(), value.to_string()))
        .collect()
}

fn strings(items: &[&str]) -> Vec<String> {
    items.iter().map(|item| item.to_string()).collect()
}

#[test]
fn bare_settings() {
    let settings = KafkaSettings::decode(&source(&[
        ("bootstrap_servers", "ADDRESS"),
        ("security_protocol", "PLAINTEXT"),
    ]))
    .unwrap();
    assert_eq!(settings.bootstrap_servers, "ADDRESS".to_string());
    assert_eq!(settings.security_protocol, SecurityProtocol::Plaintext);
    assert!(settings.consumer.is_none());
    assert!(settings.producer.is_none());
}

#[test]
fn sasl_ssl() {
    let settings = KafkaSettings::decode(&source(&[
        ("bootstrap_servers", "ADDRESS"),
        ("security_protocol", "SASL_SSL"),
        ("sasl_username", "USER"),
        ("sasl_password", "PASS"),
    ]))
    .unwrap();
    assert_eq!(settings.bootstrap_servers, "ADDRESS".to_string());
    assert_eq!(
        settings.security_protocol,
        SecurityProtocol::SaslSsl {
            sasl_username: "USER".into(),
            sasl_password: "PASS".into()
        }
    );
}

#[test]
fn consumer_settings() {
    let settings = KafkaSettings::decode(&source(&[
        ("bootstrap_servers", "ADDRESS"),
        ("security_protocol", "PLAINTEXT"),
        ("group_id", "group"),
        ("input_topics", "A,B,C"),
    ]))
    .unwrap();
    let consumer_settings = settings.consumer.unwrap();
    assert_eq!(consumer_settings.group_id, "group".to_string());
    assert_eq!(
        consumer_settings.input_topics,
        vec!["A".to_string(), "B".to_string(), "C".to_string()]
    );
}

#[test]
fn producer_settings() {
    let settings = KafkaSettings::decode(&source(&[
        ("bootstrap_servers", "ADDRESS"),
        ("security_protocol", "PLAINTEXT"),
        ("acks", "0"),
        ("retries", "0"),
    ]))
    .unwrap();
    let producer_settings = settings.producer.unwrap();
    assert_eq!(producer_settings.acks, Acks::Count(0));
    assert_eq!(producer_settings.retries, 0);
}

#[test]
fn plaintext_round_trips() {
    let protocol = SecurityProtocol::Plaintext;
    let entries = protocol.encode();
    assert_eq!(entries, source(&[("security_protocol", "PLAINTEXT")]));
    assert_eq!(SecurityProtocol::decode(&entries), Ok(protocol));
}

#[test]
fn sasl_ssl_round_trips() {
    let protocol = SecurityProtocol::SaslSsl {
        sasl_username: "user".to_string(),
        sasl_password: "p,a=s s".to_string(),
    };
    let entries = protocol.encode();
    assert_eq!(
        entries,
        source(&[
            ("security_protocol", "SASL_SSL"),
            ("sasl_username", "user"),
            ("sasl_password", "p,a=s s"),
        ])
    );
    assert_eq!(SecurityProtocol::decode(&entries), Ok(protocol));
}

#[test]
fn protocol_names() {
    assert_eq!(SecurityProtocol::Plaintext.name(), "PLAINTEXT");
    let sasl = SecurityProtocol::SaslSsl {
        sasl_username: String::new(),
        sasl_password: String::new(),
    };
    assert_eq!(sasl.name(), "SASL_SSL");
}

#[test]
fn sasl_ssl_without_username_names_the_username() {
    let r = KafkaSettings::decode(&source(&[
        ("bootstrap_servers", "ADDRESS"),
        ("security_protocol", "SASL_SSL"),
        ("sasl_password", "PASS"),
    ]));
    assert_eq!(r, Err(SchemaError::MissingField(Field::SaslUsername)));
    assert_eq!(r.unwrap_err().message(), "missing field `sasl_username`");
}

#[test]
fn sasl_ssl_without_password_names_the_password() {
    let r = KafkaSettings::decode(&source(&[
        ("bootstrap_servers", "ADDRESS"),
        ("security_protocol", "SASL_SSL"),
        ("sasl_username", "USER"),
    ]));
    assert_eq!(r, Err(SchemaError::MissingField(Field::SaslPassword)));
    assert_eq!(r.unwrap_err().message(), "missing field `sasl_password`");
}

#[test]
fn sasl_ssl_without_both_names_the_username_first() {
    let r = SecurityProtocol::decode(&source(&[("security_protocol", "SASL_SSL")]));
    assert_eq!(r, Err(SchemaError::MissingField(Field::SaslUsername)));
}

#[test]
fn plaintext_ignores_credentials() {
    let r = SecurityProtocol::decode(&source(&[
        ("sasl_username", "USER"),
        ("security_protocol", "PLAINTEXT"),
        ("sasl_password", "PASS"),
    ]));
    assert_eq!(r, Ok(SecurityProtocol::Plaintext));
}

#[test]
fn security_protocol_has_no_default() {
    let r = KafkaSettings::decode(&source(&[("bootstrap_servers", "ADDRESS")]));
    assert_eq!(r, Err(SchemaError::MissingField(Field::SecurityProtocol)));
    assert_eq!(r.unwrap_err().message(), "missing field `security_protocol`");
}

#[test]
fn bootstrap_servers_are_required() {
    let r = KafkaSettings::decode(&source(&[("security_protocol", "PLAINTEXT")]));
    assert_eq!(r, Err(SchemaError::MissingField(Field::BootstrapServers)));
    let r = KafkaSettings::decode(&source(&[]));
    assert_eq!(r, Err(SchemaError::MissingField(Field::BootstrapServers)));
}

#[test]
fn unknown_protocol_is_rejected() {
    for name in ["plaintext", "Sasl_Ssl", "SASL_PLAINTEXT", "SSL", "", " PLAINTEXT", "PLAINTEXT "] {
        let r = KafkaSettings::decode(&source(&[
            ("bootstrap_servers", "ADDRESS"),
            ("security_protocol", name),
        ]));
        assert_eq!(r, Err(SchemaError::InvalidDiscriminator), "{:?}", name);
    }
    assert_eq!(
        SchemaError::InvalidDiscriminator.message(),
        "unknown security protocol, expected `PLAINTEXT` or `SASL_SSL`"
    );
}

#[test]
fn topics_keep_their_empty_items() {
    let settings = KafkaSettings::decode(&source(&[
        ("bootstrap_servers", "ADDRESS"),
        ("security_protocol", "PLAINTEXT"),
        ("group_id", "group"),
        ("input_topics", ",A,"),
    ]))
    .unwrap();
    assert_eq!(settings.consumer.unwrap().input_topics, strings(&["", "A", ""]));
}

#[test]
fn unique_id_is_false_where_absent() {
    let consumer = ConsumerSettings::decode(&source(&[
        ("group_id", "g"),
        ("input_topics", "t"),
    ]))
    .unwrap()
    .unwrap();
    assert_eq!(
        consumer,
        ConsumerSettings {
            group_id: "g".to_string(),
            input_topics: strings(&["t"]),
            unique_id: false,
        }
    );
}

#[test]
fn unique_id_is_read_as_a_flag() {
    let with = |flag: &str| {
        ConsumerSettings::decode(&source(&[
            ("group_id", "g"),
            ("input_topics", "t"),
            ("unique_id", flag),
        ]))
    };
    assert!(with("true").unwrap().unwrap().unique_id);
    assert!(!with("false").unwrap().unwrap().unique_id);
    for flag in ["True", "1", "yes", "", " true"] {
        assert_eq!(with(flag), Err(SchemaError::InvalidValue(Field::UniqueId)), "{:?}", flag);
    }
    assert_eq!(parse_flag("true"), Some(true));
    assert_eq!(parse_flag("false"), Some(false));
    assert_eq!(parse_flag("FALSE"), None);
}

#[test]
fn consumer_fields_are_required_once_one_is_there() {
    let r = ConsumerSettings::decode(&source(&[("input_topics", "t")]));
    assert_eq!(r, Err(SchemaError::MissingField(Field::GroupId)));
    let r = ConsumerSettings::decode(&source(&[("unique_id", "true")]));
    assert_eq!(r, Err(SchemaError::MissingField(Field::GroupId)));
    let r = ConsumerSettings::decode(&source(&[("group_id", "g")]));
    assert_eq!(r, Err(SchemaError::MissingField(Field::InputTopics)));
    assert_eq!(r.unwrap_err().message(), "missing field `input_topics`");
    let r = ConsumerSettings::decode(&source(&[("acks", "1")]));
    assert_eq!(r, Ok(None));
}

#[test]
fn empty_group_id_and_topics_are_values() {
    let consumer = ConsumerSettings::decode(&source(&[("group_id", ""), ("input_topics", "")]))
        .unwrap()
        .unwrap();
    assert_eq!(consumer.group_id, "");
    assert_eq!(consumer.input_topics, strings(&[""]));
}

#[test]
fn acks_default_to_one() {
    let producer = ProducerSettings::decode(&source(&[("retries", "3")])).unwrap().unwrap();
    assert_eq!(producer, ProducerSettings { acks: Acks::Count(1), retries: 3 });
    assert_eq!(DEFAULT_ACKS, 1);
}

#[test]
fn retries_default_to_the_largest_i32() {
    let producer = ProducerSettings::decode(&source(&[("acks", "all")])).unwrap().unwrap();
    assert_eq!(producer, ProducerSettings { acks: Acks::All, retries: 2147483647 });
    assert_eq!(DEFAULT_RETRIES, i32::MAX as usize);
}

#[test]
fn default_producer_settings() {
    assert_eq!(
        ProducerSettings::default(),
        ProducerSettings { acks: Acks::Count(1), retries: 2147483647 }
    );
}

#[test]
fn no_producer_without_a_producer_key() {
    let r = ProducerSettings::decode(&source(&[("group_id", "g"), ("input_topics", "t")]));
    assert_eq!(r, Ok(None));
}

#[test]
fn acks_are_all_or_a_count() {
    assert_eq!(Acks::parse("all"), Some(Acks::All));
    assert_eq!(Acks::parse("0"), Some(Acks::Count(0)));
    assert_eq!(Acks::parse("1"), Some(Acks::Count(1)));
    assert_eq!(Acks::parse("+2"), Some(Acks::Count(2)));
    assert_eq!(Acks::parse("007"), Some(Acks::Count(7)));
    for text in ["ALL", "All", "-1", "", " 1", "1 ", "1.0", "one", "all ", "+", "0x10"] {
        assert_eq!(Acks::parse(text), None, "{:?}", text);
    }
}

#[test]
fn acks_render_as_the_client_takes_them() {
    assert_eq!(Acks::All.render(), "all");
    assert_eq!(Acks::Count(0).render(), "0");
    assert_eq!(Acks::Count(1).render(), "1");
    assert_eq!(Acks::Count(12).render(), "12");
}

#[test]
fn acks_round_trip() {
    for acks in [Acks::All, Acks::Count(0), Acks::Count(9), Acks::Count(10), Acks::Count(usize::MAX)] {
        assert_eq!(Acks::parse(&acks.render()), Some(acks));
    }
}

#[test]
fn invalid_acks_and_retries_are_errors() {
    let base = [("bootstrap_servers", "ADDRESS"), ("security_protocol", "PLAINTEXT")];
    let with = |key: &str, value: &str| {
        let mut entries = source(&base);
        entries.push((key.to_string(), value.to_string()));
        KafkaSettings::decode(&entries)
    };
    assert_eq!(with("acks", "ALL"), Err(SchemaError::InvalidValue(Field::Acks)));
    assert_eq!(with("acks", "-1"), Err(SchemaError::InvalidValue(Field::Acks)));
    assert_eq!(with("retries", "all"), Err(SchemaError::InvalidValue(Field::Retries)));
    assert_eq!(with("retries", "many"), Err(SchemaError::InvalidValue(Field::Retries)));
    assert_eq!(
        with("retries", "340282366920938463463374607431768211456"),
        Err(SchemaError::InvalidValue(Field::Retries))
    );
    assert_eq!(
        SchemaError::InvalidValue(Field::Retries).message(),
        "invalid value for field `retries`"
    );
}

#[test]
fn empty_values_are_not_defaulted() {
    let r = ProducerSettings::decode(&source(&[("acks", "")]));
    assert_eq!(r, Err(SchemaError::InvalidValue(Field::Acks)));
    let r = ProducerSettings::decode(&source(&[("retries", "")]));
    assert_eq!(r, Err(SchemaError::InvalidValue(Field::Retries)));
    let r = ProducerSettings::decode(&source(&[("acks", ""), ("retries", "")]));
    assert_eq!(r, Err(SchemaError::InvalidValue(Field::Acks)));
}

#[test]
fn errors_come_in_the_order_of_the_fields() {
    let r = KafkaSettings::decode(&source(&[
        ("security_protocol", "NONE"),
        ("group_id", "g"),
        ("acks", "x"),
    ]));
    assert_eq!(r, Err(SchemaError::MissingField(Field::BootstrapServers)));
    let r = KafkaSettings::decode(&source(&[
        ("bootstrap_servers", "ADDRESS"),
        ("security_protocol", "NONE"),
        ("group_id", "g"),
        ("acks", "x"),
    ]));
    assert_eq!(r, Err(SchemaError::InvalidDiscriminator));
    let r = KafkaSettings::decode(&source(&[
        ("bootstrap_servers", "ADDRESS"),
        ("security_protocol", "PLAINTEXT"),
        ("group_id", "g"),
        ("acks", "x"),
    ]));
    assert_eq!(r, Err(SchemaError::MissingField(Field::InputTopics)));
    let r = KafkaSettings::decode(&source(&[
        ("bootstrap_servers", "ADDRESS"),
        ("security_protocol", "PLAINTEXT"),
        ("group_id", "g"),
        ("input_topics", "t"),
        ("acks", "x"),
    ]));
    assert_eq!(r, Err(SchemaError::InvalidValue(Field::Acks)));
}

#[test]
fn full_settings() {
    let settings = KafkaSettings::decode(&source(&[
        ("retries", "5"),
        ("unique_id", "true"),
        ("sasl_password", "PASS"),
        ("input_topics", "t1,t2"),
        ("security_protocol", "SASL_SSL"),
        ("acks", "all"),
        ("bootstrap_servers", "a:1,b:2"),
        ("group_id", "g1"),
        ("sasl_username", "USER"),
        ("unrelated", "ignored"),
    ]))
    .unwrap();
    assert_eq!(
        settings,
        KafkaSettings {
            bootstrap_servers: "a:1,b:2".to_string(),
            security_protocol: SecurityProtocol::SaslSsl {
                sasl_username: "USER".to_string(),
                sasl_password: "PASS".to_string(),
            },
            consumer: Some(ConsumerSettings {
                group_id: "g1".to_string(),
                input_topics: strings(&["t1", "t2"]),
                unique_id: true,
            }),
            producer: Some(ProducerSettings { acks: Acks::All, retries: 5 }),
        }
    );
}

#[test]
fn the_first_entry_of_a_key_counts() {
    let entries = source(&[("a", "1"), ("b", "2"), ("a", "3"), ("", "4")]);
    assert_eq!(lookup(&entries, "a"), Some("1"));
    assert_eq!(lookup(&entries, "b"), Some("2"));
    assert_eq!(lookup(&entries, ""), Some("4"));
    assert_eq!(lookup(&entries, "c"), None);
    assert_eq!(lookup(&entries, "A"), None);
    assert_eq!(lookup(&source(&[]), "a"), None);
}

#[test]
fn fields_have_their_keys() {
    let keys = [
        (Field::BootstrapServers, "bootstrap_servers"),
        (Field::SecurityProtocol, "security_protocol"),
        (Field::SaslUsername, "sasl_username"),
        (Field::SaslPassword, "sasl_password"),
        (Field::GroupId, "group_id"),
        (Field::InputTopics, "input_topics"),
        (Field::UniqueId, "unique_id"),
        (Field::Acks, "acks"),
        (Field::Retries, "retries"),
    ];
    for (field, key) in keys {
        assert_eq!(field.key(), key);
        let entries = source(&[("other", "x"), (key, "value")]);
        assert_eq!(value_of(&entries, field), Some("value"));
    }
    for (i, (a, _)) in keys.iter().enumerate() {
        for (j, (b, _)) in keys.iter().enumerate() {
            assert_eq!(a.key() == b.key(), i == j);
        }
    }
}
