use player_count_bot::config::{
    build_config, default_config, scaffold_text, ConfigError, GlobalConfig, LoadOutcome, RawDoc,
    RawEntry, RawField, RawItem, RawValue,
};

/// Decodes TOML text into the plain document the library loads from, the
/// way the application shell does before calling `build_config`.
fn doc_of_toml(text: &str) -> RawDoc {
    let table: toml::Table = toml::from_str(text).expect("valid TOML");
    let mut entries = Vec::new();
    for (key, value) in table {
        let item = match value {
            toml::Value::Table(t) => {
                let mut fields = Vec::new();
                for (k, v) in t {
                    fields.push(RawField { key: k, value: raw_value_of(v) });
                }
                RawItem::Table(fields)
            }
            other => RawItem::Value(raw_value_of(other)),
        };
        entries.push(RawEntry { key, item });
    }
    RawDoc { entries }
}

fn raw_value_of(v: toml::Value) -> RawValue {
    match v {
        toml::Value::String(s) => RawValue::Text(s),
        toml::Value::Boolean(b) => RawValue::Flag(b),
        _ => RawValue::Other,
    }
}

fn loaded(doc: RawDoc) -> GlobalConfig {
    match build_config(doc) {
        Ok(LoadOutcome::Loaded(c)) => c,
        other => panic!("expected a loaded configuration, got {:?}", other),
    }
}

#[test]
fn empty_document_scaffolds_single_disabled_example() {
    let doc = doc_of_toml("");
    match build_config(doc) {
        Ok(LoadOutcome::Scaffolded(c)) => {
            assert_eq!(c.poll_interval_ms, 30_000);
            assert_eq!(c.servers.len(), 1);
            assert_eq!(c.servers[0].name, "example-server");
            assert!(!c.servers[0].config.enabled);
            assert_eq!(c.servers[0].config.address, "localhost:8000");
            assert_eq!(c.servers[0].config.credential, "");
        }
        _ => panic!("an empty document must scaffold"),
    }
}

#[test]
fn scaffold_text_loads_back_to_the_default_config() {
    let text = scaffold_text();
    let doc = doc_of_toml(&text);
    let c = loaded(doc);
    let d = default_config();
    assert_eq!(c.poll_interval_ms, d.poll_interval_ms);
    assert_eq!(c.servers.len(), 1);
    assert_eq!(c.servers[0].name, d.servers[0].name);
    assert_eq!(c.servers[0].config.enabled, d.servers[0].config.enabled);
    assert_eq!(c.servers[0].config.address, d.servers[0].config.address);
    assert_eq!(c.servers[0].config.credential, d.servers[0].config.credential);
}

#[test]
fn servers_and_interval_load() {
    let text = "refreshInterval = \"1m30s\"\n\n[alpha]\naddress = \"game.example:27015\"\napiKey = \"k\"\n\n[beta]\nenable = false\n";
    let c = loaded(doc_of_toml(text));
    assert_eq!(c.poll_interval_ms, 90_000);
    assert_eq!(c.servers.len(), 2);
    assert_eq!(c.servers[0].name, "alpha");
    assert!(c.servers[0].config.enabled, "enable defaults to true");
    assert_eq!(c.servers[0].config.address, "game.example:27015");
    assert_eq!(c.servers[0].config.credential, "k");
    assert_eq!(c.servers[1].name, "beta");
    assert!(!c.servers[1].config.enabled);
    assert_eq!(c.servers[1].config.address, "localhost:8000");
}

#[test]
fn missing_interval_defaults_to_thirty_seconds() {
    let c = loaded(doc_of_toml("[alpha]\naddress = \"a:1\"\n"));
    assert_eq!(c.poll_interval_ms, 30_000);
}

#[test]
fn unparsable_interval_fails_the_load() {
    let doc = doc_of_toml("refreshInterval = \"soon\"\n");
    assert_eq!(build_config(doc).unwrap_err(), ConfigError::BadInterval);
}

#[test]
fn zero_interval_fails_the_load() {
    let doc = doc_of_toml("refreshInterval = \"0s\"\n");
    assert_eq!(build_config(doc).unwrap_err(), ConfigError::ZeroInterval);
}

#[test]
fn interval_of_the_wrong_type_fails_the_load() {
    let doc = doc_of_toml("refreshInterval = 30\n");
    assert_eq!(build_config(doc).unwrap_err(), ConfigError::IntervalNotText);
}

#[test]
fn unknown_top_level_key_fails_the_load() {
    let doc = doc_of_toml("color = \"green\"\n");
    assert_eq!(build_config(doc).unwrap_err(), ConfigError::UnknownKey);
}

#[test]
fn malformed_server_field_fails_the_load() {
    let doc = doc_of_toml("[alpha]\nenable = \"yes\"\n");
    assert_eq!(build_config(doc).unwrap_err(), ConfigError::BadServerField);
    let doc = doc_of_toml("[alpha]\naddress = 5\n");
    assert_eq!(build_config(doc).unwrap_err(), ConfigError::BadServerField);
}

#[test]
fn duplicate_server_name_fails_the_load() {
    let doc = RawDoc {
        entries: vec![
            RawEntry { key: String::from("alpha"), item: RawItem::Table(Vec::new()) },
            RawEntry { key: String::from("alpha"), item: RawItem::Table(Vec::new()) },
        ],
    };
    assert_eq!(build_config(doc).unwrap_err(), ConfigError::DuplicateKey);
}

#[test]
fn repeated_interval_key_fails_the_load() {
    let doc = RawDoc {
        entries: vec![
            RawEntry {
                key: String::from("refreshInterval"),
                item: RawItem::Value(RawValue::Text(String::from("30s"))),
            },
            RawEntry {
                key: String::from("refreshInterval"),
                item: RawItem::Value(RawValue::Text(String::from("1m"))),
            },
        ],
    };
    assert_eq!(build_config(doc).unwrap_err(), ConfigError::DuplicateKey);
}

#[test]
fn unknown_server_fields_are_ignored() {
    let c = loaded(doc_of_toml("[alpha]\nnickname = \"al\"\n"));
    assert_eq!(c.servers.len(), 1);
    assert!(c.servers[0].config.enabled);
}
