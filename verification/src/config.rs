//! The configuration model: which servers to watch, at what address, with
//! which credential, and how often to poll.
//!
//! The configuration file is a key-value document. One top-level key,
//! `refreshInterval`, holds a duration string; every other top-level entry
//! must be a table and names one server, with the fields `enable` (defaults
//! to true), `address` (defaults to `localhost:8000`) and `apiKey` (defaults
//! to empty). A top-level entry that is neither the interval nor a table is
//! a load error, as is a malformed field, a duplicate key, or an interval
//! that does not parse or is zero. An empty document is scaffolded: the
//! default configuration, with a single disabled example server, is returned
//! to be persisted and never started.
//!
//! Whoever reads and decodes the file hands the document over as plain
//! values ([`RawDoc`]); everything from there on is checked here.

use vstd::prelude::*;
use crate::duration::spec_parse_duration_ms;
use crate::duration::parse_duration_ms;

verus! {

/// One configured game server.
#[derive(Debug)]
pub struct ServerConfig {
    pub enabled: bool,
    pub address: String,
    pub credential: String,
}

/// A server together with the name it is configured under.
#[derive(Debug)]
pub struct NamedServer {
    pub name: String,
    pub config: ServerConfig,
}

/// The whole configuration: the poll interval and the named servers.
#[derive(Debug)]
pub struct GlobalConfig {
    pub poll_interval_ms: u64,
    pub servers: Vec<NamedServer>,
}

/// Mathematical image of a [`ServerConfig`].
pub struct ServerConfigView {
    pub enabled: bool,
    pub address: Seq<char>,
    pub credential: Seq<char>,
}

/// Mathematical image of a [`GlobalConfig`].
pub struct GlobalConfigView {
    pub poll_interval_ms: u64,
    pub servers: Seq<(Seq<char>, ServerConfigView)>,
}

impl View for ServerConfig {
    type V = ServerConfigView;

    open spec fn view(&self) -> ServerConfigView {
        ServerConfigView {
            enabled: self.enabled,
            address: self.address@,
            credential: self.credential@,
        }
    }
}

impl View for NamedServer {
    type V = (Seq<char>, ServerConfigView);

    open spec fn view(&self) -> (Seq<char>, ServerConfigView) {
        (self.name@, self.config@)
    }
}

impl View for GlobalConfig {
    type V = GlobalConfigView;

    open spec fn view(&self) -> GlobalConfigView {
        GlobalConfigView {
            poll_interval_ms: self.poll_interval_ms,
            servers: self.servers@.map_values(|ns: NamedServer| ns@),
        }
    }
}

impl GlobalConfigView {
    /// A well-formed configuration polls at a positive interval and names
    /// each server once.
    pub open spec fn wf(self) -> bool {
        &&& self.poll_interval_ms > 0
        &&& forall|a: int, b: int|
            0 <= a < b < self.servers.len() ==> self.servers[a].0 != self.servers[b].0
    }
}

impl GlobalConfig {
    pub open spec fn wf(self) -> bool {
        self@.wf()
    }
}

/// A value of a document entry or of a server field, as plain data: only
/// text and booleans are meaningful to the configuration; everything else
/// is carried as `Other` and rejected where a typed field is expected.
pub enum RawValue {
    Text(String),
    Flag(bool),
    Other,
}

/// One field of a server table.
pub struct RawField {
    pub key: String,
    pub value: RawValue,
}

/// One top-level entry: a plain value or a table of fields.
pub enum RawItem {
    Value(RawValue),
    Table(Vec<RawField>),
}

/// One top-level entry with its key.
pub struct RawEntry {
    pub key: String,
    pub item: RawItem,
}

/// A decoded configuration document, in file order.
pub struct RawDoc {
    pub entries: Vec<RawEntry>,
}

/// Why a non-empty document was rejected. No partial configuration is ever
/// produced: the first offence fails the whole load.
#[derive(PartialEq, Eq, Structural, Clone, Copy, Debug)]
pub enum ConfigError {
    /// The poll-interval key holds something other than text.
    IntervalNotText,
    /// The poll-interval text is not a valid duration.
    BadInterval,
    /// The poll interval parsed to zero.
    ZeroInterval,
    /// A top-level key that is neither the poll interval nor a table.
    UnknownKey,
    /// A server field of the wrong type.
    BadServerField,
    /// A top-level key that occurs twice.
    DuplicateKey,
}

/// What a server looks like before its table's fields are applied: enabled,
/// at the example address, with an empty credential.
pub open spec fn spec_server_field_defaults() -> ServerConfigView {
    ServerConfigView { enabled: true, address: "localhost:8000"@, credential: Seq::empty() }
}

/// The one example server of a scaffolded configuration: the defaults, but
/// disabled, so that it is never started.
pub open spec fn spec_example_server() -> ServerConfigView {
    ServerConfigView { enabled: false, address: "localhost:8000"@, credential: Seq::empty() }
}

/// The scaffolded configuration: a 30-second poll interval and the single
/// disabled example server.
pub open spec fn spec_default_config() -> GlobalConfigView {
    GlobalConfigView {
        poll_interval_ms: 30000,
        servers: seq![("example-server"@, spec_example_server())],
    }
}

/// One server field applied to the server built so far: `enable` must be a
/// flag, `address` and `apiKey` must be text, any other field is ignored.
pub open spec fn spec_apply_server_field(acc: ServerConfigView, f: RawField) -> Result<
    ServerConfigView,
    ConfigError,
> {
    if f.key@ == "enable"@ {
        match f.value {
            RawValue::Flag(b) => Ok(ServerConfigView { enabled: b, ..acc }),
            _ => Err(ConfigError::BadServerField),
        }
    } else if f.key@ == "address"@ {
        match f.value {
            RawValue::Text(s) => Ok(ServerConfigView { address: s@, ..acc }),
            _ => Err(ConfigError::BadServerField),
        }
    } else if f.key@ == "apiKey"@ {
        match f.value {
            RawValue::Text(s) => Ok(ServerConfigView { credential: s@, ..acc }),
            _ => Err(ConfigError::BadServerField),
        }
    } else {
        Ok(acc)
    }
}

/// A server table folded over its fields, first to last.
pub open spec fn spec_server_of_fields(fields: Seq<RawField>, acc: ServerConfigView) -> Result<
    ServerConfigView,
    ConfigError,
>
    decreases fields.len(),
{
    if fields.len() == 0 {
        Ok(acc)
    } else {
        match spec_apply_server_field(acc, fields[0]) {
            Ok(a) => spec_server_of_fields(fields.skip(1), a),
            Err(e) => Err(e),
        }
    }
}

/// The configuration gathered while walking the document: the interval if
/// its key was seen, and the servers so far.
pub struct ConfigAcc {
    pub interval: Option<nat>,
    pub servers: Seq<(Seq<char>, ServerConfigView)>,
}

/// One top-level entry applied to the accumulator.
pub open spec fn spec_apply_entry(acc: ConfigAcc, e: RawEntry) -> Result<ConfigAcc, ConfigError> {
    if e.key@ == "refreshInterval"@ {
        if acc.interval is Some {
            Err(ConfigError::DuplicateKey)
        } else {
            match e.item {
                RawItem::Value(RawValue::Text(s)) => match spec_parse_duration_ms(s@) {
                    Some(v) => if v == 0 {
                        Err(ConfigError::ZeroInterval)
                    } else {
                        Ok(ConfigAcc { interval: Some(v), ..acc })
                    },
                    None => Err(ConfigError::BadInterval),
                },
                _ => Err(ConfigError::IntervalNotText),
            }
        }
    } else {
        match e.item {
            RawItem::Table(fields) => {
                if exists|k: int| 0 <= k < acc.servers.len() && acc.servers[k].0 == e.key@ {
                    Err(ConfigError::DuplicateKey)
                } else {
                    match spec_server_of_fields(fields@, spec_server_field_defaults()) {
                        Ok(sv) => Ok(
                            ConfigAcc { servers: acc.servers.push((e.key@, sv)), ..acc },
                        ),
                        Err(err) => Err(err),
                    }
                }
            },
            _ => Err(ConfigError::UnknownKey),
        }
    }
}

/// The document folded over its entries, first to last.
pub open spec fn spec_fold_doc(entries: Seq<RawEntry>, acc: ConfigAcc) -> Result<
    ConfigAcc,
    ConfigError,
>
    decreases entries.len(),
{
    if entries.len() == 0 {
        Ok(acc)
    } else {
        match spec_apply_entry(acc, entries[0]) {
            Ok(a) => spec_fold_doc(entries.skip(1), a),
            Err(e) => Err(e),
        }
    }
}

/// What a non-empty document loads to: the folded entries, with a 30-second
/// poll interval where the document named none.
pub open spec fn spec_build_config(entries: Seq<RawEntry>) -> Result<
    GlobalConfigView,
    ConfigError,
> {
    match spec_fold_doc(entries, ConfigAcc { interval: None, servers: Seq::empty() }) {
        Ok(acc) => Ok(
            GlobalConfigView {
                poll_interval_ms: match acc.interval {
                    Some(v) => v as u64,
                    None => 30000,
                },
                servers: acc.servers,
            },
        ),
        Err(e) => Err(e),
    }
}

/// What one `load` produced: a configuration scaffolded from an empty
/// document, which the caller must persist, or one read from a non-empty
/// document.
#[derive(Debug)]
pub enum LoadOutcome {
    Scaffolded(GlobalConfig),
    Loaded(GlobalConfig),
}

/// A document of the scaffolded file's shape loads back to the scaffolded
/// configuration: the interval entry `refreshInterval = "30s"` and the one
/// example table with `enable` false, the example address and an empty
/// credential yield exactly the default configuration, with its single
/// disabled server.
pub proof fn lemma_scaffold_loads_default(
    entries: Seq<RawEntry>,
    interval_text: String,
    fields: Seq<RawField>,
    address_text: String,
    credential_text: String,
)
    requires
        entries.len() == 2,
        entries[0].key@ == "refreshInterval"@,
        entries[0].item == RawItem::Value(RawValue::Text(interval_text)),
        interval_text@ == "30s"@,
        entries[1].key@ == "example-server"@,
        entries[1].item matches RawItem::Table(v) && v@ == fields,
        fields.len() == 3,
        fields[0].key@ == "enable"@,
        fields[0].value == RawValue::Flag(false),
        fields[1].key@ == "address"@,
        fields[1].value == RawValue::Text(address_text),
        address_text@ == "localhost:8000"@,
        fields[2].key@ == "apiKey"@,
        fields[2].value == RawValue::Text(credential_text),
        credential_text@ == ""@,
    ensures
        spec_build_config(entries) == Ok::<GlobalConfigView, ConfigError>(spec_default_config()),
{
    reveal_strlit("refreshInterval");
    reveal_strlit("example-server");
    reveal_strlit("enable");
    reveal_strlit("address");
    reveal_strlit("apiKey");
    reveal_strlit("");
    crate::duration::lemma_parse_30s();
    let acc0 = ConfigAcc { interval: None, servers: Seq::empty() };
    assert(spec_apply_entry(acc0, entries[0]) == Ok::<ConfigAcc, ConfigError>(
        ConfigAcc { interval: Some(30000nat), servers: Seq::empty() },
    ));
    let acc1 = ConfigAcc { interval: Some(30000nat), servers: Seq::empty() };
    let defaults = spec_server_field_defaults();
    assert(fields[0].key@ != "refreshInterval"@ && entries[1].key@ != "refreshInterval"@) by {
        assert("refreshInterval"@.len() == 15);
    }
    assert(fields[0].key@ != "address"@ && fields[0].key@ != "apiKey"@) by {
        assert("enable"@.len() == 6 && "address"@.len() == 7 && "apiKey"@.len() == 6);
        assert("enable"@[0] == 'e' && "apiKey"@[0] == 'a');
    }
    let s1 = ServerConfigView { enabled: false, ..defaults };
    assert(spec_apply_server_field(defaults, fields[0]) == Ok::<ServerConfigView, ConfigError>(s1));
    assert(fields[1].key@ != "enable"@ && fields[1].key@ != "refreshInterval"@) by {
        assert("enable"@.len() == 6 && "address"@.len() == 7);
    }
    let s2 = ServerConfigView { address: "localhost:8000"@, ..s1 };
    assert(spec_apply_server_field(s1, fields[1]) == Ok::<ServerConfigView, ConfigError>(s2));
    assert(fields[2].key@ != "enable"@ && fields[2].key@ != "address"@) by {
        assert("enable"@[0] == 'e' && "apiKey"@[0] == 'a');
        assert("address"@.len() == 7 && "apiKey"@.len() == 6);
    }
    let s3 = ServerConfigView { credential: ""@, ..s2 };
    assert(spec_apply_server_field(s2, fields[2]) == Ok::<ServerConfigView, ConfigError>(s3));
    assert(fields.skip(1)[0] == fields[1]);
    assert(fields.skip(1).skip(1) =~= fields.skip(2));
    assert(fields.skip(2)[0] == fields[2]);
    assert(fields.skip(2).skip(1) =~= fields.skip(3));
    assert(fields.skip(3) =~= Seq::<RawField>::empty());
    assert(spec_server_of_fields(fields.skip(3), s3) == Ok::<ServerConfigView, ConfigError>(s3));
    assert(spec_server_of_fields(fields.skip(2), s2) == Ok::<ServerConfigView, ConfigError>(s3));
    assert(spec_server_of_fields(fields.skip(1), s1) == Ok::<ServerConfigView, ConfigError>(s3));
    assert(spec_server_of_fields(fields, defaults) == Ok::<ServerConfigView, ConfigError>(s3));
    assert(s3 == spec_example_server()) by {
        assert(""@.len() == 0);
        assert(""@ =~= Seq::<char>::empty());
    }
    assert(spec_apply_entry(acc1, entries[1]) == Ok::<ConfigAcc, ConfigError>(
        ConfigAcc {
            interval: Some(30000nat),
            servers: Seq::empty().push((entries[1].key@, spec_example_server())),
        },
    ));
    let acc2 = ConfigAcc {
        interval: Some(30000nat),
        servers: Seq::empty().push((entries[1].key@, spec_example_server())),
    };
    assert(entries.skip(1)[0] == entries[1]);
    assert(entries.skip(1).skip(1) =~= entries.skip(2));
    assert(entries.skip(2) =~= Seq::<RawEntry>::empty());
    assert(spec_fold_doc(entries.skip(2), acc2) == Ok::<ConfigAcc, ConfigError>(acc2));
    assert(spec_fold_doc(entries.skip(1), acc1) == Ok::<ConfigAcc, ConfigError>(acc2));
    assert(spec_fold_doc(entries, acc0) == Ok::<ConfigAcc, ConfigError>(acc2));
    assert(acc2.servers =~= spec_default_config().servers);
}

/// The text of the scaffolded configuration file, as it is persisted on
/// first run.
pub open spec fn spec_scaffold_text() -> Seq<char> {
    "refreshInterval = \"30s\"\n\n[example-server]\nenable = false\naddress = \"localhost:8000\"\napiKey = \"\"\n"@
}

/// Builds the text of the scaffolded configuration file.
pub fn scaffold_text() -> (s: String)
    ensures
        s@ == spec_scaffold_text(),
{
    String::from_str(
        "refreshInterval = \"30s\"\n\n[example-server]\nenable = false\naddress = \"localhost:8000\"\napiKey = \"\"\n",
    )
}

/// Builds the scaffolded configuration: one disabled example server, polled
/// every thirty seconds, never started.
pub fn default_config() -> (c: GlobalConfig)
    ensures
        c@ == spec_default_config(),
        c.wf(),
{
    let cfg = ServerConfig {
        enabled: false,
        address: String::from_str("localhost:8000"),
        credential: String::new(),
    };
    let ns = NamedServer { name: String::from_str("example-server"), config: cfg };
    let mut v: Vec<NamedServer> = Vec::new();
    v.push(ns);
    let c = GlobalConfig { poll_interval_ms: 30000, servers: v };
    proof {
        assert(c@.servers =~= seq![("example-server"@, spec_example_server())]);
    }
    c
}

fn apply_server_field(acc: ServerConfig, f: &RawField) -> (r: Result<ServerConfig, ConfigError>)
    ensures
        match r {
            Ok(c) => spec_apply_server_field(acc@, *f) == Ok::<ServerConfigView, ConfigError>(c@),
            Err(e) => spec_apply_server_field(acc@, *f) == Err::<ServerConfigView, ConfigError>(e),
        },
{
    if f.key == String::from_str("enable") {
        match &f.value {
            RawValue::Flag(b) => Ok(ServerConfig { enabled: *b, ..acc }),
            _ => Err(ConfigError::BadServerField),
        }
    } else if f.key == String::from_str("address") {
        match &f.value {
            RawValue::Text(s) => Ok(ServerConfig { address: s.clone(), ..acc }),
            _ => Err(ConfigError::BadServerField),
        }
    } else if f.key == String::from_str("apiKey") {
        match &f.value {
            RawValue::Text(s) => Ok(ServerConfig { credential: s.clone(), ..acc }),
            _ => Err(ConfigError::BadServerField),
        }
    } else {
        Ok(acc)
    }
}

fn server_of_fields(fields: &Vec<RawField>) -> (r: Result<ServerConfig, ConfigError>)
    ensures
        match r {
            Ok(c) => spec_server_of_fields(fields@, spec_server_field_defaults()) == Ok::<
                ServerConfigView,
                ConfigError,
            >(c@),
            Err(e) => spec_server_of_fields(fields@, spec_server_field_defaults()) == Err::<
                ServerConfigView,
                ConfigError,
            >(e),
        },
{
    let mut acc = ServerConfig {
        enabled: true,
        address: String::from_str("localhost:8000"),
        credential: String::new(),
    };
    let mut i: usize = 0;
    proof {
        assert(fields@.skip(0) =~= fields@);
        assert(acc@ == spec_server_field_defaults());
    }
    while i < fields.len()
        invariant
            i <= fields@.len(),
            spec_server_of_fields(fields@, spec_server_field_defaults()) == spec_server_of_fields(
                fields@.skip(i as int),
                acc@,
            ),
        decreases fields@.len() - i,
    {
        proof {
            assert(fields@.skip(i as int)[0] == fields@[i as int]);
            assert(fields@.skip(i as int).skip(1) =~= fields@.skip(i + 1 as int));
        }
        acc = match apply_server_field(acc, &fields[i]) {
            Ok(a) => a,
            Err(e) => {
                return Err(e);
            },
        };
        i = i + 1;
    }
    proof {
        assert(fields@.skip(fields@.len() as int) =~= Seq::<RawField>::empty());
    }
    Ok(acc)
}

fn contains_name(v: &Vec<NamedServer>, name: &String) -> (b: bool)
    ensures
        b == exists|k: int| 0 <= k < v@.len() && (#[trigger] v@[k]).name@ == name@,
{
    let mut i: usize = 0;
    while i < v.len()
        invariant
            i <= v@.len(),
            forall|k: int| 0 <= k < i ==> (#[trigger] v@[k]).name@ != name@,
        decreases v@.len() - i,
    {
        if v[i].name == *name {
            return true;
        }
        i = i + 1;
    }
    false
}

/// The accumulator's image while the document is walked.
pub open spec fn spec_acc_of(interval: Option<u64>, servers: Seq<NamedServer>) -> ConfigAcc {
    ConfigAcc {
        interval: match interval {
            Some(v) => Some(v as nat),
            None => None,
        },
        servers: servers.map_values(|ns: NamedServer| ns@),
    }
}

/// Loads a decoded configuration document.
///
/// An empty document is scaffolded: the default configuration comes back
/// marked for persisting, holding exactly the one disabled example server.
/// A non-empty document is folded entry by entry; the first offence fails
/// the whole load with the error that names it, and no configuration is
/// produced. A loaded configuration is well-formed: its poll interval is
/// positive and its server names are unique.
pub fn build_config(doc: RawDoc) -> (r: Result<LoadOutcome, ConfigError>)
    ensures
        match r {
            Ok(LoadOutcome::Scaffolded(c)) => doc.entries@.len() == 0 && c@ == spec_default_config()
                && c.wf(),
            Ok(LoadOutcome::Loaded(c)) => doc.entries@.len() > 0 && spec_build_config(doc.entries@)
                == Ok::<GlobalConfigView, ConfigError>(c@) && c.wf(),
            Err(e) => doc.entries@.len() > 0 && spec_build_config(doc.entries@) == Err::<
                GlobalConfigView,
                ConfigError,
            >(e),
        },
{
    if doc.entries.len() == 0 {
        return Ok(LoadOutcome::Scaffolded(default_config()));
    }
    let mut interval: Option<u64> = None;
    let mut servers: Vec<NamedServer> = Vec::new();
    let mut i: usize = 0;
    proof {
        assert(servers@.map_values(|ns: NamedServer| ns@) =~= Seq::<
            (Seq<char>, ServerConfigView),
        >::empty());
        assert(doc.entries@.skip(0) =~= doc.entries@);
        assert(spec_acc_of(None, servers@) == ConfigAcc {
            interval: None,
            servers: Seq::empty(),
        });
    }
    while i < doc.entries.len()
        invariant
            i <= doc.entries@.len(),
            spec_fold_doc(
                doc.entries@,
                ConfigAcc { interval: None, servers: Seq::empty() },
            ) == spec_fold_doc(doc.entries@.skip(i as int), spec_acc_of(interval, servers@)),
            match interval {
                Some(v) => v > 0,
                None => true,
            },
            forall|a: int, b: int|
                0 <= a < b < servers@.len() ==> (#[trigger] servers@[a]).name@ != (
                #[trigger] servers@[b]).name@,
        decreases doc.entries@.len() - i,
    {
        proof {
            assert(doc.entries@.skip(i as int)[0] == doc.entries@[i as int]);
            assert(doc.entries@.skip(i as int).skip(1) =~= doc.entries@.skip(i + 1 as int));
        }
        let e = &doc.entries[i];
        if e.key == String::from_str("refreshInterval") {
            if interval.is_some() {
                return Err(ConfigError::DuplicateKey);
            }
            match &e.item {
                RawItem::Value(RawValue::Text(s)) => {
                    match parse_duration_ms(s.as_str()) {
                        Some(v) => {
                            proof {
                                crate::duration::lemma_parse_from_bounded(s@, 0, 0);
                            }
                            if v == 0 {
                                return Err(ConfigError::ZeroInterval);
                            }
                            interval = Some(v);
                        },
                        None => {
                            return Err(ConfigError::BadInterval);
                        },
                    }
                },
                _ => {
                    return Err(ConfigError::IntervalNotText);
                },
            }
        } else {
            match &e.item {
                RawItem::Table(fields) => {
                    if contains_name(&servers, &e.key) {
                        proof {
                            let sv = spec_acc_of(interval, servers@).servers;
                            let k = choose|k: int|
                                0 <= k < servers@.len() && (#[trigger] servers@[k]).name@ == e.key@;
                            assert(sv[k].0 == e.key@);
                        }
                        return Err(ConfigError::DuplicateKey);
                    }
                    let sc = match server_of_fields(fields) {
                        Ok(c) => c,
                        Err(err) => {
                            proof {
                                let sv = spec_acc_of(interval, servers@).servers;
                                assert(forall|k: int|
                                    0 <= k < sv.len() ==> (#[trigger] sv[k]).0 == servers@[
                                    k].name@);
                            }
                            return Err(err);
                        },
                    };
                    proof {
                        let sv = spec_acc_of(interval, servers@).servers;
                        assert(forall|k: int|
                            0 <= k < sv.len() ==> (#[trigger] sv[k]).0 == servers@[k].name@);
                    }
                    let ns = NamedServer { name: e.key.clone(), config: sc };
                    let ghost old_servers = servers@;
                    servers.push(ns);
                    proof {
                        assert(servers@.map_values(|n: NamedServer| n@) =~= old_servers.map_values(
                            |n: NamedServer| n@,
                        ).push((e.key@, sc@)));
                    }
                },
                _ => {
                    return Err(ConfigError::UnknownKey);
                },
            }
        }
        i = i + 1;
    }
    proof {
        assert(doc.entries@.skip(doc.entries@.len() as int) =~= Seq::<RawEntry>::empty());
    }
    let poll: u64 = match interval {
        Some(v) => v,
        None => 30000,
    };
    let c = GlobalConfig { poll_interval_ms: poll, servers };
    Ok(LoadOutcome::Loaded(c))
}

} // verus!
