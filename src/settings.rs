//! The settings record and the JSON document that stores it.
use vstd::prelude::*;
use crate::json::{
    entry_map, from_entries, json_pretty, from_list, from_text, from_unsigned, json_shape, member, JsonShape,
};

verus! {

/// The port a fresh settings file listens on.
pub const DEFAULT_PORT: u16 = 20925;

/// The settings of the service.
#[derive(Clone, Debug)]
pub struct Config {
    /// Port the service listens on.
    pub port: u16,
    /// Backend addresses, `host:port`, in order of preference.
    pub servers: Vec<String>,
    /// Name of the selection strategy; not interpreted here.
    pub preferred_algorithm: String,
}

/// The settings as mathematical values.
pub struct ConfigModel {
    pub port: u16,
    pub servers: Seq<Seq<char>>,
    pub preferred_algorithm: Seq<char>,
}

/// A member of the settings document.
#[derive(Clone, Copy, Debug, PartialEq, Eq, Structural)]
pub enum Field {
    Port,
    Servers,
    PreferredAlgorithm,
}

/// Why a JSON text does not describe settings.
#[derive(Clone, Copy, Debug, PartialEq, Eq, Structural)]
pub enum Fault {
    /// The text is not JSON at all.
    Syntax,
    /// The document is JSON but not an object.
    NotAnObject,
    /// The object lacks a member.
    Missing(Field),
    /// A member holds a value of the wrong kind or out of range.
    Invalid(Field),
}

impl View for Config {
    type V = ConfigModel;

    open spec fn view(&self) -> ConfigModel {
        ConfigModel {
            port: self.port,
            servers: self.servers@.map_values(|s: String| s@),
            preferred_algorithm: self.preferred_algorithm@,
        }
    }
}

pub open spec fn port_key() -> Seq<char> {
    "port"@
}

pub open spec fn servers_key() -> Seq<char> {
    "servers"@
}

pub open spec fn algorithm_key() -> Seq<char> {
    "preferred_algorithm"@
}

/// The settings that a fresh file holds.
pub open spec fn default_model() -> ConfigModel {
    ConfigModel { port: DEFAULT_PORT, servers: Seq::empty(), preferred_algorithm: "random"@ }
}

/// A valid port: an integer that fits in 16 bits.
pub open spec fn port_value(v: serde_json::Value) -> Option<u16> {
    match json_shape(v) {
        JsonShape::Unsigned(n) => if n <= u16::MAX as u64 {
            Some(n as u16)
        } else {
            None
        },
        _ => None,
    }
}

pub open spec fn is_text(v: serde_json::Value) -> bool {
    json_shape(v) is Text
}

pub open spec fn text_of(v: serde_json::Value) -> Seq<char> {
    json_shape(v)->Text_0
}

/// A valid server list: an array of strings.
pub open spec fn servers_value(v: serde_json::Value) -> Option<Seq<Seq<char>>> {
    match json_shape(v) {
        JsonShape::List(items) => if forall|i: int| 0 <= i < items.len() ==> is_text(#[trigger] items[i]) {
            Some(items.map_values(|x: serde_json::Value| text_of(x)))
        } else {
            None
        },
        _ => None,
    }
}

/// A valid strategy name: a string.
pub open spec fn algorithm_value(v: serde_json::Value) -> Option<Seq<char>> {
    match json_shape(v) {
        JsonShape::Text(s) => Some(s),
        _ => None,
    }
}

/// Reads one member of an object with `read`, or names what is wrong with it.
pub open spec fn read_member<T>(
    m: Map<Seq<char>, serde_json::Value>,
    key: Seq<char>,
    field: Field,
    read: spec_fn(serde_json::Value) -> Option<T>,
) -> Result<T, Fault> {
    if !m.contains_key(key) {
        Err(Fault::Missing(field))
    } else {
        match read(m[key]) {
            Some(x) => Ok(x),
            None => Err(Fault::Invalid(field)),
        }
    }
}

/// The settings that a JSON document describes. The members are checked in the
/// order port, servers, preferred_algorithm; other members are ignored.
pub open spec fn decode(v: serde_json::Value) -> Result<ConfigModel, Fault> {
    match json_shape(v) {
        JsonShape::Object(m) => match read_member(m, port_key(), Field::Port, |x| port_value(x)) {
            Err(f) => Err(f),
            Ok(port) => match read_member(m, servers_key(), Field::Servers, |x| servers_value(x)) {
                Err(f) => Err(f),
                Ok(servers) => match read_member(
                    m,
                    algorithm_key(),
                    Field::PreferredAlgorithm,
                    |x| algorithm_value(x),
                ) {
                    Err(f) => Err(f),
                    Ok(preferred_algorithm) => Ok(ConfigModel { port, servers, preferred_algorithm }),
                },
            },
        },
        _ => Err(Fault::NotAnObject),
    }
}

/// The document that stores settings: an object with exactly the three members.
pub open spec fn encodes(v: serde_json::Value, c: ConfigModel) -> bool {
    json_shape(v) matches JsonShape::Object(m) && {
        &&& m.dom() == set![port_key(), servers_key(), algorithm_key()]
        &&& json_shape(m[port_key()]) == JsonShape::Unsigned(c.port as u64)
        &&& json_shape(m[servers_key()]) matches JsonShape::List(items) && items.len()
            == c.servers.len() && forall|i: int|
            0 <= i < items.len() ==> json_shape(#[trigger] items[i]) == JsonShape::Text(
                c.servers[i],
            )
        &&& json_shape(m[algorithm_key()]) == JsonShape::Text(c.preferred_algorithm)
    }
}

impl Default for Config {
    fn default() -> (r: Config)
        ensures
            r@ == default_model(),
    {
        let r = Config {
            port: DEFAULT_PORT,
            servers: Vec::new(),
            preferred_algorithm: String::from_str("random"),
        };
        assert(r@.servers =~= Seq::<Seq<char>>::empty());
        r
    }
}

impl PartialEq for Config {
    fn eq(&self, other: &Config) -> (r: bool) {
        if self.port != other.port || self.servers.len() != other.servers.len()
            || self.preferred_algorithm != other.preferred_algorithm {
            assert(self@.port != other@.port || self@.servers.len() != other@.servers.len()
                || self@.preferred_algorithm != other@.preferred_algorithm);
            return false;
        }
        let mut i: usize = 0;
        while i < self.servers.len()
            invariant
                i <= self.servers@.len(),
                self.servers@.len() == other.servers@.len(),
                forall|j: int| 0 <= j < i ==> self.servers@[j]@ == other.servers@[j]@,
            decreases self.servers@.len() - i,
        {
            if self.servers[i] != other.servers[i] {
                assert(self@.servers[i as int] != other@.servers[i as int]);
                return false;
            }
            i = i + 1;
        }
        assert(self@.servers =~= other@.servers);
        true
    }
}

impl vstd::std_specs::cmp::PartialEqSpecImpl for Config {
    open spec fn obeys_eq_spec() -> bool {
        true
    }

    open spec fn eq_spec(&self, other: &Config) -> bool {
        self@ == other@
    }
}

impl Config {
    /// The JSON document that stores these settings.
    pub fn to_document(&self) -> (r: serde_json::Value)
        ensures
            encodes(r, self@),
    {
        let mut items: Vec<serde_json::Value> = Vec::new();
        let mut i: usize = 0;
        while i < self.servers.len()
            invariant
                i <= self.servers@.len(),
                items@.len() == i,
                forall|j: int| 0 <= j < i ==> json_shape(#[trigger] items@[j]) == JsonShape::Text(
                    self.servers@[j]@,
                ),
            decreases self.servers@.len() - i,
        {
            items.push(from_text(self.servers[i].clone()));
            i = i + 1;
        }
        let mut entries: Vec<(String, serde_json::Value)> = Vec::new();
        entries.push((String::from_str("port"), from_unsigned(self.port as u64)));
        entries.push((String::from_str("servers"), from_list(items)));
        entries.push(
            (String::from_str("preferred_algorithm"), from_text(self.preferred_algorithm.clone())),
        );
        proof {
            reveal_strlit("port");
            reveal_strlit("servers");
            reveal_strlit("preferred_algorithm");
            assert(entries@[0].0@ == port_key());
            assert(entries@[1].0@ == servers_key());
            assert(entries@[2].0@ == algorithm_key());
            assert(port_key().len() == 4 && servers_key().len() == 7);
            assert(algorithm_key().len() == 19);
            reveal_with_fuel(entry_map, 4);
            assert(entries@.drop_last().drop_last().drop_last() =~= Seq::empty());
            assert(entries@.drop_last().drop_last() =~= seq![entries@[0]]);
            assert(entries@.drop_last() =~= seq![entries@[0], entries@[1]]);
            let m = entry_map(entries@);
            assert(m.dom() =~= set![port_key(), servers_key(), algorithm_key()]);
            assert(m[port_key()] == entries@[0].1);
            assert(m[servers_key()] == entries@[1].1);
            assert(m[algorithm_key()] == entries@[2].1);
        }
        from_entries(entries)
    }

    /// The settings that a JSON document describes, or what is wrong with it.
    pub fn from_document(v: &serde_json::Value) -> (r: Result<Config, Fault>)
        ensures
            match decode(*v) {
                Ok(c) => r matches Ok(x) && x@ == c,
                Err(f) => r == Err::<Config, Fault>(f),
            },
    {
        if !v.is_object() {
            return Err(Fault::NotAnObject);
        }
        let port: u16 = match member(v, "port") {
            None => return Err(Fault::Missing(Field::Port)),
            Some(x) => match x.as_u64() {
                Some(n) => if n <= u16::MAX as u64 {
                    n as u16
                } else {
                    return Err(Fault::Invalid(Field::Port));
                },
                None => return Err(Fault::Invalid(Field::Port)),
            },
        };
        let servers: Vec<String> = match member(v, "servers") {
            None => return Err(Fault::Missing(Field::Servers)),
            Some(x) => match x.as_array() {
                None => return Err(Fault::Invalid(Field::Servers)),
                Some(items) => match texts(items) {
                    Some(out) => out,
                    None => return Err(Fault::Invalid(Field::Servers)),
                },
            },
        };
        let preferred_algorithm: String = match member(v, "preferred_algorithm") {
            None => return Err(Fault::Missing(Field::PreferredAlgorithm)),
            Some(x) => match x.as_str() {
                Some(s) => s.to_owned(),
                None => return Err(Fault::Invalid(Field::PreferredAlgorithm)),
            },
        };
        Ok(Config { port, servers, preferred_algorithm })
    }
}

/// The strings of a list of values, if every one of them is a string.
fn texts(items: &Vec<serde_json::Value>) -> (r: Option<Vec<String>>)
    ensures
        match r {
            Some(out) => (forall|i: int| 0 <= i < items@.len() ==> is_text(#[trigger] items@[i]))
                && out@.map_values(|s: String| s@) == items@.map_values(
                |x: serde_json::Value| text_of(x),
            ),
            None => !(forall|i: int| 0 <= i < items@.len() ==> is_text(#[trigger] items@[i])),
        },
{
    let mut out: Vec<String> = Vec::new();
    let mut i: usize = 0;
    while i < items.len()
        invariant
            i <= items@.len(),
            out@.len() == i,
            forall|j: int| 0 <= j < i ==> is_text(#[trigger] items@[j]),
            forall|j: int| 0 <= j < i ==> #[trigger] out@[j]@ == text_of(items@[j]),
        decreases items@.len() - i,
    {
        match items[i].as_str() {
            Some(s) => out.push(s.to_owned()),
            None => {
                assert(!is_text(items@[i as int]));
                return None;
            },
        }
        i = i + 1;
    }
    assert(out@.map_values(|s: String| s@) =~= items@.map_values(
        |x: serde_json::Value| text_of(x),
    ));
    Some(out)
}

/// `v` is the document of some settings.
pub open spec fn is_settings_document(v: serde_json::Value) -> bool {
    exists|c: ConfigModel| encodes(v, c)
}

/// `text` is what serde_json prints for a document that stores the settings `c`.
pub open spec fn stores(text: Seq<char>, c: ConfigModel) -> bool {
    exists|v: serde_json::Value| encodes(v, c) && json_pretty(v) == text
}

/// Every document that stores settings reads back as those same settings.
pub proof fn lemma_round_trip(v: serde_json::Value, c: ConfigModel)
    requires
        encodes(v, c),
    ensures
        decode(v) == Ok::<ConfigModel, Fault>(c),
{
    reveal_strlit("port");
    reveal_strlit("servers");
    reveal_strlit("preferred_algorithm");
    let m = json_shape(v)->Object_0;
    assert(m.contains_key(port_key()));
    assert(m.contains_key(servers_key()));
    assert(m.contains_key(algorithm_key()));
    let items = json_shape(m[servers_key()])->List_0;
    assert(forall|i: int| 0 <= i < items.len() ==> is_text(#[trigger] items[i]));
    assert(items.map_values(|x: serde_json::Value| text_of(x)) =~= c.servers);
}

} // verus!
