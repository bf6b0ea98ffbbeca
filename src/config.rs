use vstd::prelude::*;

use crate::foxess::FoxEssOpenAPISensor;
use crate::fritz::{fritz_metrics, FritzSensor};
use crate::power::{power_metrics, PowerSensor};
use crate::rows::{outcome_view, sentinel_seq, settle, settled, total, widths_view, SourceError};
use crate::scheduler::{
    fresh_slow, lemma_row_width_invariant, lemma_slow_columns_held, lemma_slow_columns_refreshed,
    model_wf, run, slow_columns, SchedulerModel, Scheduler, TickInput,
};
use crate::text::{names_of, string_views};
use crate::weather::{weather_metrics, WeatherSensor};

verus! {

/// A value of a source's configuration table, as far as sources read it.
/// `N` is the type of floating-point settings.
pub enum Field<N> {
    Text(String),
    Integer(i64),
    Float(N),
    /// An array; each element that is not text is `None`.
    List(Vec<Option<String>>),
    Other,
}

/// A configuration table: keys with their values (see `keys_unique`).
pub struct Table<N> {
    pub entries: Vec<(String, Field<N>)>,
}

/// A top-level configuration entry.
pub enum Section<N> {
    Table(Table<N>),
    Other,
}

/// The whole configuration: named top-level entries (see `config_wf`). `general` holds the
/// `fast_loop` and `slow_loop` lists of source names; every listed source
/// has a table of its own under its name.
pub struct Config<N> {
    pub data: Vec<(String, Section<N>)>,
}

/// One configured source.
pub enum Sensor<N> {
    Weather(WeatherSensor<N>),
    Power(PowerSensor<N>),
    Fritz(FritzSensor),
    FoxEss(FoxEssOpenAPISensor),
}

/// The sources of the two loops, each in configured order.
pub struct Loops<N> {
    pub fast_loop: Vec<Sensor<N>>,
    pub slow_loop: Vec<Sensor<N>>,
}

/// Why the configuration cannot be turned into sources.
#[derive(Clone, Copy, Debug, PartialEq, Eq, Structural)]
pub enum ConfigError {
    /// `general`, one of its loop lists, or a listed source's entry is missing.
    MissingEntry,
    /// A listed source's entry is not a table.
    NotATable,
    /// A loop list holds something other than a name.
    NotAName,
    /// A source's table has no textual `type`.
    MissingType,
    /// A source's table lacks a field its kind requires.
    MissingFields,
    /// A cloud inverter's `variables` holds something other than text.
    BadVariables,
}

/// Mathematical form of a configured source.
pub enum SensorModel<N> {
    Weather { name: Seq<char>, url: Seq<char>, lat: N, long: N, app_id: Seq<char> },
    Power { name: Seq<char>, bus: Seq<char>, address: u8, expected_amps: N },
    Fritz { name: Seq<char>, url: Seq<char>, user: Seq<char>, password: Seq<char>, ain: Seq<char> },
    FoxEss {
        name: Seq<char>,
        api_key: Seq<char>,
        inverter_id: Seq<char>,
        variables: Seq<Seq<char>>,
        url: Seq<char>,
    },
}

impl<N> View for Sensor<N> {
    type V = SensorModel<N>;

    open spec fn view(&self) -> SensorModel<N> {
        match self {
            Sensor::Weather(w) => SensorModel::Weather {
                name: w.name@,
                url: w.url@,
                lat: w.lat,
                long: w.long,
                app_id: w.app_id@,
            },
            Sensor::Power(p) => SensorModel::Power {
                name: p.name@,
                bus: p.dev_bus@,
                address: p.address,
                expected_amps: p.expected_amps,
            },
            Sensor::Fritz(f) => SensorModel::Fritz {
                name: f.name@,
                url: f.url@,
                user: f.user@,
                password: f.password@,
                ain: f.ain@,
            },
            Sensor::FoxEss(x) => SensorModel::FoxEss {
                name: x.name@,
                api_key: x.api_key@,
                inverter_id: x.inverter_id@,
                variables: string_views(x.variables@),
                url: x.url@,
            },
        }
    }
}

/// Models of a list of sources.
pub open spec fn sensors_view<N>(s: Seq<Sensor<N>>) -> Seq<SensorModel<N>> {
    s.map_values(|x: Sensor<N>| x@)
}

/// The value under `key`: the first entry with that key.
pub open spec fn find<T>(entries: Seq<(String, T)>, key: Seq<char>) -> Option<T>
    decreases entries.len(),
{
    if entries.len() == 0 {
        None
    } else if entries[0].0@ == key {
        Some(entries[0].1)
    } else {
        find(entries.drop_first(), key)
    }
}

/// No key occurs twice.
pub open spec fn keys_unique<T>(entries: Seq<(String, T)>) -> bool {
    forall|i: int, j: int|
        0 <= i < j < entries.len() ==> #[trigger] entries[i].0@ != #[trigger] entries[j].0@
}

/// A well-formed configuration: unique top-level keys, and unique keys in
/// every table.
pub open spec fn config_wf<N>(cfg: Seq<(String, Section<N>)>) -> bool {
    &&& keys_unique(cfg)
    &&& forall|i: int|
        0 <= i < cfg.len() ==> match #[trigger] cfg[i].1 {
            Section::Table(t) => keys_unique(t.entries@),
            Section::Other => true,
        }
}

/// Whether `key` is present.
pub open spec fn has<N>(t: Seq<(String, Field<N>)>, key: Seq<char>) -> bool {
    find(t, key) is Some
}

/// The text under `key`, or `default` when it is absent or not text.
pub open spec fn text_or<N>(t: Seq<(String, Field<N>)>, key: Seq<char>, default: Seq<char>) -> Seq<char> {
    match find(t, key) {
        Some(Field::Text(s)) => s@,
        _ => default,
    }
}

/// The integer under `key`, or `default` when it is absent or not an integer.
pub open spec fn integer_or<N>(t: Seq<(String, Field<N>)>, key: Seq<char>, default: i64) -> i64 {
    match find(t, key) {
        Some(Field::Integer(i)) => i,
        _ => default,
    }
}

/// The float under `key`, or `default` when it is absent or not a float.
pub open spec fn float_or<N>(t: Seq<(String, Field<N>)>, key: Seq<char>, default: N) -> N {
    match find(t, key) {
        Some(Field::Float(x)) => x,
        _ => default,
    }
}

/// Text of an array element known to be text.
pub open spec fn item_text(o: Option<String>) -> Seq<char> {
    match o {
        Some(s) => s@,
        None => seq![],
    }
}

/// The texts of the array under `key`: none when an element is not text,
/// an empty list when the value is not an array.
pub open spec fn texts_of<N>(t: Seq<(String, Field<N>)>, key: Seq<char>) -> Option<Seq<Seq<char>>> {
    match find(t, key) {
        Some(Field::List(items)) => if forall|i: int| 0 <= i < items@.len() ==> #[trigger] items@[i] is Some {
            Some(items@.map_values(|o: Option<String>| item_text(o)))
        } else {
            None
        },
        _ => Some(seq![]),
    }
}

/// The source that a table of the given name describes. Each kind requires
/// its fields to be present; a present field of the wrong type falls back to
/// a default (`zero` and `one` stand for the floating-point numbers 0 and 1).
/// A table of an unknown kind describes no source.
pub open spec fn sensor_spec<N>(name: Seq<char>, t: Seq<(String, Field<N>)>, zero: N, one: N) -> Result<
    Option<SensorModel<N>>,
    ConfigError,
> {
    match find(t, "type"@) {
        Some(Field::Text(kind)) => if kind@ == "weather"@ {
            if !(has(t, "url"@) && has(t, "lat"@) && has(t, "long"@) && has(t, "app_id"@)) {
                Err(ConfigError::MissingFields)
            } else {
                Ok(
                    Some(
                        SensorModel::Weather {
                            name,
                            url: text_or(t, "url"@, "https://api.openweathermap.org/data/2.5/weather"@),
                            lat: float_or(t, "lat"@, zero),
                            long: float_or(t, "long"@, zero),
                            app_id: text_or(t, "app_id"@, ""@),
                        },
                    ),
                )
            }
        } else if kind@ == "power"@ {
            if !(has(t, "bus"@) && has(t, "address"@) && has(t, "expected_amps"@)) {
                Err(ConfigError::MissingFields)
            } else {
                Ok(
                    Some(
                        SensorModel::Power {
                            name,
                            bus: text_or(t, "bus"@, "/dev/i2c-0"@),
                            address: integer_or(t, "address"@, 64) as u8,
                            expected_amps: float_or(t, "expected_amps"@, one),
                        },
                    ),
                )
            }
        } else if kind@ == "fritz"@ {
            if !(has(t, "url"@) && has(t, "user"@) && has(t, "password"@) && has(t, "ain"@)) {
                Err(ConfigError::MissingFields)
            } else {
                Ok(
                    Some(
                        SensorModel::Fritz {
                            name,
                            url: text_or(t, "url"@, "https://192.168.178.1"@),
                            user: text_or(t, "user"@, "admin"@),
                            password: text_or(t, "password"@, "admin"@),
                            ain: text_or(t, "ain"@, "1122334455"@),
                        },
                    ),
                )
            }
        } else if kind@ == "foxess"@ {
            if !(has(t, "api_key"@) && has(t, "inverter_id"@) && has(t, "variables"@)) {
                Err(ConfigError::MissingFields)
            } else {
                match texts_of(t, "variables"@) {
                    None => Err(ConfigError::BadVariables),
                    Some(variables) => Ok(
                        Some(
                            SensorModel::FoxEss {
                                name,
                                api_key: text_or(t, "api_key"@, "bar"@),
                                inverter_id: text_or(t, "inverter_id"@, "123"@),
                                variables,
                                url: text_or(t, "url"@, "https://www.foxesscloud.com"@),
                            },
                        ),
                    ),
                }
            }
        } else {
            Ok(None)
        },
        _ => Err(ConfigError::MissingType),
    }
}

/// Model of a `create_sensor` result.
pub open spec fn created_view<N>(r: Result<Option<Sensor<N>>, ConfigError>) -> Result<Option<SensorModel<N>>, ConfigError> {
    match r {
        Ok(Some(s)) => Ok(Some(s@)),
        Ok(None) => Ok(None),
        Err(e) => Err(e),
    }
}

/// Position of `key` among the keys, and the value there.
fn position<T>(entries: &Vec<(String, T)>, key: &str) -> (r: Option<usize>)
    ensures
        match r {
            Some(i) => i < entries@.len() && find(entries@, key@) == Some(entries@[i as int].1),
            None => find(entries@, key@) is None,
        },
{
    let wanted = key.to_owned();
    let mut i: usize = 0;
    assert(entries@.subrange(0, entries@.len() as int) =~= entries@);
    while i < entries.len()
        invariant
            i <= entries@.len(),
            wanted@ == key@,
            find(entries@, key@) == find(entries@.subrange(i as int, entries@.len() as int), key@),
        decreases entries@.len() - i,
    {
        let ghost rest = entries@.subrange(i as int, entries@.len() as int);
        assert(rest.drop_first() =~= entries@.subrange(i + 1, entries@.len() as int));
        if entries[i].0 == wanted {
            return Some(i);
        }
        i = i + 1;
    }
    None
}

fn has_key<N>(t: &Table<N>, key: &str) -> (r: bool)
    ensures
        r == has(t.entries@, key@),
{
    position(&t.entries, key).is_some()
}

fn text_or_default<N>(t: &Table<N>, key: &str, default: &str) -> (r: String)
    ensures
        r@ == text_or(t.entries@, key@, default@),
{
    match position(&t.entries, key) {
        Some(i) => match &t.entries[i].1 {
            Field::Text(s) => s.clone(),
            _ => default.to_owned(),
        },
        None => default.to_owned(),
    }
}

fn integer_or_default<N>(t: &Table<N>, key: &str, default: i64) -> (r: i64)
    ensures
        r == integer_or(t.entries@, key@, default),
{
    match position(&t.entries, key) {
        Some(i) => match &t.entries[i].1 {
            Field::Integer(v) => *v,
            _ => default,
        },
        None => default,
    }
}

fn float_or_default<N: Copy>(t: &Table<N>, key: &str, default: N) -> (r: N)
    ensures
        r == float_or(t.entries@, key@, default),
{
    match position(&t.entries, key) {
        Some(i) => match &t.entries[i].1 {
            Field::Float(v) => *v,
            _ => default,
        },
        None => default,
    }
}

fn texts<N>(t: &Table<N>, key: &str) -> (r: Option<Vec<String>>)
    ensures
        match texts_of(t.entries@, key@) {
            Some(vs) => r matches Some(v) && string_views(v@) == vs,
            None => r is None,
        },
{
    match position(&t.entries, key) {
        Some(i) => match &t.entries[i].1 {
            Field::List(items) => {
                let mut out: Vec<String> = Vec::new();
                let mut j: usize = 0;
                while j < items.len()
                    invariant
                        j <= items@.len(),
                        find(t.entries@, key@) == Some(Field::<N>::List(*items)),
                        forall|k: int| 0 <= k < j ==> #[trigger] items@[k] is Some,
                        string_views(out@) == items@.subrange(0, j as int).map_values(
                            |o: Option<String>| item_text(o),
                        ),
                    decreases items@.len() - j,
                {
                    match &items[j] {
                        Some(s) => {
                            let ghost prev = out@;
                            out.push(s.clone());
                            proof {
                                assert(string_views(out@) =~= string_views(prev).push(s@));
                                assert(items@.subrange(0, j + 1).map_values(
                                    |o: Option<String>| item_text(o),
                                ) =~= items@.subrange(0, j as int).map_values(
                                    |o: Option<String>| item_text(o),
                                ).push(s@));
                            }
                        },
                        None => {
                            assert(!(items@[j as int] is Some));
                            return None;
                        },
                    }
                    j = j + 1;
                }
                assert(items@.subrange(0, items@.len() as int) =~= items@);
                Some(out)
            },
            _ => {
                let out: Vec<String> = Vec::new();
                assert(string_views(out@) =~= seq![]);
                Some(out)
            },
        },
        None => {
            let out: Vec<String> = Vec::new();
            assert(string_views(out@) =~= seq![]);
            Some(out)
        },
    }
}

/// What a listed source name refers to: its table's source, if the name is
/// text and names a table.
pub open spec fn entry_spec<N>(cfg: Seq<(String, Section<N>)>, item: Option<String>, zero: N, one: N) -> Result<
    Option<SensorModel<N>>,
    ConfigError,
> {
    match item {
        None => Err(ConfigError::NotAName),
        Some(name) => match find(cfg, name@) {
            None => Err(ConfigError::MissingEntry),
            Some(Section::Other) => Err(ConfigError::NotATable),
            Some(Section::Table(t)) => sensor_spec(name@, t.entries@, zero, one),
        },
    }
}

/// The sources of a list of names, in order: names of an unknown kind are
/// skipped, and the first failing name decides the error.
pub open spec fn loop_spec<N>(cfg: Seq<(String, Section<N>)>, items: Seq<Option<String>>, zero: N, one: N) -> Result<
    Seq<SensorModel<N>>,
    ConfigError,
>
    decreases items.len(),
{
    if items.len() == 0 {
        Ok(seq![])
    } else {
        match loop_spec(cfg, items.drop_last(), zero, one) {
            Err(e) => Err(e),
            Ok(prev) => match entry_spec(cfg, items.last(), zero, one) {
                Err(e) => Err(e),
                Ok(None) => Ok(prev),
                Ok(Some(s)) => Ok(prev.push(s)),
            },
        }
    }
}

/// The names listed under `key` in `general`: an error when the key is
/// missing, none when its value is not an array.
pub open spec fn loop_names<N>(general: Seq<(String, Field<N>)>, key: Seq<char>) -> Result<
    Seq<Option<String>>,
    ConfigError,
> {
    match find(general, key) {
        None => Err(ConfigError::MissingEntry),
        Some(Field::List(items)) => Ok(items@),
        Some(_) => Ok(seq![]),
    }
}

/// The sources of one loop.
pub open spec fn members_spec<N>(
    cfg: Seq<(String, Section<N>)>,
    general: Seq<(String, Field<N>)>,
    key: Seq<char>,
    zero: N,
    one: N,
) -> Result<Seq<SensorModel<N>>, ConfigError> {
    match loop_names(general, key) {
        Err(e) => Err(e),
        Ok(items) => loop_spec(cfg, items, zero, one),
    }
}

/// The fast and the slow loop's sources (in that order in the pair). The
/// slow loop is read first, so its errors come first.
pub open spec fn config_spec<N>(cfg: Seq<(String, Section<N>)>, zero: N, one: N) -> Result<
    (Seq<SensorModel<N>>, Seq<SensorModel<N>>),
    ConfigError,
> {
    match find(cfg, "general"@) {
        Some(Section::Table(g)) => match members_spec(cfg, g.entries@, "slow_loop"@, zero, one) {
            Err(e) => Err(e),
            Ok(slow) => match members_spec(cfg, g.entries@, "fast_loop"@, zero, one) {
                Err(e) => Err(e),
                Ok(fast) => Ok((fast, slow)),
            },
        },
        _ => Err(ConfigError::MissingEntry),
    }
}

/// Model of a `get_sensors` result.
pub open spec fn loops_view<N>(r: Result<Loops<N>, ConfigError>) -> Result<
    (Seq<SensorModel<N>>, Seq<SensorModel<N>>),
    ConfigError,
> {
    match r {
        Ok(l) => Ok((sensors_view(l.fast_loop@), sensors_view(l.slow_loop@))),
        Err(e) => Err(e),
    }
}

/// Once a prefix of a name list fails, the whole list fails the same way.
proof fn lemma_loop_error_sticks<N>(
    cfg: Seq<(String, Section<N>)>,
    items: Seq<Option<String>>,
    k: int,
    zero: N,
    one: N,
)
    requires
        0 <= k <= items.len(),
        loop_spec(cfg, items.subrange(0, k), zero, one) is Err,
    ensures
        loop_spec(cfg, items, zero, one) == loop_spec(cfg, items.subrange(0, k), zero, one),
    decreases items.len() - k,
{
    if k == items.len() {
        assert(items.subrange(0, k) =~= items);
    } else {
        let longer = items.subrange(0, k + 1);
        assert(longer.drop_last() =~= items.subrange(0, k));
        lemma_loop_error_sticks(cfg, items, k + 1, zero, one);
    }
}

fn same_text(s: &String, lit: &str) -> (r: bool)
    ensures
        r == (s@ == lit@),
{
    let other = lit.to_owned();
    s.eq(&other)
}

fn build_sensor<N: Copy>(name: &str, t: &Table<N>, zero: N, one: N) -> (r: Result<Option<Sensor<N>>, ConfigError>)
    ensures
        created_view(r) == sensor_spec(name@, t.entries@, zero, one),
{
    let kind = match position(&t.entries, "type") {
        Some(i) => match &t.entries[i].1 {
            Field::Text(k) => k,
            _ => {
                return Err(ConfigError::MissingType);
            },
        },
        None => {
            return Err(ConfigError::MissingType);
        },
    };
    if same_text(kind, "weather") {
        if !(has_key(t, "url") && has_key(t, "lat") && has_key(t, "long") && has_key(t, "app_id")) {
            return Err(ConfigError::MissingFields);
        }
        let sensor = WeatherSensor::new(
            name.to_owned(),
            text_or_default(t, "url", "https://api.openweathermap.org/data/2.5/weather"),
            float_or_default(t, "lat", zero),
            float_or_default(t, "long", zero),
            text_or_default(t, "app_id", ""),
        );
        Ok(Some(Sensor::Weather(sensor)))
    } else if same_text(kind, "power") {
        if !(has_key(t, "bus") && has_key(t, "address") && has_key(t, "expected_amps")) {
            return Err(ConfigError::MissingFields);
        }
        let sensor = PowerSensor::new(
            name.to_owned(),
            text_or_default(t, "bus", "/dev/i2c-0"),
            integer_or_default(t, "address", 64) as u8,
            float_or_default(t, "expected_amps", one),
        );
        Ok(Some(Sensor::Power(sensor)))
    } else if same_text(kind, "fritz") {
        if !(has_key(t, "url") && has_key(t, "user") && has_key(t, "password") && has_key(t, "ain")) {
            return Err(ConfigError::MissingFields);
        }
        let sensor = FritzSensor::new(
            name.to_owned(),
            text_or_default(t, "url", "https://192.168.178.1"),
            text_or_default(t, "user", "admin"),
            text_or_default(t, "password", "admin"),
            text_or_default(t, "ain", "1122334455"),
        );
        Ok(Some(Sensor::Fritz(sensor)))
    } else if same_text(kind, "foxess") {
        if !(has_key(t, "api_key") && has_key(t, "inverter_id") && has_key(t, "variables")) {
            return Err(ConfigError::MissingFields);
        }
        let variables = match texts(t, "variables") {
            Some(v) => v,
            None => {
                return Err(ConfigError::BadVariables);
            },
        };
        let sensor = FoxEssOpenAPISensor::new(
            name.to_owned(),
            text_or_default(t, "api_key", "bar"),
            text_or_default(t, "inverter_id", "123"),
            variables,
            text_or_default(t, "url", "https://www.foxesscloud.com"),
        );
        Ok(Some(Sensor::FoxEss(sensor)))
    } else {
        Ok(None)
    }
}

/// Builds the source that the table `sensor_cfg` of source `name` describes,
/// or none for a table of an unknown kind. `zero` and `one` are the numbers 0
/// and 1 of `N`, the defaults of floating-point settings.
pub fn create_sensor<N: Copy>(name: &str, sensor_cfg: &Table<N>, zero: N, one: N) -> (r: Result<Option<Sensor<N>>, ConfigError>)
    requires
        keys_unique(sensor_cfg.entries@),
    ensures
        created_view(r) == sensor_spec(name@, sensor_cfg.entries@, zero, one),
{
    build_sensor(name, sensor_cfg, zero, one)
}

fn build_entry<N: Copy>(cfg: &Config<N>, item: &Option<String>, zero: N, one: N) -> (r: Result<Option<Sensor<N>>, ConfigError>)
    ensures
        created_view(r) == entry_spec(cfg.data@, *item, zero, one),
{
    match item {
        None => Err(ConfigError::NotAName),
        Some(name) => match position(&cfg.data, name.as_str()) {
            None => Err(ConfigError::MissingEntry),
            Some(i) => match &cfg.data[i].1 {
                Section::Other => Err(ConfigError::NotATable),
                Section::Table(t) => build_sensor(name.as_str(), t, zero, one),
            },
        },
    }
}

fn build_loop<N: Copy>(cfg: &Config<N>, items: &Vec<Option<String>>, zero: N, one: N) -> (r: Result<Vec<Sensor<N>>, ConfigError>)
    ensures
        match loop_spec(cfg.data@, items@, zero, one) {
            Ok(ss) => r matches Ok(v) && sensors_view(v@) == ss,
            Err(e) => r matches Err(e2) && e2 == e,
        },
{
    let mut out: Vec<Sensor<N>> = Vec::new();
    let mut i: usize = 0;
    assert(items@.subrange(0, 0) =~= Seq::<Option<String>>::empty());
    assert(sensors_view(out@) =~= seq![]);
    while i < items.len()
        invariant
            i <= items@.len(),
            loop_spec(cfg.data@, items@.subrange(0, i as int), zero, one) == Ok::<
                Seq<SensorModel<N>>,
                ConfigError,
            >(sensors_view(out@)),
        decreases items@.len() - i,
    {
        let entry = build_entry(cfg, &items[i], zero, one);
        proof {
            let next = items@.subrange(0, i + 1);
            assert(next.drop_last() =~= items@.subrange(0, i as int));
            assert(next.last() == items@[i as int]);
        }
        match entry {
            Err(e) => {
                proof {
                    lemma_loop_error_sticks(cfg.data@, items@, i + 1, zero, one);
                }
                return Err(e);
            },
            Ok(None) => {},
            Ok(Some(s)) => {
                let ghost prev = out@;
                let ghost sv = s@;
                out.push(s);
                assert(sensors_view(out@) =~= sensors_view(prev).push(sv));
            },
        }
        i = i + 1;
    }
    assert(items@.subrange(0, items@.len() as int) =~= items@);
    Ok(out)
}

fn loop_members<N: Copy>(cfg: &Config<N>, general: &Table<N>, key: &str, zero: N, one: N) -> (r: Result<Vec<Sensor<N>>, ConfigError>)
    ensures
        match members_spec(cfg.data@, general.entries@, key@, zero, one) {
            Ok(ss) => r matches Ok(v) && sensors_view(v@) == ss,
            Err(e) => r matches Err(e2) && e2 == e,
        },
{
    match position(&general.entries, key) {
        None => Err(ConfigError::MissingEntry),
        Some(i) => match &general.entries[i].1 {
            Field::List(items) => build_loop(cfg, items, zero, one),
            _ => {
                let out: Vec<Sensor<N>> = Vec::new();
                assert(sensors_view(out@) =~= seq![]);
                Ok(out)
            },
        },
    }
}

fn build_loops<N: Copy>(cfg: &Config<N>, zero: N, one: N) -> (r: Result<Loops<N>, ConfigError>)
    ensures
        loops_view(r) == config_spec(cfg.data@, zero, one),
{
    let general = match position(&cfg.data, "general") {
        Some(i) => match &cfg.data[i].1 {
            Section::Table(g) => g,
            Section::Other => {
                return Err(ConfigError::MissingEntry);
            },
        },
        None => {
            return Err(ConfigError::MissingEntry);
        },
    };
    let slow_loop = match loop_members(cfg, general, "slow_loop", zero, one) {
        Ok(v) => v,
        Err(e) => {
            return Err(e);
        },
    };
    let fast_loop = match loop_members(cfg, general, "fast_loop", zero, one) {
        Ok(v) => v,
        Err(e) => {
            return Err(e);
        },
    };
    Ok(Loops { fast_loop, slow_loop })
}

/// Sorts the configured sources into the fast and the slow loop, each in the
/// order of its list in `general`. Names of an unknown kind are skipped.
/// `zero` and `one` are the numbers 0 and 1 of `N`, the defaults of
/// floating-point settings.
pub fn get_sensors<N: Copy>(cfg: &Config<N>, zero: N, one: N) -> (r: Result<Loops<N>, ConfigError>)
    requires
        config_wf(cfg.data@),
    ensures
        loops_view(r) == config_spec(cfg.data@, zero, one),
{
    build_loops(cfg, zero, one)
}
/// The metric column names of a source.
pub open spec fn sensor_names<N>(s: SensorModel<N>) -> Seq<Seq<char>> {
    match s {
        SensorModel::Weather { name, .. } => names_of(name, weather_metrics()),
        SensorModel::Power { name, .. } => names_of(name, power_metrics()),
        SensorModel::Fritz { name, .. } => names_of(name, fritz_metrics()),
        SensorModel::FoxEss { name, variables, .. } => names_of(name, variables),
    }
}

/// For every source, the row a sampling attempt yields has exactly one
/// reading per metric name, and a failed attempt yields the sentinel for
/// every metric.
pub proof fn lemma_sample_matches_names<N, V>(s: SensorModel<N>, o: Option<Seq<V>>, sentinel: V)
    ensures
        settled(o, sensor_names(s).len(), sentinel).len() == sensor_names(s).len(),
        o is None ==> settled(o, sensor_names(s).len(), sentinel) == sentinel_seq(
            sensor_names(s).len(),
            sentinel,
        ),
{
}

impl<N> Sensor<N> {
    /// The source's metric column names, fixed for its lifetime.
    pub fn get_names(&self) -> (r: Vec<String>)
        ensures
            string_views(r@) == sensor_names(self@),
    {
        match self {
            Sensor::Weather(w) => w.get_names(),
            Sensor::Power(p) => p.get_names(),
            Sensor::Fritz(f) => f.get_names(),
            Sensor::FoxEss(x) => x.get_names(),
        }
    }

    /// The row this source reports for one sampling outcome: its readings when
    /// there is one per metric, else the sentinel for every metric.
    pub fn sample_row<V: Copy>(&self, outcome: &Result<Vec<V>, SourceError>, sentinel: V) -> (r: Vec<V>)
        ensures
            r@ == settled(outcome_view(*outcome), sensor_names(self@).len(), sentinel),
            r@.len() == sensor_names(self@).len(),
    {
        let names = self.get_names();
        assert(string_views(names@).len() == names@.len());
        settle(outcome, names.len(), sentinel)
    }
}

/// Number of metrics of each of a list of sources.
pub open spec fn metric_counts<N>(sensors: Seq<SensorModel<N>>) -> Seq<nat> {
    sensors.map_values(|x: SensorModel<N>| sensor_names(x).len())
}

/// The state of a freshly set-up scheduler for the given fast and slow sources.
pub open spec fn loops_model<N, V>(
    fast: Seq<SensorModel<N>>,
    slow: Seq<SensorModel<N>>,
    period: nat,
    sentinel: V,
) -> SchedulerModel<V> {
    SchedulerModel {
        period,
        tick: 0,
        fast_widths: metric_counts(fast),
        slow_widths: metric_counts(slow),
        cache: Seq::<V>::empty(),
        sentinel,
    }
}

/// The number of metrics of each source of a loop.
pub fn loop_widths<N>(sensors: &Vec<Sensor<N>>) -> (r: Vec<usize>)
    ensures
        widths_view(r@) == metric_counts(sensors_view(sensors@)),
{
    let mut r: Vec<usize> = Vec::new();
    let mut i: usize = 0;
    while i < sensors.len()
        invariant
            i <= sensors@.len(),
            widths_view(r@) == metric_counts(sensors_view(sensors@.subrange(0, i as int))),
        decreases sensors@.len() - i,
    {
        let names = sensors[i].get_names();
        let ghost prev = r@;
        r.push(names.len());
        proof {
            let w = sensor_names(sensors@[i as int]@).len();
            assert(string_views(names@).len() == names@.len());
            assert(widths_view(r@) =~= widths_view(prev).push(w));
            assert(metric_counts(sensors_view(sensors@.subrange(0, i + 1))) =~= metric_counts(
                sensors_view(sensors@.subrange(0, i as int)),
            ).push(w));
        }
        i = i + 1;
    }
    assert(sensors@.subrange(0, sensors@.len() as int) =~= sensors@);
    r
}

/// A scheduler for the configured loops, resampling the slow loop every
/// `slow_period` ticks; none for a period of zero.
pub fn scheduler_for<N, V: Copy>(loops: &Loops<N>, slow_period: u64, sentinel: V) -> (r: Option<Scheduler<V>>)
    ensures
        r is None <==> slow_period == 0,
        r matches Some(s) ==> s.wf() && s@ == loops_model(
            sensors_view(loops.fast_loop@),
            sensors_view(loops.slow_loop@),
            slow_period as nat,
            sentinel,
        ),
{
    Scheduler::new(slow_period, loop_widths(&loops.fast_loop), loop_widths(&loops.slow_loop), sentinel)
}

/// The loops of a valid configuration, run for any number of ticks from a
/// fresh scheduler: every row has one timestamp plus one column per metric of
/// every fast and every slow source; within the first period the slow columns
/// stay those sampled on the first tick; on the tick that starts the next
/// period they are replaced by that tick's fresh slow readings.
pub proof fn lemma_configured_loops<N, V>(
    cfg: Seq<(String, Section<N>)>,
    zero: N,
    one: N,
    period: nat,
    sentinel: V,
    inputs: Seq<TickInput<V>>,
)
    requires
        config_spec(cfg, zero, one) is Ok,
        period >= 1,
    ensures
        ({
            let (fast, slow) = config_spec(cfg, zero, one)->Ok_0;
            let m = loops_model(fast, slow, period, sentinel);
            &&& run(m, inputs).len() == inputs.len()
            &&& forall|k: int|
                0 <= k < inputs.len() ==> (#[trigger] run(m, inputs)[k]).len() == 1 + total(
                    metric_counts(fast),
                ) + total(metric_counts(slow))
            &&& (1 <= inputs.len() <= period ==> forall|k: int|
                0 <= k < inputs.len() ==> slow_columns(m, #[trigger] run(m, inputs)[k]) == fresh_slow(
                    m,
                    inputs[0],
                ))
            &&& (inputs.len() == period + 1 ==> slow_columns(m, run(m, inputs)[period as int])
                == fresh_slow(m, inputs[period as int]))
        }),
{
    let (fast, slow) = config_spec(cfg, zero, one)->Ok_0;
    let m = loops_model(fast, slow, period, sentinel);
    assert(model_wf(m));
    lemma_row_width_invariant(m, inputs);
    if 1 <= inputs.len() <= period {
        lemma_slow_columns_held(m, inputs);
    }
    if inputs.len() == period + 1 {
        lemma_slow_columns_refreshed(m, inputs);
    }
}

} // verus!
