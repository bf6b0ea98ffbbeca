use gridlogger::config::{create_sensor, get_sensors, scheduler_for, Config, ConfigError, Field, Section, Sensor, Table};
use gridlogger::rows::SourceError;

fn text(s: &str) -> Field<f64> {
    Field::Text(s.to_string())
}

fn table(entries: Vec<(&str, Field<f64>)>) -> Table<f64> {
    Table { entries: entries.into_iter().map(|(k, v)| (k.to_string(), v)).collect() }
}

fn names(ns: &[&str]) -> Field<f64> {
    Field::List(ns.iter().map(|n| Some(n.to_string())).collect())
}

// [foo] type="power" bus="" address=0x40 expected_amps=1.0
fn power_foo() -> Table<f64> {
    table(vec![
        ("type", text("power")),
        ("bus", text("")),
        ("address", Field::Integer(0x40)),
        ("expected_amps", Field::Float(1.0)),
    ])
}

// [bar] type="weather" lat=0.0 long=0.0 app_id=123 url="localhost"
fn weather_bar() -> Table<f64> {
    table(vec![
        ("type", text("weather")),
        ("lat", Field::Float(0.0)),
        ("long", Field::Float(0.0)),
        ("app_id", Field::Integer(123)),
        ("url", text("localhost")),
    ])
}

fn test_data() -> Config<f64> {
    Config {
        data: vec![
            (
                "general".to_string(),
                Section::Table(table(vec![
                    ("fast_loop", names(&["foo", "dummy"])),
                    ("slow_loop", names(&["bar"])),
                    ("filename", text("test.csv")),
                ])),
            ),
            ("foo".to_string(), Section::Table(power_foo())),
            ("bar".to_string(), Section::Table(weather_bar())),
            ("dummy".to_string(), Section::Table(table(vec![("type", text("na"))]))),
        ],
    }
}

#[test]
fn test_get_sensors_for_success() {
    let cfg = test_data();
    get_sensors(&cfg, 0.0, 1.0).unwrap();
}

#[test]
fn test_create_sensors_for_success() {
    let cfg = Config {
        data: vec![
            ("foo".to_string(), Section::Table(power_foo())),
            ("bar".to_string(), Section::Table(weather_bar())),
        ],
    };
    let foo = match &cfg.data[0].1 {
        Section::Table(t) => t,
        Section::Other => panic!("not a table"),
    };
    create_sensor("foo", foo, 0.0, 1.0).unwrap();
}

#[test]
fn test_get_sensors_for_sanity() {
    let cfg = test_data();
    let res = get_sensors(&cfg, 0.0, 1.0).unwrap();
    assert_eq!(res.slow_loop.len(), 1);
    assert_eq!(res.fast_loop.len(), 1);
}

#[test]
fn get_sensors_reports_missing_source_tables() {
    // [general] fast_loop=["foo"] slow_loop=["bar"], and nothing else.
    let cfg: Config<f64> = Config {
        data: vec![(
            "general".to_string(),
            Section::Table(table(vec![("fast_loop", names(&["foo"])), ("slow_loop", names(&["bar"]))])),
        )],
    };
    assert!(matches!(get_sensors(&cfg, 0.0, 1.0), Err(ConfigError::MissingEntry)));
}

#[test]
fn get_sensors_reports_errors() {
    let no_general: Config<f64> = Config { data: vec![] };
    assert!(matches!(get_sensors(&no_general, 0.0, 1.0), Err(ConfigError::MissingEntry)));

    let no_slow: Config<f64> = Config {
        data: vec![("general".to_string(), Section::Table(table(vec![("fast_loop", names(&[]))])))],
    };
    assert!(matches!(get_sensors(&no_slow, 0.0, 1.0), Err(ConfigError::MissingEntry)));

    let not_a_name: Config<f64> = Config {
        data: vec![(
            "general".to_string(),
            Section::Table(table(vec![("fast_loop", names(&[])), ("slow_loop", Field::List(vec![None]))])),
        )],
    };
    assert!(matches!(get_sensors(&not_a_name, 0.0, 1.0), Err(ConfigError::NotAName)));

    let not_a_table: Config<f64> = Config {
        data: vec![
            (
                "general".to_string(),
                Section::Table(table(vec![("fast_loop", names(&["x"])), ("slow_loop", names(&[]))])),
            ),
            ("x".to_string(), Section::Other),
        ],
    };
    assert!(matches!(get_sensors(&not_a_table, 0.0, 1.0), Err(ConfigError::NotATable)));
}

#[test]
fn loop_list_that_is_not_an_array_is_empty() {
    let cfg: Config<f64> = Config {
        data: vec![(
            "general".to_string(),
            Section::Table(table(vec![("fast_loop", text("foo")), ("slow_loop", Field::Integer(3))])),
        )],
    };
    let res = get_sensors(&cfg, 0.0, 1.0).unwrap();
    assert!(res.fast_loop.is_empty());
    assert!(res.slow_loop.is_empty());
}

#[test]
fn create_sensor_reports_missing_fields() {
    // [foo] type="power" and [bar] type="weather", without their fields.
    let foo = table(vec![("type", text("power"))]);
    let bar = table(vec![("type", text("weather"))]);
    assert!(matches!(create_sensor("foo", &foo, 0.0, 1.0), Err(ConfigError::MissingFields)));
    assert!(matches!(create_sensor("bar", &bar, 0.0, 1.0), Err(ConfigError::MissingFields)));
    let untyped = table(vec![("url", text("x"))]);
    assert!(matches!(create_sensor("u", &untyped, 0.0, 1.0), Err(ConfigError::MissingType)));
    let fox = table(vec![
        ("type", text("foxess")),
        ("api_key", text("k")),
        ("inverter_id", text("i")),
        ("url", text("u")),
        ("variables", Field::List(vec![Some("a".to_string()), None])),
    ]);
    assert!(matches!(create_sensor("f", &fox, 0.0, 1.0), Err(ConfigError::BadVariables)));
}

#[test]
fn create_sensor_applies_defaults() {
    let power = table(vec![
        ("type", text("power")),
        ("bus", Field::Integer(1)),
        ("address", text("x")),
        ("expected_amps", Field::Integer(2)),
    ]);
    match create_sensor("p", &power, 0.0, 1.0).unwrap() {
        Some(Sensor::Power(p)) => {
            assert_eq!(p.dev_bus, "/dev/i2c-0");
            assert_eq!(p.address, 64);
            assert_eq!(p.expected_amps, 1.0);
        }
        _ => panic!("expected a power sensor"),
    }
    let bar = weather_bar();
    match create_sensor("bar", &bar, 0.0, 1.0).unwrap() {
        Some(Sensor::Weather(w)) => {
            assert_eq!(w.url, "localhost");
            assert_eq!(w.lat, 0.0);
            assert_eq!(w.app_id, "");
        }
        _ => panic!("expected a weather sensor"),
    }
    let fritz = table(vec![
        ("type", text("fritz")),
        ("url", Field::Integer(0)),
        ("user", text("me")),
        ("password", Field::Other),
        ("ain", text("42")),
    ]);
    match create_sensor("fb", &fritz, 0.0, 1.0).unwrap() {
        Some(Sensor::Fritz(f)) => {
            assert_eq!(f.url, "https://192.168.178.1");
            assert_eq!(f.user, "me");
            assert_eq!(f.password, "admin");
            assert_eq!(f.ain, "42");
            assert!(!f.session.is_authenticated());
        }
        _ => panic!("expected a gateway sensor"),
    }
    let fox = table(vec![
        ("type", text("foxess")),
        ("api_key", text("k")),
        ("inverter_id", Field::Float(1.5)),
        ("url", text("https://example.org")),
        ("variables", names(&["pv1", "pv2"])),
    ]);
    match create_sensor("fox", &fox, 0.0, 1.0).unwrap() {
        Some(Sensor::FoxEss(x)) => {
            assert_eq!(x.api_key, "k");
            assert_eq!(x.inverter_id, "123");
            assert_eq!(x.variables, vec!["pv1", "pv2"]);
            assert_eq!(x.url, "https://example.org");
        }
        _ => panic!("expected a cloud inverter sensor"),
    }
}

#[test]
fn address_is_truncated_to_a_byte() {
    let power = table(vec![
        ("type", text("power")),
        ("bus", text("/dev/i2c-1")),
        ("address", Field::Integer(0x140)),
        ("expected_amps", Field::Float(3.2)),
    ]);
    match create_sensor("p", &power, 0.0, 1.0).unwrap() {
        Some(Sensor::Power(p)) => {
            assert_eq!(p.address, 0x40);
            assert_eq!(p.expected_amps, 3.2);
        }
        _ => panic!("expected a power sensor"),
    }
}

#[test]
fn unknown_kind_is_skipped() {
    let na = table(vec![("type", text("na"))]);
    assert!(create_sensor("dummy", &na, 0.0, 1.0).unwrap().is_none());
}

#[test]
fn sensor_names_and_fallback_row_have_equal_width() {
    let cfg = test_data();
    let res = get_sensors(&cfg, 0.0, 1.0).unwrap();
    for s in res.fast_loop.iter().chain(res.slow_loop.iter()) {
        let row = s.sample_row(&Err(SourceError::Transport), -1.0);
        assert_eq!(row.len(), s.get_names().len());
        assert!(row.iter().all(|v| *v == -1.0));
    }
}

#[test]
fn cloud_inverter_url_defaults() {
    let fox = table(vec![
        ("type", text("foxess")),
        ("api_key", text("k")),
        ("inverter_id", text("i")),
        ("variables", names(&["a"])),
    ]);
    match create_sensor("fox", &fox, 0.0, 1.0).unwrap() {
        Some(Sensor::FoxEss(x)) => assert_eq!(x.url, "https://www.foxesscloud.com"),
        _ => panic!("expected a cloud inverter sensor"),
    }
}

#[test]
fn configured_loops_cache_the_slow_row() {
    // A fast power sensor (3 metrics) and a slow cloud inverter (2 metrics), every 3 ticks.
    let cfg = Config {
        data: vec![
            (
                "general".to_string(),
                Section::Table(table(vec![("fast_loop", names(&["foo"])), ("slow_loop", names(&["fox"]))])),
            ),
            ("foo".to_string(), Section::Table(power_foo())),
            (
                "fox".to_string(),
                Section::Table(table(vec![
                    ("type", text("foxess")),
                    ("api_key", text("k")),
                    ("inverter_id", text("i")),
                    ("variables", names(&["a", "b"])),
                ])),
            ),
        ],
    };
    let loops = get_sensors(&cfg, 0.0, 1.0).unwrap();
    let mut s = scheduler_for(&loops, 3, -1.0).unwrap();
    let mut slow_calls = 0u32;
    let mut rows = Vec::new();
    for t in 0..4u32 {
        let fast = vec![Ok(vec![t as f64; 3])];
        let slow = if s.resample_due() {
            let k = slow_calls as f64;
            slow_calls += 1;
            Some(vec![Ok(vec![10.0 * k, 10.0 * k + 1.0])])
        } else {
            None
        };
        rows.push(s.emit(t as f64, &fast, &slow));
    }
    for (t, row) in rows.iter().enumerate() {
        assert_eq!(row.len(), 6);
        assert_eq!(&row[1..4], &[t as f64; 3]);
    }
    assert_eq!(&rows[0][4..6], &[0.0, 1.0]);
    assert_eq!(&rows[1][4..6], &[0.0, 1.0]);
    assert_eq!(&rows[2][4..6], &[0.0, 1.0]);
    assert_eq!(&rows[3][4..6], &[10.0, 11.0]);
    assert_eq!(slow_calls, 2);
    assert!(scheduler_for::<f64, f64>(&loops, 0, -1.0).is_none());
}
