use gridlogger::foxess::FoxEssOpenAPISensor;
use gridlogger::fritz::FritzSensor;
use gridlogger::power::PowerSensor;
use gridlogger::weather::WeatherSensor;

#[test]
fn foxess_test_get_names_for_sanity() {
    let sensor = FoxEssOpenAPISensor::new(
        "fox0".to_string(),
        "123".to_string(),
        "abc".to_string(),
        vec!["foo".to_string(), "bar".to_string()],
        "".to_string(),
    );
    let data: Vec<String> = sensor.get_names();
    assert_eq!(data, vec!["fox0_foo", "fox0_bar"]);
}

#[test]
fn fritz_test_get_names_for_success() {
    let sensor: FritzSensor = FritzSensor::new(
        "fritz".to_string(),
        "".to_string(),
        "foo".to_string(),
        "bar".to_string(),
        "aabbccddeeff".to_string(),
    );
    sensor.get_names();
}

#[test]
fn fritz_test_get_names_for_sanity() {
    let sensor: FritzSensor = FritzSensor::new(
        "fritz".to_string(),
        "".to_string(),
        "foo".to_string(),
        "bar".to_string(),
        "abc".to_string(),
    );
    assert_eq!(
        sensor.get_names(),
        vec!["fritz_power", "fritz_energy", "fritz_temperature"]
    );
}

#[test]
fn power_test_get_names_for_success() {
    let sensor: PowerSensor<f64> = PowerSensor::new("".to_string(), "".to_string(), 0, 0.0);
    sensor.get_names();
}

#[test]
fn power_test_get_names_for_sanity() {
    let sensor: PowerSensor<f64> = PowerSensor::new("foo".to_string(), "".to_string(), 0, 0.0);
    let res: Vec<String> = sensor.get_names();
    assert_eq!(res, vec!["foo_voltage", "foo_current", "foo_power"]);
}

#[test]
fn weather_test_get_names_for_success() {
    let sensor: WeatherSensor<f64> = WeatherSensor::new(
        "test".to_string(),
        "localhost".to_string(),
        0.0,
        0.0,
        "foo".to_string(),
    );
    sensor.get_names();
}

#[test]
fn weather_test_get_names_for_sanity() {
    let sensor = WeatherSensor::new(
        "test".to_string(),
        "localhost:8080/data/2.5/weather".to_string(),
        0.0,
        0.0,
        "foo".to_string(),
    );
    let res: Vec<String> = sensor.get_names();
    assert_eq!(
        res,
        vec![
            "test_temperature",
            "test_humidity",
            "test_pressure",
            "test_visibility",
            "test_wind_speed",
            "test_wind_direction",
            "test_cloud_coverage",
            "test_description"
        ]
    );
}

#[test]
fn names_of_empty_source_name_keep_the_underscore() {
    let sensor = FoxEssOpenAPISensor::new(
        "".to_string(),
        "k".to_string(),
        "i".to_string(),
        vec![],
        "".to_string(),
    );
    assert!(sensor.get_names().is_empty());
    let power: PowerSensor<f64> = PowerSensor::new("".to_string(), "".to_string(), 0, 0.0);
    assert_eq!(power.get_names(), vec!["_voltage", "_current", "_power"]);
}
