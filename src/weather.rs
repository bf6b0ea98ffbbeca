use vstd::prelude::*;

use crate::rows::{sentinel_row, sentinel_seq, SourceError};
use crate::text::{metric_names, names_of, owned_all, push_text, string_views};

verus! {

/// Metrics a weather source reports.
pub open spec fn weather_metrics() -> Seq<Seq<char>> {
    seq![
        "temperature"@,
        "humidity"@,
        "pressure"@,
        "visibility"@,
        "wind_speed"@,
        "wind_direction"@,
        "cloud_coverage"@,
        "description"@,
    ]
}

/// A weather service queried for one location. `N` is the type of the
/// coordinates.
pub struct WeatherSensor<N> {
    pub name: String,
    pub url: String,
    pub lat: N,
    pub long: N,
    pub app_id: String,
}

/// Weather condition.
pub struct WeatherData<V> {
    pub id: V,
}

/// Temperature, pressure and humidity.
pub struct MainData<V> {
    pub temp: V,
    pub pressure: V,
    pub humidity: V,
}

/// Wind speed and direction.
pub struct WindData<V> {
    pub speed: V,
    pub deg: V,
}

/// Cloud coverage.
pub struct CloudData<V> {
    pub all: V,
}

/// One weather report; every group but the conditions may be absent.
pub struct WeatherInfo<V> {
    pub weather: Vec<WeatherData<V>>,
    pub main: Option<MainData<V>>,
    pub visibility: Option<V>,
    pub wind: Option<WindData<V>>,
    pub clouds: Option<CloudData<V>>,
}

/// The readings of a report: temperature, humidity, pressure, visibility, wind
/// speed, wind direction, cloud coverage and the first condition. A failed
/// fetch, or a report missing any of these, gives sentinels only.
pub open spec fn weather_row_spec<V>(info: Result<WeatherInfo<V>, SourceError>, sentinel: V) -> Seq<V> {
    match info {
        Ok(w) => match (w.main, w.visibility, w.wind, w.clouds) {
            (Some(m), Some(v), Some(d), Some(c)) => if w.weather@.len() == 0 {
                sentinel_seq(8, sentinel)
            } else {
                seq![m.temp, m.humidity, m.pressure, v, d.speed, d.deg, c.all, w.weather@[0].id]
            },
            _ => sentinel_seq(8, sentinel),
        },
        Err(_) => sentinel_seq(8, sentinel),
    }
}

impl<N> WeatherSensor<N> {
    pub fn new(name: String, url: String, lat: N, long: N, app_id: String) -> (r: WeatherSensor<N>)
        ensures
            r.name == name,
            r.url == url,
            r.lat == lat,
            r.long == long,
            r.app_id == app_id,
    {
        WeatherSensor { name, url, lat, long, app_id }
    }

    /// `<name>_<metric>` for each of the eight weather metrics.
    pub fn get_names(&self) -> (r: Vec<String>)
        ensures
            string_views(r@) == names_of(self.name@, weather_metrics()),
    {
        let metrics = owned_all(
            &[
                "temperature",
                "humidity",
                "pressure",
                "visibility",
                "wind_speed",
                "wind_direction",
                "cloud_coverage",
                "description",
            ],
        );
        assert([
            "temperature",
            "humidity",
            "pressure",
            "visibility",
            "wind_speed",
            "wind_direction",
            "cloud_coverage",
            "description",
        ]@.map_values(|s: &str| s@) =~= weather_metrics());
        metric_names(self.name.as_str(), &metrics)
    }

    /// The request for this location, given the coordinates as text.
    pub fn query_url(&self, lat: &str, long: &str) -> (r: String)
        ensures
            r@ == self.url@ + "?lat="@ + lat@ + "&lon="@ + long@ + "&appid="@ + self.app_id@
                + "&units=metric"@,
    {
        let mut r = self.url.clone();
        push_text(&mut r, "?lat=");
        push_text(&mut r, lat);
        push_text(&mut r, "&lon=");
        push_text(&mut r, long);
        push_text(&mut r, "&appid=");
        push_text(&mut r, self.app_id.as_str());
        push_text(&mut r, "&units=metric");
        r
    }
}

/// The row of readings for one fetched (or failed) weather report: one
/// reading per weather metric in every case.
pub fn reading_row<V: Copy>(info: &Result<WeatherInfo<V>, SourceError>, sentinel: V) -> (r: Vec<V>)
    ensures
        r@ == weather_row_spec(*info, sentinel),
        r@.len() == weather_metrics().len(),
{
    let w = match info {
        Err(_) => {
            return sentinel_row(8, sentinel);
        },
        Ok(w) => w,
    };
    match (&w.main, w.visibility, &w.wind, &w.clouds) {
        (Some(m), Some(v), Some(d), Some(c)) => {
            if w.weather.len() == 0 {
                return sentinel_row(8, sentinel);
            }
            let mut r: Vec<V> = Vec::new();
            r.push(m.temp);
            r.push(m.humidity);
            r.push(m.pressure);
            r.push(v);
            r.push(d.speed);
            r.push(d.deg);
            r.push(c.all);
            r.push(w.weather[0].id);
            assert(r@ =~= weather_row_spec(*info, sentinel));
            r
        },
        _ => sentinel_row(8, sentinel),
    }
}

} // verus!
