//! The poll-compute-publish state machine.
//!
//! A [`Station`] owns the gauge registry, the handles of the fixed set of
//! gauges, the poll period and the currently resolved city label. One tick
//! hands in the outcome of the weather fetch and the outcome of the air
//! pollution fetch; a successful weather fetch resolves the city label from
//! the response and writes the weather series under it, a successful air
//! pollution fetch writes the pollution series under the currently resolved
//! label, and a failed fetch changes nothing of its source. The tick always
//! asks the caller to sleep the full configured period, whatever failed.
//!
//! The outside work of a tick — the two HTTP fetches, the JSON decoding, the
//! floating-point dew point formula and the sleep — happens outside the
//! core; the station takes its results as plain values and decides what the
//! registry becomes.

use vstd::prelude::*;

use crate::provider::{OpenWeatherMapAirPollutionData, OpenWeatherMapData, ProviderError};
use crate::registry::{
    contains_name, spec_set, GaugeHandle, GaugeModel, GaugeValue, Registry, RegistryError,
};

verus! {

/// How many gauges the station registers.
pub const GAUGE_COUNT: usize = 15;

/// Build and version identifiers, published once at startup.
pub struct BuildInfo {
    /// Version of the compiler the binary was built with.
    pub rustc_version: String,
    /// When the binary was built.
    pub compile_datetime: String,
    /// Version of the program itself.
    pub version: String,
}

/// The poll loop's state: the registry, the gauge wiring, the poll period
/// and the currently resolved city label.
pub struct Station {
    /// All gauge series of the process.
    pub registry: Registry,
    /// The currently resolved city label; a placeholder until the first
    /// successful weather fetch, afterwards the location name of the last
    /// successful one.
    pub city: String,
    /// The configured poll period in seconds.
    pub period_secs: u64,
    pub h_temperature: GaugeHandle,
    pub h_feels_like: GaugeHandle,
    pub h_temp_min: GaugeHandle,
    pub h_temp_max: GaugeHandle,
    pub h_humidity: GaugeHandle,
    pub h_pressure: GaugeHandle,
    pub h_pressure_grnd: GaugeHandle,
    pub h_dew_point: GaugeHandle,
    pub h_description: GaugeHandle,
    pub h_weather_updated: GaugeHandle,
    pub h_pm2_5: GaugeHandle,
    pub h_pm10: GaugeHandle,
    pub h_pollution_updated: GaugeHandle,
    pub h_start_time: GaugeHandle,
    pub h_build_info: GaugeHandle,
}

/// The registry contents the station starts with: every gauge registered
/// and empty, but for the start time and the build info, which are set once.
pub open spec fn initial_model(start_time_secs: u64, build: BuildInfo) -> Seq<GaugeModel> {
    seq![
        GaugeModel {
            name: "weather_temperature"@,
            help: "Outside temperature in °C"@,
            dims: seq!["city"@],
            series: Map::empty(),
        },
        GaugeModel {
            name: "weather_temperature_feels_like"@,
            help: "Felt outside temperature in °C"@,
            dims: seq!["city"@],
            series: Map::empty(),
        },
        GaugeModel {
            name: "weather_temperature_min"@,
            help: "Lowest currently observed temperature in °C"@,
            dims: seq!["city"@],
            series: Map::empty(),
        },
        GaugeModel {
            name: "weather_temperature_max"@,
            help: "Highest currently observed temperature in °C"@,
            dims: seq!["city"@],
            series: Map::empty(),
        },
        GaugeModel {
            name: "weather_humidity"@,
            help: "Outside humidity in %"@,
            dims: seq!["city"@],
            series: Map::empty(),
        },
        GaugeModel {
            name: "weather_pressure"@,
            help: "Outside pressure in hPa"@,
            dims: seq!["city"@],
            series: Map::empty(),
        },
        GaugeModel {
            name: "weather_pressure_grnd"@,
            help: "Outside pressure at ground level in hPa"@,
            dims: seq!["city"@],
            series: Map::empty(),
        },
        GaugeModel {
            name: "weather_dew_point"@,
            help: "Outside dew point in °C"@,
            dims: seq!["city"@],
            series: Map::empty(),
        },
        GaugeModel {
            name: "weather_description"@,
            help: "Current weather condition"@,
            dims: seq!["city"@, "main"@, "description"@],
            series: Map::empty(),
        },
        GaugeModel {
            name: "weather_last_updated"@,
            help: "Last update of weather"@,
            dims: seq!["city"@],
            series: Map::empty(),
        },
        GaugeModel {
            name: "air_pollution_pm_2_5"@,
            help: "PM2.5 concentration in µg/m³"@,
            dims: seq!["city"@],
            series: Map::empty(),
        },
        GaugeModel {
            name: "air_pollution_pm_10"@,
            help: "PM10 concentration in µg/m³"@,
            dims: seq!["city"@],
            series: Map::empty(),
        },
        GaugeModel {
            name: "air_pollution_last_updated"@,
            help: "Last update of air pollution"@,
            dims: seq!["city"@],
            series: Map::empty(),
        },
        GaugeModel {
            name: "process_start_time_seconds"@,
            help: "Start time of the process"@,
            dims: Seq::empty(),
            series: Map::empty().insert(
                Seq::empty(),
                GaugeValue::Int(start_time_secs),
            ),
        },
        GaugeModel {
            name: "rust_info"@,
            help: "Info about the Rust version"@,
            dims: seq!["rustc_version"@, "compile_time"@, "version"@],
            series: Map::empty().insert(
                seq![build.rustc_version@, build.compile_datetime@, build.version@],
                GaugeValue::Int(1),
            ),
        },
    ]
}

/// Two stations share the same gauge wiring and poll period.
pub open spec fn same_wiring(a: Station, b: Station) -> bool {
    &&& a.period_secs == b.period_secs
    &&& a.h_temperature == b.h_temperature
    &&& a.h_feels_like == b.h_feels_like
    &&& a.h_temp_min == b.h_temp_min
    &&& a.h_temp_max == b.h_temp_max
    &&& a.h_humidity == b.h_humidity
    &&& a.h_pressure == b.h_pressure
    &&& a.h_pressure_grnd == b.h_pressure_grnd
    &&& a.h_dew_point == b.h_dew_point
    &&& a.h_description == b.h_description
    &&& a.h_weather_updated == b.h_weather_updated
    &&& a.h_pm2_5 == b.h_pm2_5
    &&& a.h_pm10 == b.h_pm10
    &&& a.h_pollution_updated == b.h_pollution_updated
    &&& a.h_start_time == b.h_start_time
    &&& a.h_build_info == b.h_build_info
}

/// The fixed gauge names, in registration order.
pub open spec fn gauge_names() -> Seq<Seq<char>> {
    seq![
        "weather_temperature"@,
        "weather_temperature_feels_like"@,
        "weather_temperature_min"@,
        "weather_temperature_max"@,
        "weather_humidity"@,
        "weather_pressure"@,
        "weather_pressure_grnd"@,
        "weather_dew_point"@,
        "weather_description"@,
        "weather_last_updated"@,
        "air_pollution_pm_2_5"@,
        "air_pollution_pm_10"@,
        "air_pollution_last_updated"@,
        "process_start_time_seconds"@,
        "rust_info"@,
    ]
}

/// The fixed gauge names are pairwise distinct.
#[verifier::rlimit(60)]
proof fn lemma_gauge_names_distinct()
    ensures
        forall|i: int, j: int|
            #![trigger gauge_names()[i], gauge_names()[j]]
            0 <= i < j < gauge_names().len() ==> gauge_names()[i] != gauge_names()[j],
{
    reveal_strlit("weather_temperature");
    reveal_strlit("weather_temperature_feels_like");
    reveal_strlit("weather_temperature_min");
    reveal_strlit("weather_temperature_max");
    reveal_strlit("weather_humidity");
    reveal_strlit("weather_pressure");
    reveal_strlit("weather_pressure_grnd");
    reveal_strlit("weather_dew_point");
    reveal_strlit("weather_description");
    reveal_strlit("weather_last_updated");
    reveal_strlit("air_pollution_pm_2_5");
    reveal_strlit("air_pollution_pm_10");
    reveal_strlit("air_pollution_last_updated");
    reveal_strlit("process_start_time_seconds");
    reveal_strlit("rust_info");
    assert("weather_temperature"@.len() == 19);
    assert("weather_temperature_feels_like"@.len() == 30);
    assert("weather_temperature_min"@.len() == 23);
    assert("weather_temperature_max"@.len() == 23);
    assert("weather_humidity"@.len() == 16);
    assert("weather_pressure"@.len() == 16);
    assert("weather_pressure_grnd"@.len() == 21);
    assert("weather_dew_point"@.len() == 17);
    assert("weather_description"@.len() == 19);
    assert("weather_last_updated"@.len() == 20);
    assert("air_pollution_pm_2_5"@.len() == 20);
    assert("air_pollution_pm_10"@.len() == 19);
    assert("air_pollution_last_updated"@.len() == 26);
    assert("process_start_time_seconds"@.len() == 26);
    assert("rust_info"@.len() == 9);
    assert("weather_temperature"@[8] != "weather_description"@[8]);
    assert("weather_temperature"@[0] != "air_pollution_pm_10"@[0]);
    assert("weather_description"@[0] != "air_pollution_pm_10"@[0]);
    assert("weather_humidity"@[8] != "weather_pressure"@[8]);
    assert("weather_temperature_min"@[21] != "weather_temperature_max"@[21]);
    assert("weather_last_updated"@[0] != "air_pollution_pm_2_5"@[0]);
    assert("air_pollution_last_updated"@[0] != "process_start_time_seconds"@[0]);
    assert forall|i: int, j: int|
        #![trigger gauge_names()[i], gauge_names()[j]]
        0 <= i < j < gauge_names().len() implies gauge_names()[i] != gauge_names()[j] by {
        assert(gauge_names()[0] == "weather_temperature"@);
        assert(gauge_names()[1] == "weather_temperature_feels_like"@);
        assert(gauge_names()[2] == "weather_temperature_min"@);
        assert(gauge_names()[3] == "weather_temperature_max"@);
        assert(gauge_names()[4] == "weather_humidity"@);
        assert(gauge_names()[5] == "weather_pressure"@);
        assert(gauge_names()[6] == "weather_pressure_grnd"@);
        assert(gauge_names()[7] == "weather_dew_point"@);
        assert(gauge_names()[8] == "weather_description"@);
        assert(gauge_names()[9] == "weather_last_updated"@);
        assert(gauge_names()[10] == "air_pollution_pm_2_5"@);
        assert(gauge_names()[11] == "air_pollution_pm_10"@);
        assert(gauge_names()[12] == "air_pollution_last_updated"@);
        assert(gauge_names()[13] == "process_start_time_seconds"@);
        assert(gauge_names()[14] == "rust_info"@);
    }
}

/// A registry whose gauges carry the first `k` fixed names does not contain
/// the next fixed name.
proof fn lemma_fresh_gauge_name(r: Seq<GaugeModel>, k: int)
    requires
        0 <= k < gauge_names().len(),
        r.len() == k,
        forall|i: int| 0 <= i < r.len() ==> (#[trigger] r[i]).name == gauge_names()[i],
    ensures
        !contains_name(r, gauge_names()[k]),
{
    lemma_gauge_names_distinct();
    assert forall|i: int| 0 <= i < r.len() implies (#[trigger] r[i]).name != gauge_names()[k] by {
        assert(gauge_names()[i] != gauge_names()[k]);
    }
}

impl Station {
    /// The registry is well formed, holds the fixed set of gauges, and the
    /// handles are wired to them with the right dimensionalities.
    pub open spec fn wf(&self) -> bool {
        &&& self.registry.wf()
        &&& self.registry@.len() == GAUGE_COUNT
        &&& self.h_temperature == GaugeHandle(0)
        &&& self.h_feels_like == GaugeHandle(1)
        &&& self.h_temp_min == GaugeHandle(2)
        &&& self.h_temp_max == GaugeHandle(3)
        &&& self.h_humidity == GaugeHandle(4)
        &&& self.h_pressure == GaugeHandle(5)
        &&& self.h_pressure_grnd == GaugeHandle(6)
        &&& self.h_dew_point == GaugeHandle(7)
        &&& self.h_description == GaugeHandle(8)
        &&& self.h_weather_updated == GaugeHandle(9)
        &&& self.h_pm2_5 == GaugeHandle(10)
        &&& self.h_pm10 == GaugeHandle(11)
        &&& self.h_pollution_updated == GaugeHandle(12)
        &&& self.h_start_time == GaugeHandle(13)
        &&& self.h_build_info == GaugeHandle(14)
        &&& self.registry@[0].dims.len() == 1
        &&& self.registry@[1].dims.len() == 1
        &&& self.registry@[2].dims.len() == 1
        &&& self.registry@[3].dims.len() == 1
        &&& self.registry@[4].dims.len() == 1
        &&& self.registry@[5].dims.len() == 1
        &&& self.registry@[6].dims.len() == 1
        &&& self.registry@[7].dims.len() == 1
        &&& self.registry@[8].dims.len() == 3
        &&& self.registry@[9].dims.len() == 1
        &&& self.registry@[10].dims.len() == 1
        &&& self.registry@[11].dims.len() == 1
        &&& self.registry@[12].dims.len() == 1
        &&& self.registry@[13].dims.len() == 0
        &&& self.registry@[14].dims.len() == 3
    }

    /// What a successful weather fetch writes: every weather series under
    /// the city label resolved from the response, the condition presence
    /// series under city and condition pair, and the update timestamp.
    pub open spec fn weather_written(
        self,
        r0: Seq<GaugeModel>,
        data: OpenWeatherMapData,
        dew_point_bits: u64,
        now: u64,
    ) -> Seq<GaugeModel> {
        let city = seq![data.name@];
        let r1 = spec_set(r0, self.h_temperature, city, GaugeValue::Bits(data.main.temp_bits)).1;
        let r2 = spec_set(r1, self.h_feels_like, city, GaugeValue::Bits(data.main.feels_like_bits)).1;
        let r3 = spec_set(r2, self.h_temp_min, city, GaugeValue::Bits(data.main.temp_min_bits)).1;
        let r4 = spec_set(r3, self.h_temp_max, city, GaugeValue::Bits(data.main.temp_max_bits)).1;
        let r5 = spec_set(r4, self.h_humidity, city, GaugeValue::Int(data.main.humidity as u64)).1;
        let r6 = spec_set(r5, self.h_pressure, city, GaugeValue::Int(data.main.pressure as u64)).1;
        let r7 = spec_set(
            r6,
            self.h_pressure_grnd,
            city,
            GaugeValue::Int(data.main.grnd_level as u64),
        ).1;
        let r8 = spec_set(r7, self.h_dew_point, city, GaugeValue::Bits(dew_point_bits)).1;
        let r9 = spec_set(
            r8,
            self.h_description,
            seq![data.name@, data.weather[0].main@, data.weather[0].description@],
            GaugeValue::Int(1),
        ).1;
        spec_set(r9, self.h_weather_updated, city, GaugeValue::Int(now)).1
    }

    /// What a successful air pollution fetch writes: the two particulate
    /// series and the update timestamp, under the given city label, from the
    /// first record of the batch.
    pub open spec fn pollution_written(
        self,
        r0: Seq<GaugeModel>,
        city_label: Seq<char>,
        data: OpenWeatherMapAirPollutionData,
        now: u64,
    ) -> Seq<GaugeModel> {
        let city = seq![city_label];
        let r1 = spec_set(
            r0,
            self.h_pm2_5,
            city,
            GaugeValue::Bits(data.list[0].components.pm2_5_bits),
        ).1;
        let r2 = spec_set(r1, self.h_pm10, city, GaugeValue::Bits(data.list[0].components.pm10_bits)).1;
        spec_set(r2, self.h_pollution_updated, city, GaugeValue::Int(now)).1
    }

    /// Set up the registry: all gauges registered under their fixed names,
    /// the start time and the build info published once. The names are
    /// pairwise distinct, so registration cannot be refused.
    pub fn new(period_secs: u64, start_time_secs: u64, build: BuildInfo) -> (r: Result<
        Station,
        RegistryError,
    >)
        ensures
            r is Ok,
            r matches Ok(st) ==> st.wf() && st.period_secs == period_secs && st.city@
                == "unknown"@ && st.registry@ == initial_model(start_time_secs, build),
    {
        let mut reg = Registry::new();
        proof {
            assert(forall|i: int| 0 <= i < reg@.len() ==> (#[trigger] reg@[i]).name
                == gauge_names()[i]);
            lemma_fresh_gauge_name(reg@, 0);
        }
        let h_temperature = match reg.register_gauge(
            "weather_temperature".to_owned(),
            "Outside temperature in °C".to_owned(),
            vec!["city".to_owned()],
        ) {
            Ok(h) => h,
            Err(e) => {
                return Err(e);
            },
        };
        proof {
            assert(forall|i: int| 0 <= i < reg@.len() ==> (#[trigger] reg@[i]).name
                == gauge_names()[i]);
            lemma_fresh_gauge_name(reg@, 1);
        }
        let h_feels_like = match reg.register_gauge(
            "weather_temperature_feels_like".to_owned(),
            "Felt outside temperature in °C".to_owned(),
            vec!["city".to_owned()],
        ) {
            Ok(h) => h,
            Err(e) => {
                return Err(e);
            },
        };
        proof {
            assert(forall|i: int| 0 <= i < reg@.len() ==> (#[trigger] reg@[i]).name
                == gauge_names()[i]);
            lemma_fresh_gauge_name(reg@, 2);
        }
        let h_temp_min = match reg.register_gauge(
            "weather_temperature_min".to_owned(),
            "Lowest currently observed temperature in °C".to_owned(),
            vec!["city".to_owned()],
        ) {
            Ok(h) => h,
            Err(e) => {
                return Err(e);
            },
        };
        proof {
            assert(forall|i: int| 0 <= i < reg@.len() ==> (#[trigger] reg@[i]).name
                == gauge_names()[i]);
            lemma_fresh_gauge_name(reg@, 3);
        }
        let h_temp_max = match reg.register_gauge(
            "weather_temperature_max".to_owned(),
            "Highest currently observed temperature in °C".to_owned(),
            vec!["city".to_owned()],
        ) {
            Ok(h) => h,
            Err(e) => {
                return Err(e);
            },
        };
        proof {
            assert(forall|i: int| 0 <= i < reg@.len() ==> (#[trigger] reg@[i]).name
                == gauge_names()[i]);
            lemma_fresh_gauge_name(reg@, 4);
        }
        let h_humidity = match reg.register_gauge(
            "weather_humidity".to_owned(),
            "Outside humidity in %".to_owned(),
            vec!["city".to_owned()],
        ) {
            Ok(h) => h,
            Err(e) => {
                return Err(e);
            },
        };
        proof {
            assert(forall|i: int| 0 <= i < reg@.len() ==> (#[trigger] reg@[i]).name
                == gauge_names()[i]);
            lemma_fresh_gauge_name(reg@, 5);
        }
        let h_pressure = match reg.register_gauge(
            "weather_pressure".to_owned(),
            "Outside pressure in hPa".to_owned(),
            vec!["city".to_owned()],
        ) {
            Ok(h) => h,
            Err(e) => {
                return Err(e);
            },
        };
        proof {
            assert(forall|i: int| 0 <= i < reg@.len() ==> (#[trigger] reg@[i]).name
                == gauge_names()[i]);
            lemma_fresh_gauge_name(reg@, 6);
        }
        let h_pressure_grnd = match reg.register_gauge(
            "weather_pressure_grnd".to_owned(),
            "Outside pressure at ground level in hPa".to_owned(),
            vec!["city".to_owned()],
        ) {
            Ok(h) => h,
            Err(e) => {
                return Err(e);
            },
        };
        proof {
            assert(forall|i: int| 0 <= i < reg@.len() ==> (#[trigger] reg@[i]).name
                == gauge_names()[i]);
            lemma_fresh_gauge_name(reg@, 7);
        }
        let h_dew_point = match reg.register_gauge(
            "weather_dew_point".to_owned(),
            "Outside dew point in °C".to_owned(),
            vec!["city".to_owned()],
        ) {
            Ok(h) => h,
            Err(e) => {
                return Err(e);
            },
        };
        proof {
            assert(forall|i: int| 0 <= i < reg@.len() ==> (#[trigger] reg@[i]).name
                == gauge_names()[i]);
            lemma_fresh_gauge_name(reg@, 8);
        }
        let h_description = match reg.register_gauge(
            "weather_description".to_owned(),
            "Current weather condition".to_owned(),
            vec!["city".to_owned(), "main".to_owned(), "description".to_owned()],
        ) {
            Ok(h) => h,
            Err(e) => {
                return Err(e);
            },
        };
        proof {
            assert(forall|i: int| 0 <= i < reg@.len() ==> (#[trigger] reg@[i]).name
                == gauge_names()[i]);
            lemma_fresh_gauge_name(reg@, 9);
        }
        let h_weather_updated = match reg.register_gauge(
            "weather_last_updated".to_owned(),
            "Last update of weather".to_owned(),
            vec!["city".to_owned()],
        ) {
            Ok(h) => h,
            Err(e) => {
                return Err(e);
            },
        };
        proof {
            assert(forall|i: int| 0 <= i < reg@.len() ==> (#[trigger] reg@[i]).name
                == gauge_names()[i]);
            lemma_fresh_gauge_name(reg@, 10);
        }
        let h_pm2_5 = match reg.register_gauge(
            "air_pollution_pm_2_5".to_owned(),
            "PM2.5 concentration in µg/m³".to_owned(),
            vec!["city".to_owned()],
        ) {
            Ok(h) => h,
            Err(e) => {
                return Err(e);
            },
        };
        proof {
            assert(forall|i: int| 0 <= i < reg@.len() ==> (#[trigger] reg@[i]).name
                == gauge_names()[i]);
            lemma_fresh_gauge_name(reg@, 11);
        }
        let h_pm10 = match reg.register_gauge(
            "air_pollution_pm_10".to_owned(),
            "PM10 concentration in µg/m³".to_owned(),
            vec!["city".to_owned()],
        ) {
            Ok(h) => h,
            Err(e) => {
                return Err(e);
            },
        };
        proof {
            assert(forall|i: int| 0 <= i < reg@.len() ==> (#[trigger] reg@[i]).name
                == gauge_names()[i]);
            lemma_fresh_gauge_name(reg@, 12);
        }
        let h_pollution_updated = match reg.register_gauge(
            "air_pollution_last_updated".to_owned(),
            "Last update of air pollution".to_owned(),
            vec!["city".to_owned()],
        ) {
            Ok(h) => h,
            Err(e) => {
                return Err(e);
            },
        };
        proof {
            assert(forall|i: int| 0 <= i < reg@.len() ==> (#[trigger] reg@[i]).name
                == gauge_names()[i]);
            lemma_fresh_gauge_name(reg@, 13);
        }
        let h_start_time = match reg.register_gauge(
            "process_start_time_seconds".to_owned(),
            "Start time of the process".to_owned(),
            Vec::new(),
        ) {
            Ok(h) => h,
            Err(e) => {
                return Err(e);
            },
        };
        proof {
            assert(forall|i: int| 0 <= i < reg@.len() ==> (#[trigger] reg@[i]).name
                == gauge_names()[i]);
            lemma_fresh_gauge_name(reg@, 14);
        }
        let h_build_info = match reg.register_gauge(
            "rust_info".to_owned(),
            "Info about the Rust version".to_owned(),
            vec!["rustc_version".to_owned(), "compile_time".to_owned(), "version".to_owned()],
        ) {
            Ok(h) => h,
            Err(e) => {
                return Err(e);
            },
        };
        let start_labels: Vec<String> = Vec::new();
        proof {
            assert(start_labels.deep_view() =~= Seq::<Seq<char>>::empty());
        }
        let _ = reg.set(h_start_time, start_labels, GaugeValue::Int(start_time_secs));
        let build_labels = vec![
            build.rustc_version.clone(),
            build.compile_datetime.clone(),
            build.version.clone(),
        ];
        proof {
            assert(build_labels.deep_view() =~= seq![
                build.rustc_version@,
                build.compile_datetime@,
                build.version@,
            ]);
        }
        let _ = reg.set(h_build_info, build_labels, GaugeValue::Int(1));
        let st = Station {
            registry: reg,
            city: "unknown".to_owned(),
            period_secs,
            h_temperature,
            h_feels_like,
            h_temp_min,
            h_temp_max,
            h_humidity,
            h_pressure,
            h_pressure_grnd,
            h_dew_point,
            h_description,
            h_weather_updated,
            h_pm2_5,
            h_pm10,
            h_pollution_updated,
            h_start_time,
            h_build_info,
        };
        proof {
            assert(st.registry@ =~~= initial_model(start_time_secs, build));
        }
        Ok(st)
    }

    /// Consume the outcome of a weather fetch. On success the city label is
    /// resolved from the response and every weather series is written under
    /// it; on failure nothing changes.
    pub fn apply_weather(
        &mut self,
        outcome: Result<OpenWeatherMapData, ProviderError>,
        dew_point_bits: u64,
        now: u64,
    )
        requires
            old(self).wf(),
            outcome matches Ok(d) ==> d.weather.len() >= 1,
        ensures
            final(self).wf(),
            same_wiring(*final(self), *old(self)),
            outcome matches Err(_) ==> *final(self) == *old(self),
            outcome matches Ok(d) ==> final(self).city == d.name && final(self).registry@
                == old(self).weather_written(old(self).registry@, d, dew_point_bits, now),
    {
        match outcome {
            Err(_) => {},
            Ok(data) => {
                self.city = data.name;
                let l1 = vec![self.city.clone()];
                proof {
                    assert(l1.deep_view() =~= seq![data.name@]);
                }
                let _ = self.registry.set(
                    self.h_temperature,
                    l1,
                    GaugeValue::Bits(data.main.temp_bits),
                );
                let l2 = vec![self.city.clone()];
                proof {
                    assert(l2.deep_view() =~= seq![data.name@]);
                }
                let _ = self.registry.set(
                    self.h_feels_like,
                    l2,
                    GaugeValue::Bits(data.main.feels_like_bits),
                );
                let l3 = vec![self.city.clone()];
                proof {
                    assert(l3.deep_view() =~= seq![data.name@]);
                }
                let _ = self.registry.set(
                    self.h_temp_min,
                    l3,
                    GaugeValue::Bits(data.main.temp_min_bits),
                );
                let l4 = vec![self.city.clone()];
                proof {
                    assert(l4.deep_view() =~= seq![data.name@]);
                }
                let _ = self.registry.set(
                    self.h_temp_max,
                    l4,
                    GaugeValue::Bits(data.main.temp_max_bits),
                );
                let l5 = vec![self.city.clone()];
                proof {
                    assert(l5.deep_view() =~= seq![data.name@]);
                }
                let _ = self.registry.set(
                    self.h_humidity,
                    l5,
                    GaugeValue::Int(data.main.humidity as u64),
                );
                let l6 = vec![self.city.clone()];
                proof {
                    assert(l6.deep_view() =~= seq![data.name@]);
                }
                let _ = self.registry.set(
                    self.h_pressure,
                    l6,
                    GaugeValue::Int(data.main.pressure as u64),
                );
                let l7 = vec![self.city.clone()];
                proof {
                    assert(l7.deep_view() =~= seq![data.name@]);
                }
                let _ = self.registry.set(
                    self.h_pressure_grnd,
                    l7,
                    GaugeValue::Int(data.main.grnd_level as u64),
                );
                let l8 = vec![self.city.clone()];
                proof {
                    assert(l8.deep_view() =~= seq![data.name@]);
                }
                let _ = self.registry.set(self.h_dew_point, l8, GaugeValue::Bits(dew_point_bits));
                let l9 = vec![
                    self.city.clone(),
                    data.weather[0].main.clone(),
                    data.weather[0].description.clone(),
                ];
                proof {
                    assert(l9.deep_view() =~= seq![
                        data.name@,
                        data.weather[0].main@,
                        data.weather[0].description@,
                    ]);
                }
                let _ = self.registry.set(self.h_description, l9, GaugeValue::Int(1));
                let l10 = vec![self.city.clone()];
                proof {
                    assert(l10.deep_view() =~= seq![data.name@]);
                }
                let _ = self.registry.set(self.h_weather_updated, l10, GaugeValue::Int(now));
            },
        }
    }

    /// Consume the outcome of an air pollution fetch. On success the two
    /// particulate series and the update timestamp are written under the
    /// currently resolved city label, from the first record of the batch; on
    /// failure nothing changes.
    pub fn apply_air_pollution(
        &mut self,
        outcome: Result<OpenWeatherMapAirPollutionData, ProviderError>,
        now: u64,
    )
        requires
            old(self).wf(),
            outcome matches Ok(d) ==> d.list.len() >= 1,
        ensures
            final(self).wf(),
            same_wiring(*final(self), *old(self)),
            final(self).city == old(self).city,
            outcome matches Err(_) ==> *final(self) == *old(self),
            outcome matches Ok(d) ==> final(self).registry@ == old(self).pollution_written(
                old(self).registry@,
                old(self).city@,
                d,
                now,
            ),
    {
        match outcome {
            Err(_) => {},
            Ok(data) => {
                let l1 = vec![self.city.clone()];
                proof {
                    assert(l1.deep_view() =~= seq![old(self).city@]);
                }
                let _ = self.registry.set(
                    self.h_pm2_5,
                    l1,
                    GaugeValue::Bits(data.list[0].components.pm2_5_bits),
                );
                let l2 = vec![self.city.clone()];
                proof {
                    assert(l2.deep_view() =~= seq![old(self).city@]);
                }
                let _ = self.registry.set(
                    self.h_pm10,
                    l2,
                    GaugeValue::Bits(data.list[0].components.pm10_bits),
                );
                let l3 = vec![self.city.clone()];
                proof {
                    assert(l3.deep_view() =~= seq![old(self).city@]);
                }
                let _ = self.registry.set(self.h_pollution_updated, l3, GaugeValue::Int(now));
            },
        }
    }

    /// One tick of the poll loop: consume the weather outcome, then the air
    /// pollution outcome, and tell the caller to sleep the full configured
    /// period — also when both fetches failed, so failures never tighten the
    /// loop.
    pub fn tick(
        &mut self,
        weather: Result<OpenWeatherMapData, ProviderError>,
        dew_point_bits: u64,
        weather_now: u64,
        pollution: Result<OpenWeatherMapAirPollutionData, ProviderError>,
        pollution_now: u64,
    ) -> (sleep_secs: u64)
        requires
            old(self).wf(),
            weather matches Ok(d) ==> d.weather.len() >= 1,
            pollution matches Ok(d) ==> d.list.len() >= 1,
        ensures
            final(self).wf(),
            same_wiring(*final(self), *old(self)),
            sleep_secs == old(self).period_secs,
            weather is Err && pollution is Err ==> *final(self) == *old(self),
            ({
                let city1 = match weather {
                    Ok(w) => w.name@,
                    Err(_) => old(self).city@,
                };
                let r1 = match weather {
                    Ok(w) => old(self).weather_written(
                        old(self).registry@,
                        w,
                        dew_point_bits,
                        weather_now,
                    ),
                    Err(_) => old(self).registry@,
                };
                let r2 = match pollution {
                    Ok(p) => old(self).pollution_written(r1, city1, p, pollution_now),
                    Err(_) => r1,
                };
                final(self).city@ == city1 && final(self).registry@ == r2
            }),
    {
        self.apply_weather(weather, dew_point_bits, weather_now);
        self.apply_air_pollution(pollution, pollution_now);
        self.period_secs
    }
}

/// A successful weather write stores exactly the fetched values — the
/// temperatures as handed-in bits, humidity and pressures as whole numbers,
/// the handed-in dew point, the condition presence and the update timestamp
/// — under the city label resolved from the response. It touches no other
/// gauge, and no gauge's name, help or dimensions change.
#[verifier::rlimit(30)]
pub proof fn lemma_weather_written_values(
    st: Station,
    data: OpenWeatherMapData,
    dew_point_bits: u64,
    now: u64,
)
    requires
        st.wf(),
        data.weather.len() >= 1,
    ensures
        ({
            let r0 = st.registry@;
            let r = st.weather_written(r0, data, dew_point_bits, now);
            let city = seq![data.name@];
            &&& r.len() == r0.len()
            &&& forall|k: int|
                0 <= k < r0.len() ==> (#[trigger] r[k]).name == r0[k].name && r[k].help
                    == r0[k].help && r[k].dims == r0[k].dims
            &&& r[0].series == r0[0].series.insert(city, GaugeValue::Bits(data.main.temp_bits))
            &&& r[1].series == r0[1].series.insert(
                city,
                GaugeValue::Bits(data.main.feels_like_bits),
            )
            &&& r[2].series == r0[2].series.insert(city, GaugeValue::Bits(data.main.temp_min_bits))
            &&& r[3].series == r0[3].series.insert(city, GaugeValue::Bits(data.main.temp_max_bits))
            &&& r[4].series == r0[4].series.insert(city, GaugeValue::Int(data.main.humidity as u64))
            &&& r[5].series == r0[5].series.insert(city, GaugeValue::Int(data.main.pressure as u64))
            &&& r[6].series == r0[6].series.insert(
                city,
                GaugeValue::Int(data.main.grnd_level as u64),
            )
            &&& r[7].series == r0[7].series.insert(city, GaugeValue::Bits(dew_point_bits))
            &&& r[8].series == r0[8].series.insert(
                seq![data.name@, data.weather[0].main@, data.weather[0].description@],
                GaugeValue::Int(1),
            )
            &&& r[9].series == r0[9].series.insert(city, GaugeValue::Int(now))
            &&& r[10] == r0[10]
            &&& r[11] == r0[11]
            &&& r[12] == r0[12]
            &&& r[13] == r0[13]
            &&& r[14] == r0[14]
        }),
{
}

/// An air pollution write stores the first record's concentrations and the
/// update timestamp under the given city label — the last one resolved, also
/// when the weather fetch of the same tick failed — and touches nothing
/// else: every weather series keeps its previous value.
#[verifier::rlimit(30)]
pub proof fn lemma_pollution_written_values(
    st: Station,
    city_label: Seq<char>,
    data: OpenWeatherMapAirPollutionData,
    now: u64,
)
    requires
        st.wf(),
        data.list.len() >= 1,
    ensures
        ({
            let r0 = st.registry@;
            let r = st.pollution_written(r0, city_label, data, now);
            let city = seq![city_label];
            &&& r.len() == r0.len()
            &&& forall|k: int|
                0 <= k < r0.len() ==> (#[trigger] r[k]).name == r0[k].name && r[k].help
                    == r0[k].help && r[k].dims == r0[k].dims
            &&& r[0] == r0[0]
            &&& r[1] == r0[1]
            &&& r[2] == r0[2]
            &&& r[3] == r0[3]
            &&& r[4] == r0[4]
            &&& r[5] == r0[5]
            &&& r[6] == r0[6]
            &&& r[7] == r0[7]
            &&& r[8] == r0[8]
            &&& r[9] == r0[9]
            &&& r[10].series == r0[10].series.insert(
                city,
                GaugeValue::Bits(data.list[0].components.pm2_5_bits),
            )
            &&& r[11].series == r0[11].series.insert(
                city,
                GaugeValue::Bits(data.list[0].components.pm10_bits),
            )
            &&& r[12].series == r0[12].series.insert(city, GaugeValue::Int(now))
            &&& r[13] == r0[13]
            &&& r[14] == r0[14]
        }),
{
}

} // verus!
