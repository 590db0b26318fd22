//! Data model of the weather provider's two read endpoints.
//!
//! The shapes mirror the JSON bodies the provider answers with: the current
//! weather endpoint returns an object with a nested `main` block, a top-level
//! observation timestamp `dt`, the location `name` and a `weather` array whose
//! first element carries the condition strings; the air pollution endpoint
//! returns an object with a `list` of timestamped component records.
//!
//! Fractional quantities (temperatures, particulate concentrations) are held
//! as the bit patterns of 64-bit IEEE-754 numbers, in fields named `*_bits`;
//! the core never interprets them. The HTTP transport and the JSON decoding
//! live outside the core; a fetch hands in either a decoded record or a
//! `ProviderError`.

use vstd::prelude::*;

verus! {

/// The `main` block of a current weather response: temperatures, pressures
/// and the relative humidity in whole percent.
pub struct Weather {
    /// Outside temperature, IEEE-754 bits.
    pub temp_bits: u64,
    /// Felt temperature, IEEE-754 bits.
    pub feels_like_bits: u64,
    /// Lowest currently observed temperature, IEEE-754 bits.
    pub temp_min_bits: u64,
    /// Highest currently observed temperature, IEEE-754 bits.
    pub temp_max_bits: u64,
    /// Atmospheric pressure in hPa.
    pub pressure: u16,
    /// Pressure at ground level in hPa.
    pub grnd_level: u16,
    /// Relative humidity, 0 to 100 percent.
    pub humidity: u8,
}

/// One element of the `weather` array: the free-text condition pair.
pub struct WeatherCondition {
    /// Coarse condition group, e.g. a word for rain or clouds.
    pub main: String,
    /// Finer condition description.
    pub description: String,
}

/// A decoded current weather response.
pub struct OpenWeatherMapData {
    pub main: Weather,
    /// Observation timestamp, epoch seconds.
    pub dt: u64,
    /// Name of the location the reading is for.
    pub name: String,
    /// Condition records; a well-formed response carries at least one.
    pub weather: Vec<WeatherCondition>,
}

/// The `components` block of one air pollution record.
pub struct Components {
    /// PM2.5 concentration, IEEE-754 bits.
    pub pm2_5_bits: u64,
    /// PM10 concentration, IEEE-754 bits.
    pub pm10_bits: u64,
}

/// One timestamped air pollution record.
pub struct AirPollutionData {
    /// Observation timestamp, epoch seconds.
    pub dt: u64,
    pub components: Components,
}

/// A decoded air pollution response: a batch of records, of which only the
/// first is ever consumed.
pub struct OpenWeatherMapAirPollutionData {
    pub list: Vec<AirPollutionData>,
}

/// Why a fetch failed.
#[derive(Clone, Copy, PartialEq, Eq, Structural, Debug)]
pub enum ProviderErrorKind {
    /// The request could not be sent or no response arrived.
    Transport,
    /// The response carried a non-success HTTP status.
    Status,
    /// The body did not decode into the expected shape.
    Decode,
}

/// A failed fetch: the kind of failure and a human-readable cause.
///
/// A failure is recovered at the tick level: it is logged, the source's
/// series are left stale and the loop goes on.
pub struct ProviderError {
    pub kind: ProviderErrorKind,
    pub detail: String,
}

} // verus!
