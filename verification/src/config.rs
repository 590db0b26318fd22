//! Startup configuration.
//!
//! The poll loop is configured from five optional text values: the location
//! (`lat`, `lon`) and the API key (`appid`) are required, the listen port and
//! the poll period fall back to defaults when absent. A missing required
//! value or a malformed port or period is fatal at startup and reported as a
//! [`ConfigError`]; the unit system is fixed to metric.

use vstd::prelude::*;

verus! {

/// Listen port used when none is configured.
pub const DEFAULT_PORT: u16 = 9185;

/// Poll period in seconds used when none is configured.
pub const DEFAULT_PERIOD_SECS: u64 = 600;

/// Why the configuration was rejected at startup.
#[derive(Clone, Copy, PartialEq, Eq, Structural, Debug)]
pub enum ConfigError {
    /// The latitude is not set.
    MissingLat,
    /// The longitude is not set.
    MissingLon,
    /// The API key is not set.
    MissingAppid,
    /// The configured port is not a decimal number within 16 bits.
    BadPort,
    /// The configured period is not a decimal number within 64 bits.
    BadPeriod,
}

/// The immutable configuration of the poll loop.
#[derive(Debug)]
pub struct PollConfig {
    /// Latitude of the observed location, as handed to the provider.
    pub lat: String,
    /// Longitude of the observed location, as handed to the provider.
    pub lon: String,
    /// API key, as handed to the provider.
    pub appid: String,
    /// Unit system, always metric.
    pub units: String,
    /// Port of the scrape endpoint.
    pub port: u16,
    /// Poll period in seconds.
    pub period_secs: u64,
}

/// A decimal digit.
pub open spec fn is_decimal_digit(c: char) -> bool {
    '0' <= c && c <= '9'
}

/// The numeric value of a decimal digit.
pub open spec fn digit_val(c: char) -> int {
    c as u32 - 48
}

/// A non-empty string of decimal digits.
pub open spec fn is_decimal(s: Seq<char>) -> bool {
    s.len() > 0 && forall|i: int| 0 <= i < s.len() ==> is_decimal_digit(#[trigger] s[i])
}

/// The number written by a string of decimal digits, most significant first.
pub open spec fn decimal_value(s: Seq<char>) -> int
    decreases s.len(),
{
    if s.len() == 0 {
        0
    } else {
        decimal_value(s.drop_last()) * 10 + digit_val(s.last())
    }
}

/// The value of a digit string is not negative.
proof fn lemma_decimal_value_nonneg(s: Seq<char>)
    requires
        forall|i: int| 0 <= i < s.len() ==> is_decimal_digit(#[trigger] s[i]),
    ensures
        decimal_value(s) >= 0,
    decreases s.len(),
{
    if s.len() > 0 {
        lemma_decimal_value_nonneg(s.drop_last());
    }
}

/// Taking one more digit multiplies the prefix value by ten and adds the digit.
proof fn lemma_decimal_value_step(s: Seq<char>, i: int)
    requires
        0 <= i < s.len(),
    ensures
        decimal_value(s.take(i + 1)) == decimal_value(s.take(i)) * 10 + digit_val(s[i]),
{
    assert(s.take(i + 1).drop_last() =~= s.take(i));
    assert(s.take(i + 1).last() == s[i]);
}

/// On an all-digit string, every prefix writes at most the whole number.
proof fn lemma_decimal_prefix_le(s: Seq<char>, i: int)
    requires
        0 <= i <= s.len(),
        forall|j: int| 0 <= j < s.len() ==> is_decimal_digit(#[trigger] s[j]),
    ensures
        decimal_value(s.take(i)) <= decimal_value(s),
    decreases s.len() - i,
{
    if i == s.len() {
        assert(s.take(i) =~= s);
    } else {
        lemma_decimal_value_step(s, i);
        assert(forall|j: int|
            0 <= j < s.take(i).len() ==> is_decimal_digit(#[trigger] s.take(i)[j]));
        lemma_decimal_value_nonneg(s.take(i));
        lemma_decimal_prefix_le(s, i + 1);
    }
}

/// Parse a non-empty decimal string into a 64-bit number.
///
/// Returns the written number exactly when the whole string is decimal
/// digits and the number fits; anything else yields `None`.
#[verifier::loop_isolation(false)]
pub fn parse_u64(s: &str) -> (r: Option<u64>)
    ensures
        r matches Some(v) ==> is_decimal(s@) && decimal_value(s@) == v,
        r is None ==> !is_decimal(s@) || decimal_value(s@) > u64::MAX,
{
    if !s.is_ascii() {
        proof {
            let i = choose|i: int| 0 <= i < s@.len() && !('\0' <= #[trigger] s@[i] <= '\u{7f}');
            assert(!is_decimal_digit(s@[i]));
        }
        return None;
    }
    let bytes = s.as_bytes();
    proof {
        vstd::string::is_ascii_spec_bytes(s);
    }
    let n = bytes.len();
    if n == 0 {
        return None;
    }
    let mut acc: u64 = 0;
    let mut i: usize = 0;
    while i < n
        invariant
            i <= n,
            forall|j: int| 0 <= j < i ==> is_decimal_digit(#[trigger] s@[j]),
            acc == decimal_value(s@.take(i as int)),
        decreases n - i,
    {
        let b = bytes[i];
        proof {
            assert(b == s@[i as int] as u8);
        }
        if b < 48 || b > 57 {
            proof {
                assert(!is_decimal_digit(s@[i as int]));
            }
            return None;
        }
        let d = (b - 48) as u64;
        proof {
            assert(digit_val(s@[i as int]) == d);
            lemma_decimal_value_step(s@, i as int);
        }
        if acc > (u64::MAX - d) / 10 {
            proof {
                assert(acc * 10 + d > u64::MAX) by (nonlinear_arith)
                    requires
                        acc > (u64::MAX - d) / 10,
                        0 <= d <= 9,
                ;
                if is_decimal(s@) {
                    lemma_decimal_prefix_le(s@, i as int + 1);
                }
            }
            return None;
        }
        proof {
            assert(acc * 10 + d <= u64::MAX) by (nonlinear_arith)
                requires
                    acc <= (u64::MAX - d) / 10,
                    0 <= d <= 9,
            ;
        }
        acc = acc * 10 + d;
        i += 1;
    }
    proof {
        assert(s@.take(n as int) =~= s@);
    }
    Some(acc)
}

/// What building the configuration yields: the first missing required value
/// or malformed optional value decides the error; otherwise the required
/// values are taken over and the defaults fill the gaps.
pub open spec fn spec_build_config(
    lat: Option<Seq<char>>,
    lon: Option<Seq<char>>,
    appid: Option<Seq<char>>,
    port: Option<Seq<char>>,
    period: Option<Seq<char>>,
) -> Result<(Seq<char>, Seq<char>, Seq<char>, u16, u64), ConfigError> {
    if lat is None {
        Err(ConfigError::MissingLat)
    } else if lon is None {
        Err(ConfigError::MissingLon)
    } else if appid is None {
        Err(ConfigError::MissingAppid)
    } else if !(port is None || (is_decimal(port->0) && decimal_value(port->0) <= u16::MAX)) {
        Err(ConfigError::BadPort)
    } else if !(period is None || (is_decimal(period->0) && decimal_value(period->0)
        <= u64::MAX)) {
        Err(ConfigError::BadPeriod)
    } else {
        Ok(
            (
                lat->0,
                lon->0,
                appid->0,
                if port is None {
                    DEFAULT_PORT
                } else {
                    decimal_value(port->0) as u16
                },
                if period is None {
                    DEFAULT_PERIOD_SECS
                } else {
                    decimal_value(period->0) as u64
                },
            ),
        )
    }
}

/// Build the poll configuration from the five optional text values.
///
/// `lat`, `lon` and `appid` are required; `port` and `period` fall back to
/// [`DEFAULT_PORT`] and [`DEFAULT_PERIOD_SECS`] and are otherwise read as
/// decimal numbers. The unit system is fixed to metric.
pub fn build_config(
    lat: Option<String>,
    lon: Option<String>,
    appid: Option<String>,
    port: Option<String>,
    period: Option<String>,
) -> (r: Result<PollConfig, ConfigError>)
    ensures
        ({
            let m = spec_build_config(
                lat.deep_view(),
                lon.deep_view(),
                appid.deep_view(),
                port.deep_view(),
                period.deep_view(),
            );
            match (r, m) {
                (Ok(c), Ok(t)) => c.lat@ == t.0 && c.lon@ == t.1 && c.appid@ == t.2 && c.units@
                    == "metric"@ && c.port == t.3 && c.period_secs == t.4,
                (Err(e), Err(f)) => e == f,
                _ => false,
            }
        }),
{
    let lat = match lat {
        Some(v) => v,
        None => {
            return Err(ConfigError::MissingLat);
        },
    };
    let lon = match lon {
        Some(v) => v,
        None => {
            return Err(ConfigError::MissingLon);
        },
    };
    let appid = match appid {
        Some(v) => v,
        None => {
            return Err(ConfigError::MissingAppid);
        },
    };
    let port_num: u16 = match port {
        None => DEFAULT_PORT,
        Some(p) => {
            match parse_u64(p.as_str()) {
                Some(v) => {
                    if v <= u16::MAX as u64 {
                        v as u16
                    } else {
                        return Err(ConfigError::BadPort);
                    }
                },
                None => {
                    return Err(ConfigError::BadPort);
                },
            }
        },
    };
    let period_num: u64 = match period {
        None => DEFAULT_PERIOD_SECS,
        Some(p) => {
            match parse_u64(p.as_str()) {
                Some(v) => v,
                None => {
                    return Err(ConfigError::BadPeriod);
                },
            }
        },
    };
    Ok(
        PollConfig {
            lat,
            lon,
            appid,
            units: "metric".to_owned(),
            port: port_num,
            period_secs: period_num,
        },
    )
}

} // verus!
