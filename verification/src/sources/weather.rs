//! Weather source settings and the request they stand for.

use vstd::prelude::*;
use vstd::string::*;

verus! {

/// Configuration for weather source
#[derive(Debug, Clone)]
pub struct WeatherConfig {
    /// OpenWeatherMap API key
    pub api_key: String,
    /// Location query (city name, "lat,lon", or city ID)
    pub location: String,
    /// Poll interval in seconds
    pub interval_secs: u64,
    /// Use metric units (Celsius). If false, uses Fahrenheit.
    pub metric: bool,
}

/// What a settings map says about a weather source; `None` where a key
/// is absent or holds a value of another type.
#[derive(Debug, Clone)]
pub struct WeatherSettings {
    /// `api_key`, a string
    pub api_key: Option<String>,
    /// `location`, a string
    pub location: Option<String>,
    /// `interval_secs`, a whole number
    pub interval_secs: Option<u64>,
    /// `metric`, a boolean
    pub metric: Option<bool>,
}

/// Why a source cannot be configured from its settings.
#[derive(Debug, Clone, Copy, PartialEq, Eq, Structural)]
pub enum SettingsError {
    /// The weather source has no `api_key`.
    MissingApiKey,
    /// The git source has no `path`.
    MissingPath,
}

impl SettingsError {
    /// The message shown for the error.
    pub fn message(&self) -> (text: &'static str)
        ensures
            text@ == match *self {
                SettingsError::MissingApiKey => "weather source requires 'api_key' setting"@,
                SettingsError::MissingPath => "git source requires 'path' setting"@,
            },
    {
        match self {
            SettingsError::MissingApiKey => "weather source requires 'api_key' setting",
            SettingsError::MissingPath => "git source requires 'path' setting",
        }
    }
}

/// The characters of an optional string.
pub open spec fn chars_of(value: Option<String>) -> Option<Seq<char>> {
    match value {
        Some(text) => Some(text@),
        None => None,
    }
}

/// The location asked for where the settings name none.
pub open spec fn default_location() -> Seq<char> {
    "Austin,TX,US"@
}

impl WeatherConfig {
    /// Create config from settings. The API key is required; the
    /// location defaults to Austin, the interval to five minutes and the
    /// units to metric.
    pub fn from_settings(settings: WeatherSettings) -> (config: Result<WeatherConfig, SettingsError>)
        ensures
            settings.api_key.is_none() <==> config == Err::<WeatherConfig, SettingsError>(
                SettingsError::MissingApiKey,
            ),
            settings.api_key.is_some() ==> config.is_ok() && {
                let built = config->Ok_0;
                &&& Some(built.api_key@) == chars_of(settings.api_key)
                &&& built.location@ == match settings.location {
                    Some(location) => location@,
                    None => default_location(),
                }
                &&& built.interval_secs == match settings.interval_secs {
                    Some(secs) => secs,
                    None => 300,
                }
                &&& built.metric == match settings.metric {
                    Some(metric) => metric,
                    None => true,
                }
            },
    {
        let api_key = match settings.api_key {
            Some(key) => key,
            None => {
                return Err(SettingsError::MissingApiKey);
            },
        };
        let location = match settings.location {
            Some(location) => location,
            None => "Austin,TX,US".to_string(),
        };
        let interval_secs = match settings.interval_secs {
            Some(secs) => secs,
            None => 300,
        };
        let metric = match settings.metric {
            Some(metric) => metric,
            None => true,
        };
        Ok(WeatherConfig { api_key, location, interval_secs, metric })
    }
}

/// Bytes that stand for themselves in a query: ASCII letters and digits
/// and the four marks `-`, `.`, `_`, `~`.
pub open spec fn is_unreserved(byte: u8) -> bool {
    ||| 0x30 <= byte <= 0x39
    ||| 0x41 <= byte <= 0x5A
    ||| 0x61 <= byte <= 0x7A
    ||| byte == 0x2D
    ||| byte == 0x2E
    ||| byte == 0x5F
    ||| byte == 0x7E
}

/// The upper-case hexadecimal digit for a value below 16.
pub open spec fn hex_digit(value: u8) -> u8 {
    if value < 10 {
        (0x30 + value) as u8
    } else {
        (0x37 + value) as u8
    }
}

/// Percent-encoding of a byte string: unreserved bytes stay, every other
/// byte becomes `%` and its two hexadecimal digits.
pub open spec fn percent_encoded(bytes: Seq<u8>) -> Seq<u8>
    decreases bytes.len(),
{
    if bytes.len() == 0 {
        Seq::empty()
    } else {
        let byte = bytes.last();
        percent_encoded(bytes.drop_last()) + if is_unreserved(byte) {
            seq![byte]
        } else {
            seq![0x25u8, hex_digit(byte >> 4), hex_digit(byte & 15)]
        }
    }
}

/// Percent-encoding of a string: that of its UTF-8 bytes, read as ASCII.
pub open spec fn url_encoded(text: Seq<char>) -> Seq<char> {
    percent_encoded(vstd::utf8::encode_utf8(text)).map_values(|byte: u8| byte as char)
}

/// Percent-encodes a string with `urlencoding::encode`.
///
/// Trusted: the result holds, as ASCII characters, the UTF-8 bytes of the
/// input with every byte other than a letter, a digit, `-`, `.`, `_` or
/// `~` replaced by `%` and two upper-case hexadecimal digits.
#[verifier::external_body]
fn url_encode(text: &str) -> (encoded: String)
    ensures
        encoded@ == url_encoded(text@),
{
    urlencoding::encode(text).into_owned()
}

/// Name of the unit system in a request.
pub open spec fn units_name(metric: bool) -> Seq<char> {
    if metric {
        "metric"@
    } else {
        "imperial"@
    }
}

/// The request URL for a configuration.
pub open spec fn weather_url(location: Seq<char>, api_key: Seq<char>, metric: bool) -> Seq<char> {
    "https://api.openweathermap.org/data/2.5/weather?q="@ + url_encoded(location) + "&appid="@
        + api_key + "&units="@ + units_name(metric)
}

/// Build the API URL: the percent-encoded location as the query, the key
/// as it is, and the unit system.
pub fn build_url(config: &WeatherConfig) -> (url: String)
    ensures
        url@ == weather_url(config.location@, config.api_key@, config.metric),
{
    let units = if config.metric {
        "metric"
    } else {
        "imperial"
    };
    let encoded = url_encode(config.location.as_str());
    let mut url = String::from_str("https://api.openweathermap.org/data/2.5/weather?q=");
    url.append(encoded.as_str());
    url.append("&appid=");
    url.append(config.api_key.as_str());
    url.append("&units=");
    url.append(units);
    url
}

} // verus!
