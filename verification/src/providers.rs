//! The built-in data sources' registry-facing side: their descriptors,
//! their API-error shapes with exact status-to-message rules, and the
//! units table the output carries. The HTTP fetch paths live with the
//! unverified shell; what is here is everything lookup and diagnostics
//! rely on.

use vstd::prelude::*;
use vstd::string::StringExecFns;
use crate::num::dec_seq;
use crate::num::u64_to_string;
use crate::registry::ProviderMetadata;
use crate::registry::Registry;
use crate::text::str_eq;

verus! {

/// The message Storm Glass's documented status codes map to.
pub open spec fn stormglass_status_message(status: int) -> Seq<char> {
    if status == 402 {
        "Payment Required: You've exceeded the daily request limit for your subscription.\nPlease consider upgrading if this happens frequently, or try again tomorrow."@
    } else if status == 403 {
        "Forbidden: Your API key was not provided or is malformed.\nPlease check that STORMGLASS_API_KEY in your .env file is correct."@
    } else if status == 404 {
        "Not Found: The requested API resource does not exist.\nPlease verify the API endpoint and review the API documentation."@
    } else if status == 405 {
        "Method Not Allowed: The API resource was requested using an unsupported method.\nPlease review the API documentation for correct usage."@
    } else if status == 410 {
        "Gone: You've requested a legacy API resource that is no longer available.\nPlease update your code to use the current API version."@
    } else if status == 422 {
        "Unprocessable Content: Invalid request parameters.\nPlease verify your coordinates, date range, and other parameters are correct."@
    } else if status == 503 {
        "Service Unavailable: Storm Glass is experiencing technical difficulties.\nPlease try again later."@
    } else {
        "Unexpected API error (HTTP "@ + dec_seq(status)
            + ").\nPlease check the API documentation or try again later."@
    }
}

/// A Storm Glass API failure: the HTTP status and its message.
#[derive(Debug)]
pub struct StormGlassAPIError {
    status_code: u16,
    message: String,
}

impl StormGlassAPIError {
    /// The carried status code.
    pub closed spec fn status_spec(self) -> int {
        self.status_code as int
    }

    /// The carried message.
    pub closed spec fn message_spec(self) -> Seq<char> {
        self.message@
    }

    /// Wrap a status and message as they are.
    pub fn new(status_code: u16, message: String) -> (r: Self)
        ensures
            r.status_spec() == status_code as int,
            r.message_spec() == message@,
    {
        StormGlassAPIError { status_code, message }
    }

    /// Map a status code to its documented, actionable message.
    pub fn from_status_code(status_code: u16) -> (r: Self)
        ensures
            r.status_spec() == status_code as int,
            r.message_spec() == stormglass_status_message(status_code as int),
    {
        let message: String = match status_code {
            402 => String::from_str(
                "Payment Required: You've exceeded the daily request limit for your subscription.\nPlease consider upgrading if this happens frequently, or try again tomorrow.",
            ),
            403 => String::from_str(
                "Forbidden: Your API key was not provided or is malformed.\nPlease check that STORMGLASS_API_KEY in your .env file is correct.",
            ),
            404 => String::from_str(
                "Not Found: The requested API resource does not exist.\nPlease verify the API endpoint and review the API documentation.",
            ),
            405 => String::from_str(
                "Method Not Allowed: The API resource was requested using an unsupported method.\nPlease review the API documentation for correct usage.",
            ),
            410 => String::from_str(
                "Gone: You've requested a legacy API resource that is no longer available.\nPlease update your code to use the current API version.",
            ),
            422 => String::from_str(
                "Unprocessable Content: Invalid request parameters.\nPlease verify your coordinates, date range, and other parameters are correct.",
            ),
            503 => String::from_str(
                "Service Unavailable: Storm Glass is experiencing technical difficulties.\nPlease try again later.",
            ),
            _ => {
                let mut m = String::from_str("Unexpected API error (HTTP ");
                let num = u64_to_string(status_code as u64);
                m.append(num.as_str());
                m.append(").\nPlease check the API documentation or try again later.");
                proof {
                    assert(m@ =~= stormglass_status_message(status_code as int));
                }
                m
            },
        };
        StormGlassAPIError { status_code, message }
    }

    /// The error as text: `Storm Glass API Error (HTTP <status>): <message>`.
    pub fn to_string(&self) -> (r: String)
        ensures
            r@ == "Storm Glass API Error (HTTP "@ + dec_seq(self.status_spec()) + "): "@
                + self.message_spec(),
    {
        let mut m = String::from_str("Storm Glass API Error (HTTP ");
        let num = u64_to_string(self.status_code as u64);
        m.append(num.as_str());
        m.append("): ");
        m.append(self.message.as_str());
        proof {
            assert(m@ =~= "Storm Glass API Error (HTTP "@ + dec_seq(self.status_spec()) + "): "@
                + self.message_spec());
        }
        m
    }
}

/// The message Windy's documented status codes map to; 400 carries the
/// response body.
pub open spec fn windy_status_message(status: int, body: Seq<char>) -> Seq<char> {
    if status == 204 {
        "the selected model does not feature any of the requested parameters."@
    } else if status == 400 {
        "invalid request, error: "@ + body + "."@
    } else if status == 500 {
        "unexpected error."@
    } else {
        "Unexpected API error (HTTP "@ + dec_seq(status)
            + ").\nPlease check the API documentation or try again later."@
    }
}

/// A Windy API failure: the HTTP status and its message.
#[derive(Debug)]
pub struct WindyAPIError {
    status_code: u16,
    message: String,
}

impl WindyAPIError {
    /// The carried status code.
    pub closed spec fn status_spec(self) -> int {
        self.status_code as int
    }

    /// The carried message.
    pub closed spec fn message_spec(self) -> Seq<char> {
        self.message@
    }

    /// Wrap a status and message as they are.
    pub fn new(status_code: u16, message: String) -> (r: Self)
        ensures
            r.status_spec() == status_code as int,
            r.message_spec() == message@,
    {
        WindyAPIError { status_code, message }
    }

    /// Map a status code, and for bad requests the response body, to
    /// the documented message.
    pub fn from_status_code_and_body(status_code: u16, body: &str) -> (r: Self)
        ensures
            r.status_spec() == status_code as int,
            r.message_spec() == windy_status_message(status_code as int, body@),
    {
        let message: String = match status_code {
            204 => String::from_str(
                "the selected model does not feature any of the requested parameters.",
            ),
            400 => {
                let mut m = String::from_str("invalid request, error: ");
                m.append(body);
                m.append(".");
                proof {
                    assert(m@ =~= windy_status_message(status_code as int, body@));
                }
                m
            },
            500 => String::from_str("unexpected error."),
            _ => {
                let mut m = String::from_str("Unexpected API error (HTTP ");
                let num = u64_to_string(status_code as u64);
                m.append(num.as_str());
                m.append(").\nPlease check the API documentation or try again later.");
                proof {
                    assert(m@ =~= windy_status_message(status_code as int, body@));
                }
                m
            },
        };
        WindyAPIError { status_code, message }
    }

    /// The error as text: `Windy Glass API Error (HTTP <status>): <message>`.
    pub fn to_string(&self) -> (r: String)
        ensures
            r@ == "Windy Glass API Error (HTTP "@ + dec_seq(self.status_spec()) + "): "@
                + self.message_spec(),
    {
        let mut m = String::from_str("Windy Glass API Error (HTTP ");
        let num = u64_to_string(self.status_code as u64);
        m.append(num.as_str());
        m.append("): ");
        m.append(self.message.as_str());
        proof {
            assert(m@ =~= "Windy Glass API Error (HTTP "@ + dec_seq(self.status_spec()) + "): "@
                + self.message_spec());
        }
        m
    }
}

/// The Storm Glass data source; holds its API key for the fetch layer.
#[derive(Debug)]
pub struct StormGlassProvider {
    api_key: String,
}

impl StormGlassProvider {
    /// The key handed in at construction.
    pub closed spec fn api_key_spec(self) -> Seq<char> {
        self.api_key@
    }

    /// Build the provider around its API key.
    pub fn new(api_key: String) -> (r: Self)
        ensures
            r.api_key_spec() == api_key@,
    {
        StormGlassProvider { api_key }
    }

    /// The provider's registry name.
    pub fn name(&self) -> (r: &str)
        ensures
            r@ == "stormglass"@,
    {
        "stormglass"
    }

    /// The key this provider was built with.
    pub fn api_key(&self) -> (r: &str)
        ensures
            r@ == self.api_key_spec(),
    {
        self.api_key.as_str()
    }

    /// This provider's registry descriptor.
    pub fn metadata() -> (r: ProviderMetadata)
        ensures
            r.name@ == "stormglass"@,
            r.description@ == "StormGlass Marine Weather API"@,
            r.api_key_var@ == "STORMGLASS_API_KEY"@,
    {
        ProviderMetadata {
            name: String::from_str("stormglass"),
            description: String::from_str("StormGlass Marine Weather API"),
            api_key_var: String::from_str("STORMGLASS_API_KEY"),
        }
    }
}

/// The OpenWeatherMap data source; holds its API key for the fetch
/// layer.
#[derive(Debug)]
pub struct OpenWeatherMapProvider {
    api_key: String,
}

impl OpenWeatherMapProvider {
    /// The key handed in at construction.
    pub closed spec fn api_key_spec(self) -> Seq<char> {
        self.api_key@
    }

    /// Build the provider around its API key.
    pub fn new(api_key: String) -> (r: Self)
        ensures
            r.api_key_spec() == api_key@,
    {
        OpenWeatherMapProvider { api_key }
    }

    /// The provider's registry name.
    pub fn name(&self) -> (r: &str)
        ensures
            r@ == "openweathermap"@,
    {
        "openweathermap"
    }

    /// The short tag used in output labels.
    pub fn short_name(&self) -> (r: &str)
        ensures
            r@ == "owm"@,
    {
        "owm"
    }

    /// The key this provider was built with.
    pub fn api_key(&self) -> (r: &str)
        ensures
            r@ == self.api_key_spec(),
    {
        self.api_key.as_str()
    }

    /// This provider's registry descriptor.
    pub fn metadata() -> (r: ProviderMetadata)
        ensures
            r.name@ == "openweathermap"@,
            r.description@ == "OpenWeatherMap Global Weather Data"@,
            r.api_key_var@ == "OPEN_WEATHER_MAP_API_KEY"@,
    {
        ProviderMetadata {
            name: String::from_str("openweathermap"),
            description: String::from_str("OpenWeatherMap Global Weather Data"),
            api_key_var: String::from_str("OPEN_WEATHER_MAP_API_KEY"),
        }
    }
}

/// The Windy data source; holds its API key and endpoint for the fetch
/// layer.
#[derive(Debug)]
pub struct WindyProvider {
    api_key: String,
    api_url: String,
}

impl WindyProvider {
    /// The key handed in at construction.
    pub closed spec fn api_key_spec(self) -> Seq<char> {
        self.api_key@
    }

    /// The endpoint handed in at construction.
    pub closed spec fn api_url_spec(self) -> Seq<char> {
        self.api_url@
    }

    /// Build the provider around its API key and endpoint.
    pub fn new(api_key: String, api_url: String) -> (r: Self)
        ensures
            r.api_key_spec() == api_key@,
            r.api_url_spec() == api_url@,
    {
        WindyProvider { api_key, api_url }
    }

    /// The provider's registry name.
    pub fn name(&self) -> (r: &str)
        ensures
            r@ == "windy"@,
    {
        "windy"
    }

    /// The key this provider was built with.
    pub fn api_key(&self) -> (r: &str)
        ensures
            r@ == self.api_key_spec(),
    {
        self.api_key.as_str()
    }

    /// The endpoint this provider was built with.
    pub fn api_url(&self) -> (r: &str)
        ensures
            r@ == self.api_url_spec(),
    {
        self.api_url.as_str()
    }

    /// This provider's registry descriptor.
    pub fn metadata() -> (r: ProviderMetadata)
        ensures
            r.name@ == "windy"@,
            r.description@ == "Windy.com Weather API"@,
            r.api_key_var@ == "WINDY_API_KEY"@,
    {
        ProviderMetadata {
            name: String::from_str("windy"),
            description: String::from_str("Windy.com Weather API"),
            api_key_var: String::from_str("WINDY_API_KEY"),
        }
    }
}

/// The registry holding every compiled-in provider, in the fixed order
/// the modules are assembled; adding a source means adding its
/// descriptor here and nowhere else.
pub fn default_registry() -> (r: Registry)
    ensures
        r.providers@.len() == 3,
        r.providers@[0].name@ == "stormglass"@,
        r.providers@[1].name@ == "openweathermap"@,
        r.providers@[2].name@ == "windy"@,
        r.providers@[0].description@ == "StormGlass Marine Weather API"@,
        r.providers@[1].description@ == "OpenWeatherMap Global Weather Data"@,
        r.providers@[2].description@ == "Windy.com Weather API"@,
        r.providers@[0].api_key_var@ == "STORMGLASS_API_KEY"@,
        r.providers@[1].api_key_var@ == "OPEN_WEATHER_MAP_API_KEY"@,
        r.providers@[2].api_key_var@ == "WINDY_API_KEY"@,
{
    let mut registry = Registry::new();
    registry.register(StormGlassProvider::metadata());
    registry.register(OpenWeatherMapProvider::metadata());
    registry.register(WindyProvider::metadata());
    registry
}

/// The wind-speed unit a provider reports in: Storm Glass data is
/// converted to knots, everything else stays in metres per second.
pub fn wind_unit(provider_name: &str) -> (r: &'static str)
    ensures
        provider_name@ == "stormglass"@ ==> r@ == "knots"@,
        provider_name@ != "stormglass"@ ==> r@ == "m/s"@,
{
    if str_eq(provider_name, "stormglass") {
        "knots"
    } else {
        "m/s"
    }
}

/// The unit legend of the output: one `(field, description)` pair per
/// reported quantity, wind entries naming the provider's unit.
pub fn create_units_map(provider_name: &str) -> (r: Vec<(String, String)>)
    ensures
        r@.len() == 8,
        r@[0].0@ == "windSpeed"@,
        r@[0].1@ == "Speed of wind at 10m above ground in "@ + (if provider_name@
            == "stormglass"@ {
            "knots"@
        } else {
            "m/s"@
        }),
        r@[1].0@ == "gust"@,
        r@[1].1@ == "Wind gust in "@ + (if provider_name@ == "stormglass"@ {
            "knots"@
        } else {
            "m/s"@
        }),
        r@[2].0@ == "airTemperature"@,
        r@[2].1@ == "Air temperature in degrees celsius"@,
        r@[3].0@ == "swellHeight"@,
        r@[3].1@ == "Height of swell waves in meters"@,
        r@[4].0@ == "swellPeriod"@,
        r@[4].1@ == "Period of swell waves in seconds"@,
        r@[5].0@ == "swellDirection"@,
        r@[5].1@ == "Direction of swell waves. 0 indicates swell coming from north"@,
        r@[6].0@ == "waterTemperature"@,
        r@[6].1@ == "Water temperature in degrees celsius"@,
        r@[7].0@ == "windDirection"@,
        r@[7].1@ == "Direction of wind at 10m above ground. 0 indicates wind coming from north"@,
{
    let unit = wind_unit(provider_name);
    let mut out: Vec<(String, String)> = Vec::new();
    let mut wind_speed = String::from_str("Speed of wind at 10m above ground in ");
    wind_speed.append(unit);
    out.push((String::from_str("windSpeed"), wind_speed));
    let mut gust = String::from_str("Wind gust in ");
    gust.append(unit);
    out.push((String::from_str("gust"), gust));
    out.push(
        (
            String::from_str("airTemperature"),
            String::from_str("Air temperature in degrees celsius"),
        ),
    );
    out.push(
        (String::from_str("swellHeight"), String::from_str("Height of swell waves in meters")),
    );
    out.push(
        (String::from_str("swellPeriod"), String::from_str("Period of swell waves in seconds")),
    );
    out.push(
        (
            String::from_str("swellDirection"),
            String::from_str("Direction of swell waves. 0 indicates swell coming from north"),
        ),
    );
    out.push(
        (
            String::from_str("waterTemperature"),
            String::from_str("Water temperature in degrees celsius"),
        ),
    );
    out.push(
        (
            String::from_str("windDirection"),
            String::from_str(
                "Direction of wind at 10m above ground. 0 indicates wind coming from north",
            ),
        ),
    );
    out
}

} // verus!
