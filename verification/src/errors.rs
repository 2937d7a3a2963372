//! The error taxonomy of the configuration pipeline. Every variant carries
//! the concrete offending value, so a message can name the field, the rule
//! violated, and the value, and a caller can match on the exact cause.

use vstd::prelude::*;
use vstd::string::StringExecFns;
use crate::num::int_seq;
use crate::num::i32_to_string;
use crate::num::i64_to_string;
use crate::num::micro_seq;
use crate::num::micro_to_string;
use crate::text::comma_joined;
use crate::text::join_comma;

verus! {

/// A user-fixable configuration failure. Resolution stops at the first one.
#[derive(Debug, Clone)]
pub enum ConfigError {
    /// Neither the command line nor the file supplied a latitude.
    MissingLatitude,
    /// Neither the command line nor the file supplied a longitude.
    MissingLongitude,
    /// Latitude (micro-degrees) outside [-90, 90] degrees.
    LatitudeOutOfRange { micro: i64 },
    /// Longitude (micro-degrees) outside [-180, 180] degrees.
    LongitudeOutOfRange { micro: i64 },
    /// `days_ahead` outside [1, 7].
    DaysAheadOutOfRange { got: i32 },
    /// `first_day_offset` outside [0, 7].
    FirstDayOffsetOutOfRange { got: i32 },
    /// `days_ahead + first_day_offset` exceeds 7.
    DayWindowTooLong { days_ahead: i32, first_day_offset: i32 },
    /// The given string is not an IANA timezone identifier.
    InvalidTimezone { input: String },
    /// The host OS did not report a timezone.
    SystemTimezoneDetectFailed,
    /// The host OS reported a name that is not an IANA identifier.
    SystemTimezoneInvalid { name: String },
    /// The named provider is not in the registry; `available` lists every
    /// registered name, in registration order.
    UnknownProvider { name: String, available: Vec<String> },
}

impl ConfigError {
    /// The error's message text: each names the field, the rule
    /// violated, the offending value, and how to fix it.
    pub fn to_string(&self) -> (r: String)
        ensures
            self is MissingLatitude ==> r@
                == "Latitude not specified. Provide via --lat argument or configure in config file."@,
            self is MissingLongitude ==> r@
                == "Longitude not specified. Provide via --lng argument or configure in config file."@,
            *self matches ConfigError::LatitudeOutOfRange { micro } ==> r@ == "Latitude "@
                + micro_seq(micro as int)
                + " is out of valid range. Must be between -90.0 and 90.0 degrees."@,
            *self matches ConfigError::LongitudeOutOfRange { micro } ==> r@ == "Longitude "@
                + micro_seq(micro as int)
                + " is out of valid range. Must be between -180.0 and 180.0 degrees."@,
            *self matches ConfigError::DaysAheadOutOfRange { got } ==> r@
                == "days-ahead must be between 1 and 7 (got "@ + int_seq(got as int) + ")"@,
            *self matches ConfigError::FirstDayOffsetOutOfRange { got } ==> r@
                == "first-day-offset must be between 0 and 7 (got "@ + int_seq(got as int) + ")"@,
            *self matches ConfigError::DayWindowTooLong { days_ahead, first_day_offset } ==> r@
                == "days-ahead ("@ + int_seq(days_ahead as int) + ") + first-day-offset ("@
                + int_seq(first_day_offset as int) + ") = "@ + int_seq(
                days_ahead + first_day_offset,
            ) + " exceeds maximum of 7 days for reliable forecasts"@,
            *self matches ConfigError::InvalidTimezone { input } ==> r@
                == "Invalid timezone identifier: '"@ + input@
                + "'\n\nExamples of valid identifiers:\n- UTC\n- LOCAL (use system timezone)\n- America/New_York\n- America/Los_Angeles\n- Europe/London\n- Europe/Paris\n- Asia/Jerusalem\n- Asia/Tokyo\n- Australia/Sydney\n\nFor a complete list, see:\nhttps://en.wikipedia.org/wiki/List_of_tz_database_time_zones"@,
            self is SystemTimezoneDetectFailed ==> r@ == "Failed to detect system timezone"@,
            *self matches ConfigError::SystemTimezoneInvalid { name } ==> r@
                == "System timezone '"@ + name@ + "' is not a valid IANA timezone identifier"@,
            *self matches ConfigError::UnknownProvider { name, available } ==> r@
                == "Unknown provider '"@ + name@ + "'. Available providers: "@ + comma_joined(
                available.deep_view(),
            ),
    {
        match self {
            ConfigError::MissingLatitude => String::from_str(
                "Latitude not specified. Provide via --lat argument or configure in config file.",
            ),
            ConfigError::MissingLongitude => String::from_str(
                "Longitude not specified. Provide via --lng argument or configure in config file.",
            ),
            ConfigError::LatitudeOutOfRange { micro } => {
                let mut m = String::from_str("Latitude ");
                let v = micro_to_string(*micro);
                m.append(v.as_str());
                m.append(" is out of valid range. Must be between -90.0 and 90.0 degrees.");
                proof {
                    assert(m@ =~= "Latitude "@ + micro_seq(*micro as int)
                        + " is out of valid range. Must be between -90.0 and 90.0 degrees."@);
                }
                m
            },
            ConfigError::LongitudeOutOfRange { micro } => {
                let mut m = String::from_str("Longitude ");
                let v = micro_to_string(*micro);
                m.append(v.as_str());
                m.append(" is out of valid range. Must be between -180.0 and 180.0 degrees.");
                proof {
                    assert(m@ =~= "Longitude "@ + micro_seq(*micro as int)
                        + " is out of valid range. Must be between -180.0 and 180.0 degrees."@);
                }
                m
            },
            ConfigError::DaysAheadOutOfRange { got } => {
                let mut m = String::from_str("days-ahead must be between 1 and 7 (got ");
                let v = i32_to_string(*got);
                m.append(v.as_str());
                m.append(")");
                proof {
                    assert(m@ =~= "days-ahead must be between 1 and 7 (got "@ + int_seq(
                        *got as int,
                    ) + ")"@);
                }
                m
            },
            ConfigError::FirstDayOffsetOutOfRange { got } => {
                let mut m = String::from_str("first-day-offset must be between 0 and 7 (got ");
                let v = i32_to_string(*got);
                m.append(v.as_str());
                m.append(")");
                proof {
                    assert(m@ =~= "first-day-offset must be between 0 and 7 (got "@ + int_seq(
                        *got as int,
                    ) + ")"@);
                }
                m
            },
            ConfigError::DayWindowTooLong { days_ahead, first_day_offset } => {
                let mut m = String::from_str("days-ahead (");
                let d = i32_to_string(*days_ahead);
                m.append(d.as_str());
                m.append(") + first-day-offset (");
                let o = i32_to_string(*first_day_offset);
                m.append(o.as_str());
                m.append(") = ");
                let total: i64 = (*days_ahead as i64) + (*first_day_offset as i64);
                let t = i64_to_string(total);
                m.append(t.as_str());
                m.append(" exceeds maximum of 7 days for reliable forecasts");
                proof {
                    assert(m@ =~= "days-ahead ("@ + int_seq(*days_ahead as int)
                        + ") + first-day-offset ("@ + int_seq(*first_day_offset as int) + ") = "@
                        + int_seq(*days_ahead + *first_day_offset)
                        + " exceeds maximum of 7 days for reliable forecasts"@);
                }
                m
            },
            ConfigError::InvalidTimezone { input } => {
                let mut m = String::from_str("Invalid timezone identifier: '");
                m.append(input.as_str());
                m.append(
                    "'\n\nExamples of valid identifiers:\n- UTC\n- LOCAL (use system timezone)\n- America/New_York\n- America/Los_Angeles\n- Europe/London\n- Europe/Paris\n- Asia/Jerusalem\n- Asia/Tokyo\n- Australia/Sydney\n\nFor a complete list, see:\nhttps://en.wikipedia.org/wiki/List_of_tz_database_time_zones",
                );
                proof {
                    assert(m@ =~= "Invalid timezone identifier: '"@ + input@
                        + "'\n\nExamples of valid identifiers:\n- UTC\n- LOCAL (use system timezone)\n- America/New_York\n- America/Los_Angeles\n- Europe/London\n- Europe/Paris\n- Asia/Jerusalem\n- Asia/Tokyo\n- Australia/Sydney\n\nFor a complete list, see:\nhttps://en.wikipedia.org/wiki/List_of_tz_database_time_zones"@);
                }
                m
            },
            ConfigError::SystemTimezoneDetectFailed => String::from_str(
                "Failed to detect system timezone",
            ),
            ConfigError::SystemTimezoneInvalid { name } => {
                let mut m = String::from_str("System timezone '");
                m.append(name.as_str());
                m.append("' is not a valid IANA timezone identifier");
                proof {
                    assert(m@ =~= "System timezone '"@ + name@
                        + "' is not a valid IANA timezone identifier"@);
                }
                m
            },
            ConfigError::UnknownProvider { name, available } => {
                let mut m = String::from_str("Unknown provider '");
                m.append(name.as_str());
                m.append("'. Available providers: ");
                let joined = join_comma(available);
                m.append(joined.as_str());
                proof {
                    assert(m@ =~= "Unknown provider '"@ + name@ + "'. Available providers: "@
                        + comma_joined(available.deep_view()));
                }
                m
            },
        }
    }
}

/// A failure of the timestamp layer: the input was not an RFC 3339
/// timestamp. Carries the offending text.
#[derive(Debug, Clone)]
pub enum ConversionError {
    /// The string could not be parsed as an RFC 3339 instant.
    InvalidTimestamp { input: String },
}

impl ConversionError {
    /// The error's message text, naming the offending input.
    pub fn to_string(&self) -> (r: String)
        ensures
            *self matches ConversionError::InvalidTimestamp { input } ==> r@
                == "Failed to parse UTC timestamp from '"@ + input@ + "'"@,
    {
        match self {
            ConversionError::InvalidTimestamp { input } => {
                let mut m = String::from_str("Failed to parse UTC timestamp from '");
                m.append(input.as_str());
                m.append("'");
                proof {
                    assert(m@ =~= "Failed to parse UTC timestamp from '"@ + input@ + "'"@);
                }
                m
            },
        }
    }
}

} // verus!
