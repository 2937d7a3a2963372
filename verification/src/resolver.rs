//! Precedence resolution and validation: the pipeline that merges the
//! command-line, file and default tiers into one validated configuration,
//! failing fast on the first invalid field.

use vstd::prelude::*;
use vstd::string::StringExecFns;
use crate::config_types::CliSource;
use crate::config_types::Config;
use crate::config_types::GeneralConfig;
use crate::config_types::ConfigSource;
use crate::errors::ConfigError;
use crate::external::iana_valid;
use crate::registry::Registry;
use crate::timezone::Timezone;
use crate::timezone::TimezoneConfig;

verus! {

/// Latitude bound in micro-degrees: 90 degrees.
pub const LAT_LIMIT_MICRO: i64 = 90_000_000;

/// Longitude bound in micro-degrees: 180 degrees.
pub const LNG_LIMIT_MICRO: i64 = 180_000_000;

/// Merge one value under the precedence CLI > config file > default.
/// Total: some tier always wins.
pub fn resolve<T>(cli: Option<T>, config: Option<T>, default: T) -> (r: T)
    ensures
        cli matches Some(v) ==> r == v,
        cli is None ==> (config matches Some(v) ==> r == v),
        cli is None && config is None ==> r == default,
{
    match cli {
        Some(v) => v,
        None => match config {
            Some(v) => v,
            None => default,
        },
    }
}

/// The same merge as [`resolve`], also reporting which tier won,
/// for richer diagnostic text elsewhere.
pub fn resolve_with_source<T: Clone>(cli: Option<T>, config: Option<T>, default: T) -> (r: (
    T,
    ConfigSource,
))
    ensures
        cli matches Some(v) ==> r == (v, ConfigSource::Cli),
        cli is None ==> (config matches Some(v) ==> r == (v, ConfigSource::ConfigFile)),
        cli is None && config is None ==> r == (default, ConfigSource::Default),
{
    match cli {
        Some(v) => (v, ConfigSource::Cli),
        None => match config {
            Some(v) => (v, ConfigSource::ConfigFile),
            None => (default, ConfigSource::Default),
        },
    }
}

/// The day-window rules: `days_ahead` in [1, 7], `first_day_offset` in
/// [0, 7], and their sum at most 7. Each rule violation yields its own
/// error, checked in that order.
pub fn validate_date_range(days_ahead: i32, first_day_offset: i32) -> (r: Result<
    (),
    ConfigError,
>)
    ensures
        r is Ok <==> 1 <= days_ahead <= 7 && 0 <= first_day_offset <= 7 && days_ahead
            + first_day_offset <= 7,
        (days_ahead < 1 || days_ahead > 7) ==> (r matches Err(
            ConfigError::DaysAheadOutOfRange { got },
        ) && got == days_ahead),
        (1 <= days_ahead <= 7 && (first_day_offset < 0 || first_day_offset > 7)) ==> (r matches Err(
            ConfigError::FirstDayOffsetOutOfRange { got },
        ) && got == first_day_offset),
        (1 <= days_ahead <= 7 && 0 <= first_day_offset <= 7 && days_ahead + first_day_offset > 7)
            ==> (r matches Err(ConfigError::DayWindowTooLong { days_ahead: d, first_day_offset: o })
            && d == days_ahead && o == first_day_offset),
{
    if days_ahead < 1 || days_ahead > 7 {
        return Err(ConfigError::DaysAheadOutOfRange { got: days_ahead });
    }
    if first_day_offset < 0 || first_day_offset > 7 {
        return Err(ConfigError::FirstDayOffsetOutOfRange { got: first_day_offset });
    }
    if days_ahead + first_day_offset > 7 {
        return Err(
            ConfigError::DayWindowTooLong { days_ahead, first_day_offset },
        );
    }
    Ok(())
}

/// The higher-ranked of two optional tiers.
pub open spec fn opt_or(a: Option<i64>, b: Option<i64>) -> Option<i64> {
    if a is Some {
        a
    } else {
        b
    }
}

/// Validate coordinate ranges, in micro-degrees: latitude within 90
/// degrees of zero, longitude within 180. Latitude is checked first.
pub fn validate_coordinates(lat: i64, lng: i64) -> (r: Result<(), ConfigError>)
    ensures
        r is Ok <==> -LAT_LIMIT_MICRO <= lat <= LAT_LIMIT_MICRO && -LNG_LIMIT_MICRO <= lng
            <= LNG_LIMIT_MICRO,
        (lat < -LAT_LIMIT_MICRO || lat > LAT_LIMIT_MICRO) ==> (r matches Err(
            ConfigError::LatitudeOutOfRange { micro },
        ) && micro == lat),
        (-LAT_LIMIT_MICRO <= lat <= LAT_LIMIT_MICRO && (lng < -LNG_LIMIT_MICRO || lng
            > LNG_LIMIT_MICRO)) ==> (r matches Err(ConfigError::LongitudeOutOfRange { micro })
            && micro == lng),
{
    if lat < -LAT_LIMIT_MICRO || lat > LAT_LIMIT_MICRO {
        return Err(ConfigError::LatitudeOutOfRange { micro: lat });
    }
    if lng < -LNG_LIMIT_MICRO || lng > LNG_LIMIT_MICRO {
        return Err(ConfigError::LongitudeOutOfRange { micro: lng });
    }
    Ok(())
}

/// Resolve coordinates under CLI-over-file precedence, then validate.
/// There is no default tier: a missing axis is an error naming that
/// axis, latitude checked before longitude. Valid coordinates pass
/// through unchanged.
pub fn resolve_coordinates(cli_lat: Option<i64>, cli_lng: Option<i64>, config: &Config) -> (r:
    Result<(i64, i64), ConfigError>)
    ensures
        opt_or(cli_lat, config.general.lat) is None ==> r == Err::<
            (i64, i64),
            ConfigError,
        >(ConfigError::MissingLatitude),
        opt_or(cli_lat, config.general.lat) is Some && opt_or(cli_lng, config.general.lng) is None
            ==> r == Err::<(i64, i64), ConfigError>(ConfigError::MissingLongitude),
        opt_or(cli_lat, config.general.lat) matches Some(la) ==> (opt_or(
            cli_lng,
            config.general.lng,
        ) matches Some(lo) ==> ({
            &&& (la < -LAT_LIMIT_MICRO || la > LAT_LIMIT_MICRO) ==> (r matches Err(
                ConfigError::LatitudeOutOfRange { micro },
            ) && micro == la)
            &&& (-LAT_LIMIT_MICRO <= la <= LAT_LIMIT_MICRO && (lo < -LNG_LIMIT_MICRO || lo
                > LNG_LIMIT_MICRO)) ==> (r matches Err(ConfigError::LongitudeOutOfRange { micro })
                && micro == lo)
            &&& (-LAT_LIMIT_MICRO <= la <= LAT_LIMIT_MICRO && -LNG_LIMIT_MICRO <= lo
                <= LNG_LIMIT_MICRO) ==> r == Ok::<(i64, i64), ConfigError>((la, lo))
        })),
        r matches Ok(c) ==> opt_or(cli_lat, config.general.lat) == Some(c.0) && opt_or(
            cli_lng,
            config.general.lng,
        ) == Some(c.1) && -LAT_LIMIT_MICRO <= c.0 <= LAT_LIMIT_MICRO && -LNG_LIMIT_MICRO <= c.1
            <= LNG_LIMIT_MICRO,
{
    let lat = match cli_lat {
        Some(v) => v,
        None => match config.general.lat {
            Some(v) => v,
            None => {
                return Err(ConfigError::MissingLatitude);
            },
        },
    };
    let lng = match cli_lng {
        Some(v) => v,
        None => match config.general.lng {
            Some(v) => v,
            None => {
                return Err(ConfigError::MissingLongitude);
            },
        },
    };
    match validate_coordinates(lat, lng) {
        Ok(()) => Ok((lat, lng)),
        Err(e) => Err(e),
    }
}

/// Check a provider name against the registry; the error lists every
/// registered name.
pub fn validate_provider(registry: &Registry, provider_name: &str) -> (r: Result<
    (),
    ConfigError,
>)
    ensures
        r is Ok <==> registry.has_name(provider_name@),
        !registry.has_name(provider_name@) ==> (r matches Err(
            ConfigError::UnknownProvider { name, available },
        ) && name@ == provider_name@ && available.deep_view() == registry.names()),
{
    registry.validate_provider_name(provider_name)
}

/// The final validated configuration: all fields concrete, every rule
/// checked. Its existence implies full validation passed; it is
/// assembled once per invocation and never mutated.
#[derive(Debug)]
pub struct ResolvedConfig {
    /// Provider name, validated against the registry.
    pub provider: String,
    /// Validated target timezone.
    pub timezone: Timezone,
    /// Whether the timezone was chosen by the user rather than
    /// defaulted; drives the one-time advisory warning.
    pub timezone_explicit: bool,
    /// Latitude in micro-degrees, within range.
    pub lat: i64,
    /// Longitude in micro-degrees, within range.
    pub lng: i64,
    /// Days to forecast ahead, in [1, 7].
    pub days_ahead: i32,
    /// Offset of the first forecast day, in [0, 7].
    pub first_day_offset: i32,
}

impl ResolvedConfig {
    /// The validation rules every assembled configuration satisfies.
    pub open spec fn wf(self) -> bool {
        &&& -LAT_LIMIT_MICRO <= self.lat <= LAT_LIMIT_MICRO
        &&& -LNG_LIMIT_MICRO <= self.lng <= LNG_LIMIT_MICRO
        &&& 1 <= self.days_ahead <= 7
        &&& 0 <= self.first_day_offset <= 7
        &&& self.days_ahead + self.first_day_offset <= 7
    }
}

/// The provider name the tiers resolve to: CLI, then the file's
/// `default_provider` (which itself defaults to `stormglass`).
pub open spec fn provider_choice(cli: CliSource, config: Config) -> Seq<char> {
    match cli.provider {
        Some(p) => p@,
        None => config.general.default_provider@,
    }
}

/// The day-window values the tiers resolve to: CLI, then 4 and 0.
pub open spec fn days_choice(cli: CliSource) -> int {
    match cli.days_ahead {
        Some(v) => v as int,
        None => 4,
    }
}

/// See [`days_choice`].
pub open spec fn offset_choice(cli: CliSource) -> int {
    match cli.first_day_offset {
        Some(v) => v as int,
        None => 0,
    }
}

/// The deterministic outcome of timezone resolution, when there is
/// one: `Some((name, explicit))` when the winning tier names a valid
/// timezone outright, `None` when it fails or delegates to host
/// detection (the `LOCAL` sentinel).
pub open spec fn tz_choice(cli: CliSource, config: Config) -> Option<(Seq<char>, bool)> {
    match cli.timezone {
        Some(s) => if s@ != "LOCAL"@ && iana_valid(s@) {
            Some((s@, true))
        } else {
            None
        },
        None => if config.general.timezone@ == "UTC"@ {
            Some(("UTC"@, false))
        } else if config.general.timezone@ != "LOCAL"@ && iana_valid(config.general.timezone@) {
            Some((config.general.timezone@, true))
        } else {
            None
        },
    }
}

/// The input the winning timezone tier rejects outright, if any.
pub open spec fn tz_rejected(cli: CliSource, config: Config) -> Option<Seq<char>> {
    match cli.timezone {
        Some(s) => if s@ != "LOCAL"@ && !iana_valid(s@) {
            Some(s@)
        } else {
            None
        },
        None => if config.general.timezone@ != "UTC"@ && config.general.timezone@ != "LOCAL"@
            && !iana_valid(config.general.timezone@) {
            Some(config.general.timezone@)
        } else {
            None
        },
    }
}

/// The single authoritative pipeline: merge the command-line tier with
/// the loaded file record, validate every field, and assemble the
/// immutable configuration. Evaluation order is fixed — provider name
/// against the registry, then timezone, then coordinates, then the day
/// window — and the first invalid field ends the run; errors are not
/// aggregated, by design. The file itself is loaded by the caller; a
/// missing file is the default record.
pub fn resolve_from_args_and_file(cli: &CliSource, config: &Config, registry: &Registry) -> (r:
    Result<ResolvedConfig, ConfigError>)
    ensures
        !registry.has_name(provider_choice(*cli, *config)) ==> (r matches Err(
            ConfigError::UnknownProvider { name, available },
        ) && name@ == provider_choice(*cli, *config) && available.deep_view()
            == registry.names()),
        registry.has_name(provider_choice(*cli, *config)) ==> (tz_rejected(*cli, *config)
            matches Some(inp) ==> (r matches Err(ConfigError::InvalidTimezone { input })
            && input@ == inp)),
        registry.has_name(provider_choice(*cli, *config)) ==> (tz_choice(*cli, *config)
            matches Some(tzc) ==> ({
            &&& opt_or(cli.lat, config.general.lat) is None ==> r == Err::<
                ResolvedConfig,
                ConfigError,
            >(ConfigError::MissingLatitude)
            &&& opt_or(cli.lat, config.general.lat) is Some && opt_or(
                cli.lng,
                config.general.lng,
            ) is None ==> r == Err::<ResolvedConfig, ConfigError>(ConfigError::MissingLongitude)
            &&& opt_or(cli.lat, config.general.lat) matches Some(la) ==> (opt_or(
                cli.lng,
                config.general.lng,
            ) matches Some(lo) ==> ({
                &&& (la < -LAT_LIMIT_MICRO || la > LAT_LIMIT_MICRO) ==> (r matches Err(
                    ConfigError::LatitudeOutOfRange { micro },
                ) && micro == la)
                &&& (-LAT_LIMIT_MICRO <= la <= LAT_LIMIT_MICRO && (lo < -LNG_LIMIT_MICRO || lo
                    > LNG_LIMIT_MICRO)) ==> (r matches Err(
                    ConfigError::LongitudeOutOfRange { micro },
                ) && micro == lo)
                &&& (-LAT_LIMIT_MICRO <= la <= LAT_LIMIT_MICRO && -LNG_LIMIT_MICRO <= lo
                    <= LNG_LIMIT_MICRO) ==> ({
                    &&& (days_choice(*cli) < 1 || days_choice(*cli) > 7) ==> (r matches Err(
                        ConfigError::DaysAheadOutOfRange { got },
                    ) && got == days_choice(*cli))
                    &&& (1 <= days_choice(*cli) <= 7 && (offset_choice(*cli) < 0 || offset_choice(
                        *cli,
                    ) > 7)) ==> (r matches Err(ConfigError::FirstDayOffsetOutOfRange { got })
                        && got == offset_choice(*cli))
                    &&& (1 <= days_choice(*cli) <= 7 && 0 <= offset_choice(*cli) <= 7
                        && days_choice(*cli) + offset_choice(*cli) > 7) ==> (r matches Err(
                        ConfigError::DayWindowTooLong { days_ahead, first_day_offset },
                    ) && days_ahead == days_choice(*cli) && first_day_offset == offset_choice(
                        *cli,
                    ))
                    &&& (1 <= days_choice(*cli) <= 7 && 0 <= offset_choice(*cli) <= 7
                        && days_choice(*cli) + offset_choice(*cli) <= 7) ==> (r matches Ok(rc)
                        && rc.provider@ == provider_choice(*cli, *config)
                        && rc.timezone.name_spec() == tzc.0 && rc.timezone_explicit == tzc.1
                        && rc.lat == la && rc.lng == lo && rc.days_ahead == days_choice(*cli)
                        && rc.first_day_offset == offset_choice(*cli) && rc.wf())
                })
            }))
        })),
        r matches Ok(rc) ==> rc.wf() && rc.provider@ == provider_choice(*cli, *config)
            && registry.has_name(rc.provider@) && rc.days_ahead == days_choice(*cli)
            && rc.first_day_offset == offset_choice(*cli) && opt_or(cli.lat, config.general.lat)
            == Some(rc.lat) && opt_or(cli.lng, config.general.lng) == Some(rc.lng),
        r matches Ok(rc) ==> (tz_choice(*cli, *config) matches Some(tzc) ==> (
        rc.timezone.name_spec() == tzc.0 && rc.timezone_explicit == tzc.1)),
        r matches Ok(rc) ==> (tz_choice(*cli, *config) is None ==> rc.timezone_explicit),
{
    let provider: String = match &cli.provider {
        Some(p) => p.clone(),
        None => config.general.default_provider.clone(),
    };
    match registry.validate_provider_name(provider.as_str()) {
        Ok(()) => (),
        Err(e) => {
            return Err(e);
        },
    }
    let cli_tz: Option<&str> = match &cli.timezone {
        Some(s) => Some(s.as_str()),
        None => None,
    };
    let tzc = match TimezoneConfig::load_with_precedence(
        cli_tz,
        Some(config.general.timezone.as_str()),
    ) {
        Ok(t) => t,
        Err(e) => {
            return Err(e);
        },
    };
    let (lat, lng) = match resolve_coordinates(cli.lat, cli.lng, config) {
        Ok(c) => c,
        Err(e) => {
            return Err(e);
        },
    };
    let days_ahead: i32 = match cli.days_ahead {
        Some(v) => v,
        None => 4,
    };
    let first_day_offset: i32 = match cli.first_day_offset {
        Some(v) => v,
        None => 0,
    };
    match validate_date_range(days_ahead, first_day_offset) {
        Ok(()) => (),
        Err(e) => {
            return Err(e);
        },
    }
    Ok(
        ResolvedConfig {
            provider,
            timezone: tzc.timezone,
            timezone_explicit: tzc.explicit,
            lat,
            lng,
            days_ahead,
            first_day_offset,
        },
    )
}

/// Turn a resolved configuration back into the file record that
/// persists it, losslessly: the caller writes the record out.
pub fn config_from_resolved(resolved: &ResolvedConfig) -> (r: Config)
    ensures
        r.general.timezone@ == resolved.timezone.name_spec(),
        r.general.default_provider@ == resolved.provider@,
        r.general.lat == Some(resolved.lat),
        r.general.lng == Some(resolved.lng),
{
    Config {
        general: GeneralConfig {
            timezone: String::from_str(resolved.timezone.name()),
            default_provider: resolved.provider.clone(),
            lat: Some(resolved.lat),
            lng: Some(resolved.lng),
        },
    }
}

} // verus!
