//! Data shapes of the configuration pipeline: the three ranked input tiers,
//! the tag naming which tier supplied a value, and the file-config record.
//!
//! Coordinates are carried as micro-degrees (degrees scaled by 1_000_000),
//! so that range rules and precedence can be stated and checked exactly.

use vstd::prelude::*;
use vstd::string::StringExecFns;

verus! {

/// Indicates which ranked source supplied a configuration value.
/// Used only for diagnostic text, never for control flow after resolution.
#[derive(Debug, Clone, Copy, PartialEq, Eq, Structural)]
pub enum ConfigSource {
    /// Value provided via a command-line argument.
    Cli,
    /// Value loaded from the configuration file.
    ConfigFile,
    /// Built-in default value applied.
    Default,
}

impl ConfigSource {
    /// Human-readable name of the tier, for diagnostics.
    pub fn to_string(&self) -> (r: String)
        ensures
            *self == ConfigSource::Cli ==> r@ == "CLI argument"@,
            *self == ConfigSource::ConfigFile ==> r@ == "config file"@,
            *self == ConfigSource::Default ==> r@ == "default value"@,
    {
        match self {
            ConfigSource::Cli => String::from_str("CLI argument"),
            ConfigSource::ConfigFile => String::from_str("config file"),
            ConfigSource::Default => String::from_str("default value"),
        }
    }
}

/// Raw values taken from the command line; `None` means the flag was absent.
/// Coordinates are in micro-degrees.
#[derive(Debug, Clone)]
pub struct CliSource {
    pub provider: Option<String>,
    pub timezone: Option<String>,
    pub lat: Option<i64>,
    pub lng: Option<i64>,
    pub days_ahead: Option<i32>,
    pub first_day_offset: Option<i32>,
}

impl Default for CliSource {
    fn default() -> (r: Self)
        ensures
            r.provider is None,
            r.timezone is None,
            r.lat is None,
            r.lng is None,
            r.days_ahead is None,
            r.first_day_offset is None,
    {
        CliSource {
            provider: None,
            timezone: None,
            lat: None,
            lng: None,
            days_ahead: None,
            first_day_offset: None,
        }
    }
}

/// Raw values taken from the configuration file; `None` means the field
/// was absent. Coordinates are in micro-degrees.
#[derive(Debug, Clone)]
pub struct FileSource {
    pub provider: Option<String>,
    pub timezone: Option<String>,
    pub lat: Option<i64>,
    pub lng: Option<i64>,
}

impl Default for FileSource {
    fn default() -> (r: Self)
        ensures
            r.provider is None,
            r.timezone is None,
            r.lat is None,
            r.lng is None,
    {
        FileSource { provider: None, timezone: None, lat: None, lng: None }
    }
}

/// Built-in defaults, the lowest tier. Coordinates have no default on
/// purpose: they must come from the command line or the file.
#[derive(Debug, Clone)]
pub struct DefaultSource {
    pub provider: String,
    pub timezone: String,
    pub days_ahead: i32,
    pub first_day_offset: i32,
}

impl Default for DefaultSource {
    fn default() -> (r: Self)
        ensures
            r.provider@ == "stormglass"@,
            r.timezone@ == "UTC"@,
            r.days_ahead == 4,
            r.first_day_offset == 0,
    {
        DefaultSource {
            provider: default_provider(),
            timezone: default_timezone(),
            days_ahead: 4,
            first_day_offset: 0,
        }
    }
}

/// All three ranked tiers, bundled for one resolution pass.
#[derive(Debug, Clone)]
pub struct ConfigSources {
    pub cli: CliSource,
    pub config_file: FileSource,
    pub defaults: DefaultSource,
}

impl Default for ConfigSources {
    fn default() -> (r: Self)
        ensures
            r.cli.provider is None,
            r.cli.timezone is None,
            r.cli.lat is None,
            r.cli.lng is None,
            r.config_file.provider is None,
            r.config_file.timezone is None,
            r.config_file.lat is None,
            r.config_file.lng is None,
            r.defaults.provider@ == "stormglass"@,
            r.defaults.timezone@ == "UTC"@,
    {
        ConfigSources {
            cli: CliSource::default(),
            config_file: FileSource::default(),
            defaults: DefaultSource::default(),
        }
    }
}

/// The timezone identifier assumed when the file carries none.
pub fn default_timezone() -> (r: String)
    ensures
        r@ == "UTC"@,
{
    String::from_str("UTC")
}

/// The provider name assumed when neither tier names one.
pub fn default_provider() -> (r: String)
    ensures
        r@ == "stormglass"@,
{
    String::from_str("stormglass")
}

/// The `[general]` section of the configuration file, as plain values.
/// Coordinates are in micro-degrees.
#[derive(Debug, Clone)]
pub struct GeneralConfig {
    pub timezone: String,
    pub default_provider: String,
    pub lat: Option<i64>,
    pub lng: Option<i64>,
}

impl Default for GeneralConfig {
    fn default() -> (r: Self)
        ensures
            r.timezone@ == "UTC"@,
            r.default_provider@ == "stormglass"@,
            r.lat is None,
            r.lng is None,
    {
        GeneralConfig {
            timezone: default_timezone(),
            default_provider: default_provider(),
            lat: None,
            lng: None,
        }
    }
}

/// The whole configuration-file record. A missing file is represented by
/// the default record, so absence is never an error.
#[derive(Debug, Clone)]
pub struct Config {
    pub general: GeneralConfig,
}

impl Default for Config {
    fn default() -> (r: Self)
        ensures
            r.general.timezone@ == "UTC"@,
            r.general.default_provider@ == "stormglass"@,
            r.general.lat is None,
            r.general.lng is None,
    {
        Config { general: GeneralConfig::default() }
    }
}

} // verus!
