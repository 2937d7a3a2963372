// Precedence resolution and day-window validation, including the
// worked examples: (4,3) fills the window, (5,3) overruns it, and
// (0,0) breaks the days-ahead range.

use windsurf_forecast::config_types::Config;
use windsurf_forecast::config_types::ConfigSource;
use windsurf_forecast::errors::ConfigError;
use windsurf_forecast::providers::default_registry;
use windsurf_forecast::resolver::resolve;
use windsurf_forecast::resolver::resolve_coordinates;
use windsurf_forecast::resolver::resolve_with_source;
use windsurf_forecast::resolver::validate_coordinates;
use windsurf_forecast::resolver::validate_date_range;
use windsurf_forecast::resolver::validate_provider;

#[test]
fn resolve_prefers_cli_over_config() {
    let result = resolve(Some("cli_value"), Some("config_value"), "default_value");
    assert_eq!(result, "cli_value");
}

#[test]
fn resolve_prefers_config_over_default() {
    let result = resolve(None::<&str>, Some("config_value"), "default_value");
    assert_eq!(result, "config_value");
}

#[test]
fn resolve_uses_default_when_others_none() {
    let result = resolve(None::<&str>, None::<&str>, "default_value");
    assert_eq!(result, "default_value");
}

#[test]
fn resolve_with_source_tracks_cli() {
    let (val, source) = resolve_with_source(Some(42), Some(100), 0);
    assert_eq!(val, 42);
    assert_eq!(source, ConfigSource::Cli);
}

#[test]
fn resolve_with_source_tracks_config_and_default() {
    let (val, source) = resolve_with_source(None, Some(100), 0);
    assert_eq!(val, 100);
    assert_eq!(source, ConfigSource::ConfigFile);
    let (val, source) = resolve_with_source(None::<i32>, None, 7);
    assert_eq!(val, 7);
    assert_eq!(source, ConfigSource::Default);
}

#[test]
fn validate_date_range_accepts_valid_values() {
    assert!(validate_date_range(4, 0).is_ok());
    assert!(validate_date_range(1, 6).is_ok());
    assert!(validate_date_range(7, 0).is_ok());
}

#[test]
fn validate_date_range_enforces_business_rule() {
    assert!(validate_date_range(5, 3).is_err());
    assert!(validate_date_range(4, 4).is_err());
}

#[test]
fn validate_date_range_full_window_is_ok() {
    assert!(validate_date_range(4, 3).is_ok());
}

#[test]
fn validate_date_range_overrun_names_sum_and_limit() {
    let err = validate_date_range(5, 3).unwrap_err();
    let msg = err.to_string();
    assert!(msg.contains("8"));
    assert!(msg.contains("7"));
    assert!(msg.contains("5"));
    assert!(msg.contains("3"));
    assert!(msg.contains("exceeds maximum of 7"));
}

#[test]
fn validate_date_range_zero_days_names_field_and_value() {
    let err = validate_date_range(0, 0).unwrap_err();
    let msg = err.to_string();
    assert!(msg.contains("days-ahead must be between 1 and 7"));
    assert!(msg.contains("0"));
}

#[test]
fn validate_date_range_negative_offset_is_rejected() {
    let err = validate_date_range(4, -1).unwrap_err();
    assert!(err.to_string().contains("first-day-offset must be between 0 and 7"));
    assert!(matches!(err, ConfigError::FirstDayOffsetOutOfRange { got: -1 }));
}

#[test]
fn validate_micro_coordinates_within_bounds() {
    assert!(validate_coordinates(32_486_722, 34_888_722).is_ok());
    assert!(validate_coordinates(-90_000_000, -180_000_000).is_ok());
    assert!(validate_coordinates(90_000_000, 180_000_000).is_ok());
}

#[test]
fn validate_micro_coordinates_out_of_bounds() {
    assert!(validate_coordinates(91_000_000, 0).is_err());
    assert!(validate_coordinates(-91_000_000, 0).is_err());
    assert!(validate_coordinates(0, 181_000_000).is_err());
    assert!(validate_coordinates(0, -181_000_000).is_err());
}

#[test]
fn resolve_coordinates_returns_cli_values_unchanged() {
    let config = Config::default();
    let (lat, lng) = resolve_coordinates(Some(40_712_800), Some(-74_006_000), &config).unwrap();
    assert_eq!(lat, 40_712_800);
    assert_eq!(lng, -74_006_000);
}

#[test]
fn resolve_coordinates_latitude_error_names_value_and_bound() {
    let config = Config::default();
    let err = resolve_coordinates(Some(91_000_000), Some(0), &config).unwrap_err();
    let msg = err.to_string();
    assert!(msg.contains("Latitude"));
    assert!(msg.contains("91"));
    assert!(msg.contains("90.0"));
}

#[test]
fn resolve_coordinates_longitude_error_names_value_and_bound() {
    let config = Config::default();
    let err = resolve_coordinates(Some(0), Some(-181_000_000), &config).unwrap_err();
    let msg = err.to_string();
    assert!(msg.contains("Longitude"));
    assert!(msg.contains("-181"));
    assert!(msg.contains("-180.0"));
}

#[test]
fn resolve_coordinates_missing_axes_name_the_axis() {
    let config = Config::default();
    let err = resolve_coordinates(None, None, &config).unwrap_err();
    let msg = err.to_string();
    assert!(msg.contains("Latitude not specified"));
    assert!(msg.contains("--lat"));
    let err = resolve_coordinates(Some(0), None, &config).unwrap_err();
    let msg = err.to_string();
    assert!(msg.contains("Longitude not specified"));
    assert!(msg.contains("--lng"));
}

#[test]
fn resolve_coordinates_fractional_degrees_render_exactly() {
    let config = Config::default();
    let err = resolve_coordinates(Some(90_500_000), Some(34_888_722), &config).unwrap_err();
    assert!(err.to_string().contains("90.5"));
}

#[test]
fn test_unknown_provider_returns_error() {
    let registry = default_registry();
    let result = validate_provider(&registry, "nonexistent_provider");
    assert!(result.is_err(), "Unknown provider should fail");

    let err_msg = result.unwrap_err().to_string();
    assert!(
        err_msg.contains("Unknown provider") || err_msg.contains("nonexistent_provider"),
        "Error should mention provider name or 'Unknown provider'"
    );
}

#[test]
fn test_known_providers_validate_successfully() {
    let registry = default_registry();
    assert!(validate_provider(&registry, "stormglass").is_ok());
    assert!(validate_provider(&registry, "openweathermap").is_ok());
}
