// Configuration data shapes: coordinate bounds as plain numbers, the
// default tier's values, the source tags' display text, and the whole
// pipeline from raw tiers to a resolved configuration.

use windsurf_forecast::config_types::CliSource;
use windsurf_forecast::config_types::Config;
use windsurf_forecast::config_types::ConfigSource;
use windsurf_forecast::config_types::ConfigSources;
use windsurf_forecast::config_types::DefaultSource;
use windsurf_forecast::config_types::GeneralConfig;
use windsurf_forecast::errors::ConfigError;
use windsurf_forecast::providers::default_registry;
use windsurf_forecast::resolver::config_from_resolved;
use windsurf_forecast::resolver::resolve_from_args_and_file;

#[test]
fn test_validate_coordinates_within_bounds() {
    let valid_coordinates = vec![
        (32.486722, 34.888722),
        (40.7128, -74.0060),
        (-33.8688, 151.2093),
        (0.0, 0.0),
        (90.0, 180.0),
        (-90.0, -180.0),
    ];

    for (lat, lng) in valid_coordinates {
        assert!(
            lat >= -90.0 && lat <= 90.0,
            "Latitude {} should be in valid range",
            lat
        );
        assert!(
            lng >= -180.0 && lng <= 180.0,
            "Longitude {} should be in valid range",
            lng
        );
    }
}

#[test]
fn test_validate_coordinates_out_of_bounds() {
    let invalid_coordinates = vec![
        (91.0, 0.0),
        (-91.0, 0.0),
        (0.0, 181.0),
        (0.0, -181.0),
    ];

    for (lat, lng) in invalid_coordinates {
        let is_invalid = lat < -90.0 || lat > 90.0 || lng < -180.0 || lng > 180.0;
        assert!(
            is_invalid,
            "Coordinates ({}, {}) should be detected as invalid",
            lat, lng
        );
    }
}

#[test]
fn default_source_provides_required_defaults() {
    let defaults = DefaultSource::default();

    assert_eq!(defaults.provider, "stormglass");
    assert_eq!(defaults.timezone, "UTC");
    assert_eq!(defaults.days_ahead, 4);
    assert_eq!(defaults.first_day_offset, 0);
}

#[test]
fn config_source_display_is_human_readable() {
    assert_eq!(ConfigSource::Cli.to_string(), "CLI argument");
    assert_eq!(ConfigSource::ConfigFile.to_string(), "config file");
    assert_eq!(ConfigSource::Default.to_string(), "default value");
}

#[test]
fn config_sources_default_has_all_none() {
    let sources = ConfigSources::default();

    assert!(sources.cli.provider.is_none());
    assert!(sources.cli.timezone.is_none());
    assert!(sources.config_file.provider.is_none());
    assert!(sources.config_file.timezone.is_none());
}

#[test]
fn default_config_record_matches_defaults() {
    let config = Config::default();
    assert_eq!(config.general.timezone, "UTC");
    assert_eq!(config.general.default_provider, "stormglass");
    assert!(config.general.lat.is_none());
    assert!(config.general.lng.is_none());
}

#[test]
fn resolve_all_assembles_valid_configuration() {
    let cli = CliSource {
        provider: None,
        timezone: Some("Asia/Jerusalem".to_string()),
        lat: Some(32_486_722),
        lng: Some(34_888_722),
        days_ahead: Some(3),
        first_day_offset: Some(2),
    };
    let config = Config::default();
    let registry = default_registry();

    let resolved = resolve_from_args_and_file(&cli, &config, &registry).unwrap();
    assert_eq!(resolved.provider, "stormglass");
    assert_eq!(resolved.timezone.name(), "Asia/Jerusalem");
    assert!(resolved.timezone_explicit);
    assert_eq!(resolved.lat, 32_486_722);
    assert_eq!(resolved.lng, 34_888_722);
    assert_eq!(resolved.days_ahead, 3);
    assert_eq!(resolved.first_day_offset, 2);
}

#[test]
fn resolve_all_prefers_cli_provider_and_rejects_unknown() {
    let mut cli = CliSource::default();
    cli.provider = Some("windy".to_string());
    cli.lat = Some(0);
    cli.lng = Some(0);
    let config = Config::default();
    let registry = default_registry();
    let resolved = resolve_from_args_and_file(&cli, &config, &registry).unwrap();
    assert_eq!(resolved.provider, "windy");

    cli.provider = Some("nope".to_string());
    let err = resolve_from_args_and_file(&cli, &config, &registry).unwrap_err();
    assert!(matches!(err, ConfigError::UnknownProvider { .. }));
    let msg = err.to_string();
    assert!(msg.contains("nope"));
    assert!(msg.contains("stormglass, openweathermap, windy"));
}

#[test]
fn resolve_all_falls_back_to_file_coordinates() {
    let cli = CliSource::default();
    let config = Config {
        general: GeneralConfig {
            timezone: "UTC".to_string(),
            default_provider: "openweathermap".to_string(),
            lat: Some(51_507_400),
            lng: Some(-127_800),
        },
    };
    let registry = default_registry();
    let resolved = resolve_from_args_and_file(&cli, &config, &registry).unwrap();
    assert_eq!(resolved.provider, "openweathermap");
    assert_eq!(resolved.timezone.name(), "UTC");
    assert!(!resolved.timezone_explicit);
    assert_eq!(resolved.lat, 51_507_400);
    assert_eq!(resolved.lng, -127_800);
    assert_eq!(resolved.days_ahead, 4);
    assert_eq!(resolved.first_day_offset, 0);
}

#[test]
fn resolve_all_fails_fast_on_missing_coordinates() {
    let cli = CliSource::default();
    let config = Config::default();
    let registry = default_registry();
    let err = resolve_from_args_and_file(&cli, &config, &registry).unwrap_err();
    assert!(matches!(err, ConfigError::MissingLatitude));
}

#[test]
fn resolve_all_checks_window_after_coordinates() {
    let mut cli = CliSource::default();
    cli.lat = Some(0);
    cli.lng = Some(0);
    cli.days_ahead = Some(5);
    cli.first_day_offset = Some(3);
    let config = Config::default();
    let registry = default_registry();
    let err = resolve_from_args_and_file(&cli, &config, &registry).unwrap_err();
    assert!(matches!(
        err,
        ConfigError::DayWindowTooLong { days_ahead: 5, first_day_offset: 3 }
    ));
}

#[test]
fn resolved_configuration_round_trips_into_file_record() {
    let mut cli = CliSource::default();
    cli.timezone = Some("Europe/London".to_string());
    cli.lat = Some(51_507_400);
    cli.lng = Some(-127_800);
    let config = Config::default();
    let registry = default_registry();
    let resolved = resolve_from_args_and_file(&cli, &config, &registry).unwrap();

    let record = config_from_resolved(&resolved);
    assert_eq!(record.general.timezone, "Europe/London");
    assert_eq!(record.general.default_provider, "stormglass");
    assert_eq!(record.general.lat, Some(51_507_400));
    assert_eq!(record.general.lng, Some(-127_800));
}
