// The provider registry: lookup, name validation with its enumerating
// error, instantiation routing, and duplicate detection as a
// startup-fatal condition.

use windsurf_forecast::providers::default_registry;
use windsurf_forecast::registry::ProviderMetadata;
use windsurf_forecast::registry::Registry;

#[test]
fn test_validate_provider_name_accepts_stormglass() {
    let registry = default_registry();
    let result = registry.validate_provider_name("stormglass");
    assert!(result.is_ok(), "stormglass should be valid");
}

#[test]
fn test_validate_provider_name_accepts_openweathermap() {
    let registry = default_registry();
    let result = registry.validate_provider_name("openweathermap");
    assert!(result.is_ok(), "openweathermap should be valid");
}

#[test]
fn test_validate_provider_name_rejects_unknown() {
    let registry = default_registry();
    let result = registry.validate_provider_name("nonexistent");
    assert!(result.is_err(), "Unknown provider should fail validation");

    let err_msg = result.unwrap_err().to_string();
    assert!(
        err_msg.contains("Unknown provider"),
        "Error should mention unknown provider"
    );
    assert!(
        err_msg.contains("nonexistent"),
        "Error should include the invalid name"
    );
    assert!(
        err_msg.contains("Available providers"),
        "Error should list available providers"
    );
}

#[test]
fn test_validate_provider_name_error_lists_available_providers() {
    let registry = default_registry();
    let result = registry.validate_provider_name("invalid");
    assert!(result.is_err());

    let err_msg = result.unwrap_err().to_string();

    assert!(err_msg.contains("stormglass"), "Error should list stormglass");
    assert!(
        err_msg.contains("openweathermap"),
        "Error should list openweathermap"
    );
}

#[test]
fn metadata_lookup_finds_registered_descriptors() {
    let registry = default_registry();
    let meta = registry.get_provider_metadata("stormglass");
    assert!(meta.is_some(), "StormGlass provider should be registered");
    let meta = meta.unwrap();
    assert_eq!(meta.name, "stormglass");
    assert!(!meta.description.is_empty());
    assert_eq!(meta.api_key_var, "STORMGLASS_API_KEY");

    let meta = registry.get_provider_metadata("openweathermap").unwrap();
    assert_eq!(meta.api_key_var, "OPEN_WEATHER_MAP_API_KEY");

    assert!(registry.get_provider_metadata("nonexistent").is_none());
}

#[test]
fn metadata_lookup_is_case_sensitive() {
    let registry = default_registry();
    assert!(registry.get_provider_metadata("stormglass").is_some());
    assert!(registry.get_provider_metadata("StormGlass").is_none());
    assert!(registry.get_provider_metadata("STORMGLASS").is_none());
}

#[test]
fn all_names_and_descriptions_are_consistent() {
    let registry = default_registry();
    let names = registry.all_provider_names();
    let descriptions = registry.all_provider_descriptions();

    assert_eq!(registry.provider_count(), 3);
    assert_eq!(names.len(), descriptions.len());
    assert!(names.iter().any(|n| n == "stormglass"));
    assert!(names.iter().any(|n| n == "openweathermap"));
    assert!(names.iter().any(|n| n == "windy"));
    for (name, description) in &descriptions {
        assert!(!name.is_empty());
        assert!(!description.is_empty(), "Provider {} should have description", name);
        assert!(registry.get_provider_metadata(name).is_some());
    }
}

#[test]
fn create_provider_routes_known_names_to_their_descriptor() {
    let registry = default_registry();
    let meta = registry.create_provider("windy").unwrap();
    assert_eq!(meta.name, "windy");
    assert_eq!(meta.api_key_var, "WINDY_API_KEY");
}

#[test]
fn create_provider_unknown_name_lists_every_real_provider() {
    let registry = default_registry();
    let err = registry.create_provider("nonexistent").unwrap_err();
    let msg = err.to_string();
    assert!(msg.contains("nonexistent"));
    assert!(msg.contains("stormglass"));
    assert!(msg.contains("openweathermap"));
    assert!(msg.contains("windy"));
}

#[test]
fn check_duplicates_passes_on_unique_names() {
    let registry = default_registry();
    assert!(registry.check_duplicates().is_none());
}

#[test]
fn check_duplicates_reports_colliding_registrations() {
    let mut registry = Registry::new();
    registry.register(ProviderMetadata {
        name: "stormglass".to_string(),
        description: "first registration".to_string(),
        api_key_var: "FIRST_KEY".to_string(),
    });
    registry.register(ProviderMetadata {
        name: "stormglass".to_string(),
        description: "second registration".to_string(),
        api_key_var: "SECOND_KEY".to_string(),
    });

    let report = registry.check_duplicates();
    assert!(report.is_some(), "colliding names must be reported");
    let msg = report.unwrap();
    assert!(msg.contains("FATAL: Duplicate provider name 'stormglass'"));
    assert!(msg.contains("first registration"));
    assert!(msg.contains("second registration"));
    assert!(msg.contains("FIRST_KEY"));
    assert!(msg.contains("SECOND_KEY"));
}

#[test]
fn empty_registry_has_no_duplicates_and_no_names() {
    let registry = Registry::new();
    assert!(registry.check_duplicates().is_none());
    assert_eq!(registry.provider_count(), 0);
    assert!(registry.all_provider_names().is_empty());
    assert!(registry.validate_provider_name("anything").is_err());
}

#[test]
fn provider_help_lists_every_provider_with_description() {
    let registry = default_registry();
    let help = windsurf_forecast::registry::get_provider_help(&registry);
    assert!(help.starts_with("Weather forecast provider to use"));
    assert!(help.contains("Available providers:"));
    assert!(help.contains("stormglass: StormGlass Marine Weather API"));
    assert!(help.contains("openweathermap: OpenWeatherMap Global Weather Data"));
    assert!(help.contains("windy: Windy.com Weather API"));

    let empty = Registry::new();
    assert_eq!(
        windsurf_forecast::registry::get_provider_help(&empty),
        "Weather forecast provider to use"
    );
}
