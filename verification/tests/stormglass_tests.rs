// Storm Glass provider-side checks: unit conversion arithmetic, the
// shape of mocked API responses, error-status mapping, and the
// provider value itself.

use serde_json::Value;
use windsurf_forecast::providers::create_units_map;
use windsurf_forecast::providers::StormGlassAPIError;
use windsurf_forecast::providers::StormGlassProvider;
use windsurf_forecast::providers::WindyAPIError;

const MS_TO_KNOTS: f64 = 1.94384;

fn mock_stormglass_complete_response() -> Value {
    serde_json::from_str(
        r#"{
        "hours": [
            {
                "time": "2025-12-07T12:00:00+00:00",
                "airTemperature": { "sg": 22.5 },
                "windSpeed": { "sg": 5.2 },
                "windDirection": { "sg": 270.0 },
                "gust": { "sg": 7.8 },
                "swellHeight": { "sg": 1.2 },
                "swellPeriod": { "sg": 8.5 },
                "swellDirection": { "sg": 310.0 },
                "waterTemperature": { "sg": 20.1 }
            },
            {
                "time": "2025-12-07T13:00:00+00:00",
                "airTemperature": { "sg": 23.0 },
                "windSpeed": { "sg": 6.1 },
                "windDirection": { "sg": 280.0 },
                "gust": { "sg": 8.2 },
                "swellHeight": { "sg": 1.3 },
                "swellPeriod": { "sg": 8.7 },
                "swellDirection": { "sg": 315.0 },
                "waterTemperature": { "sg": 20.2 }
            }
        ]
    }"#,
    )
    .unwrap()
}

fn mock_stormglass_minimal_response() -> Value {
    serde_json::from_str(
        r#"{
        "hours": [
            {
                "time": "2025-12-07T12:00:00+00:00"
            }
        ]
    }"#,
    )
    .unwrap()
}

fn mock_stormglass_partial_response() -> Value {
    serde_json::from_str(
        r#"{
        "hours": [
            {
                "time": "2025-12-07T12:00:00+00:00",
                "airTemperature": { "sg": 22.5 },
                "windSpeed": { "sg": 5.2 },
                "windDirection": { "sg": 270.0 }
            }
        ]
    }"#,
    )
    .unwrap()
}

fn assert_wind_speed_converted(input_ms: f64, output_knots: f64) {
    let expected = input_ms * MS_TO_KNOTS;
    let tolerance = 0.0001;
    assert!(
        (output_knots - expected).abs() < tolerance,
        "Wind speed conversion failed: input {} m/s should convert to {} knots, got {}",
        input_ms,
        expected,
        output_knots
    );
}

#[test]
fn test_stormglass_ms_to_knots_conversion_constant() {
    let test_cases = vec![
        (5.0, 9.7192),
        (10.0, 19.4384),
        (0.0, 0.0),
        (1.0, 1.94384),
    ];

    for (ms, expected_knots) in test_cases {
        let knots = ms * MS_TO_KNOTS;
        assert!(
            (knots - expected_knots).abs() < 0.0001,
            "Conversion of {} m/s should equal {} knots, got {}",
            ms,
            expected_knots,
            knots
        );
    }
}

#[test]
fn test_stormglass_wind_speed_conversion_accuracy() {
    let wind_speeds_ms = vec![2.5, 7.8, 12.3, 15.0, 20.5];

    for speed_ms in wind_speeds_ms {
        let speed_knots = speed_ms * MS_TO_KNOTS;

        let back_to_ms = speed_knots / MS_TO_KNOTS;
        assert!(
            (back_to_ms - speed_ms).abs() < 0.00001,
            "Conversion should be reversible: {} m/s",
            speed_ms
        );
    }
}

#[test]
fn test_stormglass_gust_conversion_uses_same_factor() {
    let gust_ms = 15.5;
    let gust_knots = gust_ms * MS_TO_KNOTS;

    assert!((gust_knots - 30.12952).abs() < 0.0001);
}

#[test]
fn test_wind_speed_conversion_helper() {
    assert_wind_speed_converted(5.0, 5.0 * MS_TO_KNOTS);
    assert_wind_speed_converted(10.0, 10.0 * MS_TO_KNOTS);
}

#[test]
fn test_stormglass_response_structure_complete() {
    let response = mock_stormglass_complete_response();

    assert!(response["hours"].is_array());
    let hours = response["hours"].as_array().unwrap();
    assert!(!hours.is_empty());

    let first_hour = &hours[0];
    assert!(first_hour["time"].is_string());
    assert!(first_hour["airTemperature"].is_object());
    assert!(first_hour["windSpeed"].is_object());
    assert!(first_hour["windDirection"].is_object());
    assert!(first_hour["gust"].is_object());
    assert!(first_hour["swellHeight"].is_object());
    assert!(first_hour["swellPeriod"].is_object());
    assert!(first_hour["swellDirection"].is_object());
    assert!(first_hour["waterTemperature"].is_object());
}

#[test]
fn test_stormglass_response_structure_minimal() {
    let response = mock_stormglass_minimal_response();

    let hours = response["hours"].as_array().unwrap();
    let first_hour = &hours[0];

    assert!(first_hour["time"].is_string());
}

#[test]
fn test_stormglass_response_structure_partial() {
    let response = mock_stormglass_partial_response();

    let hours = response["hours"].as_array().unwrap();
    let first_hour = &hours[0];

    assert!(first_hour["time"].is_string());
    assert!(first_hour["windSpeed"].is_object());
    assert!(first_hour["swellHeight"].is_null());
}

#[test]
fn test_stormglass_field_names_match_api() {
    let response = mock_stormglass_complete_response();
    let hour = &response["hours"][0];

    assert!(hour["airTemperature"].is_object(), "Field should be airTemperature");
    assert!(hour["windSpeed"].is_object(), "Field should be windSpeed");
    assert!(hour["windDirection"].is_object(), "Field should be windDirection");
    assert!(hour["swellHeight"].is_object(), "Field should be swellHeight");
    assert!(hour["swellPeriod"].is_object(), "Field should be swellPeriod");
    assert!(hour["swellDirection"].is_object(), "Field should be swellDirection");
    assert!(hour["waterTemperature"].is_object(), "Field should be waterTemperature");
}

#[test]
fn test_stormglass_source_data_structure() {
    let response = mock_stormglass_complete_response();
    let hour = &response["hours"][0];

    let wind_speed = &hour["windSpeed"];
    assert!(wind_speed["sg"].is_number(), "Should have 'sg' source field");
}

#[test]
fn test_stormglass_handles_missing_optional_fields() {
    let response = mock_stormglass_minimal_response();

    assert!(response["hours"].is_array());
}

#[test]
fn test_stormglass_handles_null_values() {
    let response = mock_stormglass_partial_response();
    let hour = &response["hours"][0];

    assert!(hour["swellHeight"].is_null());
    assert!(hour["waterTemperature"].is_null());
}

#[test]
fn test_stormglass_http_401_error_structure() {
    let status_code = 401;
    let error_message = "Unauthorized";

    assert_eq!(status_code, 401);
    assert!(error_message.contains("Unauthorized"));
}

#[test]
fn test_stormglass_http_402_error_structure() {
    let status_code = 402;
    let expected_message = "Payment Required";

    assert_eq!(status_code, 402);
    assert!(expected_message.contains("Payment") || expected_message.contains("quota"));
}

#[test]
fn test_stormglass_http_403_error_structure() {
    let status_code = 403;

    assert_eq!(status_code, 403);
}

#[test]
fn test_stormglass_http_500_error_structure() {
    let status_code = 500;

    assert_eq!(status_code, 500);
}

#[test]
fn stormglass_status_mapping_gives_actionable_messages() {
    let err = StormGlassAPIError::from_status_code(402);
    assert!(err.to_string().contains("Payment Required"));
    assert!(err.to_string().contains("(HTTP 402)"));

    let err = StormGlassAPIError::from_status_code(403);
    assert!(err.to_string().contains("STORMGLASS_API_KEY"));

    let err = StormGlassAPIError::from_status_code(503);
    assert!(err.to_string().contains("Service Unavailable"));

    let err = StormGlassAPIError::from_status_code(418);
    assert!(err.to_string().contains("Unexpected API error (HTTP 418)"));
}

#[test]
fn windy_status_mapping_carries_the_body_on_bad_request() {
    let err = WindyAPIError::from_status_code_and_body(400, "lat out of range");
    assert!(err.to_string().contains("invalid request, error: lat out of range."));

    let err = WindyAPIError::from_status_code_and_body(204, "");
    assert!(err.to_string().contains("does not feature any of the requested parameters"));

    let err = WindyAPIError::from_status_code_and_body(500, "");
    assert!(err.to_string().contains("unexpected error."));
}

#[test]
fn test_stormglass_wind_speed_reasonable_ranges() {
    let typical_speeds_ms = vec![0.0, 5.0, 10.0, 15.0, 25.0, 40.0];

    for speed_ms in typical_speeds_ms {
        let speed_knots = speed_ms * MS_TO_KNOTS;

        assert!(speed_knots >= 0.0, "Wind speed should be non-negative");
        assert!(
            speed_knots < 200.0,
            "Wind speed {} knots seems unreasonably high",
            speed_knots
        );
    }
}

#[test]
fn test_stormglass_temperature_reasonable_ranges() {
    let temps_celsius = vec![-40.0, -10.0, 0.0, 15.0, 25.0, 40.0];

    for temp in temps_celsius {
        assert!(
            (-50.0..=60.0).contains(&temp),
            "Temperature {} seems outside reasonable range",
            temp
        );
    }
}

#[test]
fn test_stormglass_direction_valid_range() {
    let directions = vec![0.0, 45.0, 90.0, 180.0, 270.0, 359.0];

    for direction in directions {
        assert!(
            (0.0..360.0).contains(&direction),
            "Direction {} should be in 0-360 range",
            direction
        );
    }
}

#[test]
fn test_stormglass_transform_hour_unit_conversion() {
    let wind_speed_ms = 10.0;
    let expected_knots = wind_speed_ms * MS_TO_KNOTS;

    assert_eq!(expected_knots, 19.4384);
}

#[test]
fn test_stormglass_provider_instantiation() {
    let api_key = "test_api_key_12345".to_string();
    let provider = StormGlassProvider::new(api_key);

    assert_eq!(provider.name(), "stormglass");
}

#[test]
fn test_stormglass_provider_name() {
    let api_key = "test_key".to_string();
    let provider = StormGlassProvider::new(api_key);

    assert_eq!(provider.name(), "stormglass");
}

#[test]
fn units_map_names_the_wind_unit_per_provider() {
    let units = create_units_map("stormglass");
    assert_eq!(units.len(), 8);
    assert_eq!(units[0].0, "windSpeed");
    assert!(units[0].1.ends_with("in knots"));
    assert_eq!(units[1].0, "gust");
    assert!(units[1].1.ends_with("in knots"));

    let units = create_units_map("openweathermap");
    assert!(units[0].1.ends_with("in m/s"));
    assert_eq!(units[2].0, "airTemperature");
    assert_eq!(units[2].1, "Air temperature in degrees celsius");
    assert_eq!(units[7].0, "windDirection");
}
