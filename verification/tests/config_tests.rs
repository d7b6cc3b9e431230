use prediction_core::config::{parse_u32, Config, DEFAULT_API_RATE_LIMIT};
use prediction_core::fixture_data::{result_from_score, ApiScoreDetail};
use prediction_core::outcome::MatchResult;

#[test]
fn test_parse_u32_reads_decimal_numerals() {
    assert_eq!(parse_u32("100"), Some(100));
    assert_eq!(parse_u32("0"), Some(0));
    assert_eq!(parse_u32("4294967295"), Some(u32::MAX));
}

#[test]
fn test_parse_u32_rejects_what_is_not_a_u32_numeral() {
    assert_eq!(parse_u32(""), None);
    assert_eq!(parse_u32("12a"), None);
    assert_eq!(parse_u32("-5"), None);
    assert_eq!(parse_u32("4294967296"), None);
    assert_eq!(parse_u32("99999999999999999999"), None);
}

#[test]
fn test_config_resolve_applies_documented_defaults() {
    let config = Config::resolve(None, None, None, "secret".to_string(), None, None);
    assert_eq!(config.database_url, "postgres://localhost/premier_league");
    assert_eq!(config.redis_url, "redis://localhost:6379");
    assert_eq!(config.model_path, "./models/predictor.onnx");
    assert_eq!(config.jwt_secret, "secret");
    assert_eq!(config.football_api_key, "");
    assert_eq!(config.api_rate_limit, DEFAULT_API_RATE_LIMIT);
}

#[test]
fn test_config_resolve_keeps_given_values() {
    let config = Config::resolve(
        Some("postgres://db/league".to_string()),
        Some("redis://cache:6379".to_string()),
        Some("./artifacts/model.onnx".to_string()),
        "secret".to_string(),
        Some("key".to_string()),
        Some("250".to_string()),
    );
    assert_eq!(config.database_url, "postgres://db/league");
    assert_eq!(config.redis_url, "redis://cache:6379");
    assert_eq!(config.model_path, "./artifacts/model.onnx");
    assert_eq!(config.football_api_key, "key");
    assert_eq!(config.api_rate_limit, 250);
}

#[test]
fn test_config_resolve_falls_back_on_a_malformed_rate_limit() {
    let config = Config::resolve(None, None, None, "secret".to_string(), None, Some("fast".to_string()));
    assert_eq!(config.api_rate_limit, DEFAULT_API_RATE_LIMIT);
}

#[test]
fn test_full_time_score_reads_as_an_outcome() {
    let finished = ApiScoreDetail { home: Some(2), away: Some(1) };
    assert_eq!(result_from_score(&finished), Some(MatchResult::HomeWin));
    let level = ApiScoreDetail { home: Some(0), away: Some(0) };
    assert_eq!(result_from_score(&level), Some(MatchResult::Draw));
    let away = ApiScoreDetail { home: Some(1), away: Some(3) };
    assert_eq!(result_from_score(&away), Some(MatchResult::AwayWin));
    let unfinished = ApiScoreDetail { home: None, away: None };
    assert_eq!(result_from_score(&unfinished), None);
}
