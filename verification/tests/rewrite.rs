use shanka::config::AppSettingsConfig;
use shanka::rewrite::{parse_structured_rewrite, preferred_output_mode, OutputMode, ProviderCallError};

fn assert_provider_error_flags(
    error: ProviderCallError,
    retry_plain: bool,
    retry_same: bool,
    invalid_response: bool,
) {
    assert_eq!(error.retry_plain, retry_plain);
    assert_eq!(error.retry_same, retry_same);
    assert_eq!(error.invalid_response, invalid_response);
}

#[test]
fn preferred_output_mode_skips_json_for_deepseek_provider() {
    let settings = AppSettingsConfig {
        provider: "deepseek".to_string(),
        base_url: "https://api.deepseek.com".to_string(),
        ..AppSettingsConfig::default()
    };

    assert_eq!(preferred_output_mode(&settings), OutputMode::Plain);
}

#[test]
fn preferred_output_mode_skips_json_for_custom_deepseek_url() {
    let settings = AppSettingsConfig {
        provider: "custom".to_string(),
        base_url: "https://api.deepseek.com".to_string(),
        ..AppSettingsConfig::default()
    };

    assert_eq!(preferred_output_mode(&settings), OutputMode::Plain);
}

#[test]
fn preferred_output_mode_uses_json_for_generic_openai_compatible_provider() {
    let settings = AppSettingsConfig {
        provider: "openai".to_string(),
        base_url: "https://api.openai.com/v1".to_string(),
        ..AppSettingsConfig::default()
    };

    assert_eq!(preferred_output_mode(&settings), OutputMode::Json);
}

#[test]
fn parse_structured_rewrite_accepts_clean_json_payload() {
    let output =
        parse_structured_rewrite(r#"{"text":"专业技能"}"#, false).expect("clean JSON should parse");

    assert_eq!(output, "专业技能");
}

#[test]
fn parse_structured_rewrite_accepts_json_wrapped_in_text() {
    let output = parse_structured_rewrite(
        "```json\n{\"text\":\"组织校内学术分享、职业规划讲座与跨院交流活动共 15 场\"}\n```",
        false,
    )
    .expect("wrapped JSON should parse");

    assert_eq!(output, "组织校内学术分享、职业规划讲座与跨院交流活动共 15 场");
}

#[test]
fn parse_structured_rewrite_marks_empty_json_content_as_plain_retryable() {
    let error = parse_structured_rewrite("", false).expect_err("empty content should fail");

    assert_provider_error_flags(error, true, false, true);
}
