use shanka::rewrite::{
    after_completion_attempt, connection_test_messages, response_format_kind, CONNECTION_TEST_MAX_TOKENS,
    MAX_COMPLETION_ATTEMPTS,
};
use shanka::persona::ResolvedPersona;
use shanka::rewrite::{
    after_json_attempt, body_read_failure, chat_completions_endpoint, check_connection_settings,
    client_build_failure, completion_result, connection_body_failure, connection_send_failure,
    connection_test_result, extract_json_object, is_secret_delimiter, json_mode_is_risky_for_provider,
    max_tokens_for_text, mock_rewrite_text, normalize_text, parse_structured_rewrite_payload,
    provider_body_debug_suffix, provider_test_error_category, provider_text_debug_suffix,
    redact_sensitive_sample, remote_rewrite_input, response_body_sample,
    response_format_may_be_unsupported, response_status_is_transient, rewrite_messages,
    send_failure, should_retry_same, JsonFallbackStep, MockRewriteProvider, OutputMode,
    ProviderCallError, RewriteError, RewriteProvider, RewriteRequest, SAFE_PLAIN_INSTRUCTION,
};
use shanka::config::AppSettingsConfig;
use shanka::selection::SelectionMode;

#[test]
fn normalize_text_strips_nuls_line_ends_and_edges() {
    assert_eq!(normalize_text("\0\0  hello  \n world \t\n\0"), "hello\n world");
    assert_eq!(normalize_text("a \r\nb"), "a\nb");
    assert_eq!(normalize_text(" \0 "), "\0");
    assert_eq!(normalize_text("\0 \n \0"), "");
}

#[test]
fn transient_statuses() {
    for status in [408u16, 409, 425, 429, 500, 502, 503, 504] {
        assert!(response_status_is_transient(status));
    }
    for status in [200u16, 400, 401, 404, 501] {
        assert!(!response_status_is_transient(status));
    }
}

#[test]
fn format_may_be_unsupported_only_for_400_and_422() {
    assert!(response_format_may_be_unsupported(400, "Unknown parameter RESPONSE_FORMAT"));
    assert!(response_format_may_be_unsupported(422, "json_object is not allowed"));
    assert!(!response_format_may_be_unsupported(400, "bad request"));
    assert!(!response_format_may_be_unsupported(500, "invalid response_format"));
}

#[test]
fn provider_test_categories() {
    assert_eq!(provider_test_error_category(401, ""), "PROVIDER_TEST_AUTH");
    assert_eq!(provider_test_error_category(403, "model"), "PROVIDER_TEST_AUTH");
    assert_eq!(provider_test_error_category(404, ""), "PROVIDER_TEST_MODEL");
    assert_eq!(provider_test_error_category(400, "The MODEL does not exist"), "PROVIDER_TEST_MODEL");
    assert_eq!(provider_test_error_category(500, "Not Found"), "PROVIDER_TEST_MODEL");
    assert_eq!(provider_test_error_category(500, "overloaded"), "PROVIDER_TEST_REMOTE");
}

#[test]
fn max_tokens_is_half_the_characters_clamped() {
    assert_eq!(max_tokens_for_text(""), 256);
    assert_eq!(max_tokens_for_text(&"x".repeat(1000)), 500);
    assert_eq!(max_tokens_for_text(&"字".repeat(1001)), 500);
    assert_eq!(max_tokens_for_text(&"x".repeat(10_000)), 4_096);
}

#[test]
fn json_mode_risk_is_detected_from_provider_or_url() {
    let mut settings = AppSettingsConfig::default();
    assert!(!json_mode_is_risky_for_provider(&settings));
    settings.provider = "  DeepSeek ".to_string();
    assert!(json_mode_is_risky_for_provider(&settings));
    settings.provider = "custom".to_string();
    settings.base_url = "HTTPS://API.DEEPSEEK.COM/v1".to_string();
    assert!(json_mode_is_risky_for_provider(&settings));
}

#[test]
fn secret_delimiters() {
    for c in [' ', '\n', '"', '\'', ',', ';', ':', '}', ']', ')', '<', '>'] {
        assert!(is_secret_delimiter(c));
    }
    for c in ['a', '-', '_', '{', '('] {
        assert!(!is_secret_delimiter(c));
    }
}

#[test]
fn api_keys_are_redacted_up_to_a_delimiter() {
    assert_eq!(
        redact_sensitive_sample("key sk-abc123, other sk-x\"y"),
        "key [redacted-api-key], other [redacted-api-key]\"y"
    );
    assert_eq!(redact_sensitive_sample("sk-"), "[redacted-api-key]");
    assert_eq!(redact_sensitive_sample("no secrets"), "no secrets");
    assert_eq!(redact_sensitive_sample("s k-1"), "s k-1");
}

#[test]
fn json_object_is_cut_from_first_open_to_last_close_brace() {
    assert_eq!(extract_json_object("x {\"a\":{}} y").as_deref(), Some("{\"a\":{}}"));
    assert_eq!(extract_json_object("} {"), None);
    assert_eq!(extract_json_object("no braces"), None);
    assert_eq!(extract_json_object("{}").as_deref(), Some("{}"));
}

#[test]
fn structured_payload_is_parsed_and_trimmed() {
    assert_eq!(parse_structured_rewrite_payload("{\"text\":\"  hi \"}").unwrap(), "hi");
    assert_eq!(parse_structured_rewrite_payload("say {\"text\":\"ok\"} done").unwrap(), "ok");
    assert!(parse_structured_rewrite_payload("{\"other\":1}").is_err());
    assert!(parse_structured_rewrite_payload("plain").is_err());
}

#[test]
fn body_sample_is_trimmed_redacted_and_never_empty() {
    assert_eq!(response_body_sample(b"  {\"error\":\"sk-123\"}  "), "{\"error\":\"[redacted-api-key]\"}");
    assert_eq!(response_body_sample(b"   "), "<empty body>");
    assert_eq!(response_body_sample(&[0x61, 0xff, 0x62]), "a\u{fffd}b");
    let long = "y".repeat(600);
    assert_eq!(response_body_sample(long.as_bytes()).chars().count(), 500);
}

#[test]
fn debug_suffixes_appear_only_when_debug_logging() {
    assert_eq!(provider_text_debug_suffix("body sample", "abc", false), "");
    assert_eq!(provider_text_debug_suffix("body sample", " abc ", true), "; body sample: abc");
    assert_eq!(provider_text_debug_suffix("content sample", "  ", true), "; content sample: <empty>");
    assert_eq!(provider_body_debug_suffix(b"x", false), "");
    assert_eq!(provider_body_debug_suffix(b"", true), "; body sample: <empty body>");
}

#[test]
fn messages_carry_instruction_and_text() {
    let messages = rewrite_messages(SelectionMode::Safe, None, "hello", OutputMode::Plain);
    assert_eq!(messages.len(), 2);
    assert_eq!(messages[0].role, "system");
    assert_eq!(messages[0].content, SAFE_PLAIN_INSTRUCTION);
    assert_eq!(messages[1].role, "user");
    assert_eq!(messages[1].content, "hello");

    let persona = ResolvedPersona { name: "Poet".to_string(), system_prompt: "Rhyme.".to_string() };
    let messages = rewrite_messages(SelectionMode::Magic, Some(persona), "t", OutputMode::Json);
    assert!(messages[0].content.starts_with("You are Shanka Magic Mode."));
    assert!(messages[0].content.ends_with(
        "\n\nTemporary persona: Poet. Rhyme. Apply this persona for this rewrite only, while respecting the mode rules above."
    ));
}

#[test]
fn mock_rewrite_labels_the_normalized_text() {
    let persona = Some(ResolvedPersona { name: "Poet".to_string(), system_prompt: String::new() });
    assert_eq!(
        mock_rewrite_text(SelectionMode::Safe, &None, " hi \n").unwrap(),
        "[Shanka Safe Mock]\nhi"
    );
    assert_eq!(
        mock_rewrite_text(SelectionMode::Magic, &persona, "x").unwrap(),
        "[Shanka Magic Mock / Poet]\nx"
    );
    assert!(matches!(
        mock_rewrite_text(SelectionMode::Safe, &None, "\0 \n \0"),
        Err(RewriteError::EmptyInput)
    ));
    let provider = MockRewriteProvider;
    let response = provider
        .rewrite(RewriteRequest { text: "a", mode: SelectionMode::Safe, persona: None })
        .unwrap();
    assert_eq!(response.text, "[Shanka Safe Mock]\na");
    assert_eq!(response.provider, "mock-rewrite");
}

#[test]
fn remote_input_must_not_be_empty() {
    assert_eq!(remote_rewrite_input(" a ").unwrap(), "a");
    assert!(matches!(remote_rewrite_input("\n\n"), Err(RewriteError::EmptyInput)));
}

#[test]
fn endpoint_drops_trailing_slashes() {
    assert_eq!(chat_completions_endpoint("https://x/v1//"), "https://x/v1/chat/completions");
    assert_eq!(chat_completions_endpoint("https://x"), "https://x/chat/completions");
}

#[test]
fn call_failures_carry_their_retry_flags() {
    let e = client_build_failure("tls");
    assert_eq!(e.message, "failed to create HTTP client: tls");
    assert!(!e.retry_same && !e.retry_plain && !e.timeout && !e.invalid_response);
    let e = send_failure(true, "ignored");
    assert_eq!(e.message, "request timed out");
    assert!(e.timeout);
    let e = send_failure(false, "refused");
    assert_eq!(e.message, "request failed: refused");
    assert!(e.retry_same && !e.timeout);
    let e = body_read_failure("reset");
    assert_eq!(e.message, "failed to read provider response body: reset");
    assert!(e.retry_same);
}

#[test]
fn completion_reply_outcomes() {
    let ok = completion_result(OutputMode::Plain, 200, "200 OK", b"", Ok(Some("  done ".to_string())), false);
    assert_eq!(ok.unwrap(), "done");

    let json = completion_result(
        OutputMode::Json,
        200,
        "200 OK",
        b"",
        Ok(Some("{\"text\":\"fine\"}".to_string())),
        false,
    );
    assert_eq!(json.unwrap(), "fine");

    let http = completion_result(OutputMode::Json, 400, "400 Bad Request", b"unsupported response_format", Ok(None), false)
        .unwrap_err();
    assert_eq!(http.message, "provider returned HTTP 400 Bad Request");
    assert!(http.retry_plain && !http.retry_same && !http.invalid_response);

    let busy = completion_result(OutputMode::Plain, 503, "503 Service Unavailable", b"", Ok(None), true)
        .unwrap_err();
    assert_eq!(busy.message, "provider returned HTTP 503 Service Unavailable; body sample: <empty body>");
    assert!(busy.retry_same && !busy.retry_plain);

    let bad = completion_result(OutputMode::Plain, 200, "200 OK", b"{", Err("EOF".to_string()), false)
        .unwrap_err();
    assert_eq!(bad.message, "failed to parse provider response JSON: EOF");
    assert!(bad.retry_same && bad.invalid_response);

    let empty = completion_result(OutputMode::Plain, 200, "200 OK", b"", Ok(None), false).unwrap_err();
    assert_eq!(empty.message, "provider returned an empty rewrite");
    assert!(empty.retry_same && !empty.retry_plain && empty.invalid_response);

    let empty_json = completion_result(OutputMode::Json, 200, "200 OK", b"", Ok(Some("{\"text\":\"  \"}".to_string())), false)
        .unwrap_err();
    assert_eq!(empty_json.message, "provider returned an empty rewrite");
    assert!(empty_json.retry_plain && !empty_json.retry_same);
}

#[test]
fn retry_and_fallback_decisions() {
    let transient = ProviderCallError::retryable_remote("x".to_string());
    assert!(should_retry_same(&transient, 1, 2));
    assert!(!should_retry_same(&transient, 2, 2));
    assert!(!should_retry_same(&ProviderCallError::timeout(), 1, 2));

    assert!(matches!(after_json_attempt(Ok("t".to_string())), JsonFallbackStep::Finished(Ok(t)) if t == "t"));
    assert!(matches!(
        after_json_attempt(Err(ProviderCallError::timeout())),
        JsonFallbackStep::Finished(Err(RewriteError::Timeout))
    ));
    let plain = ProviderCallError { message: "m".to_string(), retry_plain: true, retry_same: false, timeout: false, invalid_response: true };
    assert!(matches!(after_json_attempt(Err(plain)), JsonFallbackStep::RetryPlain));
    assert!(matches!(
        after_json_attempt(Err(ProviderCallError::retryable_invalid_response("bad".to_string()))),
        JsonFallbackStep::Finished(Err(RewriteError::InvalidResponse(m))) if m == "bad"
    ));
    assert!(matches!(
        after_json_attempt(Err(ProviderCallError::remote("down".to_string()))),
        JsonFallbackStep::Finished(Err(RewriteError::Remote(m))) if m == "down"
    ));
}

#[test]
fn connection_test_decisions() {
    let mut settings = AppSettingsConfig::default();
    match check_connection_settings(&settings) {
        Err(RewriteError::Config(m)) => assert_eq!(m, "api_key, base_url, and model are required"),
        other => panic!("unexpected {other:?}"),
    }
    settings.api_key = "k".to_string();
    settings.model = "m".to_string();
    assert!(check_connection_settings(&settings).is_ok());

    assert!(matches!(connection_send_failure(true, "x"), RewriteError::Timeout));
    assert!(matches!(connection_send_failure(false, "dns"), RewriteError::Remote(m) if m == "PROVIDER_TEST_NETWORK: dns"));
    assert!(matches!(connection_body_failure("cut"), RewriteError::Remote(m) if m == "PROVIDER_TEST_REMOTE: failed to read response: cut"));
    assert!(connection_test_result(204, b"", false).is_ok());
    assert!(matches!(connection_test_result(401, b"no", false), Err(RewriteError::Remote(m)) if m == "PROVIDER_TEST_AUTH"));
    assert!(matches!(connection_test_result(404, b"", true), Err(RewriteError::Remote(m)) if m == "PROVIDER_TEST_MODEL; body sample: <empty body>"));
}

#[test]
fn rewrite_error_messages() {
    assert_eq!(RewriteError::Config("c".to_string()).message(), "rewrite config error: c");
    assert_eq!(RewriteError::EmptyInput.message(), "rewrite input is empty");
    assert_eq!(RewriteError::Timeout.message(), "remote rewrite error: request timed out");
    assert_eq!(RewriteError::InvalidResponse("i".to_string()).message(), "remote rewrite response invalid: i");
    assert_eq!(RewriteError::Remote("r".to_string()).message(), "remote rewrite error: r");
    assert_eq!(OutputMode::Json.label(), "JSON");
    assert_eq!(OutputMode::Plain.label(), "plain");
}

#[test]
fn completion_attempts_are_retried_once() {
    assert_eq!(MAX_COMPLETION_ATTEMPTS, 2);
    assert!(matches!(after_completion_attempt(1, Ok("t".to_string())), Some(Ok(t)) if t == "t"));
    assert!(after_completion_attempt(1, Err(ProviderCallError::retryable_remote("x".to_string()))).is_none());
    assert!(matches!(
        after_completion_attempt(2, Err(ProviderCallError::retryable_remote("x".to_string()))),
        Some(Err(e)) if e.message == "x"
    ));
    assert!(matches!(after_completion_attempt(1, Err(ProviderCallError::timeout())), Some(Err(e)) if e.timeout));
}


#[test]
fn only_json_mode_asks_for_a_json_object() {
    assert_eq!(response_format_kind(OutputMode::Json), Some("json_object"));
    assert_eq!(response_format_kind(OutputMode::Plain), None);
}

#[test]
fn the_connection_test_asks_for_ok() {
    let messages = connection_test_messages();
    assert_eq!(messages.len(), 2);
    assert_eq!(messages[0].role, "system");
    assert_eq!(messages[0].content, "Reply with OK.");
    assert_eq!(messages[1].role, "user");
    assert_eq!(messages[1].content, "ping");
    assert_eq!(CONNECTION_TEST_MAX_TOKENS, 8);
}
