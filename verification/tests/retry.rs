//! Resilient completion: short-circuit on the first usable reply, exhaustion
//! after the whole budget, fence stripping, and per-attempt error handling.

use plakait::app_error::AppError;
use plakait::gpt::{
    attempt_result, build_completion_request, gpt_chat, strip_fences, AttemptOutcome,
    CompletionFailure, ProviderChoice, ProviderResponse, DEFAULT_RETRY_BUDGET, GPT_MODEL,
    MAX_COMPLETION_TOKENS, TEMPERATURE_TENTHS,
};
use plakait::message::JsonAiResponse;

fn delivered(content: &str) -> AttemptOutcome {
    AttemptOutcome::Response(ProviderResponse {
        choices: vec![ProviderChoice { content: Some(content.to_string()) }],
    })
}

const GOOD_REPLY: &str =
    "{\"name\":\"Nick\",\"dialogue\":\"Welcome to the lot!\",\"expression\":\"grin\",\"endMessage\":null}";

#[test]
fn retry_short_circuits_on_first_usable_reply() {
    // attempts 1..N-1 malformed in every way the upstream misbehaves,
    // attempt N valid: the parsed value comes back
    let attempts = vec![
        AttemptOutcome::TransportFailure,
        AttemptOutcome::DecodeFailure,
        AttemptOutcome::Response(ProviderResponse { choices: vec![] }),
        AttemptOutcome::Response(ProviderResponse {
            choices: vec![ProviderChoice { content: None }],
        }),
        delivered("I will now answer in JSON, I promise"),
        delivered("{\"name\":\"Nick\",\"dialogue\":"),
        delivered("42"),
        delivered(GOOD_REPLY),
    ];
    assert_eq!(attempts.len(), DEFAULT_RETRY_BUDGET);
    let r = gpt_chat(&attempts, DEFAULT_RETRY_BUDGET).unwrap();
    assert_eq!(
        r,
        JsonAiResponse {
            name: Some("Nick".to_string()),
            dialogue: Some("Welcome to the lot!".to_string()),
            expression: Some("grin".to_string()),
            end_message: None,
        }
    );
}

#[test]
fn retry_stops_at_first_success_not_later() {
    // a later, different reply must not be the one returned
    let attempts = vec![
        AttemptOutcome::TransportFailure,
        delivered("{\"dialogue\":\"first\"}"),
        delivered("{\"dialogue\":\"second\"}"),
    ];
    let r = gpt_chat(&attempts, 3).unwrap();
    assert_eq!(r.dialogue.as_deref(), Some("first"));
}

#[test]
fn retry_exhaustion_fails_after_full_budget() {
    let attempts = vec![
        AttemptOutcome::TransportFailure,
        AttemptOutcome::TransportFailure,
        delivered("not json at all"),
        AttemptOutcome::DecodeFailure,
        delivered("[1, 2, 3]"),
        AttemptOutcome::TransportFailure,
        delivered("\"a bare string\""),
        AttemptOutcome::TransportFailure,
    ];
    assert_eq!(attempts.len(), DEFAULT_RETRY_BUDGET);
    let r = gpt_chat(&attempts, DEFAULT_RETRY_BUDGET);
    // the terminal failure carries the last attempt's diagnostics
    assert_eq!(
        r,
        Err(CompletionFailure { last_error: AppError::TransportError, last_content: None })
    );
}

#[test]
fn exhaustion_carries_last_raw_content() {
    let attempts = vec![AttemptOutcome::TransportFailure, delivered("almost { json")];
    let failure = gpt_chat(&attempts, 2).unwrap_err();
    assert_eq!(failure.last_error, AppError::DecodeError);
    assert_eq!(failure.last_content.as_deref(), Some("almost { json"));
}

#[test]
fn budget_caps_the_scan() {
    // a usable reply beyond the budget is never reached
    let attempts = vec![AttemptOutcome::TransportFailure, delivered(GOOD_REPLY)];
    let r = gpt_chat(&attempts, 1);
    assert_eq!(
        r,
        Err(CompletionFailure { last_error: AppError::TransportError, last_content: None })
    );
}

#[test]
fn fences_are_stripped_before_parsing() {
    let fenced = format!("```json\n{}\n```", GOOD_REPLY);
    let r = gpt_chat(&vec![delivered(&fenced)], 1).unwrap();
    assert_eq!(r.dialogue.as_deref(), Some("Welcome to the lot!"));

    let plain_fence = format!("```{}```", GOOD_REPLY);
    let r = gpt_chat(&vec![delivered(&plain_fence)], 1).unwrap();
    assert_eq!(r.name.as_deref(), Some("Nick"));
}

#[test]
fn attempt_errors_keep_their_kind() {
    assert_eq!(
        attempt_result(&AttemptOutcome::TransportFailure),
        Err(AppError::TransportError)
    );
    assert_eq!(attempt_result(&AttemptOutcome::DecodeFailure), Err(AppError::DecodeError));
    assert_eq!(
        attempt_result(&AttemptOutcome::Response(ProviderResponse { choices: vec![] })),
        Err(AppError::DecodeError)
    );
    assert_eq!(attempt_result(&delivered("{ truncated")), Err(AppError::DecodeError));
    assert!(attempt_result(&delivered(GOOD_REPLY)).is_ok());
}

#[test]
fn missing_and_null_fields_parse_as_absent() {
    let r = gpt_chat(&vec![delivered("{\"dialogue\":\"hi\",\"endMessage\":null}")], 1).unwrap();
    assert_eq!(r.dialogue.as_deref(), Some("hi"));
    assert_eq!(r.name, None);
    assert_eq!(r.expression, None);
    assert_eq!(r.end_message, None);
}

#[test]
fn wrongly_typed_field_rejects_the_document() {
    // a known field holding a non-string, non-null value fails the parse,
    // so the attempt is spent and retried
    assert_eq!(
        attempt_result(&delivered("{\"dialogue\": 42}")),
        Err(AppError::DecodeError)
    );
    let failure = gpt_chat(&vec![delivered("{\"dialogue\": 42}")], 1).unwrap_err();
    assert_eq!(failure.last_error, AppError::DecodeError);
    assert_eq!(failure.last_content.as_deref(), Some("{\"dialogue\": 42}"));
    // unknown fields are still ignored
    let r = gpt_chat(&vec![delivered("{\"dialogue\":\"hi\",\"extra\":7}")], 1).unwrap();
    assert_eq!(r.dialogue.as_deref(), Some("hi"));
}

#[test]
fn strip_fences_removes_fence_markers() {
    assert_eq!(strip_fences("```json\n{\"a\":1}\n```"), "\n{\"a\":1}\n");
    assert_eq!(strip_fences("```{}```"), "{}");
    assert_eq!(strip_fences("no fences here"), "no fences here");
    assert_eq!(strip_fences("``` ```json"), " ");
    assert_eq!(strip_fences(""), "");
}

#[test]
fn completion_request_carries_fixed_policy() {
    let req = build_completion_request(vec![]);
    assert_eq!(req.model, GPT_MODEL);
    assert_eq!(req.max_tokens, MAX_COMPLETION_TOKENS);
    assert_eq!(req.max_tokens, 512);
    assert_eq!(req.temperature_tenths, TEMPERATURE_TENTHS);
    assert_eq!(req.temperature_tenths, 18);
    assert!(req.json_object_format);
    assert!(req.messages.is_empty());
}
