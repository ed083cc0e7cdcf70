//! The completion client and its resilient retry layer.
//!
//! One upstream attempt either fails in transport, fails to decode, or
//! delivers a provider response whose first choice's content is expected to
//! be the reply JSON, possibly wrapped in Markdown code fences. The retry
//! layer scans a bounded number of attempts and returns the first usable
//! reply, or `ExhaustedRetries` when the whole budget is spent. The network
//! call itself lives outside the library; the logic here is stated and
//! verified over the sequence of outcomes those calls produce.

use vstd::prelude::*;
use crate::app_error::AppError;
use crate::json::opt_view;
use crate::message::{JsonAiResponse, ReplyView, WireMessage, clone_opt_string};
use crate::strutil::{chars_of, remove_all, remove_all_chars, string_of_chars};

verus! {

/// Model identifier sent with every completion request.
pub const GPT_MODEL: &'static str = "chatgpt-4o-latest";

/// Output-length bound sent with every completion request.
pub const MAX_COMPLETION_TOKENS: u16 = 512;

/// Sampling temperature in tenths (the provider takes 1.8; tenths keep
/// fractional values out of the core, the boundary divides by ten).
pub const TEMPERATURE_TENTHS: u8 = 18;

/// How many attempts the retry layer spends before giving up.
pub const DEFAULT_RETRY_BUDGET: usize = 8;

/// One choice of a provider response envelope: its message content, when the
/// envelope carried one.
#[derive(Debug, PartialEq)]
pub struct ProviderChoice {
    pub content: Option<String>,
}

/// The provider response envelope: the choices array. Only the first
/// choice's content is consumed.
#[derive(Debug, PartialEq)]
pub struct ProviderResponse {
    pub choices: Vec<ProviderChoice>,
}

/// What one completion attempt came back with: a connection or status
/// failure, a body that was not a valid provider envelope, or a decoded
/// envelope.
#[derive(Debug, PartialEq)]
pub enum AttemptOutcome {
    TransportFailure,
    DecodeFailure,
    Response(ProviderResponse),
}

/// One completion request as handed to the boundary: the wire messages
/// plus the fixed request policy.
#[derive(Debug, PartialEq)]
pub struct CompletionRequest {
    pub model: String,
    pub max_tokens: u16,
    pub temperature_tenths: u8,
    pub json_object_format: bool,
    pub messages: Vec<WireMessage>,
}

/// Build the completion request for a wire sequence: fixed model identifier,
/// JSON-object response-format constraint, bounded output length and
/// temperature.
pub fn build_completion_request(messages: Vec<WireMessage>) -> (r: CompletionRequest)
    ensures
        r.model@ == GPT_MODEL@,
        r.max_tokens == MAX_COMPLETION_TOKENS,
        r.temperature_tenths == TEMPERATURE_TENTHS,
        r.json_object_format,
        r.messages == messages,
{
    CompletionRequest {
        model: GPT_MODEL.to_owned(),
        max_tokens: MAX_COMPLETION_TOKENS,
        temperature_tenths: TEMPERATURE_TENTHS,
        json_object_format: true,
        messages,
    }
}

/// What parsing a content string as the reply shape yields, when it yields
/// anything. Parsing accepts a JSON object and reads its `name`, `dialogue`,
/// `expression` and `endMessage` fields; a missing or null field is absent,
/// and a field holding anything other than a string or null rejects the
/// whole document.
pub uninterp spec fn reply_of(s: Seq<char>) -> Option<ReplyView>;

/// Relies on `serde_json::from_str::<Value>`: parses the string as JSON and
/// yields the reply fields when the document is an object whose known fields
/// are strings or null. The result is a function of the string alone, named
/// by [`reply_of`].
#[verifier::external_body]
pub fn parse_reply(s: &str) -> (r: Option<JsonAiResponse>)
    ensures
        r is Some <==> reply_of(s@) is Some,
        r matches Some(j) ==> reply_of(s@) == Some(j@),
{
    let m = match serde_json::from_str::<serde_json::Value>(s) {
        Ok(serde_json::Value::Object(m)) => m,
        _ => return None,
    };
    let field = |k: &str| match m.get(k) {
        None | Some(serde_json::Value::Null) => Ok(None),
        Some(serde_json::Value::String(t)) => Ok(Some(t.clone())),
        Some(_) => Err(()),
    };
    match (field("name"), field("dialogue"), field("expression"), field("endMessage")) {
        (Ok(name), Ok(dialogue), Ok(expression), Ok(end_message)) => {
            Some(JsonAiResponse { name, dialogue, expression, end_message })
        },
        _ => None,
    }
}

/// The content string with the Markdown code-fence delimiters the model
/// sometimes wraps around its JSON removed: every "```json", then every
/// remaining "```".
pub open spec fn strip_fences_spec(s: Seq<char>) -> Seq<char> {
    remove_all(remove_all(s, "```json"@), "```"@)
}

/// Strip Markdown code-fence delimiters from a content string.
pub fn strip_fences(s: &str) -> (r: String)
    ensures
        r@ == strip_fences_spec(s@),
{
    proof {
        reveal_strlit("```json");
        reveal_strlit("```");
    }
    let chars = chars_of(s);
    let fence_json = chars_of("```json");
    let fence = chars_of("```");
    let step = remove_all_chars(&chars, &fence_json);
    let stripped = remove_all_chars(&step, &fence);
    string_of_chars(&stripped)
}

/// The first choice's content of a response envelope, when there is one.
pub open spec fn choice_content(p: ProviderResponse) -> Option<Seq<char>> {
    if p.choices@.len() == 0 {
        Option::None
    } else {
        opt_view(p.choices@[0].content)
    }
}

/// The error kind one attempt reports when it carries no usable reply:
/// `TransportError` for a transport failure, `DecodeError` for everything
/// else.
pub open spec fn outcome_error(o: AttemptOutcome) -> AppError {
    if o is TransportFailure {
        AppError::TransportError
    } else {
        AppError::DecodeError
    }
}

/// The raw content one attempt delivered, if any: the first choice's
/// content of a decoded envelope.
pub open spec fn outcome_content(o: AttemptOutcome) -> Option<Seq<char>> {
    match o {
        AttemptOutcome::Response(p) => choice_content(p),
        _ => Option::None,
    }
}

/// The raw content one attempt delivered, if any.
fn content_of_outcome(o: &AttemptOutcome) -> (r: Option<String>)
    ensures
        opt_view(r) == outcome_content(*o),
{
    match o {
        AttemptOutcome::Response(p) => {
            if p.choices.len() == 0 {
                Option::None
            } else {
                clone_opt_string(&p.choices[0].content)
            }
        },
        _ => Option::None,
    }
}

/// The terminal failure of resilient completion: the whole retry budget was
/// spent without a usable reply. It carries the last attempt's error kind
/// and the last raw content delivered, so the boundary can log a
/// diagnosable message; the engine surfaces it to callers as the opaque
/// `ExhaustedRetries`, and the diagnostics go only to the log.
#[derive(Debug, PartialEq)]
pub struct CompletionFailure {
    pub last_error: AppError,
    pub last_content: Option<String>,
}

/// The usable reply carried by one attempt outcome, if any: a delivered
/// envelope whose first choice's content, after fence stripping, parses as
/// the reply shape.
pub open spec fn outcome_reply(o: AttemptOutcome) -> Option<ReplyView> {
    match o {
        AttemptOutcome::Response(p) => match choice_content(p) {
            Option::Some(c) => reply_of(strip_fences_spec(c)),
            Option::None => Option::None,
        },
        _ => Option::None,
    }
}

/// Process one attempt outcome: extract the first choice's content, strip
/// fences, parse. Transport failures keep `TransportError`; everything else
/// that yields no reply is a `DecodeError`.
pub fn attempt_result(outcome: &AttemptOutcome) -> (r: Result<JsonAiResponse, AppError>)
    ensures
        r is Ok <==> outcome_reply(*outcome) is Some,
        r matches Ok(j) ==> outcome_reply(*outcome) == Some(j@),
        *outcome is TransportFailure ==> r == Err::<JsonAiResponse, AppError>(
            AppError::TransportError,
        ),
        r is Err && !(*outcome is TransportFailure) ==> r == Err::<JsonAiResponse, AppError>(
            AppError::DecodeError,
        ),
{
    match outcome {
        AttemptOutcome::TransportFailure => Err(AppError::TransportError),
        AttemptOutcome::DecodeFailure => Err(AppError::DecodeError),
        AttemptOutcome::Response(p) => {
            if p.choices.len() == 0 {
                Err(AppError::DecodeError)
            } else {
                match &p.choices[0].content {
                    Option::None => Err(AppError::DecodeError),
                    Option::Some(c) => {
                        let stripped = strip_fences(c.as_str());
                        match parse_reply(stripped.as_str()) {
                            Option::Some(j) => Ok(j),
                            Option::None => Err(AppError::DecodeError),
                        }
                    },
                }
            }
        },
    }
}

/// The index of the first attempt at or after `i` and before `budget` that
/// carries a usable reply.
pub open spec fn first_ok_from(attempts: Seq<AttemptOutcome>, i: int, budget: int) -> Option<int>
    decreases budget - i,
{
    if i < 0 || i >= budget {
        Option::None
    } else if outcome_reply(attempts[i]) is Some {
        Option::Some(i)
    } else {
        first_ok_from(attempts, i + 1, budget)
    }
}

/// The index of the first attempt within the budget that carries a usable
/// reply.
pub open spec fn first_ok(attempts: Seq<AttemptOutcome>, budget: int) -> Option<int> {
    first_ok_from(attempts, 0, budget)
}

/// Scanning from the start equals scanning from `k` when every attempt
/// before `k` carries no usable reply.
proof fn lemma_first_ok_skip(attempts: Seq<AttemptOutcome>, k: int, budget: int)
    requires
        0 <= k <= budget,
        forall|j: int| 0 <= j < k ==> outcome_reply(attempts[j]) is None,
    ensures
        first_ok_from(attempts, 0, budget) == first_ok_from(attempts, k, budget),
    decreases k,
{
    if k > 0 {
        lemma_first_ok_skip(attempts, k - 1, budget);
    }
}

/// Resilient completion short-circuits: when the attempts before the n-th
/// carry no usable reply and the n-th does, the scan settles on the n-th
/// attempt — exactly n attempts are spent, the remaining budget is not.
pub proof fn lemma_retry_short_circuit(attempts: Seq<AttemptOutcome>, budget: int, n: int)
    requires
        1 <= n <= budget,
        forall|j: int| 0 <= j < n - 1 ==> outcome_reply(attempts[j]) is None,
        outcome_reply(attempts[n - 1]) is Some,
    ensures
        first_ok(attempts, budget) == Some(n - 1),
{
    lemma_first_ok_skip(attempts, n - 1, budget);
}

/// Resilient completion exhaustion: when no attempt within the budget
/// carries a usable reply, the scan finds none, and [`gpt_chat`] then fails
/// with `ExhaustedRetries`.
pub proof fn lemma_retry_exhaustion(attempts: Seq<AttemptOutcome>, budget: int)
    requires
        0 <= budget,
        forall|j: int| 0 <= j < budget ==> outcome_reply(attempts[j]) is None,
    ensures
        first_ok(attempts, budget) is None,
{
    lemma_first_ok_skip(attempts, budget, budget);
}

/// Resilient completion over a transcript of attempt outcomes: return the
/// reply of the first usable attempt, or, once the whole budget is spent, a
/// [`CompletionFailure`] carrying the last attempt's error kind and raw
/// content for the log. `attempts` stands for what successive upstream
/// calls came back with; the boundary drives the real calls one at a time
/// through [`attempt_result`].
pub fn gpt_chat(attempts: &Vec<AttemptOutcome>, budget: usize) -> (r: Result<
    JsonAiResponse,
    CompletionFailure,
>)
    requires
        budget <= attempts@.len(),
    ensures
        first_ok(attempts@, budget as int) matches Some(i) ==> r matches Ok(j) && outcome_reply(
            attempts@[i],
        ) == Some(j@),
        first_ok(attempts@, budget as int) is None ==> ({
            &&& r matches Err(f)
            &&& budget > 0 ==> f.last_error == outcome_error(attempts@[budget - 1]) && opt_view(
                f.last_content,
            ) == outcome_content(attempts@[budget - 1])
            &&& budget == 0 ==> f.last_error == AppError::ExhaustedRetries && f.last_content
                is None
        }),
{
    let mut last_error = AppError::ExhaustedRetries;
    let mut last_content: Option<String> = Option::None;
    let mut i: usize = 0;
    while i < budget
        invariant
            i <= budget,
            budget <= attempts@.len(),
            forall|j: int| 0 <= j < i ==> outcome_reply(attempts@[j]) is None,
            i > 0 ==> last_error == outcome_error(attempts@[i - 1]) && opt_view(last_content)
                == outcome_content(attempts@[i - 1]),
            i == 0 ==> last_error == AppError::ExhaustedRetries && last_content is None,
        decreases budget - i,
    {
        match attempt_result(&attempts[i]) {
            Ok(j) => {
                proof {
                    lemma_first_ok_skip(attempts@, i as int, budget as int);
                }
                return Ok(j);
            },
            Err(e) => {
                last_error = e;
                last_content = content_of_outcome(&attempts[i]);
                i = i + 1;
            },
        }
    }
    proof {
        lemma_first_ok_skip(attempts@, budget as int, budget as int);
    }
    Err(CompletionFailure { last_error, last_content })
}

} // verus!
