//! Rewriting selected text: requests, provider errors and how they are
//! classified and retried, the structured-reply format, prompt assembly and
//! the redaction of secrets in diagnostics.

use vstd::prelude::*;

use crate::config::AppSettingsConfig;
use serde_json::Value;
use crate::persona::ResolvedPersona;
use crate::selection::SelectionMode;
use crate::text::{
    ascii_lower_seq, chars_of, concat, concat3, contains_seq, contains_str, is_blank,
    is_white_space, is_whitespace_char, occurs_at, owned, string_of, string_of_range, take_chars,
    take_seq, to_ascii_lowercase, trim, trim_class, trim_line_ends, trim_line_ends_exec, trim_seq,
    trim_ws, CharClass,
};

verus! {

/// Why a rewrite failed.
#[derive(Debug)]
pub enum RewriteError {
    Config(String),
    EmptyInput,
    Timeout,
    InvalidResponse(String),
    Remote(String),
}

/// The text that describes a rewrite error.
pub open spec fn rewrite_error_message(e: RewriteError) -> Seq<char> {
    match e {
        RewriteError::Config(m) => "rewrite config error: "@ + m@,
        RewriteError::EmptyInput => "rewrite input is empty"@,
        RewriteError::Timeout => "remote rewrite error: request timed out"@,
        RewriteError::InvalidResponse(m) => "remote rewrite response invalid: "@ + m@,
        RewriteError::Remote(m) => "remote rewrite error: "@ + m@,
    }
}

impl RewriteError {
    /// The text that describes this error.
    pub fn message(&self) -> (r: String)
        ensures
            r@ == rewrite_error_message(*self),
    {
        match self {
            RewriteError::Config(m) => concat("rewrite config error: ", m.as_str()),
            RewriteError::EmptyInput => owned("rewrite input is empty"),
            RewriteError::Timeout => owned("remote rewrite error: request timed out"),
            RewriteError::InvalidResponse(m) => concat(
                "remote rewrite response invalid: ",
                m.as_str(),
            ),
            RewriteError::Remote(m) => concat("remote rewrite error: ", m.as_str()),
        }
    }
}

/// Whether a provider is asked for a JSON object or for plain text.
#[derive(Clone, Copy, Debug, PartialEq, Eq, Structural)]
pub enum OutputMode {
    Json,
    Plain,
}

impl OutputMode {
    pub fn label(self) -> (r: &'static str)
        ensures
            r@ == (match self {
                OutputMode::Json => "JSON"@,
                OutputMode::Plain => "plain"@,
            }),
    {
        match self {
            OutputMode::Json => "JSON",
            OutputMode::Plain => "plain",
        }
    }
}

/// A failed provider call and what may be tried next: the same call again
/// (`retry_same`) or the call in plain-text mode (`retry_plain`).
#[derive(Debug)]
pub struct ProviderCallError {
    pub message: String,
    pub retry_plain: bool,
    pub retry_same: bool,
    pub timeout: bool,
    pub invalid_response: bool,
}

impl ProviderCallError {
    pub fn timeout() -> (r: Self)
        ensures
            r.message@ == "request timed out"@,
            !r.retry_plain && !r.retry_same && r.timeout && !r.invalid_response,
    {
        ProviderCallError {
            message: owned("request timed out"),
            retry_plain: false,
            retry_same: false,
            timeout: true,
            invalid_response: false,
        }
    }

    pub fn remote(message: String) -> (r: Self)
        ensures
            r.message == message,
            !r.retry_plain && !r.retry_same && !r.timeout && !r.invalid_response,
    {
        ProviderCallError {
            message,
            retry_plain: false,
            retry_same: false,
            timeout: false,
            invalid_response: false,
        }
    }

    pub fn retryable_remote(message: String) -> (r: Self)
        ensures
            r.message == message,
            !r.retry_plain && r.retry_same && !r.timeout && !r.invalid_response,
    {
        ProviderCallError {
            message,
            retry_plain: false,
            retry_same: true,
            timeout: false,
            invalid_response: false,
        }
    }

    pub fn retryable_invalid_response(message: String) -> (r: Self)
        ensures
            r.message == message,
            !r.retry_plain && r.retry_same && !r.timeout && r.invalid_response,
    {
        ProviderCallError {
            message,
            retry_plain: false,
            retry_same: true,
            timeout: false,
            invalid_response: true,
        }
    }

    /// The rewrite error this call failure becomes: a timeout, an invalid
    /// response, or else a remote error, each with the call's message.
    pub fn into_rewrite_error(self) -> (r: RewriteError)
        ensures
            self.timeout ==> r == RewriteError::Timeout,
            !self.timeout && self.invalid_response ==> r == RewriteError::InvalidResponse(
                self.message,
            ),
            !self.timeout && !self.invalid_response ==> r == RewriteError::Remote(self.message),
    {
        if self.timeout {
            RewriteError::Timeout
        } else if self.invalid_response {
            RewriteError::InvalidResponse(self.message)
        } else {
            RewriteError::Remote(self.message)
        }
    }
}

// ---------------------------------------------------------------------------
// Input clean-up
// ---------------------------------------------------------------------------

/// The text sent for rewriting: NULs stripped from both ends, trailing
/// whitespace removed from every line, and surrounding whitespace removed.
pub open spec fn normalize_text_spec(s: Seq<char>) -> Seq<char> {
    trim_ws(trim_line_ends(trim_seq(s, CharClass::Nul)))
}

/// The text sent for rewriting.
pub fn normalize_text(text: &str) -> (r: String)
    ensures
        r@ == normalize_text_spec(text@),
{
    let stripped = trim_class(text, CharClass::Nul);
    let v = chars_of(stripped.as_str());
    let lines = trim_line_ends_exec(&v);
    let joined = string_of(&lines);
    trim(joined.as_str())
}

// ---------------------------------------------------------------------------
// Classifying provider replies
// ---------------------------------------------------------------------------

/// Whether an HTTP status says the request may succeed if sent again.
pub open spec fn transient_status(status: u16) -> bool {
    status == 408 || status == 409 || status == 425 || status == 429 || status == 500 || status
        == 502 || status == 503 || status == 504
}

pub fn response_status_is_transient(status: u16) -> (r: bool)
    ensures
        r == transient_status(status),
{
    status == 408 || status == 409 || status == 425 || status == 429 || status == 500 || status
        == 502 || status == 503 || status == 504
}

/// A 400 or 422 whose body mentions the response format (or calls something
/// unsupported, unknown or invalid) suggests that JSON mode is not supported.
pub open spec fn format_may_be_unsupported(status: u16, body: Seq<char>) -> bool {
    let b = ascii_lower_seq(body);
    (status == 400 || status == 422) && (contains_seq(b, "response_format"@) || contains_seq(
        b,
        "json_object"@,
    ) || contains_seq(b, "unsupported"@) || contains_seq(b, "unknown"@) || contains_seq(
        b,
        "invalid"@,
    ))
}

pub fn response_format_may_be_unsupported(status: u16, body: &str) -> (r: bool)
    ensures
        r == format_may_be_unsupported(status, body@),
{
    if status != 400 && status != 422 {
        return false;
    }
    let b = to_ascii_lowercase(body);
    contains_str(&b, "response_format") || contains_str(&b, "json_object") || contains_str(
        &b,
        "unsupported",
    ) || contains_str(&b, "unknown") || contains_str(&b, "invalid")
}

/// The category of a failed connection test.
pub open spec fn test_error_category(status: u16, body: Seq<char>) -> Seq<char> {
    let b = ascii_lower_seq(body);
    if status == 401 || status == 403 {
        "PROVIDER_TEST_AUTH"@
    } else if status == 404 || contains_seq(b, "model"@) || contains_seq(b, "not found"@)
        || contains_seq(b, "does not exist"@) {
        "PROVIDER_TEST_MODEL"@
    } else {
        "PROVIDER_TEST_REMOTE"@
    }
}

pub fn provider_test_error_category(status: u16, body: &str) -> (r: &'static str)
    ensures
        r@ == test_error_category(status, body@),
{
    let b = to_ascii_lowercase(body);
    if status == 401 || status == 403 {
        return "PROVIDER_TEST_AUTH";
    }
    if status == 404 || contains_str(&b, "model") || contains_str(&b, "not found") || contains_str(
        &b,
        "does not exist",
    ) {
        return "PROVIDER_TEST_MODEL";
    }
    "PROVIDER_TEST_REMOTE"
}

/// The reply budget: half the number of characters, kept between 256 and 4096.
pub open spec fn max_tokens_spec(char_count: nat) -> u32 {
    let approx = ((char_count / 2) as usize) as u32;
    if approx < 256 {
        256
    } else if approx > 4096 {
        4096
    } else {
        approx
    }
}

pub fn max_tokens_for_text(text: &str) -> (r: u32)
    ensures
        r == max_tokens_spec(text@.len()),
{
    let n = text.unicode_len();
    let approximate_input_tokens = (n / 2) as u32;
    if approximate_input_tokens < 256 {
        256
    } else if approximate_input_tokens > 4096 {
        4096
    } else {
        approximate_input_tokens
    }
}

/// Whether the provider is known to handle JSON mode badly (DeepSeek).
pub open spec fn json_mode_risky(provider: Seq<char>, base_url: Seq<char>) -> bool {
    ascii_lower_seq(trim_ws(provider)) == "deepseek"@ || contains_seq(
        ascii_lower_seq(trim_ws(base_url)),
        "api.deepseek.com"@,
    )
}

pub fn json_mode_is_risky_for_provider(settings: &AppSettingsConfig) -> (r: bool)
    ensures
        r == json_mode_risky(settings.provider@, settings.base_url@),
{
    let p = trim(settings.provider.as_str());
    let provider = to_ascii_lowercase(p.as_str());
    let u = trim(settings.base_url.as_str());
    let base_url = to_ascii_lowercase(u.as_str());
    let deepseek = chars_of("deepseek");
    crate::platform::vec_char_eq(&provider, &deepseek) || contains_str(&base_url, "api.deepseek.com")
}

/// The output mode tried first: plain text for providers that handle JSON
/// mode badly, JSON otherwise.
pub fn preferred_output_mode(settings: &AppSettingsConfig) -> (r: OutputMode)
    ensures
        r == (if json_mode_risky(settings.provider@, settings.base_url@) {
            OutputMode::Plain
        } else {
            OutputMode::Json
        }),
{
    if json_mode_is_risky_for_provider(settings) {
        OutputMode::Plain
    } else {
        OutputMode::Json
    }
}

// ---------------------------------------------------------------------------
// Redacting secrets from diagnostics
// ---------------------------------------------------------------------------

/// Whether `c` ends an API-key-like token.
pub open spec fn secret_delimiter(c: char) -> bool {
    is_white_space(c) || c == '"' || c == '\'' || c == ',' || c == ';' || c == ':' || c == '}'
        || c == ']' || c == ')' || c == '<' || c == '>'
}

pub fn is_secret_delimiter(character: char) -> (r: bool)
    ensures
        r == secret_delimiter(character),
{
    is_whitespace_char(character) || character == '"' || character == '\'' || character == ','
        || character == ';' || character == ':' || character == '}' || character == ']'
        || character == ')' || character == '<' || character == '>'
}

/// The end of the token that starts at `j`: the first delimiter at or after `j`.
pub open spec fn token_end(s: Seq<char>, j: int) -> int
    decreases s.len() - j,
{
    if 0 <= j < s.len() && !secret_delimiter(s[j]) {
        token_end(s, j + 1)
    } else {
        j
    }
}

pub proof fn lemma_token_end(s: Seq<char>, j: int)
    requires
        0 <= j <= s.len(),
    ensures
        j <= token_end(s, j) <= s.len(),
    decreases s.len() - j,
{
    if j < s.len() && !secret_delimiter(s[j]) {
        lemma_token_end(s, j + 1);
    }
}

/// `s` from index `i` on, with every token that starts with `sk-` replaced by
/// `[redacted-api-key]`.
pub open spec fn redact_from(s: Seq<char>, i: int) -> Seq<char>
    decreases s.len() - i,
{
    if i < 0 || i >= s.len() {
        Seq::<char>::empty()
    } else if occurs_at(s, "sk-"@, i) {
        proof {
            reveal_strlit("sk-");
            lemma_token_end(s, i + 3);
        }
        "[redacted-api-key]"@ + redact_from(s, token_end(s, i + 3))
    } else {
        seq![s[i]] + redact_from(s, i + 1)
    }
}

/// `s` with every token that starts with `sk-` replaced by `[redacted-api-key]`.
pub open spec fn redact_spec(s: Seq<char>) -> Seq<char> {
    redact_from(s, 0)
}

/// Whether `needle` occurs in `chars` at `index`.
pub fn starts_with_at(chars: &Vec<char>, index: usize, needle: &str) -> (r: bool)
    ensures
        r == occurs_at(chars@, needle@, index as int),
{
    let n = chars_of(needle);
    crate::text::occurs_at_exec(chars, &n, index)
}

/// `sample` with API-key-like tokens redacted.
pub fn redact_sensitive_sample(sample: &str) -> (r: String)
    ensures
        r@ == redact_spec(sample@),
{
    let chars = chars_of(sample);
    let mut redacted = String::new();
    let mut index: usize = 0;
    while index < chars.len()
        invariant
            chars@ == sample@,
            index <= chars@.len(),
            redacted@ + redact_from(chars@, index as int) == redact_from(chars@, 0),
        decreases chars@.len() - index,
    {
        if starts_with_at(&chars, index, "sk-") {
            proof {
                reveal_strlit("sk-");
                lemma_token_end(chars@, index + 3);
            }
            let ghost before = redacted@;
            let ghost i0 = index as int;
            redacted.append("[redacted-api-key]");
            let start = index + 3;
            index = start;
            while index < chars.len() && !is_secret_delimiter(chars[index])
                invariant
                    chars@ == sample@,
                    start <= index <= chars@.len(),
                    token_end(chars@, start as int) == token_end(chars@, index as int),
                decreases chars@.len() - index,
            {
                index = index + 1;
            }
            proof {
                assert(token_end(chars@, index as int) == index);
                assert(redact_from(chars@, i0) == "[redacted-api-key]"@ + redact_from(chars@, index as int));
                assert(redacted@ + redact_from(chars@, index as int) =~= before + redact_from(chars@, i0));
            }
        } else {
            let ghost before = redacted@;
            crate::text::push_char(&mut redacted, chars[index]);
            proof {
                assert(redacted@ + redact_from(chars@, index + 1) =~= before + (seq![chars@[index as int]] + redact_from(chars@, index + 1)));
            }
            index = index + 1;
        }
    }
    redacted
}

proof fn lemma_redact_first(s: Seq<char>, i: int)
    requires
        0 <= i < s.len(),
    ensures
        redact_from(s, i).len() > 0,
        redact_from(s, i)[0] == (if occurs_at(s, "sk-"@, i) {
            '['
        } else {
            s[i]
        }),
{
    reveal_strlit("[redacted-api-key]");
    reveal_strlit("sk-");
}

/// Redaction leaves no `sk-` in its output: every API-key-like token is gone
/// and no new one is formed where kept text meets a replacement.
pub proof fn law_redaction_leaves_no_key_prefix(s: Seq<char>, i: int)
    requires
        0 <= i,
    ensures
        !contains_seq(redact_from(s, i), "sk-"@),
    decreases s.len() - i,
{
    reveal_strlit("sk-");
    reveal_strlit("[redacted-api-key]");
    let r = redact_from(s, i);
    if i >= s.len() {
        assert forall|k: int| !occurs_at(r, "sk-"@, k) by {}
    } else if occurs_at(s, "sk-"@, i) {
        lemma_token_end(s, i + 3);
        let e = token_end(s, i + 3);
        let p = "[redacted-api-key]"@;
        let q = redact_from(s, e);
        law_redaction_leaves_no_key_prefix(s, e);
        assert(r == p + q);
        assert forall|k: int| !occurs_at(r, "sk-"@, k) by {
            if occurs_at(r, "sk-"@, k) {
                assert(r.subrange(k, k + 3)[0] == 's');
                if k < 18 {
                    assert(r[k] == p[k]);
                } else {
                    assert(q.subrange(k - 18, k - 18 + 3) =~= r.subrange(k, k + 3));
                    assert(occurs_at(q, "sk-"@, k - 18));
                }
            }
        }
    } else {
        let q = redact_from(s, i + 1);
        law_redaction_leaves_no_key_prefix(s, i + 1);
        assert(r == seq![s[i]] + q);
        assert forall|k: int| !occurs_at(r, "sk-"@, k) by {
            if occurs_at(r, "sk-"@, k) {
                let w = r.subrange(k, k + 3);
                assert(w[0] == 's' && w[1] == 'k' && w[2] == '-');
                if k >= 1 {
                    assert(q.subrange(k - 1, k - 1 + 3) =~= w);
                    assert(occurs_at(q, "sk-"@, k - 1));
                } else {
                    assert(r[0] == s[i] && r[1] == q[0] && r[2] == q[1]);
                    lemma_redact_first(s, i + 1);
                    assert(!occurs_at(s, "sk-"@, i + 1));
                    assert(q == seq![s[i + 1]] + redact_from(s, i + 2));
                    lemma_redact_first(s, i + 2);
                    assert(!occurs_at(s, "sk-"@, i + 2));
                    assert(s.subrange(i, i + 3) =~= "sk-"@);
                }
            }
        }
    }
}

// ---------------------------------------------------------------------------
// The structured reply `{"text": "..."}`
// ---------------------------------------------------------------------------

/// The top level of a JSON document as the reply parser reads it: its kind,
/// and for an array or an object which of their members are strings.
#[derive(Clone, Debug)]
pub enum JsonDocument {
    /// `null`.
    Null,
    /// A boolean.
    Bool(bool),
    /// A number.
    Number,
    /// A string.
    String(String),
    /// The elements, each `Some` with its text when it is a string.
    Array(Vec<Option<String>>),
    /// The members, in the order serde_json's map keeps them (sorted by key,
    /// one per key), each value `Some` with its text when it is a string.
    Object(Vec<(String, Option<String>)>),
}

pub enum JsonDocumentView {
    Null,
    Bool(bool),
    Number,
    String(Seq<char>),
    Array(Seq<Option<Seq<char>>>),
    Object(Seq<(Seq<char>, Option<Seq<char>>)>),
}

pub open spec fn opt_text_view(o: Option<String>) -> Option<Seq<char>> {
    match o {
        Some(s) => Some(s@),
        None => None,
    }
}

impl View for JsonDocument {
    type V = JsonDocumentView;

    open spec fn view(&self) -> JsonDocumentView {
        match self {
            JsonDocument::Null => JsonDocumentView::Null,
            JsonDocument::Bool(b) => JsonDocumentView::Bool(*b),
            JsonDocument::Number => JsonDocumentView::Number,
            JsonDocument::String(t) => JsonDocumentView::String(t@),
            JsonDocument::Array(v) => JsonDocumentView::Array(
                v@.map_values(|o: Option<String>| opt_text_view(o)),
            ),
            JsonDocument::Object(v) => JsonDocumentView::Object(
                v@.map_values(|e: (String, Option<String>)| (e.0@, opt_text_view(e.1))),
            ),
        }
    }
}

pub open spec fn document_result_view(r: Result<JsonDocument, String>) -> Result<
    JsonDocumentView,
    Seq<char>,
> {
    match r {
        Ok(d) => Ok(d@),
        Err(e) => Err(e@),
    }
}

/// What serde_json makes of `text` when it parses it as a `serde_json::Value`:
/// the top-level document, or the parse error's text.
pub uninterp spec fn json_document(text: Seq<char>) -> Result<JsonDocumentView, Seq<char>>;

/// Parses `text` with `serde_json::from_str::<serde_json::Value>` and reports
/// the top level of the value, variant for variant (for arrays and objects,
/// each member with what serde_json's `Value::as_str` gives for it), or the
/// error's text. The claim is only that the result is the
/// one serde_json gives for `text`; what JSON it accepts is not stated.
#[verifier::external_body]
fn parse_json_document(text: &str) -> (r: Result<JsonDocument, String>)
    ensures
        document_result_view(r) == json_document(text@),
{
    match serde_json::from_str::<Value>(text) {
        Ok(Value::Null) => Ok(JsonDocument::Null),
        Ok(Value::Bool(b)) => Ok(JsonDocument::Bool(b)),
        Ok(Value::Number(_)) => Ok(JsonDocument::Number),
        Ok(Value::String(t)) => Ok(JsonDocument::String(t)),
        Ok(Value::Array(a)) => Ok(JsonDocument::Array(a.iter().map(|v| v.as_str().map(String::from)).collect())),
        Ok(Value::Object(m)) => Ok(JsonDocument::Object(m.into_iter().map(|(k, v)| (k, v.as_str().map(String::from))).collect())),
        Err(error) => Err(error.to_string()),
    }
}

/// The value of the first member named `key`.
pub open spec fn member(entries: Seq<(Seq<char>, Option<Seq<char>>)>, key: Seq<char>) -> Option<
    Option<Seq<char>>,
>
    decreases entries.len(),
{
    if entries.len() == 0 {
        None
    } else if entries[0].0 == key {
        Some(entries[0].1)
    } else {
        member(entries.drop_first(), key)
    }
}

/// The `text` of a structured reply: an object whose `text` member is a
/// string, or an array holding exactly one string.
pub open spec fn structured_text(doc: JsonDocumentView) -> Result<Seq<char>, Seq<char>> {
    match doc {
        JsonDocumentView::Object(entries) => match member(entries, "text"@) {
            Some(Some(t)) => Ok(t),
            Some(None) => Err("invalid type: field `text` is not a string"@),
            None => Err("missing field `text`"@),
        },
        JsonDocumentView::Array(elems) => if elems.len() == 1 {
            match elems[0] {
                Some(t) => Ok(t),
                None => Err("invalid type: field `text` is not a string"@),
            }
        } else {
            Err("invalid length, expected a structured rewrite with 1 element"@)
        },
        _ => Err("invalid type, expected a structured rewrite"@),
    }
}

/// `member` finds the first member with the key: the value at index `k` when
/// `k` is the first index whose key is `key`.
proof fn lemma_member_at(entries: Seq<(Seq<char>, Option<Seq<char>>)>, key: Seq<char>, k: int)
    requires
        0 <= k < entries.len(),
        entries[k].0 == key,
        forall|j: int| 0 <= j < k ==> (#[trigger] entries[j]).0 != key,
    ensures
        member(entries, key) == Some(entries[k].1),
    decreases k,
{
    if k > 0 {
        assert(entries[0].0 != key);
        let rest = entries.drop_first();
        assert forall|j: int| 0 <= j < k - 1 implies (#[trigger] rest[j]).0 != key by {
            assert(rest[j] == entries[j + 1]);
        }
        lemma_member_at(rest, key, k - 1);
    }
}

/// `member` finds nothing when no member has the key.
proof fn lemma_member_absent(entries: Seq<(Seq<char>, Option<Seq<char>>)>, key: Seq<char>)
    requires
        forall|j: int| 0 <= j < entries.len() ==> (#[trigger] entries[j]).0 != key,
    ensures
        member(entries, key) is None,
    decreases entries.len(),
{
    if entries.len() > 0 {
        let rest = entries.drop_first();
        assert forall|j: int| 0 <= j < rest.len() implies (#[trigger] rest[j]).0 != key by {
            assert(rest[j] == entries[j + 1]);
        }
        lemma_member_absent(rest, key);
    }
}

/// A reply object whose (first) `text` member is the string `t` gives `t`,
/// whatever other members it has; an object with no `text` member, or whose
/// `text` member is not a string, gives an error. An array holding just the
/// string `t` gives `t` too.
pub proof fn law_structured_reply_reads_the_text_member(
    entries: Seq<(Seq<char>, Option<Seq<char>>)>,
    k: int,
    t: Seq<char>,
)
    ensures
        0 <= k < entries.len() && entries[k] == ("text"@, Some(t)) && (forall|j: int|
            0 <= j < k ==> (#[trigger] entries[j]).0 != "text"@) ==> structured_text(
            JsonDocumentView::Object(entries),
        ) == Ok::<Seq<char>, Seq<char>>(t),
        0 <= k < entries.len() && entries[k] == ("text"@, None::<Seq<char>>) && (forall|j: int|
            0 <= j < k ==> (#[trigger] entries[j]).0 != "text"@) ==> structured_text(
            JsonDocumentView::Object(entries),
        ) is Err,
        (forall|j: int| 0 <= j < entries.len() ==> (#[trigger] entries[j]).0 != "text"@)
            ==> structured_text(JsonDocumentView::Object(entries)) is Err,
        structured_text(JsonDocumentView::Array(seq![Some(t)])) == Ok::<Seq<char>, Seq<char>>(t),
{
    if 0 <= k < entries.len() && entries[k].0 == "text"@ && (forall|j: int|
        0 <= j < k ==> (#[trigger] entries[j]).0 != "text"@) {
        lemma_member_at(entries, "text"@, k);
    }
    if forall|j: int| 0 <= j < entries.len() ==> (#[trigger] entries[j]).0 != "text"@ {
        lemma_member_absent(entries, "text"@);
    }
}

/// The `text` of the structured reply in `content`, or why there is none.
pub open spec fn decode_structured(content: Seq<char>) -> Result<Seq<char>, Seq<char>> {
    match json_document(content) {
        Ok(doc) => structured_text(doc),
        Err(e) => Err(e),
    }
}

fn structured_text_exec(doc: &JsonDocument) -> (r: Result<String, String>)
    ensures
        match r {
            Ok(t) => structured_text(doc@) == Ok::<Seq<char>, Seq<char>>(t@),
            Err(e) => structured_text(doc@) == Err::<Seq<char>, Seq<char>>(e@),
        },
{
    match doc {
        JsonDocument::Object(entries) => {
            let ghost ev = entries@.map_values(
                |e: (String, Option<String>)| (e.0@, opt_text_view(e.1)),
            );
            assert(doc@ == JsonDocumentView::Object(ev));
            let mut i: usize = 0;
            assert(ev.skip(0) =~= ev);
            while i < entries.len()
                invariant
                    i <= entries@.len(),
                    doc@ == JsonDocumentView::Object(ev),
                    ev == entries@.map_values(
                        |e: (String, Option<String>)| (e.0@, opt_text_view(e.1)),
                    ),
                    member(ev, "text"@) == member(ev.skip(i as int), "text"@),
                decreases entries@.len() - i,
            {
                assert(ev.skip(i as int)[0] == ev[i as int]);
                assert(ev[i as int] == (entries@[i as int].0@, opt_text_view(entries@[i as int].1)));
                let entry = &entries[i];
                if crate::text::str_eq(entry.0.as_str(), "text") {
                    assert(member(ev.skip(i as int), "text"@) == Some(opt_text_view(entry.1)));
                    return match &entry.1 {
                        Some(t) => {
                            assert(opt_text_view(entry.1) == Some(t@));
                            Ok(t.clone())
                        },
                        None => Err(owned("invalid type: field `text` is not a string")),
                    };
                }
                assert(ev.skip(i as int).drop_first() =~= ev.skip(i + 1));
                i = i + 1;
            }
            assert(ev.skip(i as int) =~= Seq::<(Seq<char>, Option<Seq<char>>)>::empty());
            Err(owned("missing field `text`"))
        },
        JsonDocument::Array(elems) => {
            let ghost ev = elems@.map_values(|o: Option<String>| opt_text_view(o));
            assert(doc@ == JsonDocumentView::Array(ev));
            if elems.len() == 1 {
                assert(ev[0] == opt_text_view(elems@[0]));
                match &elems[0] {
                    Some(t) => Ok(t.clone()),
                    None => Err(owned("invalid type: field `text` is not a string")),
                }
            } else {
                Err(owned("invalid length, expected a structured rewrite with 1 element"))
            }
        },
        _ => Err(owned("invalid type, expected a structured rewrite")),
    }
}

fn decode_structured_exec(content: &str) -> (r: Result<String, String>)
    ensures
        match r {
            Ok(t) => decode_structured(content@) == Ok::<Seq<char>, Seq<char>>(t@),
            Err(e) => decode_structured(content@) == Err::<Seq<char>, Seq<char>>(e@),
        },
{
    match parse_json_document(content) {
        Ok(doc) => structured_text_exec(&doc),
        Err(e) => Err(e),
    }
}

/// The index of the first `c` in `s`, or -1.
pub open spec fn first_index_of(s: Seq<char>, c: char) -> int
    decreases s.len(),
{
    if s.len() == 0 {
        -1
    } else if s[0] == c {
        0
    } else {
        let r = first_index_of(s.drop_first(), c);
        if r < 0 {
            -1
        } else {
            r + 1
        }
    }
}

/// The index of the last `c` in `s`, or -1.
pub open spec fn last_index_of(s: Seq<char>, c: char) -> int
    decreases s.len(),
{
    if s.len() == 0 {
        -1
    } else if s.last() == c {
        s.len() - 1
    } else {
        last_index_of(s.drop_last(), c)
    }
}

/// The text from the first `{` to the last `}`, when the first comes before the last.
pub open spec fn json_object_span(s: Seq<char>) -> Option<Seq<char>> {
    let start = first_index_of(s, '{');
    let end = last_index_of(s, '}');
    if start < 0 || end < 0 || start >= end {
        None
    } else {
        Some(s.subrange(start, end + 1))
    }
}

proof fn lemma_first_index(s: Seq<char>, c: char, i: int)
    requires
        0 <= i <= s.len(),
        forall|j: int| 0 <= j < i ==> s[j] != c,
        i == s.len() || s[i] == c,
    ensures
        first_index_of(s, c) == (if i == s.len() {
            -1
        } else {
            i
        }),
    decreases i,
{
    if i > 0 {
        lemma_first_index(s.drop_first(), c, i - 1);
    }
}

proof fn lemma_last_index(s: Seq<char>, c: char, e: int)
    requires
        0 <= e <= s.len(),
        forall|j: int| e <= j < s.len() ==> s[j] != c,
        e == 0 || s[e - 1] == c,
    ensures
        last_index_of(s, c) == e - 1,
    decreases s.len() - e,
{
    if e < s.len() {
        lemma_last_index(s.drop_last(), c, e);
    }
}

/// The text from the first `{` to the last `}` of `content`, if any.
pub fn extract_json_object(content: &str) -> (r: Option<String>)
    ensures
        match json_object_span(content@) {
            Some(t) => r matches Some(x) && x@ == t,
            None => r is None,
        },
{
    let v = chars_of(content);
    let mut start: usize = 0;
    while start < v.len() && v[start] != '{'
        invariant
            v@ == content@,
            start <= v@.len(),
            forall|j: int| 0 <= j < start ==> v@[j] != '{',
        decreases v@.len() - start,
    {
        start = start + 1;
    }
    proof {
        lemma_first_index(v@, '{', start as int);
    }
    let mut end: usize = v.len();
    while end > 0 && v[end - 1] != '}'
        invariant
            v@ == content@,
            end <= v@.len(),
            forall|j: int| end <= j < v@.len() ==> v@[j] != '}',
        decreases end,
    {
        end = end - 1;
    }
    proof {
        lemma_last_index(v@, '}', end as int);
    }
    if start == v.len() || end == 0 || start >= end - 1 {
        return None;
    }
    Some(string_of_range(&v, start, end))
}

/// The `text` of a structured reply in `content`: parsed as it is, else the
/// `{...}` span inside it parsed, with surrounding whitespace removed.
pub open spec fn payload_spec(content: Seq<char>) -> Result<Seq<char>, Seq<char>> {
    match decode_structured(content) {
        Ok(t) => Ok(trim_ws(t)),
        Err(_) => {
            let second = match json_object_span(content) {
                Some(j) => decode_structured(j),
                None => decode_structured(content),
            };
            match second {
                Ok(t) => Ok(trim_ws(t)),
                Err(e) => Err(e),
            }
        },
    }
}

/// A reply that serde_json reads as an object whose (first) `text` member is
/// the string `t` gives `t` trimmed, whatever other members the object has.
pub proof fn law_payload_of_text_object(
    content: Seq<char>,
    entries: Seq<(Seq<char>, Option<Seq<char>>)>,
    k: int,
    t: Seq<char>,
)
    requires
        json_document(content) == Ok::<JsonDocumentView, Seq<char>>(JsonDocumentView::Object(entries)),
        0 <= k < entries.len(),
        entries[k] == ("text"@, Some(t)),
        forall|j: int| 0 <= j < k ==> (#[trigger] entries[j]).0 != "text"@,
    ensures
        payload_spec(content) == Ok::<Seq<char>, Seq<char>>(trim_ws(t)),
{
    law_structured_reply_reads_the_text_member(entries, k, t);
}

/// The trimmed `text` of the JSON object in `content`: the whole content when
/// it parses, else the part from its first `{` to its last `}`. Read through
/// serde_json's `Value`, so a repeated `text` member counts once (the last).
pub fn parse_structured_rewrite_payload(content: &str) -> (r: Result<String, String>)
    ensures
        match r {
            Ok(t) => payload_spec(content@) == Ok::<Seq<char>, Seq<char>>(t@),
            Err(e) => payload_spec(content@) == Err::<Seq<char>, Seq<char>>(e@),
        },
{
    let second = match decode_structured_exec(content) {
        Ok(t) => {
            return Ok(trim(t.as_str()));
        },
        Err(_) => match extract_json_object(content) {
            Some(json) => decode_structured_exec(json.as_str()),
            None => decode_structured_exec(content),
        },
    };
    match second {
        Ok(t) => Ok(trim(t.as_str())),
        Err(e) => Err(e),
    }
}

// ---------------------------------------------------------------------------
// Diagnostics
// ---------------------------------------------------------------------------

/// A sample of `text` for diagnostics: trimmed, at most 500 characters, with
/// secrets redacted.
pub open spec fn sample_spec(text: Seq<char>) -> Seq<char> {
    redact_spec(take_seq(trim_ws(text), 500))
}

/// The diagnostic suffix `; {label}: {sample}` that debug logging adds.
pub open spec fn text_debug_suffix(label: Seq<char>, text: Seq<char>, debug: bool) -> Seq<char> {
    if !debug {
        Seq::<char>::empty()
    } else if sample_spec(text).len() == 0 {
        "; "@ + label + ": <empty>"@
    } else {
        "; "@ + label + ": "@ + sample_spec(text)
    }
}

/// What `String::from_utf8_lossy` makes of `bytes`.
pub uninterp spec fn utf8_lossy(bytes: Seq<u8>) -> Seq<char>;

/// Decodes `bytes` with `String::from_utf8_lossy`, which replaces each
/// invalid sequence by U+FFFD. The result is stated only as the named
/// decoding of `bytes`.
#[verifier::external_body]
fn decode_utf8_lossy(bytes: &[u8]) -> (r: String)
    ensures
        r@ == utf8_lossy(bytes@),
{
    String::from_utf8_lossy(bytes).into_owned()
}

/// A sample of a response body for diagnostics.
pub open spec fn body_sample_spec(body: Seq<u8>) -> Seq<char> {
    let sample = sample_spec(utf8_lossy(body));
    if sample.len() == 0 {
        "<empty body>"@
    } else {
        sample
    }
}

fn sample_of(text: &str) -> (r: String)
    ensures
        r@ == sample_spec(text@),
{
    let t = trim(text);
    let head = take_chars(t.as_str(), 500);
    redact_sensitive_sample(head.as_str())
}

/// A sample of a response body for diagnostics.
pub fn response_body_sample(body: &[u8]) -> (r: String)
    ensures
        r@ == body_sample_spec(body@),
{
    let text = decode_utf8_lossy(body);
    let sample = sample_of(text.as_str());
    if sample.unicode_len() == 0 {
        owned("<empty body>")
    } else {
        sample
    }
}

/// The diagnostic suffix for `text` under `label`, empty unless debug logging is on.
pub fn provider_text_debug_suffix(label: &str, text: &str, debug_logging: bool) -> (r: String)
    ensures
        r@ == text_debug_suffix(label@, text@, debug_logging),
{
    if !debug_logging {
        return String::new();
    }
    let sample = sample_of(text);
    if sample.unicode_len() == 0 {
        concat3("; ", label, ": <empty>")
    } else {
        let mut r = concat3("; ", label, ": ");
        r.append(sample.as_str());
        r
    }
}

/// The diagnostic suffix for a response body, empty unless debug logging is on.
pub open spec fn body_debug_suffix(body: Seq<u8>, debug: bool) -> Seq<char> {
    if !debug {
        Seq::<char>::empty()
    } else {
        text_debug_suffix("body sample"@, body_sample_spec(body), debug)
    }
}

pub fn provider_body_debug_suffix(body: &[u8], debug_logging: bool) -> (r: String)
    ensures
        r@ == body_debug_suffix(body@, debug_logging),
{
    if !debug_logging {
        return String::new();
    }
    let sample = response_body_sample(body);
    provider_text_debug_suffix("body sample", sample.as_str(), debug_logging)
}

// ---------------------------------------------------------------------------
// Reading a structured reply
// ---------------------------------------------------------------------------

pub struct ProviderCallErrorView {
    pub message: Seq<char>,
    pub retry_plain: bool,
    pub retry_same: bool,
    pub timeout: bool,
    pub invalid_response: bool,
}

impl View for ProviderCallError {
    type V = ProviderCallErrorView;

    open spec fn view(&self) -> ProviderCallErrorView {
        ProviderCallErrorView {
            message: self.message@,
            retry_plain: self.retry_plain,
            retry_same: self.retry_same,
            timeout: self.timeout,
            invalid_response: self.invalid_response,
        }
    }
}

pub open spec fn call_result_view(r: Result<String, ProviderCallError>) -> Result<
    Seq<char>,
    ProviderCallErrorView,
> {
    match r {
        Ok(t) => Ok(t@),
        Err(e) => Err(e@),
    }
}

pub open spec fn call_error(
    message: Seq<char>,
    retry_plain: bool,
    retry_same: bool,
    timeout: bool,
    invalid_response: bool,
) -> ProviderCallErrorView {
    ProviderCallErrorView { message, retry_plain, retry_same, timeout, invalid_response }
}

/// What reading a JSON-mode reply gives: an empty reply may be retried in
/// plain mode; a reply that is no structured rewrite may be too, with the
/// reason (and, with debug logging, a sample) in the message.
pub open spec fn structured_reply_spec(content: Seq<char>, debug: bool) -> Result<
    Seq<char>,
    ProviderCallErrorView,
> {
    let c = trim_ws(content);
    if c.len() == 0 {
        Err(call_error("provider returned empty JSON content"@, true, false, false, true))
    } else {
        match payload_spec(c) {
            Ok(t) => Ok(t),
            Err(e) => Err(
                call_error(
                    "failed to parse rewrite JSON content: "@ + e + text_debug_suffix(
                        "content sample"@,
                        c,
                        debug,
                    ),
                    true,
                    false,
                    false,
                    true,
                ),
            ),
        }
    }
}

/// The rewritten text of a JSON-mode reply, or why it cannot be used.
///
/// The reply is read through serde_json's `Value`: a `text` member given twice
/// counts once (the last one), and the messages for a reply of the wrong shape
/// are this library's own wording, not those of a derived deserializer.
pub fn parse_structured_rewrite(content: &str, debug_logging: bool) -> (r: Result<
    String,
    ProviderCallError,
>)
    ensures
        call_result_view(r) == structured_reply_spec(content@, debug_logging),
{
    let content = trim(content);
    if content.unicode_len() == 0 {
        return Err(
            ProviderCallError {
                message: owned("provider returned empty JSON content"),
                retry_plain: true,
                retry_same: false,
                timeout: false,
                invalid_response: true,
            },
        );
    }
    match parse_structured_rewrite_payload(content.as_str()) {
        Ok(t) => Ok(t),
        Err(error) => {
            let mut message = concat("failed to parse rewrite JSON content: ", error.as_str());
            let suffix = provider_text_debug_suffix(
                "content sample",
                content.as_str(),
                debug_logging,
            );
            message.append(suffix.as_str());
            Err(
                ProviderCallError {
                    message,
                    retry_plain: true,
                    retry_same: false,
                    timeout: false,
                    invalid_response: true,
                },
            )
        },
    }
}

// ---------------------------------------------------------------------------
// Prompts
// ---------------------------------------------------------------------------

pub const SAFE_JSON_INSTRUCTION: &'static str = "You are Shanka Safe Mode. Rewrite the user's selected text to be clear, natural, and grammatically correct while preserving the original meaning, tone, language, formatting, and approximate length. Return only valid json in this exact shape: {\"text\":\"rewritten text\"}. Do not include markdown, comments, or any extra keys.\n\nEXAMPLE INPUT:\n组织校内学术分享、职业规划讲座与跨院交流活动共15场\nEXAMPLE JSON OUTPUT:\n{\"text\":\"组织校内学术分享、职业规划讲座与跨院交流活动共 15 场\"}";

pub const MAGIC_JSON_INSTRUCTION: &'static str = "You are Shanka Magic Mode. Improve the user's selected text more boldly: make it polished, expressive, and contextually useful while preserving the user's intent and language. Return only valid json in this exact shape: {\"text\":\"rewritten text\"}. Do not include markdown, comments, or any extra keys.\n\nEXAMPLE INPUT:\n组织校内学术分享、职业规划讲座与跨院交流活动共15场\nEXAMPLE JSON OUTPUT:\n{\"text\":\"策划并组织校内学术分享、职业规划讲座及跨院交流活动 15 场，促进学生成长与院系协同。\"}";

pub const SAFE_PLAIN_INSTRUCTION: &'static str = "You are Shanka Safe Mode. Rewrite the user's selected text to be clear, natural, and grammatically correct while preserving the original meaning, tone, language, formatting, and approximate length. Return only the rewritten text.";

pub const MAGIC_PLAIN_INSTRUCTION: &'static str = "You are Shanka Magic Mode. Improve the user's selected text more boldly: make it polished, expressive, and contextually useful while preserving the user's intent and language. Return only the rewritten text.";

/// One message of a chat-completion request.
#[derive(Clone, Debug)]
pub struct ChatMessage {
    pub role: &'static str,
    pub content: String,
}

/// The instruction for a mode: a JSON-reply or plain-reply variant.
pub open spec fn base_instruction(mode: SelectionMode, output_mode: OutputMode) -> Seq<char> {
    match (mode, output_mode) {
        (SelectionMode::Safe, OutputMode::Json) => SAFE_JSON_INSTRUCTION@,
        (SelectionMode::Magic, OutputMode::Json) => MAGIC_JSON_INSTRUCTION@,
        (SelectionMode::Safe, OutputMode::Plain) => SAFE_PLAIN_INSTRUCTION@,
        (SelectionMode::Magic, OutputMode::Plain) => MAGIC_PLAIN_INSTRUCTION@,
    }
}

/// The system instruction: the mode's instruction, followed by the persona
/// when there is one.
pub open spec fn instruction_spec(
    mode: SelectionMode,
    persona: Option<crate::persona::ResolvedPersonaView>,
    output_mode: OutputMode,
) -> Seq<char> {
    match persona {
        Some(p) => base_instruction(mode, output_mode) + "\n\nTemporary persona: "@ + p.name
            + ". "@ + p.system_prompt
            + " Apply this persona for this rewrite only, while respecting the mode rules above."@,
        None => base_instruction(mode, output_mode),
    }
}

/// The system instruction of a request names the request's mode, whatever the
/// persona: a Safe Mode instruction begins "You are Shanka Safe Mode." and a
/// Magic Mode one "You are Shanka Magic Mode.". In JSON output mode it asks for
/// the reply shape `{"text":"rewritten text"}`; in plain output mode the mode's
/// instruction ends by asking for the rewritten text alone.
pub proof fn law_instruction_names_mode_and_reply_shape(
    mode: SelectionMode,
    persona: Option<crate::persona::ResolvedPersonaView>,
    output_mode: OutputMode,
)
    ensures
        mode == SelectionMode::Safe ==> occurs_at(
            instruction_spec(mode, persona, output_mode),
            "You are Shanka Safe Mode."@,
            0,
        ),
        mode == SelectionMode::Magic ==> occurs_at(
            instruction_spec(mode, persona, output_mode),
            "You are Shanka Magic Mode."@,
            0,
        ),
        output_mode == OutputMode::Json ==> contains_seq(
            instruction_spec(mode, persona, output_mode),
            "{\"text\":\"rewritten text\"}"@,
        ),
        output_mode == OutputMode::Plain ==> {
            let b = base_instruction(mode, output_mode);
            let tail = "Return only the rewritten text."@;
            b.len() >= tail.len() && occurs_at(b, tail, b.len() - tail.len())
        },
        persona matches Some(p) ==> contains_seq(instruction_spec(mode, persona, output_mode), p.name)
            && contains_seq(instruction_spec(mode, persona, output_mode), p.system_prompt),
{
    let safe = "You are Shanka Safe Mode."@;
    let magic = "You are Shanka Magic Mode."@;
    let shape = "{\"text\":\"rewritten text\"}"@;
    let tail = "Return only the rewritten text."@;
    reveal_strlit("You are Shanka Safe Mode.");
    reveal_strlit("You are Shanka Magic Mode.");
    reveal_strlit("{\"text\":\"rewritten text\"}");
    reveal_strlit("Return only the rewritten text.");
    reveal_strlit("You are Shanka Safe Mode. Rewrite the user's selected text to be clear, natural, and grammatically correct while preserving the original meaning, tone, language, formatting, and approximate length. Return only valid json in this exact shape: {\"text\":\"rewritten text\"}. Do not include markdown, comments, or any extra keys.\n\nEXAMPLE INPUT:\n组织校内学术分享、职业规划讲座与跨院交流活动共15场\nEXAMPLE JSON OUTPUT:\n{\"text\":\"组织校内学术分享、职业规划讲座与跨院交流活动共 15 场\"}");
    reveal_strlit("You are Shanka Magic Mode. Improve the user's selected text more boldly: make it polished, expressive, and contextually useful while preserving the user's intent and language. Return only valid json in this exact shape: {\"text\":\"rewritten text\"}. Do not include markdown, comments, or any extra keys.\n\nEXAMPLE INPUT:\n组织校内学术分享、职业规划讲座与跨院交流活动共15场\nEXAMPLE JSON OUTPUT:\n{\"text\":\"策划并组织校内学术分享、职业规划讲座及跨院交流活动 15 场，促进学生成长与院系协同。\"}");
    reveal_strlit("You are Shanka Safe Mode. Rewrite the user's selected text to be clear, natural, and grammatically correct while preserving the original meaning, tone, language, formatting, and approximate length. Return only the rewritten text.");
    reveal_strlit("You are Shanka Magic Mode. Improve the user's selected text more boldly: make it polished, expressive, and contextually useful while preserving the user's intent and language. Return only the rewritten text.");
    let i = instruction_spec(mode, persona, output_mode);
    let b = base_instruction(mode, output_mode);
    assert(i.subrange(0, b.len() as int) =~= b);
    if let Some(p) = persona {
        let head = "\n\nTemporary persona: "@;
        reveal_strlit("\n\nTemporary persona: ");
        reveal_strlit(". ");
        let at_name: int = (b.len() + head.len()) as int;
        let at_prompt: int = at_name + p.name.len() + 2;
        assert(i.subrange(at_name, at_name + p.name.len()) =~= p.name);
        assert(occurs_at(i, p.name, at_name));
        assert(i.subrange(at_prompt, at_prompt + p.system_prompt.len()) =~= p.system_prompt);
        assert(occurs_at(i, p.system_prompt, at_prompt));
    }
    match (mode, output_mode) {
        (SelectionMode::Safe, OutputMode::Json) => {
            assert(b.subrange(0, 25) =~= safe);
            assert(b.subrange(242, 267) =~= shape);
            assert(i.subrange(0, 25) =~= safe);
            assert(i.subrange(242, 267) =~= shape);
            assert(occurs_at(i, shape, 242));
        },
        (SelectionMode::Magic, OutputMode::Json) => {
            assert(b.subrange(0, 26) =~= magic);
            assert(b.subrange(220, 245) =~= shape);
            assert(i.subrange(0, 26) =~= magic);
            assert(i.subrange(220, 245) =~= shape);
            assert(occurs_at(i, shape, 220));
        },
        (SelectionMode::Safe, OutputMode::Plain) => {
            assert(b.subrange(0, 25) =~= safe);
            assert(i.subrange(0, 25) =~= safe);
            assert(b.subrange(198, 229) =~= tail);
        },
        (SelectionMode::Magic, OutputMode::Plain) => {
            assert(b.subrange(0, 26) =~= magic);
            assert(i.subrange(0, 26) =~= magic);
            assert(b.subrange(176, 207) =~= tail);
        },
    }
}

fn base_instruction_text(mode: SelectionMode, output_mode: OutputMode) -> (r: &'static str)
    ensures
        r@ == base_instruction(mode, output_mode),
{
    match (mode, output_mode) {
        (SelectionMode::Safe, OutputMode::Json) => SAFE_JSON_INSTRUCTION,
        (SelectionMode::Magic, OutputMode::Json) => MAGIC_JSON_INSTRUCTION,
        (SelectionMode::Safe, OutputMode::Plain) => SAFE_PLAIN_INSTRUCTION,
        (SelectionMode::Magic, OutputMode::Plain) => MAGIC_PLAIN_INSTRUCTION,
    }
}

/// The messages of a rewrite request: the instruction as the system message,
/// the text as the user message.
pub fn rewrite_messages(
    mode: SelectionMode,
    persona: Option<ResolvedPersona>,
    text: &str,
    output_mode: OutputMode,
) -> (r: Vec<ChatMessage>)
    ensures
        r@.len() == 2,
        r@[0].role@ == "system"@,
        r@[0].content@ == instruction_spec(
            mode,
            match persona {
                Some(p) => Some(p@),
                None => None,
            },
            output_mode,
        ),
        r@[1].role@ == "user"@,
        r@[1].content@ == text@,
{
    let base = base_instruction_text(mode, output_mode);
    let instruction = match persona {
        Some(persona) => {
            let mut s = concat(base, "\n\nTemporary persona: ");
            s.append(persona.name.as_str());
            s.append(". ");
            s.append(persona.system_prompt.as_str());
            s.append(" Apply this persona for this rewrite only, while respecting the mode rules above.");
            s
        },
        None => owned(base),
    };
    let mut messages: Vec<ChatMessage> = Vec::new();
    messages.push(ChatMessage { role: "system", content: instruction });
    messages.push(ChatMessage { role: "user", content: owned(text) });
    messages
}

// ---------------------------------------------------------------------------
// Providers
// ---------------------------------------------------------------------------

/// The text to rewrite, the mode and the persona to apply.
pub struct RewriteRequest<'a> {
    pub text: &'a str,
    pub mode: SelectionMode,
    pub persona: Option<ResolvedPersona>,
}

/// A rewrite and the provider that made it.
#[derive(Debug)]
pub struct RewriteResponse {
    pub text: String,
    pub provider: &'static str,
    pub duration: std::time::Duration,
}

/// A service that rewrites text.
pub trait RewriteProvider {
    fn name(&self) -> &'static str;

    fn rewrite(&self, request: RewriteRequest<'_>) -> Result<RewriteResponse, RewriteError>;
}

/// `std::time::Instant`.
#[verifier::external_type_specification]
#[verifier::external_body]
pub struct ExInstant(std::time::Instant);

/// The current time, from `Instant::now`; nothing is stated of it.
#[verifier::external_body]
fn instant_now() -> std::time::Instant {
    std::time::Instant::now()
}

/// The time since `start`, from `Instant::elapsed`; nothing is stated of it.
#[verifier::external_body]
fn elapsed_since(start: &std::time::Instant) -> std::time::Duration {
    start.elapsed()
}

/// What the offline rewrite gives: the normalized text under a
/// `[Shanka Safe Mock / persona]` or `[Shanka Magic Mock / persona]` header,
/// or `None` when the normalized text is empty.
pub open spec fn mock_rewrite_spec(mode: SelectionMode, persona_name: Option<Seq<char>>, text: Seq<
    char,
>) -> Option<Seq<char>> {
    let normalized = normalize_text_spec(text);
    let label = match mode {
        SelectionMode::Safe => "Shanka Safe Mock"@,
        SelectionMode::Magic => "Shanka Magic Mock"@,
    };
    let persona_label = match persona_name {
        Some(n) => " / "@ + n,
        None => Seq::<char>::empty(),
    };
    if normalized.len() == 0 {
        None
    } else {
        Some("["@ + label + persona_label + "]\n"@ + normalized)
    }
}

/// The offline rewrite text.
pub fn mock_rewrite_text(mode: SelectionMode, persona: &Option<ResolvedPersona>, text: &str) -> (r:
    Result<String, RewriteError>)
    ensures
        match mock_rewrite_spec(
            mode,
            match persona {
                Some(p) => Some(p.name@),
                None => None,
            },
            text@,
        ) {
            Some(t) => r matches Ok(x) && x@ == t,
            None => r matches Err(RewriteError::EmptyInput),
        },
{
    let normalized = normalize_text(text);
    if normalized.unicode_len() == 0 {
        return Err(RewriteError::EmptyInput);
    }
    let label = match mode {
        SelectionMode::Safe => "Shanka Safe Mock",
        SelectionMode::Magic => "Shanka Magic Mock",
    };
    let mut out = concat("[", label);
    match persona {
        Some(p) => {
            out.append(" / ");
            out.append(p.name.as_str());
        },
        None => {},
    }
    out.append("]\n");
    out.append(normalized.as_str());
    Ok(out)
}

/// The offline provider used when no remote provider is configured.
pub struct MockRewriteProvider;

impl RewriteProvider for MockRewriteProvider {
    fn name(&self) -> (r: &'static str)
        ensures
            r@ == "mock-rewrite"@,
    {
        "mock-rewrite"
    }

    fn rewrite(&self, request: RewriteRequest<'_>) -> (r: Result<RewriteResponse, RewriteError>)
        ensures
            match mock_rewrite_spec(
                request.mode,
                match request.persona {
                    Some(p) => Some(p.name@),
                    None => None,
                },
                request.text@,
            ) {
                Some(t) => r matches Ok(x) && x.text@ == t && x.provider@ == "mock-rewrite"@,
                None => r matches Err(RewriteError::EmptyInput),
            },
    {
        let started_at = instant_now();
        let text = mock_rewrite_text(request.mode, &request.persona, request.text)?;
        Ok(RewriteResponse { text, provider: self.name(), duration: elapsed_since(&started_at) })
    }
}

/// The text a remote rewrite sends: the normalized selection, or the empty
/// input error when nothing is left of it.
pub fn remote_rewrite_input(text: &str) -> (r: Result<String, RewriteError>)
    ensures
        normalize_text_spec(text@).len() == 0 ==> r matches Err(RewriteError::EmptyInput),
        normalize_text_spec(text@).len() > 0 ==> (r matches Ok(t) && t@ == normalize_text_spec(
            text@,
        )),
{
    let input = normalize_text(text);
    if input.unicode_len() == 0 {
        return Err(RewriteError::EmptyInput);
    }
    Ok(input)
}

// ---------------------------------------------------------------------------
// Talking to an OpenAI-compatible provider: the decisions around each call
// ---------------------------------------------------------------------------

/// The chat-completions endpoint under a base URL.
pub fn chat_completions_endpoint(base_url: &str) -> (r: String)
    ensures
        r@ == crate::text::trim_end_seq(base_url@, CharClass::Slash) + "/chat/completions"@,
{
    let base = crate::text::trim_end_class(base_url, CharClass::Slash);
    concat(base.as_str(), "/chat/completions")
}

/// A failure to build the HTTP client.
pub fn client_build_failure(error: &str) -> (r: ProviderCallError)
    ensures
        r@ == call_error("failed to create HTTP client: "@ + error@, false, false, false, false),
{
    ProviderCallError::remote(concat("failed to create HTTP client: ", error))
}

/// A failure to send the request: a timeout, or a network error that may be retried.
pub fn send_failure(is_timeout: bool, error: &str) -> (r: ProviderCallError)
    ensures
        is_timeout ==> r@ == call_error("request timed out"@, false, false, true, false),
        !is_timeout ==> r@ == call_error("request failed: "@ + error@, false, true, false, false),
{
    if is_timeout {
        ProviderCallError::timeout()
    } else {
        ProviderCallError::retryable_remote(concat("request failed: ", error))
    }
}

/// A failure to read the response body, which may be retried.
pub fn body_read_failure(error: &str) -> (r: ProviderCallError)
    ensures
        r@ == call_error(
            "failed to read provider response body: "@ + error@,
            false,
            true,
            false,
            false,
        ),
{
    ProviderCallError::retryable_remote(concat("failed to read provider response body: ", error))
}

/// Whether an HTTP status code means success.
pub open spec fn success_status(status: u16) -> bool {
    200 <= status <= 299
}

/// What a chat-completion reply gives. `status_text` is how the status is
/// displayed; `content` is the first choice's message content as the body
/// parsed (`Ok(None)` when it has none) or the parse error's text.
pub open spec fn completion_spec(
    output_mode: OutputMode,
    status: u16,
    status_text: Seq<char>,
    body: Seq<u8>,
    content: Result<Option<Seq<char>>, Seq<char>>,
    debug: bool,
) -> Result<Seq<char>, ProviderCallErrorView> {
    if !success_status(status) {
        let sample = body_sample_spec(body);
        Err(
            call_error(
                "provider returned HTTP "@ + status_text + text_debug_suffix(
                    "body sample"@,
                    sample,
                    debug,
                ),
                output_mode == OutputMode::Json && format_may_be_unsupported(status, sample),
                transient_status(status),
                false,
                false,
            ),
        )
    } else {
        match content {
            Err(e) => Err(
                call_error(
                    "failed to parse provider response JSON: "@ + e + body_debug_suffix(
                        body,
                        debug,
                    ),
                    false,
                    true,
                    false,
                    true,
                ),
            ),
            Ok(c) => {
                let output = match c {
                    Some(t) => trim_ws(t),
                    None => Seq::<char>::empty(),
                };
                let parsed = match output_mode {
                    OutputMode::Json => structured_reply_spec(output, debug),
                    OutputMode::Plain => Ok(output),
                };
                match parsed {
                    Err(e) => Err(e),
                    Ok(o) => if trim_ws(o).len() == 0 {
                        Err(
                            call_error(
                                "provider returned an empty rewrite"@,
                                output_mode == OutputMode::Json,
                                output_mode == OutputMode::Plain,
                                false,
                                true,
                            ),
                        )
                    } else {
                        Ok(o)
                    },
                }
            },
        }
    }
}

pub open spec fn opt_string_result_view(r: Result<Option<String>, String>) -> Result<
    Option<Seq<char>>,
    Seq<char>,
> {
    match r {
        Ok(Some(t)) => Ok(Some(t@)),
        Ok(None) => Ok(None),
        Err(e) => Err(e@),
    }
}

/// Without debug logging no sample of a reply or a response body is added to
/// an error message; with it, the sample shown has every API key redacted.
pub proof fn law_logs_hide_samples_and_keys(label: Seq<char>, text: Seq<char>, body: Seq<u8>)
    ensures
        text_debug_suffix(label, text, false) == Seq::<char>::empty(),
        body_debug_suffix(body, false) == Seq::<char>::empty(),
        !contains_seq(sample_spec(text), "sk-"@),
        !contains_seq(body_sample_spec(body), "sk-"@) || body_sample_spec(body) == "<empty body>"@,
{
    law_redaction_leaves_no_key_prefix(take_seq(trim_ws(text), 500), 0);
    law_redaction_leaves_no_key_prefix(take_seq(trim_ws(utf8_lossy(body)), 500), 0);
}

/// The outcome of a chat-completion call from its reply.
pub fn completion_result(
    output_mode: OutputMode,
    status: u16,
    status_text: &str,
    body: &[u8],
    content: Result<Option<String>, String>,
    debug_logging: bool,
) -> (r: Result<String, ProviderCallError>)
    ensures
        call_result_view(r) == completion_spec(
            output_mode,
            status,
            status_text@,
            body@,
            opt_string_result_view(content),
            debug_logging,
        ),
{
    if !(200 <= status && status <= 299) {
        let sample = response_body_sample(body);
        let mut message = concat("provider returned HTTP ", status_text);
        let suffix = provider_text_debug_suffix("body sample", sample.as_str(), debug_logging);
        message.append(suffix.as_str());
        let retry_plain = output_mode == OutputMode::Json && response_format_may_be_unsupported(
            status,
            sample.as_str(),
        );
        return Err(
            ProviderCallError {
                message,
                retry_plain,
                retry_same: response_status_is_transient(status),
                timeout: false,
                invalid_response: false,
            },
        );
    }
    let content = match content {
        Err(e) => {
            let mut message = concat("failed to parse provider response JSON: ", e.as_str());
            let suffix = provider_body_debug_suffix(body, debug_logging);
            message.append(suffix.as_str());
            return Err(ProviderCallError::retryable_invalid_response(message));
        },
        Ok(c) => c,
    };
    let output = match content {
        Some(t) => trim(t.as_str()),
        None => String::new(),
    };
    let output = match output_mode {
        OutputMode::Json => parse_structured_rewrite(output.as_str(), debug_logging)?,
        OutputMode::Plain => output,
    };
    if is_blank(output.as_str()) {
        return Err(
            ProviderCallError {
                message: owned("provider returned an empty rewrite"),
                retry_plain: output_mode == OutputMode::Json,
                retry_same: output_mode == OutputMode::Plain,
                timeout: false,
                invalid_response: true,
            },
        );
    }
    Ok(output)
}

/// Whether a failed attempt is made again in the same mode: when it may be
/// retried, is no timeout, does not call for plain mode, and attempts remain.
pub fn should_retry_same(error: &ProviderCallError, attempt: u32, max_attempts: u32) -> (r: bool)
    ensures
        r == (error.retry_same && !error.timeout && attempt < max_attempts && !error.retry_plain),
{
    error.retry_same && !error.timeout && attempt < max_attempts && !error.retry_plain
}

/// The `response_format` type a request asks for: a JSON object in JSON mode,
/// none in plain mode.
pub fn response_format_kind(output_mode: OutputMode) -> (r: Option<&'static str>)
    ensures
        r is Some <==> output_mode == OutputMode::Json,
        r matches Some(k) ==> k@ == "json_object"@,
{
    match output_mode {
        OutputMode::Json => Some("json_object"),
        OutputMode::Plain => None,
    }
}

/// The reply budget of a connection test.
pub const CONNECTION_TEST_MAX_TOKENS: u32 = 8;

/// The messages of a connection test: a system message asking for `OK` and
/// the user message `ping`.
pub fn connection_test_messages() -> (r: Vec<ChatMessage>)
    ensures
        r@.len() == 2,
        r@[0].role@ == "system"@,
        r@[0].content@ == "Reply with OK."@,
        r@[1].role@ == "user"@,
        r@[1].content@ == "ping"@,
{
    let mut messages: Vec<ChatMessage> = Vec::new();
    messages.push(ChatMessage { role: "system", content: owned("Reply with OK.") });
    messages.push(ChatMessage { role: "user", content: owned("ping") });
    messages
}

/// How many times a chat completion is tried in one output mode.
pub const MAX_COMPLETION_ATTEMPTS: u32 = 2;

/// How long to wait before trying a chat completion again, in milliseconds.
pub const COMPLETION_RETRY_DELAY_MS: u64 = 180;

/// After completion attempt `attempt` (counted from 1) in one output mode: its
/// outcome when it stands (`Some`), or `None` to try again after the delay.
pub fn after_completion_attempt(attempt: u32, outcome: Result<String, ProviderCallError>) -> (r: Option<
    Result<String, ProviderCallError>,
>)
    ensures
        match outcome {
            Ok(t) => r == Some(Ok::<String, ProviderCallError>(t)),
            Err(e) => if e.retry_same && !e.timeout && attempt < MAX_COMPLETION_ATTEMPTS
                && !e.retry_plain {
                r is None
            } else {
                r == Some(Err::<String, ProviderCallError>(e))
            },
        },
{
    match outcome {
        Ok(t) => Some(Ok(t)),
        Err(e) => {
            if should_retry_same(&e, attempt, MAX_COMPLETION_ATTEMPTS) {
                None
            } else {
                Some(Err(e))
            }
        },
    }
}

/// What follows a JSON-mode call.
#[derive(Debug)]
pub enum JsonFallbackStep {
    /// The rewrite is done, with this outcome.
    Finished(Result<String, RewriteError>),
    /// The call is made again in plain mode.
    RetryPlain,
}

/// What follows a JSON-mode call: its text when it succeeded; a timeout error
/// on a timeout; a plain-mode call when the failure calls for one; else the
/// failure as a rewrite error.
pub fn after_json_attempt(outcome: Result<String, ProviderCallError>) -> (r: JsonFallbackStep)
    ensures
        match outcome {
            Ok(t) => r == JsonFallbackStep::Finished(Ok(t)),
            Err(e) => if e.timeout {
                r == JsonFallbackStep::Finished(Err(RewriteError::Timeout))
            } else if e.retry_plain {
                r == JsonFallbackStep::RetryPlain
            } else if e.invalid_response {
                r == JsonFallbackStep::Finished(Err(RewriteError::InvalidResponse(e.message)))
            } else {
                r == JsonFallbackStep::Finished(Err(RewriteError::Remote(e.message)))
            },
        },
{
    match outcome {
        Ok(output) => JsonFallbackStep::Finished(Ok(output)),
        Err(error) => {
            if error.timeout {
                JsonFallbackStep::Finished(Err(RewriteError::Timeout))
            } else if error.retry_plain {
                JsonFallbackStep::RetryPlain
            } else {
                JsonFallbackStep::Finished(Err(error.into_rewrite_error()))
            }
        },
    }
}

/// The settings check before a connection test: the API key, base URL and
/// model must all be given.
pub fn check_connection_settings(settings: &AppSettingsConfig) -> (r: Result<(), RewriteError>)
    ensures
        crate::config::remote_provider_usable(settings@) ==> r is Ok,
        !crate::config::remote_provider_usable(settings@) ==> (r matches Err(
            RewriteError::Config(m),
        ) && m@ == "api_key, base_url, and model are required"@),
{
    if !settings.can_use_remote_provider() {
        return Err(RewriteError::Config(owned("api_key, base_url, and model are required")));
    }
    Ok(())
}

/// A connection test that could not reach the provider.
pub fn connection_send_failure(is_timeout: bool, error: &str) -> (r: RewriteError)
    ensures
        is_timeout ==> r == RewriteError::Timeout,
        !is_timeout ==> (r matches RewriteError::Remote(m) && m@ == "PROVIDER_TEST_NETWORK: "@
            + error@),
{
    if is_timeout {
        RewriteError::Timeout
    } else {
        RewriteError::Remote(concat("PROVIDER_TEST_NETWORK: ", error))
    }
}

/// A connection test whose response body could not be read.
pub fn connection_body_failure(error: &str) -> (r: RewriteError)
    ensures
        r matches RewriteError::Remote(m) && m@ == "PROVIDER_TEST_REMOTE: failed to read response: "@
            + error@,
{
    RewriteError::Remote(concat("PROVIDER_TEST_REMOTE: failed to read response: ", error))
}

/// The outcome of a connection test from the reply: success, or a remote
/// error whose message starts with the failure category.
pub fn connection_test_result(status: u16, body: &[u8], debug_logging: bool) -> (r: Result<
    (),
    RewriteError,
>)
    ensures
        success_status(status) ==> r is Ok,
        !success_status(status) ==> (r matches Err(RewriteError::Remote(m)) && m@
            == test_error_category(status, body_sample_spec(body@)) + text_debug_suffix(
            "body sample"@,
            body_sample_spec(body@),
            debug_logging,
        )),
{
    if 200 <= status && status <= 299 {
        return Ok(());
    }
    let body_sample = response_body_sample(body);
    let category = provider_test_error_category(status, body_sample.as_str());
    let suffix = provider_text_debug_suffix("body sample", body_sample.as_str(), debug_logging);
    Err(RewriteError::Remote(concat(category, suffix.as_str())))
}

/// The reply budget is half the text's length in characters, never below
/// 256 tokens and never above 4096: a text of fewer than 512 characters gets
/// 256, one of 8194 characters or more (up to any count the budget can
/// express) gets 4096, and a longer text never gets less than a shorter one.
pub proof fn law_reply_budget(n: nat, m: nat)
    ensures
        n < 512 ==> max_tokens_spec(n) == 256,
        512 <= n < 8194 ==> max_tokens_spec(n) == n / 2,
        8194 <= n <= 8_589_934_591 ==> max_tokens_spec(n) == 4096,
        n <= m <= 8_589_934_591 ==> max_tokens_spec(n) <= max_tokens_spec(m),
        n <= 8_589_934_591 ==> 256 <= max_tokens_spec(n) <= 4096,
{
    assert(n <= 8_589_934_591 ==> n / 2 <= 4_294_967_295);
    assert(m <= 8_589_934_591 ==> m / 2 <= 4_294_967_295);
    assert(n <= m ==> n / 2 <= m / 2) by (nonlinear_arith);
}

/// The object span of a reply runs from its first `{` to its last `}`: when
/// `a` is the first `{` and `b` the last `}` and `a < b`, the span is the text
/// from `a` to `b`; a reply without `{` or without `}` has none.
pub proof fn law_object_span(s: Seq<char>, a: int, b: int)
    ensures
        0 <= a < b < s.len() && s[a] == '{' && s[b] == '}' && (forall|i: int|
            0 <= i < a ==> s[i] != '{') && (forall|i: int| b < i < s.len() ==> s[i] != '}')
            ==> json_object_span(s) == Some(s.subrange(a, b + 1)),
        (forall|i: int| 0 <= i < s.len() ==> s[i] != '{') ==> json_object_span(s) is None,
        (forall|i: int| 0 <= i < s.len() ==> s[i] != '}') ==> json_object_span(s) is None,
{
    if 0 <= a < b < s.len() && s[a] == '{' && s[b] == '}' && (forall|i: int|
        0 <= i < a ==> s[i] != '{') && (forall|i: int| b < i < s.len() ==> s[i] != '}') {
        lemma_first_index(s, '{', a);
        lemma_last_index(s, '}', b + 1);
    }
    if forall|i: int| 0 <= i < s.len() ==> s[i] != '{' {
        lemma_first_index(s, '{', s.len() as int);
    }
    if forall|i: int| 0 <= i < s.len() ==> s[i] != '}' {
        lemma_last_index(s, '}', 0);
    }
}

/// What a provider reply gives. A status outside 200..=299 is an error, never
/// a timeout, that may be sent again in the same mode exactly when the status
/// is transient (408, 409, 425, 429, 500, 502, 503, 504). A successful reply in
/// plain mode gives its content without surrounding whitespace when that is
/// not empty; an empty one is an invalid reply that may be sent again in
/// plain mode.
pub proof fn law_completion_outcome(
    output_mode: OutputMode,
    status: u16,
    status_text: Seq<char>,
    body: Seq<u8>,
    content: Result<Option<Seq<char>>, Seq<char>>,
    debug: bool,
)
    ensures
        !(200 <= status <= 299) ==> (completion_spec(output_mode, status, status_text, body, content, debug) matches Err(e)
            && !e.timeout && e.retry_same == (status == 408 || status == 409 || status == 425
            || status == 429 || status == 500 || status == 502 || status == 503 || status == 504)),
        200 <= status <= 299 && output_mode == OutputMode::Plain ==> match content {
            Ok(Some(t)) => if trim_ws(t).len() > 0 {
                completion_spec(output_mode, status, status_text, body, content, debug)
                    == Ok::<Seq<char>, ProviderCallErrorView>(trim_ws(t))
            } else {
                (completion_spec(output_mode, status, status_text, body, content, debug) matches Err(e)
                    && e.retry_same && !e.retry_plain && e.invalid_response)
            },
            Ok(None) => (completion_spec(output_mode, status, status_text, body, content, debug) matches Err(e)
                && e.invalid_response),
            Err(_) => (completion_spec(output_mode, status, status_text, body, content, debug) matches Err(e)
                && e.retry_same && e.invalid_response),
        },
{
    if let Ok(Some(t)) = content {
        crate::text::lemma_trim_idempotent(t, CharClass::Whitespace);
    }
    assert(trim_ws(Seq::<char>::empty()).len() == 0);
}

/// In JSON mode, a successful reply whose content is not blank and which
/// serde_json reads (once surrounding whitespace is removed) as an object whose first `text` member
/// is the string `t` gives `t` without surrounding whitespace, whatever other
/// members the object has, when that is not empty.
pub proof fn law_json_completion_gives_text_member(
    status: u16,
    status_text: Seq<char>,
    body: Seq<u8>,
    raw: Seq<char>,
    entries: Seq<(Seq<char>, Option<Seq<char>>)>,
    k: int,
    t: Seq<char>,
    debug: bool,
)
    requires
        200 <= status <= 299,
        json_document(trim_ws(raw)) == Ok::<JsonDocumentView, Seq<char>>(JsonDocumentView::Object(entries)),
        0 <= k < entries.len(),
        entries[k] == ("text"@, Some(t)),
        forall|j: int| 0 <= j < k ==> (#[trigger] entries[j]).0 != "text"@,
        trim_ws(raw).len() > 0,
        trim_ws(t).len() > 0,
    ensures
        completion_spec(OutputMode::Json, status, status_text, body, Ok(Some(raw)), debug)
            == Ok::<Seq<char>, ProviderCallErrorView>(trim_ws(t)),
{
    crate::text::lemma_trim_idempotent(raw, CharClass::Whitespace);
    crate::text::lemma_trim_idempotent(t, CharClass::Whitespace);
    law_payload_of_text_object(trim_ws(raw), entries, k, t);
    assert(structured_reply_spec(trim_ws(raw), debug) == Ok::<Seq<char>, ProviderCallErrorView>(
        trim_ws(t),
    ));
}

} // verus!
