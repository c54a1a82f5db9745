use writingagent::reply::{
    interpret_reply, stream_chunks, ApiError, Candidate, Content, GeminiError, GeminiResponse,
    Part, PromptFeedback,
};

fn s(x: &str) -> String {
    x.to_string()
}

fn candidate(texts: &[Option<&str>], finish: Option<&str>) -> Candidate {
    Candidate {
        content: Some(Content {
            parts: Some(texts.iter().map(|t| Part { text: t.map(|x| x.to_string()) }).collect()),
        }),
        finish_reason: finish.map(|x| x.to_string()),
    }
}

fn reply(cands: Option<Vec<Candidate>>) -> GeminiResponse {
    GeminiResponse { candidates: cands, prompt_feedback: None, error: None }
}

fn envelope(code: Option<i64>, message: Option<&str>, status: Option<&str>) -> GeminiResponse {
    GeminiResponse {
        candidates: None,
        prompt_feedback: None,
        error: Some(ApiError {
            code,
            message: message.map(s),
            status: status.map(s),
        }),
    }
}

fn err_text(r: Result<String, GeminiError>) -> String {
    match r {
        Err(e) => e.message(),
        Ok(t) => panic!("expected an error, got {t}"),
    }
}

#[test]
fn answer_joins_all_candidate_parts() {
    let parsed = Ok(reply(Some(vec![
        candidate(&[Some("Hello"), None, Some(", ")], Some("STOP")),
        candidate(&[Some("world")], None),
    ])));
    let r = interpret_reply(200, &s("{}"), &parsed, &s("m"));
    assert_eq!(r.ok().unwrap(), "Hello, world");
}

#[test]
fn blocked_prompt_is_reported() {
    let parsed = Ok(GeminiResponse {
        candidates: Some(vec![candidate(&[Some("x")], None)]),
        prompt_feedback: Some(PromptFeedback { block_reason: Some(s("SAFETY")) }),
        error: None,
    });
    let r = interpret_reply(200, &s("{}"), &parsed, &s("m"));
    assert_eq!(err_text(r), "Prompt blocked by safety filter: SAFETY");
}

#[test]
fn feedback_without_reason_is_not_a_block() {
    let parsed = Ok(GeminiResponse {
        candidates: Some(vec![candidate(&[Some("ok")], None)]),
        prompt_feedback: Some(PromptFeedback { block_reason: None }),
        error: None,
    });
    assert_eq!(interpret_reply(200, &s("{}"), &parsed, &s("m")).ok().unwrap(), "ok");
}

#[test]
fn missing_or_empty_candidates() {
    let r = interpret_reply(200, &s("{}"), &Ok(reply(None)), &s("m"));
    assert_eq!(err_text(r), "Gemini returned no candidates");
    let r = interpret_reply(200, &s("{}"), &Ok(reply(Some(vec![]))), &s("m"));
    assert!(matches!(r, Err(GeminiError::NoCandidates)));
}

#[test]
fn empty_text_names_an_unusual_finish_reason() {
    let parsed = Ok(reply(Some(vec![
        candidate(&[None], Some("RECITATION")),
        candidate(&[], Some("SAFETY")),
        candidate(&[], Some("MAX_TOKENS")),
    ])));
    let r = interpret_reply(200, &s("{}"), &parsed, &s("m"));
    assert_eq!(
        err_text(r),
        "Empty response (finishReason: SAFETY). Try rephrasing or use a different model."
    );
}

#[test]
fn empty_text_with_normal_stop() {
    let parsed = Ok(reply(Some(vec![candidate(&[Some("")], Some("STOP"))])));
    let r = interpret_reply(200, &s("{}"), &parsed, &s("m"));
    assert_eq!(err_text(r), "Empty response from Gemini");
}

#[test]
fn unreadable_success_body() {
    let r = interpret_reply(200, &s("<html>"), &Err(s("expected value at line 1 column 1")), &s("m"));
    assert_eq!(
        err_text(r),
        "could not parse Gemini response: expected value at line 1 column 1\nraw: <html>"
    );
}

#[test]
fn rate_limit_by_code_or_status() {
    let r = interpret_reply(429, &s("raw"), &Ok(envelope(Some(429), Some("quota"), None)), &s(" gemini-2.5-pro "));
    assert_eq!(
        err_text(r),
        "Rate limit (429). Free-tier  gemini-2.5-pro  is heavily throttled \u{2014} wait a minute or switch to gemini-2.5-flash."
    );
    let r = interpret_reply(500, &s("raw"), &Ok(envelope(Some(500), None, Some("RESOURCE_EXHAUSTED"))), &s("x"));
    assert!(matches!(r, Err(GeminiError::RateLimited { .. })));
    let r = interpret_reply(429, &s("raw"), &Ok(envelope(None, None, None)), &s("x"));
    assert!(matches!(r, Err(GeminiError::RateLimited { .. })));
}

#[test]
fn model_not_found() {
    let r = interpret_reply(404, &s("raw"), &Ok(envelope(Some(404), Some("nope"), Some("NOT_FOUND"))), &s("gemini-9"));
    assert_eq!(err_text(r), "Model 'gemini-9' not found. Try gemini-2.5-flash or gemini-2.5-pro.");
}

#[test]
fn bad_request_uses_message_or_raw_body() {
    let r = interpret_reply(400, &s("raw body"), &Ok(envelope(Some(400), Some("invalid arg"), None)), &s("m"));
    assert_eq!(err_text(r), "Bad request: invalid arg");
    let r = interpret_reply(400, &s("raw body"), &Ok(envelope(None, None, Some("INVALID_ARGUMENT"))), &s("m"));
    assert_eq!(err_text(r), "Bad request: raw body");
}

#[test]
fn auth_failures() {
    let r = interpret_reply(401, &s("r"), &Ok(envelope(Some(401), None, None)), &s("m"));
    assert_eq!(err_text(r), "Auth failed (401). Check your API key in Settings.");
    let r = interpret_reply(403, &s("r"), &Ok(envelope(None, Some("denied"), Some("PERMISSION_DENIED"))), &s("m"));
    assert_eq!(err_text(r), "Auth failed (403). Check your API key in Settings.");
}

#[test]
fn other_envelope_errors() {
    let r = interpret_reply(500, &s("r"), &Ok(envelope(Some(500), Some("boom"), Some("INTERNAL"))), &s("m"));
    assert_eq!(err_text(r), "Gemini error 500 INTERNAL: boom");
    let r = interpret_reply(503, &s("r"), &Ok(envelope(Some(-7), None, None)), &s("m"));
    assert_eq!(err_text(r), "Gemini error -7 : r");
}

#[test]
fn http_error_without_envelope() {
    let r = interpret_reply(503, &s("upstream down"), &Ok(reply(None)), &s("m"));
    assert_eq!(err_text(r), "Gemini HTTP 503 Service Unavailable: upstream down");
    let r = interpret_reply(502, &s("x"), &Err(s("bad json")), &s("m"));
    assert_eq!(err_text(r), "Gemini HTTP 502 Bad Gateway: x");
    let r = interpret_reply(599, &s("y"), &Err(s("bad json")), &s("m"));
    assert_eq!(err_text(r), "Gemini HTTP 599 <unknown status code>: y");
}

#[test]
fn error_status_wins_over_candidates() {
    let parsed = Ok(GeminiResponse {
        candidates: Some(vec![candidate(&[Some("text")], None)]),
        prompt_feedback: None,
        error: None,
    });
    let r = interpret_reply(500, &s("oops"), &parsed, &s("m"));
    assert_eq!(err_text(r), "Gemini HTTP 500 Internal Server Error: oops");
}

#[test]
fn short_answer_chunks_of_eight() {
    let chunks = stream_chunks(&s("req-1"), &s("abcdefghij"));
    let texts: Vec<&str> = chunks.iter().map(|c| c.text.as_str()).collect();
    assert_eq!(texts, vec!["abcdefgh", "ij"]);
    assert!(chunks.iter().all(|c| c.request_id == "req-1"));
}

#[test]
fn long_answer_chunks_of_a_thirtieth() {
    let full: String = "x".repeat(300);
    let chunks = stream_chunks(&s("r"), &full);
    assert_eq!(chunks.len(), 30);
    assert!(chunks.iter().all(|c| c.text.chars().count() == 10));
}

#[test]
fn chunks_rebuild_the_answer() {
    let full = "fn main() {\n    println!(\"h\u{e9}llo \u{1F600}\");\n}\nThis prints a greeting.".to_string();
    let chunks = stream_chunks(&s("r"), &full);
    let joined: String = chunks.iter().map(|c| c.text.as_str()).collect();
    assert_eq!(joined, full);
    let size = std::cmp::max(full.chars().count() / 30, 8);
    assert!(chunks.iter().all(|c| {
        let n = c.text.chars().count();
        n > 0 && n <= size
    }));
}

#[test]
fn empty_answer_has_no_chunks() {
    assert!(stream_chunks(&s("r"), &String::new()).is_empty());
}
