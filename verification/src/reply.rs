//! Reading Gemini's reply: the error envelope, safety blocks, the candidates'
//! text, the error messages shown to the user, and the chunks in which an
//! answer is shown.

use vstd::prelude::*;
use crate::text::{chars_of, decimal, push_decimal_i64, push_decimal_u64, same_text, string_of};
use crate::gemini::StreamChunkPayload;

verus! {

/// Google's error envelope.
pub struct ApiError {
    pub code: Option<i64>,
    pub message: Option<String>,
    pub status: Option<String>,
}

/// Why a prompt was refused, if it was.
pub struct PromptFeedback {
    pub block_reason: Option<String>,
}

/// One text part of a candidate.
pub struct Part {
    pub text: Option<String>,
}

/// A candidate's content.
pub struct Content {
    pub parts: Option<Vec<Part>>,
}

/// One candidate answer.
pub struct Candidate {
    pub content: Option<Content>,
    pub finish_reason: Option<String>,
}

/// A `generateContent` reply body, as far as it is read.
pub struct GeminiResponse {
    pub candidates: Option<Vec<Candidate>>,
    pub prompt_feedback: Option<PromptFeedback>,
    pub error: Option<ApiError>,
}

/// What can go wrong when asking Gemini.
pub enum GeminiError {
    /// The API key is blank.
    MissingApiKey,
    /// The service reported 429 or `RESOURCE_EXHAUSTED`.
    RateLimited { model: String },
    /// The service reported 404 or `NOT_FOUND`.
    ModelNotFound { model: String },
    /// The service reported 400.
    BadRequest { message: String },
    /// The service reported 401 or 403.
    AuthFailed { code: i64 },
    /// Any other error the service reported in its envelope.
    Api { code: i64, status: String, message: String },
    /// A failed HTTP status without a readable envelope.
    Http { http_status: u16, body: String },
    /// A successful status whose body could not be read.
    Unparseable { detail: String, body: String },
    /// The safety filter refused the prompt.
    PromptBlocked { reason: String },
    /// The reply held no candidate.
    NoCandidates,
    /// The candidates held no text, and one stopped for an unusual reason.
    EmptyWithReason { reason: String },
    /// The candidates held no text.
    Empty,
}

/// `GeminiError` with its strings taken as character sequences.
pub enum ErrorModel {
    MissingApiKey,
    RateLimited(Seq<char>),
    ModelNotFound(Seq<char>),
    BadRequest(Seq<char>),
    AuthFailed(int),
    Api(int, Seq<char>, Seq<char>),
    Http(u16, Seq<char>),
    Unparseable(Seq<char>, Seq<char>),
    PromptBlocked(Seq<char>),
    NoCandidates,
    EmptyWithReason(Seq<char>),
    Empty,
}

impl GeminiError {
    pub open spec fn model(self) -> ErrorModel {
        match self {
            GeminiError::MissingApiKey => ErrorModel::MissingApiKey,
            GeminiError::RateLimited { model } => ErrorModel::RateLimited(model@),
            GeminiError::ModelNotFound { model } => ErrorModel::ModelNotFound(model@),
            GeminiError::BadRequest { message } => ErrorModel::BadRequest(message@),
            GeminiError::AuthFailed { code } => ErrorModel::AuthFailed(code as int),
            GeminiError::Api { code, status, message } => ErrorModel::Api(
                code as int,
                status@,
                message@,
            ),
            GeminiError::Http { http_status, body } => ErrorModel::Http(http_status, body@),
            GeminiError::Unparseable { detail, body } => ErrorModel::Unparseable(detail@, body@),
            GeminiError::PromptBlocked { reason } => ErrorModel::PromptBlocked(reason@),
            GeminiError::NoCandidates => ErrorModel::NoCandidates,
            GeminiError::EmptyWithReason { reason } => ErrorModel::EmptyWithReason(reason@),
            GeminiError::Empty => ErrorModel::Empty,
        }
    }
}

/// The reason phrase that the HTTP status registry gives a status code.
pub uninterp spec fn canonical_reason(code: u16) -> Option<Seq<char>>;

/// The registered reason phrase of an HTTP status code, if it has one.
#[verifier::external_body]
fn status_reason(code: u16) -> (r: Option<String>)
    ensures
        r.deep_view() == canonical_reason(code),
{
    match reqwest::StatusCode::from_u16(code) {
        Ok(s) => s.canonical_reason().map(String::from),
        Err(_) => None,
    }
}

/// How an HTTP status reads: the number and its reason phrase.
pub open spec fn status_display(code: u16) -> Seq<char> {
    decimal(code as int) + " "@ + match canonical_reason(code) {
        Some(r) => r,
        None => "<unknown status code>"@,
    }
}

/// The message shown for each error.
pub open spec fn error_text(e: ErrorModel) -> Seq<char> {
    match e {
        ErrorModel::MissingApiKey => "missing Gemini API key \u{2014} set it in Settings"@,
        ErrorModel::RateLimited(model) => "Rate limit (429). Free-tier "@ + model
            + " is heavily throttled \u{2014} wait a minute or switch to gemini-2.5-flash."@,
        ErrorModel::ModelNotFound(model) => "Model '"@ + model
            + "' not found. Try gemini-2.5-flash or gemini-2.5-pro."@,
        ErrorModel::BadRequest(msg) => "Bad request: "@ + msg,
        ErrorModel::AuthFailed(code) => "Auth failed ("@ + decimal(code)
            + "). Check your API key in Settings."@,
        ErrorModel::Api(code, st, msg) => "Gemini error "@ + decimal(code) + " "@ + st + ": "@
            + msg,
        ErrorModel::Http(status, body) => "Gemini HTTP "@ + status_display(status) + ": "@
            + body,
        ErrorModel::Unparseable(detail, body) => "could not parse Gemini response: "@ + detail
            + "\nraw: "@ + body,
        ErrorModel::PromptBlocked(reason) => "Prompt blocked by safety filter: "@ + reason,
        ErrorModel::NoCandidates => "Gemini returned no candidates"@,
        ErrorModel::EmptyWithReason(reason) => "Empty response (finishReason: "@ + reason
            + "). Try rephrasing or use a different model."@,
        ErrorModel::Empty => "Empty response from Gemini"@,
    }
}

impl GeminiError {
    /// The message shown to the user for this error.
    pub fn message(&self) -> (r: String)
        ensures
            r@ == error_text(self.model()),
    {
        match self {
            GeminiError::MissingApiKey => String::from_str(
                "missing Gemini API key \u{2014} set it in Settings",
            ),
            GeminiError::RateLimited { model } => {
                let mut s = String::from_str("Rate limit (429). Free-tier ");
                s.append(model.as_str());
                s.append(
                    " is heavily throttled \u{2014} wait a minute or switch to gemini-2.5-flash.",
                );
                s
            },
            GeminiError::ModelNotFound { model } => {
                let mut s = String::from_str("Model '");
                s.append(model.as_str());
                s.append("' not found. Try gemini-2.5-flash or gemini-2.5-pro.");
                s
            },
            GeminiError::BadRequest { message } => {
                let mut s = String::from_str("Bad request: ");
                s.append(message.as_str());
                s
            },
            GeminiError::AuthFailed { code } => {
                let mut s = String::from_str("Auth failed (");
                push_decimal_i64(&mut s, *code);
                s.append("). Check your API key in Settings.");
                s
            },
            GeminiError::Api { code, status, message } => {
                let mut s = String::from_str("Gemini error ");
                push_decimal_i64(&mut s, *code);
                s.append(" ");
                s.append(status.as_str());
                s.append(": ");
                s.append(message.as_str());
                s
            },
            GeminiError::Http { http_status, body } => {
                let mut s = String::from_str("Gemini HTTP ");
                push_decimal_u64(&mut s, *http_status as u64);
                s.append(" ");
                match status_reason(*http_status) {
                    Some(reason) => s.append(reason.as_str()),
                    None => s.append("<unknown status code>"),
                }
                s.append(": ");
                s.append(body.as_str());
                assert(s@ =~= error_text(self.model()));
                s
            },
            GeminiError::Unparseable { detail, body } => {
                let mut s = String::from_str("could not parse Gemini response: ");
                s.append(detail.as_str());
                s.append("\nraw: ");
                s.append(body.as_str());
                s
            },
            GeminiError::PromptBlocked { reason } => {
                let mut s = String::from_str("Prompt blocked by safety filter: ");
                s.append(reason.as_str());
                s
            },
            GeminiError::NoCandidates => String::from_str("Gemini returned no candidates"),
            GeminiError::EmptyWithReason { reason } => {
                let mut s = String::from_str("Empty response (finishReason: ");
                s.append(reason.as_str());
                s.append("). Try rephrasing or use a different model.");
                s
            },
            GeminiError::Empty => String::from_str("Empty response from Gemini"),
        }
    }
}

/// The text of a candidate's parts, in order; parts without text add nothing.
pub open spec fn parts_text(parts: Seq<Part>) -> Seq<char>
    decreases parts.len(),
{
    if parts.len() == 0 {
        Seq::empty()
    } else {
        parts_text(parts.drop_last()) + match parts.last().text {
            Some(t) => t@,
            None => Seq::empty(),
        }
    }
}

/// The text a candidate contributes.
pub open spec fn candidate_text(c: Candidate) -> Seq<char> {
    match c.content {
        Some(content) => match content.parts {
            Some(parts) => parts_text(parts@),
            None => Seq::empty(),
        },
        None => Seq::empty(),
    }
}

/// The text of all candidates, in order.
pub open spec fn answer_text(cands: Seq<Candidate>) -> Seq<char>
    decreases cands.len(),
{
    if cands.len() == 0 {
        Seq::empty()
    } else {
        answer_text(cands.drop_last()) + candidate_text(cands.last())
    }
}

/// A finish reason other than a normal stop or the token limit.
pub open spec fn is_unusual_finish(r: Seq<char>) -> bool {
    r != "STOP"@ && r != "MAX_TOKENS"@
}

/// The last unusual finish reason among the candidates.
pub open spec fn finish_note(cands: Seq<Candidate>) -> Option<Seq<char>>
    decreases cands.len(),
{
    if cands.len() == 0 {
        None
    } else {
        match cands.last().finish_reason {
            Some(r) if is_unusual_finish(r@) => Some(r@),
            _ => finish_note(cands.drop_last()),
        }
    }
}

/// The candidates of a reply; a reply without the field has none.
pub open spec fn candidates_of(r: GeminiResponse) -> Seq<Candidate> {
    match r.candidates {
        Some(v) => v@,
        None => Seq::empty(),
    }
}

/// Whether an HTTP status is a success (2xx).
pub open spec fn is_success(status: u16) -> bool {
    200 <= status < 300
}

/// The error that an error envelope stands for, given the HTTP status.
pub open spec fn envelope_error(
    err: ApiError,
    status: u16,
    body: Seq<char>,
    model: Seq<char>,
) -> ErrorModel {
    let msg = match err.message {
        Some(m) => m@,
        None => body,
    };
    let st = match err.status {
        Some(s) => s@,
        None => Seq::empty(),
    };
    let code: int = match err.code {
        Some(c) => c as int,
        None => status as int,
    };
    if code == 429 || st == "RESOURCE_EXHAUSTED"@ {
        ErrorModel::RateLimited(model)
    } else if code == 404 || st == "NOT_FOUND"@ {
        ErrorModel::ModelNotFound(model)
    } else if code == 400 {
        ErrorModel::BadRequest(msg)
    } else if code == 401 || code == 403 {
        ErrorModel::AuthFailed(code)
    } else {
        ErrorModel::Api(code, st, msg)
    }
}

/// What a reply comes to: the answer's text, or the error to report.
/// `parsed` is the body read as a reply, or the reason it could not be read.
pub open spec fn reply_outcome(
    status: u16,
    body: Seq<char>,
    parsed: Result<GeminiResponse, Seq<char>>,
    model: Seq<char>,
) -> Result<Seq<char>, ErrorModel> {
    if !is_success(status) {
        match parsed {
            Ok(resp) => match resp.error {
                Some(err) => Err(envelope_error(err, status, body, model)),
                None => Err(ErrorModel::Http(status, body)),
            },
            Err(_) => Err(ErrorModel::Http(status, body)),
        }
    } else {
        match parsed {
            Err(detail) => Err(ErrorModel::Unparseable(detail, body)),
            Ok(resp) => {
                if resp.prompt_feedback is Some && resp.prompt_feedback->0.block_reason is Some {
                    Err(ErrorModel::PromptBlocked(resp.prompt_feedback->0.block_reason->0@))
                } else if candidates_of(resp).len() == 0 {
                    Err(ErrorModel::NoCandidates)
                } else if answer_text(candidates_of(resp)).len() == 0 {
                    match finish_note(candidates_of(resp)) {
                        Some(r) => Err(ErrorModel::EmptyWithReason(r)),
                        None => Err(ErrorModel::Empty),
                    }
                } else {
                    Ok(answer_text(candidates_of(resp)))
                }
            },
        }
    }
}

/// A reply outcome taken as character sequences.
pub open spec fn outcome_model(r: Result<String, GeminiError>) -> Result<Seq<char>, ErrorModel> {
    match r {
        Ok(s) => Ok(s@),
        Err(e) => Err(e.model()),
    }
}

/// The reason a body could not be read, as character sequences.
pub open spec fn parsed_model(p: Result<GeminiResponse, String>) -> Result<
    GeminiResponse,
    Seq<char>,
> {
    match p {
        Ok(r) => Ok(r),
        Err(e) => Err(e@),
    }
}

fn clone_opt(s: &Option<String>) -> (r: Option<String>)
    ensures
        r.deep_view() == s.deep_view(),
{
    match s {
        Some(x) => Some(x.clone()),
        None => None,
    }
}

fn envelope(err: &ApiError, status: u16, body: &String, model: &String) -> (e: GeminiError)
    ensures
        e.model() == envelope_error(*err, status, body@, model@),
{
    let msg = match &err.message {
        Some(m) => m.clone(),
        None => body.clone(),
    };
    let st = match &err.status {
        Some(s) => s.clone(),
        None => String::new(),
    };
    let code: i64 = match err.code {
        Some(c) => c,
        None => status as i64,
    };
    if code == 429 || same_text(st.as_str(), "RESOURCE_EXHAUSTED") {
        GeminiError::RateLimited { model: model.clone() }
    } else if code == 404 || same_text(st.as_str(), "NOT_FOUND") {
        GeminiError::ModelNotFound { model: model.clone() }
    } else if code == 400 {
        GeminiError::BadRequest { message: msg }
    } else if code == 401 || code == 403 {
        GeminiError::AuthFailed { code }
    } else {
        GeminiError::Api { code, status: st, message: msg }
    }
}

fn collect_parts(parts: &Vec<Part>, out: &mut String)
    ensures
        final(out)@ == old(out)@ + parts_text(parts@),
{
    let mut i: usize = 0;
    while i < parts.len()
        invariant
            i <= parts.len(),
            out@ == old(out)@ + parts_text(parts@.take(i as int)),
        decreases parts.len() - i,
    {
        assert(parts@.take(i + 1).drop_last() =~= parts@.take(i as int));
        match &parts[i].text {
            Some(t) => out.append(t.as_str()),
            None => {},
        }
        i = i + 1;
        assert(out@ =~= old(out)@ + parts_text(parts@.take(i as int)));
    }
    assert(parts@.take(parts.len() as int) =~= parts@);
}

/// The answer's text and the last unusual finish reason of the candidates.
fn collect_candidates(cands: &Vec<Candidate>) -> (r: (String, Option<String>))
    ensures
        r.0@ == answer_text(cands@),
        r.1.deep_view() == finish_note(cands@),
{
    let mut full = String::new();
    let mut note: Option<String> = None;
    let mut i: usize = 0;
    while i < cands.len()
        invariant
            i <= cands.len(),
            full@ == answer_text(cands@.take(i as int)),
            note.deep_view() == finish_note(cands@.take(i as int)),
        decreases cands.len() - i,
    {
        let c = &cands[i];
        assert(cands@.take(i + 1).drop_last() =~= cands@.take(i as int));
        assert(cands@.take(i + 1).last() == cands@[i as int]);
        match &c.finish_reason {
            Some(reason) => {
                if !same_text(reason.as_str(), "STOP") && !same_text(reason.as_str(), "MAX_TOKENS") {
                    note = Some(reason.clone());
                }
            },
            None => {},
        }
        match &c.content {
            Some(content) => match &content.parts {
                Some(parts) => collect_parts(parts, &mut full),
                None => {},
            },
            None => {},
        }
        i = i + 1;
        assert(full@ =~= answer_text(cands@.take(i as int)));
    }
    assert(cands@.take(cands.len() as int) =~= cands@);
    (full, note)
}

/// Decides what a reply comes to, from its HTTP status, its raw body, and
/// the body read as a reply (or the reason it could not be read). A failed
/// status is explained from Google's error envelope when there is one; a
/// successful one yields the candidates' text unless the prompt was blocked
/// or no text came back. `model` is the model name as the user gave it.
pub fn interpret_reply(
    status: u16,
    body: &String,
    parsed: &Result<GeminiResponse, String>,
    model: &String,
) -> (r: Result<String, GeminiError>)
    ensures
        outcome_model(r) == reply_outcome(status, body@, parsed_model(*parsed), model@),
{
    if !(200 <= status && status < 300) {
        match parsed {
            Ok(resp) => match &resp.error {
                Some(err) => Err(envelope(err, status, body, model)),
                None => Err(GeminiError::Http { http_status: status, body: body.clone() }),
            },
            Err(_) => Err(GeminiError::Http { http_status: status, body: body.clone() }),
        }
    } else {
        match parsed {
            Err(detail) => Err(GeminiError::Unparseable { detail: detail.clone(), body: body.clone() }),
            Ok(resp) => {
                match &resp.prompt_feedback {
                    Some(fb) => match &fb.block_reason {
                        Some(reason) => {
                            return Err(GeminiError::PromptBlocked { reason: reason.clone() });
                        },
                        None => {},
                    },
                    None => {},
                }
                let empty: Vec<Candidate> = Vec::new();
                let cands = match &resp.candidates {
                    Some(v) => v,
                    None => &empty,
                };
                assert(cands@ == candidates_of(*resp));
                if cands.len() == 0 {
                    return Err(GeminiError::NoCandidates);
                }
                let (full, note) = collect_candidates(cands);
                if chars_of(full.as_str()).len() == 0 {
                    match note {
                        Some(reason) => Err(GeminiError::EmptyWithReason { reason }),
                        None => Err(GeminiError::Empty),
                    }
                } else {
                    Ok(full)
                }
            },
        }
    }
}

/// How many characters each chunk of an answer holds: a thirtieth of the
/// answer, and at least 8.
pub open spec fn chunk_size(total: nat) -> nat {
    if total / 30 >= 8 {
        total / 30
    } else {
        8
    }
}

/// `s` cut into consecutive pieces of `size` characters, the last one shorter.
pub open spec fn chunks_of(s: Seq<char>, size: nat) -> Seq<Seq<char>>
    recommends
        size > 0,
    decreases s.len(),
{
    if s.len() == 0 || size == 0 {
        Seq::empty()
    } else if s.len() <= size {
        seq![s]
    } else {
        seq![s.take(size as int)] + chunks_of(s.skip(size as int), size)
    }
}

/// The chunks in which an answer is shown.
pub open spec fn answer_chunks(s: Seq<char>) -> Seq<Seq<char>> {
    chunks_of(s, chunk_size(s.len()))
}

proof fn lemma_chunks_step(s: Seq<char>, size: nat, i: int)
    requires
        size > 0,
        0 <= i < s.len(),
    ensures
        chunks_of(s.skip(i), size) == seq![
            s.subrange(i, if i + size <= s.len() { i + size } else { s.len() as int }),
        ] + chunks_of(s.skip(if i + size <= s.len() { i + size } else { s.len() as int }), size),
{
    let end = if i + size <= s.len() { i + size } else { s.len() as int };
    let t = s.skip(i);
    assert(t.len() > 0);
    if t.len() <= size {
        assert(end == s.len());
        assert(t =~= s.subrange(i, end));
        assert(s.skip(end).len() == 0);
        assert(chunks_of(s.skip(end), size) == Seq::<Seq<char>>::empty());
        assert(seq![t] + Seq::<Seq<char>>::empty() =~= seq![t]);
    } else {
        assert(t.take(size as int) =~= s.subrange(i, end));
        assert(t.skip(size as int) =~= s.skip(end));
    }
}

/// The answer cut into the payloads that animate it in, all under
/// `request_id`: consecutive pieces of a thirtieth of the answer each (at
/// least 8 characters), the last one possibly shorter.
pub fn stream_chunks(request_id: &String, full: &String) -> (r: Vec<StreamChunkPayload>)
    ensures
        r.len() == answer_chunks(full@).len(),
        forall|k: int|
            0 <= k < r.len() ==> (#[trigger] r@[k]).text@ == answer_chunks(full@)[k]
                && r@[k].request_id@ == request_id@,
{
    let chars = chars_of(full.as_str());
    let total = chars.len();
    let size = if total / 30 >= 8 { total / 30 } else { 8 };
    let ghost sz: nat = chunk_size(total as nat);
    let mut out: Vec<StreamChunkPayload> = Vec::new();
    let mut i: usize = 0;
    assert(chars@.skip(0) =~= chars@);
    while i < total
        invariant
            chars@ == full@,
            total == chars.len(),
            size == sz,
            sz > 0,
            i <= total,
            answer_chunks(full@).len() == out.len() + chunks_of(chars@.skip(i as int), sz).len(),
            forall|k: int|
                0 <= k < out.len() ==> (#[trigger] out@[k]).text@ == answer_chunks(full@)[k]
                    && out@[k].request_id@ == request_id@,
            forall|k: int|
                0 <= k < chunks_of(chars@.skip(i as int), sz).len() ==> answer_chunks(full@)[out.len() + k]
                    == #[trigger] chunks_of(chars@.skip(i as int), sz)[k],
        decreases total - i,
    {
        let end = if size <= total - i { i + size } else { total };
        proof {
            lemma_chunks_step(chars@, sz, i as int);
        }
        let piece = string_of(&chars, i, end);
        let ghost old_out = out@;
        let ghost rest = chunks_of(chars@.skip(end as int), sz);
        out.push(StreamChunkPayload { request_id: request_id.clone(), text: piece });
        assert forall|k: int| 0 <= k < rest.len() implies answer_chunks(full@)[out.len() + k]
            == #[trigger] rest[k] by {
            assert(chunks_of(chars@.skip(i as int), sz)[k + 1] == rest[k]);
        }
        assert(answer_chunks(full@)[old_out.len() as int] == chunks_of(chars@.skip(i as int), sz)[0]);
        i = end;
    }
    assert(chars@.skip(total as int).len() == 0);
    out
}

/// The chunks of an answer, put back together, are the answer.
pub open spec fn joined(parts: Seq<Seq<char>>) -> Seq<char>
    decreases parts.len(),
{
    if parts.len() == 0 {
        Seq::empty()
    } else {
        parts[0] + joined(parts.drop_first())
    }
}

proof fn lemma_chunks_join(s: Seq<char>, size: nat)
    requires
        size > 0,
    ensures
        joined(chunks_of(s, size)) == s,
        forall|k: int|
            0 <= k < chunks_of(s, size).len() ==> 0 < (#[trigger] chunks_of(s, size)[k]).len()
                <= size,
    decreases s.len(),
{
    if s.len() == 0 {
    } else if s.len() <= size {
        assert(chunks_of(s, size) == seq![s]);
        assert(seq![s].drop_first() =~= Seq::<Seq<char>>::empty());
        assert(seq![s][0] == s);
        assert(joined(Seq::<Seq<char>>::empty()) == Seq::<char>::empty());
        assert(s + Seq::<char>::empty() =~= s);
        assert(joined(seq![s]) == s);
    } else {
        let rest = chunks_of(s.skip(size as int), size);
        lemma_chunks_join(s.skip(size as int), size);
        let all = seq![s.take(size as int)] + rest;
        assert(all.drop_first() =~= rest);
        assert(s.take(size as int) + s.skip(size as int) =~= s);
        assert forall|k: int| 0 <= k < all.len() implies 0 < (#[trigger] all[k]).len() <= size by {
            if k > 0 {
                assert(all[k] == rest[k - 1]);
            }
        }
    }
}

/// Law: the chunks in which an answer is shown, put back together, give the
/// answer exactly, and each chunk is non-empty and no longer than the chunk
/// size.
pub proof fn law_chunks_rebuild_answer(s: Seq<char>)
    ensures
        joined(answer_chunks(s)) == s,
        forall|k: int|
            0 <= k < answer_chunks(s).len() ==> 0 < (#[trigger] answer_chunks(s)[k]).len()
                <= chunk_size(s.len()),
{
    lemma_chunks_join(s, chunk_size(s.len()));
}

/// The text of one part: its text, or nothing.
pub open spec fn part_chars(p: Part) -> Seq<char> {
    match p.text {
        Some(t) => t@,
        None => Seq::empty(),
    }
}

/// The texts of a candidate's parts, one sequence per part.
pub open spec fn candidate_pieces(c: Candidate) -> Seq<Seq<char>> {
    match c.content {
        Some(ct) => match ct.parts {
            Some(ps) => ps@.map_values(|p: Part| part_chars(p)),
            None => Seq::empty(),
        },
        None => Seq::empty(),
    }
}

proof fn lemma_parts_text_flat(ps: Seq<Part>)
    ensures
        parts_text(ps) == ps.map_values(|p: Part| part_chars(p)).flatten_alt(),
    decreases ps.len(),
{
    if ps.len() > 0 {
        lemma_parts_text_flat(ps.drop_last());
        assert(ps.map_values(|p: Part| part_chars(p)).drop_last() =~= ps.drop_last().map_values(
            |p: Part| part_chars(p),
        ));
    }
}

proof fn lemma_answer_text_flat(cs: Seq<Candidate>)
    ensures
        answer_text(cs) == cs.map_values(|c: Candidate| candidate_pieces(c).flatten_alt()).flatten_alt(),
    decreases cs.len(),
{
    if cs.len() > 0 {
        lemma_answer_text_flat(cs.drop_last());
        assert(cs.map_values(|c: Candidate| candidate_pieces(c).flatten_alt()).drop_last()
            =~= cs.drop_last().map_values(|c: Candidate| candidate_pieces(c).flatten_alt()));
        let c = cs.last();
        match c.content {
            Some(ct) => match ct.parts {
                Some(ps) => {
                    lemma_parts_text_flat(ps@);
                },
                None => {},
            },
            None => {},
        }
    }
}

/// Law: what a reply comes to, case by case, from the HTTP status, the
/// body and the reply as read:
/// - a status outside 2xx never yields an answer; without a readable error
///   envelope it is reported as that HTTP status with the raw body;
/// - an envelope with code 429 (or, lacking a code, status 429) or status
///   `RESOURCE_EXHAUSTED` is a rate limit for the model; 404 or `NOT_FOUND`
///   an unknown model; 400 a bad request with the envelope's message (else
///   the body); 401 and 403 an authentication failure with that code;
/// - a 2xx body that cannot be read is reported with the reader's message
///   and the body;
/// - a 2xx reply whose prompt feedback has a block reason is reported as
///   blocked with that reason, whatever its candidates (none included);
/// - otherwise, a 2xx reply without candidates is reported as such;
/// - an answer is only ever given for a 2xx status and is never empty; it
///   is the text of every part of every candidate, in order.
pub proof fn law_reply_cases(
    status: u16,
    body: Seq<char>,
    parsed: Result<GeminiResponse, Seq<char>>,
    model: Seq<char>,
)
    ensures
        !(200 <= status < 300) ==> reply_outcome(status, body, parsed, model) is Err,
        (!(200 <= status < 300) && (parsed is Err || (parsed matches Ok(resp) && resp.error is None)))
            ==> reply_outcome(status, body, parsed, model) == Err::<Seq<char>, ErrorModel>(
            ErrorModel::Http(status, body),
        ),
        (!(200 <= status < 300) && (parsed matches Ok(resp) && resp.error matches Some(err) && ((
        err.code == Some(429i64)) || (err.code is None && status == 429) || (err.status matches Some(
        st) && st@ == "RESOURCE_EXHAUSTED"@)))) ==> reply_outcome(status, body, parsed, model)
            == Err::<Seq<char>, ErrorModel>(ErrorModel::RateLimited(model)),
        (!(200 <= status < 300) && (parsed matches Ok(resp) && resp.error matches Some(err) && (
        err.code == Some(404i64) || (err.code is None && status == 404)) && !(err.status matches Some(
        st) && st@ == "RESOURCE_EXHAUSTED"@))) ==> reply_outcome(status, body, parsed, model) == Err::<
            Seq<char>,
            ErrorModel,
        >(ErrorModel::ModelNotFound(model)),
        (!(200 <= status < 300) && (parsed matches Ok(resp) && resp.error matches Some(err)
            && err.code == Some(400i64) && !(err.status matches Some(st) && (st@
            == "RESOURCE_EXHAUSTED"@ || st@ == "NOT_FOUND"@)))) ==> reply_outcome(
            status,
            body,
            parsed,
            model,
        ) == Err::<Seq<char>, ErrorModel>(
            ErrorModel::BadRequest(
                match parsed->Ok_0.error->0.message {
                    Some(m) => m@,
                    None => body,
                },
            ),
        ),
        (!(200 <= status < 300) && (parsed matches Ok(resp) && resp.error matches Some(err) && (
        err.code == Some(401i64) || err.code == Some(403i64)) && !(err.status matches Some(st) && (st@
            == "RESOURCE_EXHAUSTED"@ || st@ == "NOT_FOUND"@)))) ==> reply_outcome(
            status,
            body,
            parsed,
            model,
        ) == Err::<Seq<char>, ErrorModel>(
            ErrorModel::AuthFailed(parsed->Ok_0.error->0.code->0 as int),
        ),
        (200 <= status < 300 && parsed matches Err(d)) ==> reply_outcome(status, body, parsed, model)
            == Err::<Seq<char>, ErrorModel>(ErrorModel::Unparseable(parsed->Err_0, body)),
        (200 <= status < 300 && (parsed matches Ok(resp) && resp.prompt_feedback matches Some(fb)
            && fb.block_reason matches Some(b))) ==> reply_outcome(status, body, parsed, model)
            == Err::<Seq<char>, ErrorModel>(
            ErrorModel::PromptBlocked(parsed->Ok_0.prompt_feedback->0.block_reason->0@),
        ),
        (200 <= status < 300 && (parsed matches Ok(resp) && !(resp.prompt_feedback matches Some(fb)
            && fb.block_reason is Some) && (resp.candidates is None || (resp.candidates matches Some(
        v) && v@.len() == 0)))) ==> reply_outcome(status, body, parsed, model) == Err::<
            Seq<char>,
            ErrorModel,
        >(ErrorModel::NoCandidates),
        reply_outcome(status, body, parsed, model) is Ok ==> (200 <= status < 300
            && reply_outcome(status, body, parsed, model)->Ok_0.len() > 0 && (parsed matches Ok(
        resp) && resp.candidates matches Some(v) && reply_outcome(status, body, parsed, model)->Ok_0
            == v@.map_values(|c: Candidate| candidate_pieces(c).flatten_alt()).flatten_alt())),
{
    reveal_strlit("RESOURCE_EXHAUSTED");
    reveal_strlit("NOT_FOUND");
    match parsed {
        Ok(resp) => {
            match resp.error {
                Some(err) => {
                    match err.status {
                        Some(s) => {},
                        None => {
                            assert("RESOURCE_EXHAUSTED"@.len() > 0);
                            assert("NOT_FOUND"@.len() > 0);
                            assert(Seq::<char>::empty().len() == 0);
                        },
                    }
                },
                None => {},
            }
            match resp.candidates {
                Some(v) => lemma_answer_text_flat(v@),
                None => {},
            }
        },
        Err(_) => {},
    }
}

/// Law: a blocked prompt is reported as blocked with its reason whatever
/// the candidates, even when the reply has none.
pub proof fn law_block_reason_wins(
    status: u16,
    body: Seq<char>,
    resp: GeminiResponse,
    model: Seq<char>,
    reason: String,
)
    requires
        200 <= status < 300,
        resp.prompt_feedback matches Some(fb) && fb.block_reason == Some(reason),
    ensures
        reply_outcome(status, body, Ok(resp), model) == Err::<Seq<char>, ErrorModel>(
            ErrorModel::PromptBlocked(reason@),
        ),
        reply_outcome(
            status,
            body,
            Ok(GeminiResponse { candidates: None, ..resp }),
            model,
        ) == Err::<Seq<char>, ErrorModel>(ErrorModel::PromptBlocked(reason@)),
{
}

/// Whether a candidate stopped for a reason other than `STOP` or
/// `MAX_TOKENS`.
pub open spec fn stopped_unusually(c: Candidate) -> bool {
    c.finish_reason matches Some(r) && r@ != "STOP"@ && r@ != "MAX_TOKENS"@
}

proof fn lemma_finish_note_none(cs: Seq<Candidate>)
    requires
        forall|k: int| 0 <= k < cs.len() ==> !stopped_unusually(#[trigger] cs[k]),
    ensures
        finish_note(cs) is None,
    decreases cs.len(),
{
    if cs.len() > 0 {
        assert(!stopped_unusually(cs[cs.len() - 1]));
        lemma_finish_note_none(cs.drop_last());
    }
}

proof fn lemma_finish_note_last(cs: Seq<Candidate>, k: int)
    requires
        0 <= k < cs.len(),
        stopped_unusually(cs[k]),
        forall|j: int| k < j < cs.len() ==> !stopped_unusually(#[trigger] cs[j]),
    ensures
        finish_note(cs) == Some(cs[k].finish_reason->0@),
    decreases cs.len(),
{
    if k < cs.len() - 1 {
        assert(!stopped_unusually(cs[cs.len() - 1]));
        let d = cs.drop_last();
        assert(d[k] == cs[k]);
        assert forall|j: int| k < j < d.len() implies !stopped_unusually(#[trigger] d[j]) by {
            assert(d[j] == cs[j]);
        }
        lemma_finish_note_last(d, k);
    }
}

/// Law: a 2xx reply that is not blocked and has candidates, none of which
/// holds any text, is an empty answer. It names the finish reason of the
/// last candidate that stopped for a reason other than `STOP` or
/// `MAX_TOKENS`; when none did, it is reported as empty without a reason.
pub proof fn law_empty_answer_reason(
    status: u16,
    body: Seq<char>,
    resp: GeminiResponse,
    cands: Seq<Candidate>,
    model: Seq<char>,
)
    requires
        200 <= status < 300,
        !(resp.prompt_feedback matches Some(fb) && fb.block_reason is Some),
        resp.candidates matches Some(v) && v@ == cands,
        cands.len() > 0,
        cands.map_values(|c: Candidate| candidate_pieces(c).flatten_alt()).flatten_alt().len() == 0,
    ensures
        (forall|k: int|
            0 <= k < cands.len() ==> !(#[trigger] cands[k].finish_reason matches Some(r) && r@
                != "STOP"@ && r@ != "MAX_TOKENS"@)) ==> reply_outcome(status, body, Ok(resp), model)
            == Err::<Seq<char>, ErrorModel>(ErrorModel::Empty),
        forall|k: int|
            #![trigger cands[k]]
            0 <= k < cands.len() && (cands[k].finish_reason matches Some(r) && r@ != "STOP"@ && r@
                != "MAX_TOKENS"@) && (forall|j: int|
                k < j < cands.len() ==> !(#[trigger] cands[j].finish_reason matches Some(r) && r@
                    != "STOP"@ && r@ != "MAX_TOKENS"@)) ==> reply_outcome(
                status,
                body,
                Ok(resp),
                model,
            ) == Err::<Seq<char>, ErrorModel>(
                ErrorModel::EmptyWithReason(cands[k].finish_reason->0@),
            ),
{
    lemma_answer_text_flat(cands);
    assert(candidates_of(resp) == cands);
    if forall|k: int|
        0 <= k < cands.len() ==> !(#[trigger] cands[k].finish_reason matches Some(r) && r@
            != "STOP"@ && r@ != "MAX_TOKENS"@) {
        assert forall|k: int| 0 <= k < cands.len() implies !stopped_unusually(
            #[trigger] cands[k],
        ) by {
            assert(!(cands[k].finish_reason matches Some(r) && r@ != "STOP"@ && r@
                != "MAX_TOKENS"@));
        }
        lemma_finish_note_none(cands);
    }
    assert forall|k: int|
        #![trigger cands[k]]
        0 <= k < cands.len() && (cands[k].finish_reason matches Some(r) && r@ != "STOP"@ && r@
            != "MAX_TOKENS"@) && (forall|j: int|
            k < j < cands.len() ==> !(#[trigger] cands[j].finish_reason matches Some(r) && r@
                != "STOP"@ && r@ != "MAX_TOKENS"@)) implies reply_outcome(
        status,
        body,
        Ok(resp),
        model,
    ) == Err::<Seq<char>, ErrorModel>(ErrorModel::EmptyWithReason(cands[k].finish_reason->0@)) by {
        assert forall|j: int| k < j < cands.len() implies !stopped_unusually(#[trigger] cands[j]) by {
            assert(!(cands[j].finish_reason matches Some(r) && r@ != "STOP"@ && r@
                != "MAX_TOKENS"@));
        }
        lemma_finish_note_last(cands, k);
    }
}

/// Law: a failed status whose error envelope names no rate limit, unknown
/// model, bad request or authentication failure is reported with the
/// envelope's code (else the HTTP status), its status text (else nothing)
/// and its message (else the raw body).
pub proof fn law_other_service_errors(
    status: u16,
    body: Seq<char>,
    resp: GeminiResponse,
    model: Seq<char>,
)
    requires
        !(200 <= status < 300),
        resp.error is Some,
    ensures
        ({
            let err = resp.error->0;
            let code: int = match err.code {
                Some(c) => c as int,
                None => status as int,
            };
            let st = match err.status {
                Some(x) => x@,
                None => Seq::empty(),
            };
            let msg = match err.message {
                Some(m) => m@,
                None => body,
            };
            (code != 429 && code != 404 && code != 400 && code != 401 && code != 403 && st
                != "RESOURCE_EXHAUSTED"@ && st != "NOT_FOUND"@) ==> reply_outcome(
                status,
                body,
                Ok(resp),
                model,
            ) == Err::<Seq<char>, ErrorModel>(ErrorModel::Api(code, st, msg))
        }),
{
}

proof fn lemma_chunks_index(s: Seq<char>, size: nat)
    requires
        size > 0,
    ensures
        chunks_of(s, size).len() == (s.len() + size - 1) / (size as int),
        forall|k: int|
            0 <= k < chunks_of(s, size).len() ==> #[trigger] chunks_of(s, size)[k] == s.subrange(
                k * size,
                if (k + 1) * size <= s.len() { (k + 1) * size } else { s.len() as int },
            ),
    decreases s.len(),
{
    let n = s.len() as int;
    let z = size as int;
    if n == 0 {
        assert((n + z - 1) / z == 0) by (nonlinear_arith)
            requires n == 0, z > 0;
    } else if n <= z {
        assert((n + z - 1) / z == 1) by (nonlinear_arith)
            requires 0 < n <= z;
        assert(chunks_of(s, size)[0] == s);
        assert(s.subrange(0, n) =~= s);
        assert forall|k: int| 0 <= k < chunks_of(s, size).len() implies #[trigger] chunks_of(
            s,
            size,
        )[k] == s.subrange(k * z, if (k + 1) * z <= n { (k + 1) * z } else { n }) by {
            assert(k == 0);
            assert((k + 1) * z == z && k * z == 0) by (nonlinear_arith)
                requires k == 0;
        }
    } else {
        let t = s.skip(z);
        lemma_chunks_index(t, size);
        let rest = chunks_of(t, size);
        assert(chunks_of(s, size) == seq![s.take(z)] + rest);
        assert(t.len() == n - z);
        assert((n + z - 1) / z == (n - z + z - 1) / z + 1) by (nonlinear_arith)
            requires n > z, z > 0;
        assert forall|k: int| 0 <= k < chunks_of(s, size).len() implies #[trigger] chunks_of(
            s,
            size,
        )[k] == s.subrange(k * z, if (k + 1) * z <= n { (k + 1) * z } else { n }) by {
            if k == 0 {
                assert((k + 1) * z == z && k * z == 0) by (nonlinear_arith)
                    requires k == 0;
                assert(s.take(z) =~= s.subrange(0, z));
            } else {
                assert(chunks_of(s, size)[k] == rest[k - 1]);
                assert((k - 1) * z + z == k * z) by (nonlinear_arith);
                assert(k * z + z == (k + 1) * z) by (nonlinear_arith);
                assert(k * z >= z) by (nonlinear_arith)
                    requires k >= 1, z > 0;
                assert((k - 1) * z >= 0) by (nonlinear_arith)
                    requires k >= 1, z > 0;
                let q = (n + z - 1) / z;
                vstd::arithmetic::div_mod::lemma_fundamental_div_mod(n + z - 1, z);
                vstd::arithmetic::div_mod::lemma_mod_bound(n + z - 1, z);
                assert(k * z < n) by (nonlinear_arith)
                    requires
                        k + 1 <= q,
                        n + z - 1 == z * q + (n + z - 1) % z,
                        0 <= (n + z - 1) % z < z,
                        z > 0,
                ;
                assert(rest[k - 1] == t.subrange(
                    (k - 1) * z,
                    if k * z <= n - z { k * z } else { n - z },
                ));
                assert(rest[k - 1] =~= s.subrange(
                    k * z,
                    if (k + 1) * z <= n { (k + 1) * z } else { n },
                ));
            }
        }
    }
}

/// Law: an answer of `n` characters is shown in chunks of `n / 30`
/// characters, or 8 when that is less: the `k`-th chunk is the stretch of
/// the answer that starts at `k` times the chunk size, the last chunk
/// holds what is left, and there are as many chunks as it takes.
pub proof fn law_chunk_layout(s: Seq<char>)
    ensures
        ({
            let size: int = if s.len() / 30 >= 8 { (s.len() / 30) as int } else { 8 };
            &&& answer_chunks(s).len() == (s.len() + size - 1) / size
            &&& forall|k: int|
                0 <= k < answer_chunks(s).len() ==> #[trigger] answer_chunks(s)[k] == s.subrange(
                    k * size,
                    if (k + 1) * size <= s.len() { (k + 1) * size } else { s.len() as int },
                )
        }),
{
    lemma_chunks_index(s, chunk_size(s.len()));
}

} // verus!
