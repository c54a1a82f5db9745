//! Building a Gemini `generateContent` request from a chat.
//!
//! The request is a plain value of this library; turning it into JSON and
//! sending it over HTTP happens around the library.

use vstd::prelude::*;
use crate::text::{is_blank, same_text, trim, trimmed};
use crate::reply::GeminiError;

verus! {

/// One earlier turn of the conversation. `role` is `"user"` or `"model"`.
pub struct ChatMessage {
    pub role: String,
    pub text: String,
}

/// An image sent along with the prompt, already base64-encoded.
pub struct ImageAttachment {
    pub mime_type: String,
    pub data_base64: String,
}

/// A piece of the answer, as the overlay animates it in.
pub struct StreamChunkPayload {
    pub request_id: String,
    pub text: String,
}

/// The end of a request: `error` is `None` on success.
pub struct StreamDonePayload {
    pub request_id: String,
    pub error: Option<String>,
}

/// Who spoke a turn.
#[derive(PartialEq, Eq, Structural, Clone, Copy, Debug)]
pub enum Role {
    User,
    Model,
}

/// One part of a turn: text, or an inline image.
pub enum RequestPart {
    Text { text: String },
    InlineData { mime_type: String, data: String },
}

/// One turn of the request's `contents`.
pub struct RequestContent {
    pub role: Role,
    pub parts: Vec<RequestPart>,
}

/// One entry of the request's `safetySettings`.
pub struct SafetySetting {
    pub category: String,
    pub threshold: String,
}

/// Everything needed to send a `generateContent` call. The generation
/// temperature is kept in tenths (4 stands for 0.4).
pub struct GenerateRequest {
    pub url: String,
    pub api_key: String,
    pub contents: Vec<RequestContent>,
    pub system_instruction: String,
    pub temperature_tenths: u32,
    pub safety_settings: Vec<SafetySetting>,
}

/// The system prompt used when the caller gives none.
pub open spec fn default_system_prompt() -> Seq<char> {
    "You are helping a CS student during a coding practice test. Reply with working, copy-pasteable code first inside a single fenced ```lang code block, then a brief 2-3 sentence explanation after. No markdown headers, no preamble."@
}

/// The prompt used when the caller sends images and no text.
pub open spec fn image_only_prompt() -> Seq<char> {
    "Solve / explain what's in the image. If it's a coding question, reply with working code in a fenced block."@
}

/// The endpoint for `model`, whose name is trimmed first.
pub open spec fn generate_url(model: Seq<char>) -> Seq<char> {
    "https://generativelanguage.googleapis.com/v1beta/models/"@ + trimmed(model)
        + ":generateContent"@
}

/// The harm categories whose threshold is relaxed, in request order.
pub open spec fn safety_categories() -> Seq<Seq<char>> {
    seq![
        "HARM_CATEGORY_HARASSMENT"@,
        "HARM_CATEGORY_HATE_SPEECH"@,
        "HARM_CATEGORY_SEXUALLY_EXPLICIT"@,
        "HARM_CATEGORY_DANGEROUS_CONTENT"@,
    ]
}

/// The threshold given to every harm category.
pub open spec fn safety_threshold() -> Seq<char> {
    "BLOCK_ONLY_HIGH"@
}

/// A history turn is sent as the model's only when its role is exactly "model".
pub open spec fn role_of(role: Seq<char>) -> Role {
    if role == "model"@ {
        Role::Model
    } else {
        Role::User
    }
}

/// The text sent with the current turn.
pub open spec fn prompt_text(prompt: Seq<char>, has_images: bool) -> Seq<char> {
    if trimmed(prompt).len() == 0 && has_images {
        image_only_prompt()
    } else {
        prompt
    }
}

/// The system instruction sent.
pub open spec fn system_text(system_prompt: Seq<char>) -> Seq<char> {
    if trimmed(system_prompt).len() == 0 {
        default_system_prompt()
    } else {
        system_prompt
    }
}

pub open spec fn is_text_part(p: RequestPart, t: Seq<char>) -> bool {
    p matches RequestPart::Text { text } && text@ == t
}

pub open spec fn is_image_part(p: RequestPart, img: ImageAttachment) -> bool {
    &&& p matches RequestPart::InlineData { mime_type, data }
    &&& mime_type@ == img.mime_type@
    &&& data@ == img.data_base64@
}

/// A history turn, sent as one text part under its role.
pub open spec fn is_history_content(c: RequestContent, m: ChatMessage) -> bool {
    &&& c.role == role_of(m.role@)
    &&& c.parts.len() == 1
    &&& is_text_part(c.parts[0], m.text@)
}

/// The current turn: the images in order, then the prompt text.
pub open spec fn is_current_content(
    c: RequestContent,
    prompt: Seq<char>,
    images: Seq<ImageAttachment>,
) -> bool {
    &&& c.role == Role::User
    &&& c.parts.len() == images.len() + 1
    &&& forall|i: int| 0 <= i < images.len() ==> is_image_part(#[trigger] c.parts[i], images[i])
    &&& is_text_part(c.parts[images.len() as int], prompt_text(prompt, images.len() > 0))
}

pub open spec fn is_safety_list(s: Seq<SafetySetting>) -> bool {
    &&& s.len() == 4
    &&& forall|i: int|
        0 <= i < 4 ==> (#[trigger] s[i]).category@ == safety_categories()[i]
            && s[i].threshold@ == safety_threshold()
}

/// `r` is the request that the chat gives.
pub open spec fn is_request_for(
    r: GenerateRequest,
    api_key: Seq<char>,
    model: Seq<char>,
    history: Seq<ChatMessage>,
    prompt: Seq<char>,
    images: Seq<ImageAttachment>,
    system_prompt: Seq<char>,
) -> bool {
    &&& r.url@ == generate_url(model)
    &&& r.api_key@ == trimmed(api_key)
    &&& r.contents.len() == history.len() + 1
    &&& forall|i: int|
        0 <= i < history.len() ==> is_history_content(#[trigger] r.contents[i], history[i])
    &&& is_current_content(r.contents[history.len() as int], prompt, images)
    &&& r.system_instruction@ == system_text(system_prompt)
    &&& r.temperature_tenths == 4
    &&& is_safety_list(r.safety_settings@)
}

fn text_part(t: &String) -> (p: RequestPart)
    ensures
        is_text_part(p, t@),
{
    RequestPart::Text { text: t.clone() }
}

fn history_content(m: &ChatMessage) -> (c: RequestContent)
    ensures
        is_history_content(c, *m),
{
    let role = if same_text(m.role.as_str(), "model") {
        Role::Model
    } else {
        Role::User
    };
    let mut parts: Vec<RequestPart> = Vec::new();
    parts.push(text_part(&m.text));
    RequestContent { role, parts }
}

fn current_content(prompt: &String, images: &Vec<ImageAttachment>) -> (c: RequestContent)
    ensures
        is_current_content(c, prompt@, images@),
{
    let mut parts: Vec<RequestPart> = Vec::new();
    let mut i: usize = 0;
    while i < images.len()
        invariant
            i <= images.len(),
            parts.len() == i,
            forall|j: int| 0 <= j < i ==> is_image_part(#[trigger] parts@[j], images@[j]),
        decreases images.len() - i,
    {
        let img = &images[i];
        parts.push(
            RequestPart::InlineData {
                mime_type: img.mime_type.clone(),
                data: img.data_base64.clone(),
            },
        );
        i = i + 1;
    }
    let text = if is_blank(prompt.as_str()) && images.len() > 0 {
        String::from_str("Solve / explain what's in the image. If it's a coding question, reply with working code in a fenced block.")
    } else {
        prompt.clone()
    };
    parts.push(RequestPart::Text { text });
    RequestContent { role: Role::User, parts }
}

fn safety_setting(category: &str) -> (s: SafetySetting)
    ensures
        s.category@ == category@,
        s.threshold@ == safety_threshold(),
{
    SafetySetting {
        category: String::from_str(category),
        threshold: String::from_str("BLOCK_ONLY_HIGH"),
    }
}

fn safety_settings() -> (v: Vec<SafetySetting>)
    ensures
        is_safety_list(v@),
{
    let mut v: Vec<SafetySetting> = Vec::new();
    v.push(safety_setting("HARM_CATEGORY_HARASSMENT"));
    v.push(safety_setting("HARM_CATEGORY_HATE_SPEECH"));
    v.push(safety_setting("HARM_CATEGORY_SEXUALLY_EXPLICIT"));
    v.push(safety_setting("HARM_CATEGORY_DANGEROUS_CONTENT"));
    assert forall|i: int| 0 <= i < 4 implies (#[trigger] v@[i]).category@
        == safety_categories()[i] && v@[i].threshold@ == safety_threshold() by {}
    v
}

/// Builds the `generateContent` request for a chat: the history turns in
/// order (a turn is the model's exactly when its role is "model"), then the
/// current turn with the images and the prompt. A blank prompt with images
/// becomes a standard image question; a blank system prompt becomes the
/// default one. A blank API key is refused.
pub fn prepare_request(
    api_key: &String,
    model: &String,
    history: &Vec<ChatMessage>,
    prompt: &String,
    images: &Vec<ImageAttachment>,
    system_prompt: &String,
) -> (r: Result<GenerateRequest, GeminiError>)
    ensures
        r is Err <==> trimmed(api_key@).len() == 0,
        r matches Err(e) ==> e == GeminiError::MissingApiKey,
        r matches Ok(req) ==> is_request_for(
            req,
            api_key@,
            model@,
            history@,
            prompt@,
            images@,
            system_prompt@,
        ),
{
    if is_blank(api_key.as_str()) {
        return Err(GeminiError::MissingApiKey);
    }
    let mut url = String::from_str("https://generativelanguage.googleapis.com/v1beta/models/");
    let m = trim(model.as_str());
    url.append(m.as_str());
    url.append(":generateContent");

    let mut contents: Vec<RequestContent> = Vec::new();
    let mut i: usize = 0;
    while i < history.len()
        invariant
            i <= history.len(),
            contents.len() == i,
            forall|j: int|
                0 <= j < i ==> is_history_content(#[trigger] contents@[j], history@[j]),
        decreases history.len() - i,
    {
        contents.push(history_content(&history[i]));
        i = i + 1;
    }
    contents.push(current_content(prompt, images));

    let system_instruction = if is_blank(system_prompt.as_str()) {
        String::from_str("You are helping a CS student during a coding practice test. Reply with working, copy-pasteable code first inside a single fenced ```lang code block, then a brief 2-3 sentence explanation after. No markdown headers, no preamble.")
    } else {
        system_prompt.clone()
    };
    let req = GenerateRequest {
        url,
        api_key: trim(api_key.as_str()),
        contents,
        system_instruction,
        temperature_tenths: 4,
        safety_settings: safety_settings(),
    };
    assert(forall|j: int|
        0 <= j < history.len() ==> is_history_content(#[trigger] req.contents[j], history@[j]));
    Ok(req)
}

/// Law: the request carries the whole chat. There is one turn per history
/// message and then the current turn. Each history message is sent under
/// the model's role exactly when its role is "model", as one text part
/// holding its text. The current turn is the user's, whatever the history:
/// every image, in order, with its MIME type and data, and then the prompt
/// as the last part (the standard image question when the prompt is blank
/// and images are sent). The trimmed API key, the model's endpoint, the
/// system prompt (the default one when blank), a temperature of 0.4 and
/// four relaxed safety settings go with it.
pub proof fn law_request_shape(
    r: GenerateRequest,
    api_key: Seq<char>,
    model: Seq<char>,
    history: Seq<ChatMessage>,
    prompt: Seq<char>,
    images: Seq<ImageAttachment>,
    system_prompt: Seq<char>,
)
    requires
        is_request_for(r, api_key, model, history, prompt, images, system_prompt),
    ensures
        r.contents.len() == history.len() + 1,
        forall|i: int|
            #![trigger r.contents@[i]]
            0 <= i < history.len() ==> {
                &&& r.contents@[i].role == (if history[i].role@ == "model"@ {
                    Role::Model
                } else {
                    Role::User
                })
                &&& r.contents@[i].parts.len() == 1
                &&& r.contents@[i].parts@[0] matches RequestPart::Text { text }
                &&& r.contents@[i].parts@[0]->Text_text@ == history[i].text@
            },
        r.contents@.last().role == Role::User,
        r.contents@.last().parts.len() == images.len() + 1,
        forall|i: int|
            #![trigger r.contents@.last().parts@[i]]
            0 <= i < images.len() ==> {
                &&& r.contents@.last().parts@[i] matches RequestPart::InlineData { mime_type, data }
                &&& r.contents@.last().parts@[i]->InlineData_mime_type@ == images[i].mime_type@
                &&& r.contents@.last().parts@[i]->InlineData_data@ == images[i].data_base64@
            },
        r.contents@.last().parts@.last() matches RequestPart::Text { text },
        r.contents@.last().parts@.last()->Text_text@ == (if trimmed(prompt).len() == 0
            && images.len() > 0 {
            "Solve / explain what's in the image. If it's a coding question, reply with working code in a fenced block."@
        } else {
            prompt
        }),
        r.url@ == "https://generativelanguage.googleapis.com/v1beta/models/"@ + trimmed(model)
            + ":generateContent"@,
        r.api_key@ == trimmed(api_key),
        r.system_instruction@ == (if trimmed(system_prompt).len() == 0 {
            "You are helping a CS student during a coding practice test. Reply with working, copy-pasteable code first inside a single fenced ```lang code block, then a brief 2-3 sentence explanation after. No markdown headers, no preamble."@
        } else {
            system_prompt
        }),
        r.temperature_tenths == 4,
        r.safety_settings.len() == 4,
        forall|i: int|
            0 <= i < 4 ==> (#[trigger] r.safety_settings@[i]).threshold@ == "BLOCK_ONLY_HIGH"@,
        r.safety_settings@[0].category@ == "HARM_CATEGORY_HARASSMENT"@,
        r.safety_settings@[1].category@ == "HARM_CATEGORY_HATE_SPEECH"@,
        r.safety_settings@[2].category@ == "HARM_CATEGORY_SEXUALLY_EXPLICIT"@,
        r.safety_settings@[3].category@ == "HARM_CATEGORY_DANGEROUS_CONTENT"@,
{
    assert forall|i: int| #![trigger r.contents@[i]] 0 <= i < history.len() implies {
        &&& r.contents@[i].role == (if history[i].role@ == "model"@ {
            Role::Model
        } else {
            Role::User
        })
        &&& r.contents@[i].parts.len() == 1
        &&& r.contents@[i].parts@[0] matches RequestPart::Text { text }
        &&& r.contents@[i].parts@[0]->Text_text@ == history[i].text@
    } by {
        assert(is_history_content(r.contents[i], history[i]));
    }
    let last = r.contents@.last();
    assert(last == r.contents[history.len() as int]);
    assert forall|i: int| #![trigger last.parts@[i]] 0 <= i < images.len() implies {
        &&& last.parts@[i] matches RequestPart::InlineData { mime_type, data }
        &&& last.parts@[i]->InlineData_mime_type@ == images[i].mime_type@
        &&& last.parts@[i]->InlineData_data@ == images[i].data_base64@
    } by {
        assert(is_image_part(last.parts[i], images[i]));
    }
    assert(safety_categories()[0] == "HARM_CATEGORY_HARASSMENT"@);
    assert(safety_categories()[1] == "HARM_CATEGORY_HATE_SPEECH"@);
    assert(safety_categories()[2] == "HARM_CATEGORY_SEXUALLY_EXPLICIT"@);
    assert(safety_categories()[3] == "HARM_CATEGORY_DANGEROUS_CONTENT"@);
    assert(r.safety_settings@[0].category@ == safety_categories()[0]);
    assert(r.safety_settings@[1].category@ == safety_categories()[1]);
    assert(r.safety_settings@[2].category@ == safety_categories()[2]);
    assert(r.safety_settings@[3].category@ == safety_categories()[3]);
}

} // verus!
