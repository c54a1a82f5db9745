use writingagent::gemini::{prepare_request, ChatMessage, ImageAttachment, RequestPart, Role};
use writingagent::reply::GeminiError;

fn msg(role: &str, text: &str) -> ChatMessage {
    ChatMessage { role: role.to_string(), text: text.to_string() }
}

fn img(mime: &str, data: &str) -> ImageAttachment {
    ImageAttachment { mime_type: mime.to_string(), data_base64: data.to_string() }
}

fn text_of(p: &RequestPart) -> String {
    match p {
        RequestPart::Text { text } => text.clone(),
        RequestPart::InlineData { .. } => panic!("expected a text part"),
    }
}

#[test]
fn blank_api_key_is_refused() {
    let r = prepare_request(
        &" \t\n".to_string(),
        &"gemini-2.5-flash".to_string(),
        &vec![],
        &"hi".to_string(),
        &vec![],
        &String::new(),
    );
    match r {
        Err(e) => {
            assert!(matches!(e, GeminiError::MissingApiKey));
            assert_eq!(e.message(), "missing Gemini API key \u{2014} set it in Settings");
        }
        Ok(_) => panic!("a blank key must be refused"),
    }
}

#[test]
fn url_and_key_are_trimmed() {
    let r = prepare_request(
        &"  KEY123 ".to_string(),
        &" gemini-2.5-pro\n".to_string(),
        &vec![],
        &"What is 2+2?".to_string(),
        &vec![],
        &"Be terse.".to_string(),
    )
    .ok()
    .unwrap();
    assert_eq!(
        r.url,
        "https://generativelanguage.googleapis.com/v1beta/models/gemini-2.5-pro:generateContent"
    );
    assert_eq!(r.api_key, "KEY123");
    assert_eq!(r.system_instruction, "Be terse.");
    assert_eq!(r.temperature_tenths, 4);
    assert_eq!(r.contents.len(), 1);
    assert_eq!(r.contents[0].role, Role::User);
    assert_eq!(r.contents[0].parts.len(), 1);
    assert_eq!(text_of(&r.contents[0].parts[0]), "What is 2+2?");
}

#[test]
fn history_roles_map_to_user_or_model() {
    let history = vec![
        msg("user", "first"),
        msg("model", "second"),
        msg("assistant", "third"),
        msg("Model", "fourth"),
    ];
    let r = prepare_request(
        &"k".to_string(),
        &"m".to_string(),
        &history,
        &"now".to_string(),
        &vec![],
        &String::new(),
    )
    .ok()
    .unwrap();
    assert_eq!(r.contents.len(), 5);
    let roles: Vec<Role> = r.contents.iter().map(|c| c.role).collect();
    assert_eq!(roles, vec![Role::User, Role::Model, Role::User, Role::User, Role::User]);
    assert_eq!(text_of(&r.contents[2].parts[0]), "third");
    assert_eq!(text_of(&r.contents[4].parts[0]), "now");
}

#[test]
fn images_come_before_the_prompt() {
    let images = vec![img("image/png", "AAAA"), img("image/jpeg", "BBBB")];
    let r = prepare_request(
        &"k".to_string(),
        &"m".to_string(),
        &vec![],
        &"Explain".to_string(),
        &images,
        &String::new(),
    )
    .ok()
    .unwrap();
    let parts = &r.contents[0].parts;
    assert_eq!(parts.len(), 3);
    match &parts[0] {
        RequestPart::InlineData { mime_type, data } => {
            assert_eq!(mime_type, "image/png");
            assert_eq!(data, "AAAA");
        }
        _ => panic!("expected an image"),
    }
    match &parts[1] {
        RequestPart::InlineData { mime_type, data } => {
            assert_eq!(mime_type, "image/jpeg");
            assert_eq!(data, "BBBB");
        }
        _ => panic!("expected an image"),
    }
    assert_eq!(text_of(&parts[2]), "Explain");
}

#[test]
fn blank_prompt_with_image_asks_about_the_image() {
    let r = prepare_request(
        &"k".to_string(),
        &"m".to_string(),
        &vec![],
        &"   ".to_string(),
        &vec![img("image/png", "AAAA")],
        &String::new(),
    )
    .ok()
    .unwrap();
    assert_eq!(
        text_of(&r.contents[0].parts[1]),
        "Solve / explain what's in the image. If it's a coding question, reply with working code in a fenced block."
    );
}

#[test]
fn blank_prompt_without_image_is_sent_as_is() {
    let r = prepare_request(
        &"k".to_string(),
        &"m".to_string(),
        &vec![],
        &"  ".to_string(),
        &vec![],
        &String::new(),
    )
    .ok()
    .unwrap();
    assert_eq!(text_of(&r.contents[0].parts[0]), "  ");
}

#[test]
fn blank_system_prompt_gets_the_default() {
    let r = prepare_request(
        &"k".to_string(),
        &"m".to_string(),
        &vec![],
        &"q".to_string(),
        &vec![],
        &" \n ".to_string(),
    )
    .ok()
    .unwrap();
    assert_eq!(
        r.system_instruction,
        "You are helping a CS student during a coding practice test. Reply with working, copy-pasteable code first inside a single fenced ```lang code block, then a brief 2-3 sentence explanation after. No markdown headers, no preamble."
    );
}

#[test]
fn safety_settings_relax_four_categories() {
    let r = prepare_request(
        &"k".to_string(),
        &"m".to_string(),
        &vec![],
        &"q".to_string(),
        &vec![],
        &String::new(),
    )
    .ok()
    .unwrap();
    let cats: Vec<&str> = r.safety_settings.iter().map(|s| s.category.as_str()).collect();
    assert_eq!(
        cats,
        vec![
            "HARM_CATEGORY_HARASSMENT",
            "HARM_CATEGORY_HATE_SPEECH",
            "HARM_CATEGORY_SEXUALLY_EXPLICIT",
            "HARM_CATEGORY_DANGEROUS_CONTENT"
        ]
    );
    assert!(r.safety_settings.iter().all(|s| s.threshold == "BLOCK_ONLY_HIGH"));
}

#[test]
fn unicode_whitespace_counts_as_blank() {
    let r = prepare_request(
        &"\u{00A0}\u{3000}".to_string(),
        &"m".to_string(),
        &vec![],
        &"q".to_string(),
        &vec![],
        &String::new(),
    );
    assert!(r.is_err());
}

#[test]
fn model_name_is_trimmed_like_str_trim() {
    let samples = [
        "plain",
        "  lead",
        "trail\t\n",
        "\u{2003}em space\u{2003}",
        "\u{85}next line\u{a0}",
        "\u{feff}bom is kept",
        "inner  space kept",
        "\u{3000}\u{2028}\u{2029}x\u{202f}\u{205f}\u{1680}",
        "\u{b}\u{c}\r",
        "",
    ];
    for m in samples {
        let r = prepare_request(&"k".to_string(), &m.to_string(), &vec![], &"q".to_string(), &vec![], &String::new())
            .ok()
            .unwrap();
        assert_eq!(
            r.url,
            format!("https://generativelanguage.googleapis.com/v1beta/models/{}:generateContent", m.trim())
        );
    }
}
