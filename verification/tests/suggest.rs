use gist::config::Config;
use gist::suggest::{
    default_tag_string, fallback, plan_tags, strip_trailing_slashes, tags_for_update,
    tags_from_reply, TagChoice, TagRequest, TagStep,
};

fn keyed() -> Config {
    let mut c = Config::default();
    c.tag_api_key = Some("secret".to_string());
    c
}

#[test]
fn without_suggestions_the_default_tags_stand() {
    let mut c = keyed();
    c.auto_generate_tags = false;
    c.default_tags = vec!["a".to_string(), "b".to_string()];
    assert_eq!(plan_tags("fn main() {} // rust", &c), TagStep::Done("a, b".to_string()));
    assert_eq!(default_tag_string(&c), "a, b");
}

#[test]
fn with_a_key_the_service_is_asked() {
    assert_eq!(
        plan_tags("let x = 1;", &keyed()),
        TagStep::Ask(TagRequest {
            url: "https://openrouter.ai/api/v1/chat/completions".to_string(),
            model: "openai/gpt-4o".to_string(),
            key: "secret".to_string(),
            prompt: "Extract 3-5 relevant tags separated by commas:\nlet x = 1;".to_string(),
        })
    );
}

#[test]
fn the_settings_name_the_service_and_the_model() {
    let mut c = keyed();
    c.ai_base_url = Some("http://localhost:8080/v1//".to_string());
    c.ai_model = Some("tiny".to_string());
    match plan_tags("x", &c) {
        TagStep::Ask(r) => {
            assert_eq!(r.url, "http://localhost:8080/v1/chat/completions");
            assert_eq!(r.model, "tiny");
        }
        other => panic!("unexpected step {:?}", other),
    }
    c.ai_base_url = None;
    c.ai_model = None;
    match plan_tags("x", &c) {
        TagStep::Ask(r) => {
            assert_eq!(r.url, "https://openrouter.ai/api/v1/chat/completions");
            assert_eq!(r.model, "openai/gpt-4o");
        }
        other => panic!("unexpected step {:?}", other),
    }
}

#[test]
fn without_a_key_known_words_become_tags() {
    let c = Config::default();
    assert_eq!(
        plan_tags("A Python script that emits HTML and CSS", &c),
        TagStep::Done("python, html, css".to_string())
    );
    assert_eq!(fallback("some Rust code", &c), "rust, code");
}

#[test]
fn without_known_words_the_default_tags_stand() {
    assert_eq!(fallback("hello world", &Config::default()), "snippet");
    assert_eq!(fallback("", &Config::default()), "snippet");
}

#[test]
fn the_answer_is_trimmed_and_cleaned() {
    let c = Config::default();
    assert_eq!(
        tags_from_reply(Some("  rust , cli,, tools \n"), "x", &c),
        "rust, cli, tools"
    );
    assert_eq!(tags_from_reply(Some(""), "x", &c), "");
}

#[test]
fn without_an_answer_the_fallback_stands() {
    let c = Config::default();
    assert_eq!(tags_from_reply(None, "SELECT * -- sql", &c), "sql");
    assert_eq!(tags_from_reply(None, "plain", &c), "snippet");
}

#[test]
fn trailing_slashes_are_removed() {
    assert_eq!(strip_trailing_slashes("http://a/b///"), "http://a/b");
    assert_eq!(strip_trailing_slashes("http://a/b"), "http://a/b");
    assert_eq!(strip_trailing_slashes("///"), "");
    assert_eq!(strip_trailing_slashes(""), "");
}

#[test]
fn given_tags_win_over_stored_ones() {
    assert_eq!(
        tags_for_update(Some(" a ,, b"), "new", "old", "x"),
        TagChoice::Use("a, b".to_string())
    );
    assert_eq!(
        tags_for_update(Some("a"), "same", "same", "x"),
        TagChoice::Use("a".to_string())
    );
}

#[test]
fn an_unchanged_content_keeps_its_tags() {
    assert_eq!(tags_for_update(None, "same", "same", "x, y"), TagChoice::Use("x, y".to_string()));
}

#[test]
fn a_changed_content_gets_new_suggestions() {
    assert_eq!(tags_for_update(None, "new", "old", "x, y"), TagChoice::Suggest);
}
