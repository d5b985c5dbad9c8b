//! Tag suggestions: when a completion service is asked for tags, what it is
//! asked, and what the tags are where it is not asked or does not answer.
//! Asking is the caller's part.

use crate::config::{default_base_url, default_model, Config, ConfigView};
use crate::tags::{sanitize_tags, sanitized};
use crate::text::{
    chars_of, concat3, contains, join, join_with, lowered, occurs_in, rows, rows_of, slice_of,
    string_of, to_lower, trim, trimmed,
};
use vstd::prelude::*;

verus! {

/// The words that are looked for in a content as tags of last resort.
pub open spec fn known_words() -> Seq<Seq<char>> {
    seq![
        "rust"@,
        "python"@,
        "javascript"@,
        "html"@,
        "css"@,
        "sql"@,
        "bash"@,
        "code"@,
        "snippet"@,
    ]
}

/// The test of standing in a text.
pub open spec fn stands_in(text: Seq<char>) -> spec_fn(Seq<char>) -> bool {
    |w: Seq<char>| occurs_in(text, w)
}

/// The known words that stand in a content, without regard to its case.
pub open spec fn detected_words(content: Seq<char>) -> Seq<Seq<char>> {
    known_words().filter(stands_in(lowered(content)))
}

/// The separator between tags.
pub open spec fn tag_separator() -> Seq<char> {
    seq![',', ' ']
}

/// The tags where no service is asked: the known words that stand in the
/// content, or the default tags where none does.
pub open spec fn fallback_tags(content: Seq<char>, config: ConfigView) -> Seq<char> {
    if detected_words(content).len() > 0 {
        join(detected_words(content), tag_separator())
    } else {
        join(config.default_tags, tag_separator())
    }
}

/// A text without the slashes at its end.
pub open spec fn without_trailing_slashes(s: Seq<char>) -> Seq<char>
    decreases s.len(),
{
    if s.len() > 0 && s.last() == '/' {
        without_trailing_slashes(s.drop_last())
    } else {
        s
    }
}

/// The address that completions are asked at, below a service's base
/// address.
pub open spec fn completions_url(base: Seq<char>) -> Seq<char> {
    without_trailing_slashes(base) + "/chat/completions"@
}

/// What the service is told to do with a content.
pub open spec fn tag_prompt(content: Seq<char>) -> Seq<char> {
    "Extract 3-5 relevant tags separated by commas:\n"@ + content
}

/// A question to a completion service.
#[derive(Debug, PartialEq, Eq)]
pub struct TagRequest {
    pub url: String,
    pub model: String,
    pub key: String,
    pub prompt: String,
}

/// How the tags of a content are found.
#[derive(Debug, PartialEq, Eq)]
pub enum TagStep {
    /// These are the tags.
    Done(String),
    /// Ask the service, then read its answer with [`tags_from_reply`].
    Ask(TagRequest),
}

/// How the tags of a content are found, as plain mathematical values.
pub ghost enum TagStepView {
    Done(Seq<char>),
    Ask { url: Seq<char>, model: Seq<char>, key: Seq<char>, prompt: Seq<char> },
}

impl View for TagStep {
    type V = TagStepView;

    open spec fn view(&self) -> TagStepView {
        match self {
            TagStep::Done(tags) => TagStepView::Done(tags@),
            TagStep::Ask(r) => TagStepView::Ask {
                url: r.url@,
                model: r.model@,
                key: r.key@,
                prompt: r.prompt@,
            },
        }
    }
}

/// An optional text, or another where there is none.
pub open spec fn text_or(o: Option<Seq<char>>, other: Seq<char>) -> Seq<char> {
    match o {
        Some(s) => s,
        None => other,
    }
}

/// How the tags of a content are found under the given settings: the
/// default tags where suggestions are switched off; a question to the
/// service where a key for it is set; the tags of last resort otherwise.
pub open spec fn tag_plan(content: Seq<char>, config: ConfigView) -> TagStepView {
    if !config.auto_generate_tags {
        TagStepView::Done(join(config.default_tags, tag_separator()))
    } else {
        match config.tag_api_key {
            Some(key) => TagStepView::Ask {
                url: completions_url(text_or(config.ai_base_url, default_base_url())),
                model: text_or(config.ai_model, default_model()),
                key: key,
                prompt: tag_prompt(content),
            },
            None => TagStepView::Done(fallback_tags(content, config)),
        }
    }
}

/// The tags after the service was asked: its answer, trimmed and cleaned,
/// or the tags of last resort where it gave none.
pub open spec fn reply_tags(
    reply: Option<Seq<char>>,
    content: Seq<char>,
    config: ConfigView,
) -> Seq<char> {
    match reply {
        Some(text) => sanitized(trimmed(text)),
        None => fallback_tags(content, config),
    }
}

/// The separator between tags.
fn separator() -> (sep: Vec<char>)
    ensures
        sep@ == tag_separator(),
{
    let mut sep: Vec<char> = Vec::new();
    sep.push(',');
    sep.push(' ');
    proof {
        assert(sep@ =~= tag_separator());
    }
    sep
}

/// The default tags as one tag string.
pub fn default_tag_string(config: &Config) -> (r: String)
    ensures
        r@ == join(config@.default_tags, tag_separator()),
{
    let tags = rows_of(&config.default_tags);
    string_of(&join_with(&tags, &separator()))
}

/// The words that are looked for in a content.
fn word_list() -> (r: Vec<Vec<char>>)
    ensures
        rows(r@) == known_words(),
{
    let mut r: Vec<Vec<char>> = Vec::new();
    r.push(chars_of("rust"));
    r.push(chars_of("python"));
    r.push(chars_of("javascript"));
    r.push(chars_of("html"));
    r.push(chars_of("css"));
    r.push(chars_of("sql"));
    r.push(chars_of("bash"));
    r.push(chars_of("code"));
    r.push(chars_of("snippet"));
    proof {
        assert(rows(r@) =~= known_words());
    }
    r
}

/// The tags where no service is asked.
pub fn fallback(content: &str, config: &Config) -> (r: String)
    ensures
        r@ == fallback_tags(content@, config@),
{
    let text = chars_of(to_lower(content).as_str());
    let known = word_list();
    let mut found: Vec<Vec<char>> = Vec::new();
    let mut i: usize = 0;
    let ghost test = stands_in(lowered(content@));
    proof {
        reveal(Seq::filter);
        assert(rows(known@).take(0) =~= Seq::<Seq<char>>::empty());
        assert(rows(found@) =~= Seq::<Seq<char>>::empty());
    }
    while i < known.len()
        invariant
            i <= known.len(),
            text@ == lowered(content@),
            test == stands_in(lowered(content@)),
            rows(found@) == rows(known@).take(i as int).filter(test),
        decreases known.len() - i,
    {
        proof {
            reveal(Seq::filter);
            let upto = rows(known@).take(i + 1);
            assert(upto.drop_last() =~= rows(known@).take(i as int));
            assert(upto.last() == known@[i as int]@);
        }
        if contains(&text, &known[i]) {
            let word = known[i].clone();
            let ghost before = found@;
            found.push(word);
            proof {
                assert(word@ =~= known@[i as int]@);
                assert(rows(found@) =~= rows(before).push(word@));
            }
        }
        i += 1;
    }
    proof {
        assert(rows(known@).take(known.len() as int) =~= rows(known@));
        assert(rows(found@).len() == found@.len());
    }
    if found.len() > 0 {
        string_of(&join_with(&found, &separator()))
    } else {
        default_tag_string(config)
    }
}

/// A text without the slashes at its end.
pub fn strip_trailing_slashes(s: &str) -> (r: String)
    ensures
        r@ == without_trailing_slashes(s@),
{
    let v = chars_of(s);
    let mut end: usize = v.len();
    proof {
        assert(v@.take(end as int) =~= v@);
    }
    while end > 0 && v[end - 1] == '/'
        invariant
            end <= v.len(),
            without_trailing_slashes(v@) == without_trailing_slashes(v@.take(end as int)),
        decreases end,
    {
        proof {
            assert(v@.take(end as int).drop_last() =~= v@.take(end - 1));
        }
        end -= 1;
    }
    proof {
        assert(v@.subrange(0, end as int) =~= v@.take(end as int));
    }
    string_of(&slice_of(&v, 0, end))
}

/// Decides how the tags of a content are found under the given settings.
pub fn plan_tags(content: &str, config: &Config) -> (step: TagStep)
    ensures
        step@ == tag_plan(content@, config@),
{
    if !config.auto_generate_tags {
        return TagStep::Done(default_tag_string(config));
    }
    match &config.tag_api_key {
        Some(key) => {
            let model = match &config.ai_model {
                Some(m) => m.clone(),
                None => "openai/gpt-4o".to_owned(),
            };
            let base = match &config.ai_base_url {
                Some(b) => strip_trailing_slashes(b.as_str()),
                None => strip_trailing_slashes("https://openrouter.ai/api/v1"),
            };
            let url = concat3(base.as_str(), "/chat/completions", "");
            let prompt = concat3("Extract 3-5 relevant tags separated by commas:\n", content, "");
            proof {
                reveal_strlit("");
                assert(url@ =~= base@ + "/chat/completions"@);
                assert(prompt@ =~= tag_prompt(content@));
            }
            TagStep::Ask(TagRequest { url, model, key: key.clone(), prompt })
        },
        None => TagStep::Done(fallback(content, config)),
    }
}

/// Reads the service's answer: the text of its first suggestion becomes the
/// tags, trimmed and cleaned; without one, the tags of last resort stand.
pub fn tags_from_reply(reply: Option<&str>, content: &str, config: &Config) -> (r: String)
    ensures
        r@ == reply_tags(
            match reply {
                Some(t) => Some(t@),
                None => None,
            },
            content@,
            config@,
        ),
{
    match reply {
        Some(text) => {
            let inner = string_of(&trim(&chars_of(text)));
            sanitize_tags(inner.as_str())
        },
        None => fallback(content, config),
    }
}

/// Where the tags of a changed snippet come from.
#[derive(Debug, PartialEq, Eq)]
pub enum TagChoice {
    /// These are the tags.
    Use(String),
    /// They are to be suggested for the new content; the stored tags stand
    /// where that fails.
    Suggest,
}

/// Where the tags of a changed snippet come from, as plain mathematical
/// values.
pub ghost enum TagChoiceView {
    Use(Seq<char>),
    Suggest,
}

impl View for TagChoice {
    type V = TagChoiceView;

    open spec fn view(&self) -> TagChoiceView {
        match self {
            TagChoice::Use(tags) => TagChoiceView::Use(tags@),
            TagChoice::Suggest => TagChoiceView::Suggest,
        }
    }
}

/// The tags of a changed snippet: those that the user gave, cleaned; else
/// the stored ones where the content is as it was; else new suggestions.
pub open spec fn update_tag_choice(
    given: Option<Seq<char>>,
    content: Seq<char>,
    stored_content: Seq<char>,
    stored_tags: Seq<char>,
) -> TagChoiceView {
    match given {
        Some(tags) => TagChoiceView::Use(sanitized(tags)),
        None => if content == stored_content {
            TagChoiceView::Use(stored_tags)
        } else {
            TagChoiceView::Suggest
        },
    }
}

/// Decides where the tags of a changed snippet come from.
pub fn tags_for_update(
    given: Option<&str>,
    content: &str,
    stored_content: &str,
    stored_tags: &str,
) -> (r: TagChoice)
    ensures
        r@ == update_tag_choice(
            match given {
                Some(t) => Some(t@),
                None => None,
            },
            content@,
            stored_content@,
            stored_tags@,
        ),
{
    match given {
        Some(tags) => TagChoice::Use(sanitize_tags(tags)),
        None => {
            if crate::text::same_text(content, stored_content) {
                TagChoice::Use(stored_tags.to_owned())
            } else {
                TagChoice::Suggest
            }
        },
    }
}

} // verus!
