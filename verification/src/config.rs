//! The user's settings, and where the store keeps its files.

use crate::models::Theme;
use crate::text::{chars_of, extend, string_of, texts};
use vstd::prelude::*;

verus! {

/// The user's settings.
#[derive(Debug, PartialEq, Eq)]
pub struct Config {
    pub editor: String,
    pub default_tags: Vec<String>,
    pub theme: Theme,
    pub auto_generate_tags: bool,
    pub tag_api_key: Option<String>,
    pub ai_model: Option<String>,
    pub ai_base_url: Option<String>,
}

/// What the settings hold, as plain mathematical values.
pub ghost struct ConfigView {
    pub editor: Seq<char>,
    pub default_tags: Seq<Seq<char>>,
    pub theme: Theme,
    pub auto_generate_tags: bool,
    pub tag_api_key: Option<Seq<char>>,
    pub ai_model: Option<Seq<char>>,
    pub ai_base_url: Option<Seq<char>>,
}

/// What an optional text holds.
pub open spec fn opt_text(o: Option<String>) -> Option<Seq<char>> {
    match o {
        Some(s) => Some(s@),
        None => None,
    }
}

impl View for Config {
    type V = ConfigView;

    open spec fn view(&self) -> ConfigView {
        ConfigView {
            editor: self.editor@,
            default_tags: texts(self.default_tags@),
            theme: self.theme,
            auto_generate_tags: self.auto_generate_tags,
            tag_api_key: opt_text(self.tag_api_key),
            ai_model: opt_text(self.ai_model),
            ai_base_url: opt_text(self.ai_base_url),
        }
    }
}

/// The model that tag suggestions are asked of unless the settings name one.
pub open spec fn default_model() -> Seq<char> {
    "openai/gpt-4o"@
}

/// The service that tag suggestions are asked of unless the settings name one.
pub open spec fn default_base_url() -> Seq<char> {
    "https://openrouter.ai/api/v1"@
}

/// The settings of a fresh installation.
pub open spec fn default_config() -> ConfigView {
    ConfigView {
        editor: Seq::empty(),
        default_tags: seq!["snippet"@],
        theme: Theme::Dark,
        auto_generate_tags: true,
        tag_api_key: None,
        ai_model: Some(default_model()),
        ai_base_url: Some(default_base_url()),
    }
}

/// A copy of an optional text.
pub fn copy_opt(o: &Option<String>) -> (r: Option<String>)
    ensures
        opt_text(r) == opt_text(*o),
{
    match o {
        Some(s) => Some(s.clone()),
        None => None,
    }
}

/// A copy of a list of texts.
pub fn copy_texts(v: &Vec<String>) -> (r: Vec<String>)
    ensures
        texts(r@) == texts(v@),
{
    let mut r: Vec<String> = Vec::new();
    let mut i: usize = 0;
    while i < v.len()
        invariant
            i <= v.len(),
            texts(r@) == texts(v@).take(i as int),
        decreases v.len() - i,
    {
        let s = v[i].clone();
        let ghost before = r@;
        r.push(s);
        proof {
            assert(texts(r@) =~= texts(before).push(s@));
            assert(texts(v@).take(i + 1) =~= texts(v@).take(i as int).push(v@[i as int]@));
        }
        i += 1;
    }
    proof {
        assert(texts(v@).take(v.len() as int) =~= texts(v@));
    }
    r
}

impl Clone for Config {
    fn clone(&self) -> (r: Self)
        ensures
            r@ == self@,
    {
        Config {
            editor: self.editor.clone(),
            default_tags: copy_texts(&self.default_tags),
            theme: self.theme,
            auto_generate_tags: self.auto_generate_tags,
            tag_api_key: copy_opt(&self.tag_api_key),
            ai_model: copy_opt(&self.ai_model),
            ai_base_url: copy_opt(&self.ai_base_url),
        }
    }
}

impl Default for Config {
    fn default() -> (r: Self)
        ensures
            r@ == default_config(),
    {
        let mut tags: Vec<String> = Vec::new();
        tags.push("snippet".to_owned());
        proof {
            assert(texts(tags@) =~= seq!["snippet"@]);
        }
        Config {
            editor: String::new(),
            default_tags: tags,
            theme: Theme::Dark,
            auto_generate_tags: true,
            tag_api_key: None,
            ai_model: Some("openai/gpt-4o".to_owned()),
            ai_base_url: Some("https://openrouter.ai/api/v1".to_owned()),
        }
    }
}

/// A directory path with one more component: the two joined by a slash,
/// unless the directory is empty or ends in one already.
pub open spec fn path_join(dir: Seq<char>, name: Seq<char>) -> Seq<char> {
    if dir.len() == 0 {
        name
    } else if dir.last() == '/' {
        dir + name
    } else {
        dir + seq!['/'] + name
    }
}

/// The directory that holds the store's files, below the home directory.
pub open spec fn gist_dir_of(home: Seq<char>) -> Seq<char> {
    path_join(path_join(home, ".config"@), "gist"@)
}

/// Joins a directory path and a component.
pub fn join_path(dir: &str, name: &str) -> (r: String)
    ensures
        r@ == path_join(dir@, name@),
{
    let mut path = chars_of(dir);
    let tail = chars_of(name);
    if path.len() > 0 && path[path.len() - 1] != '/' {
        path.push('/');
    }
    extend(&mut path, &tail);
    proof {
        if dir@.len() > 0 && dir@.last() != '/' {
            assert(dir@.push('/') =~= dir@ + seq!['/']);
        }
        if dir@.len() == 0 {
            assert(dir@ + name@ =~= name@);
        }
    }
    string_of(&path)
}

/// The directory of the store's files, given the user's home directory;
/// an error where no home directory is known.
pub fn get_gist_dir(home: Option<&str>) -> (r: Result<String, String>)
    ensures
        match home {
            Some(h) => r is Ok && r->Ok_0@ == gist_dir_of(h@),
            None => r is Err && r->Err_0@ == "Could not determine home directory"@,
        },
{
    match home {
        Some(h) => {
            let config_dir = join_path(h, ".config");
            Ok(join_path(config_dir.as_str(), "gist"))
        },
        None => Err("Could not determine home directory".to_owned()),
    }
}

/// The path of the settings file inside the store's directory.
pub fn get_config_path(gist_dir: &str) -> (r: String)
    ensures
        r@ == path_join(gist_dir@, "config.toml"@),
{
    join_path(gist_dir, "config.toml")
}

/// A key for the tag service as the user gave it: an empty one means none.
pub open spec fn given_key(key: Seq<char>) -> Option<Seq<char>> {
    if key.len() == 0 {
        None
    } else {
        Some(key)
    }
}

/// The settings after the user changed some of them. What is not given
/// stays as it is; an empty key removes the key.
pub open spec fn updated_config(
    config: ConfigView,
    editor: Option<Seq<char>>,
    auto_tags: Option<bool>,
    api_key: Option<Seq<char>>,
    theme: Option<Theme>,
) -> ConfigView {
    ConfigView {
        editor: match editor {
            Some(e) => e,
            None => config.editor,
        },
        auto_generate_tags: match auto_tags {
            Some(a) => a,
            None => config.auto_generate_tags,
        },
        tag_api_key: match api_key {
            Some(k) => given_key(k),
            None => config.tag_api_key,
        },
        theme: match theme {
            Some(t) => t,
            None => config.theme,
        },
        ..config
    }
}

impl Config {
    /// Takes over the settings that the user gave and tells whether any was
    /// given.
    pub fn apply(
        &mut self,
        editor: Option<String>,
        auto_tags: Option<bool>,
        api_key: Option<String>,
        theme: Option<Theme>,
    ) -> (changed: bool)
        ensures
            final(self)@ == updated_config(
                old(self)@,
                opt_text(editor),
                auto_tags,
                opt_text(api_key),
                theme,
            ),
            changed == (editor is Some || auto_tags is Some || api_key is Some || theme is Some),
    {
        let mut changed = false;
        if let Some(e) = editor {
            self.editor = e;
            changed = true;
        }
        if let Some(a) = auto_tags {
            self.auto_generate_tags = a;
            changed = true;
        }
        if let Some(k) = api_key {
            self.tag_api_key = if k.as_str().is_empty() {
                None
            } else {
                Some(k)
            };
            changed = true;
        }
        if let Some(t) = theme {
            self.theme = t;
            changed = true;
        }
        changed
    }
}

/// What is to be written after the settings were loaded.
#[derive(Debug, Clone, Copy, PartialEq, Eq, Structural)]
pub enum AfterLoad {
    /// Nothing: the file holds the settings in its present format.
    Keep,
    /// The settings, which the file held in its earlier format.
    Migrate,
    /// The default settings, for want of a readable file.
    WriteDefault,
}

/// What an optional value of the settings holds.
pub open spec fn opt_config(o: Option<Config>) -> Option<ConfigView> {
    match o {
        Some(c) => Some(c@),
        None => None,
    }
}

/// The settings to use, from what the file gave when read in its present
/// format and in its earlier one.
pub open spec fn loaded_config(
    present: Option<ConfigView>,
    earlier: Option<ConfigView>,
) -> ConfigView {
    match present {
        Some(c) => c,
        None => match earlier {
            Some(c) => c,
            None => default_config(),
        },
    }
}

/// What is to be written after loading.
pub open spec fn after_load(present: Option<ConfigView>, earlier: Option<ConfigView>) -> AfterLoad {
    if present is Some {
        AfterLoad::Keep
    } else if earlier is Some {
        AfterLoad::Migrate
    } else {
        AfterLoad::WriteDefault
    }
}

/// Chooses the settings to use: those that the file holds in its present
/// format; else those that it holds in its earlier format, which are then
/// to be written in the present one; else the default settings, which are
/// then to be written.
pub fn resolve_config(present: Option<Config>, earlier: Option<Config>) -> (r: (Config, AfterLoad))
    ensures
        r.0@ == loaded_config(opt_config(present), opt_config(earlier)),
        r.1 == after_load(opt_config(present), opt_config(earlier)),
{
    match present {
        Some(c) => (c, AfterLoad::Keep),
        None => match earlier {
            Some(c) => (c, AfterLoad::Migrate),
            None => (Config::default(), AfterLoad::WriteDefault),
        },
    }
}

} // verus!
