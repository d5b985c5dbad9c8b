//! The stored snippet and the colour theme.

use crate::text::{lowered, same_text, to_lower};
use vstd::prelude::*;

verus! {

/// A stored snippet: its identity, its text, its tags and when it was made.
#[derive(Debug, PartialEq, Eq)]
pub struct Gist {
    pub id: i64,
    pub content: String,
    pub tags: String,
    pub created_at: String,
}

/// What a snippet holds, as plain mathematical values.
pub ghost struct GistView {
    pub id: int,
    pub content: Seq<char>,
    pub tags: Seq<char>,
    pub created_at: Seq<char>,
}

impl View for Gist {
    type V = GistView;

    open spec fn view(&self) -> GistView {
        GistView {
            id: self.id as int,
            content: self.content@,
            tags: self.tags@,
            created_at: self.created_at@,
        }
    }
}

impl Clone for Gist {
    fn clone(&self) -> (r: Self)
        ensures
            r@ == self@,
    {
        Gist {
            id: self.id,
            content: self.content.clone(),
            tags: self.tags.clone(),
            created_at: self.created_at.clone(),
        }
    }
}

/// What a list of snippets holds.
pub open spec fn gists_view(s: Seq<Gist>) -> Seq<GistView> {
    s.map_values(|g: Gist| g@)
}

/// A copy of a list of snippets.
pub fn copy_gists(v: &Vec<Gist>) -> (r: Vec<Gist>)
    ensures
        gists_view(r@) == gists_view(v@),
{
    let mut r: Vec<Gist> = Vec::new();
    let mut i: usize = 0;
    while i < v.len()
        invariant
            i <= v.len(),
            gists_view(r@) == gists_view(v@).take(i as int),
        decreases v.len() - i,
    {
        let g = v[i].clone();
        let ghost before = r@;
        r.push(g);
        proof {
            assert(gists_view(r@) =~= gists_view(before).push(g@));
            assert(gists_view(v@).take(i + 1) =~= gists_view(v@).take(i as int).push(
                v@[i as int]@,
            ));
        }
        i += 1;
    }
    proof {
        assert(gists_view(v@).take(v.len() as int) =~= gists_view(v@));
    }
    r
}

/// The colour theme of the interface.
#[derive(Clone, Copy, Debug, PartialEq, Eq, Structural)]
pub enum Theme {
    Dark,
    Light,
    System,
}

impl Default for Theme {
    fn default() -> (r: Self)
        ensures
            r == Theme::Dark,
    {
        Theme::Dark
    }
}

/// The name that a theme is shown under.
pub open spec fn theme_name(t: Theme) -> Seq<char> {
    match t {
        Theme::Dark => "Dark"@,
        Theme::Light => "Light"@,
        Theme::System => "System"@,
    }
}

/// The theme that a name stands for, in any case of its letters.
pub open spec fn theme_named(name: Seq<char>) -> Option<Theme> {
    if lowered(name) == "dark"@ {
        Some(Theme::Dark)
    } else if lowered(name) == "light"@ {
        Some(Theme::Light)
    } else if lowered(name) == "system"@ {
        Some(Theme::System)
    } else {
        None
    }
}

impl Theme {
    /// The theme that a name stands for: `dark`, `light` or `system` in any
    /// case of the letters, and nothing for any other name.
    pub fn parse(name: &str) -> (r: Option<Theme>)
        ensures
            r == theme_named(name@),
    {
        let low = to_lower(name);
        if same_text(low.as_str(), "dark") {
            Some(Theme::Dark)
        } else if same_text(low.as_str(), "light") {
            Some(Theme::Light)
        } else if same_text(low.as_str(), "system") {
            Some(Theme::System)
        } else {
            None
        }
    }

    /// The theme's name, as it is shown to the user.
    pub fn name(&self) -> (r: String)
        ensures
            r@ == theme_name(*self),
    {
        match self {
            Theme::Dark => "Dark".to_owned(),
            Theme::Light => "Light".to_owned(),
            Theme::System => "System".to_owned(),
        }
    }
}

} // verus!
