//! The interactive viewer: its state, what each key does in each mode, and
//! how the results of store operations are folded back into the state.
//!
//! The viewer itself neither draws nor reads keys nor touches the store. A
//! caller's event loop hands it keys and outcomes, and carries out the
//! [`Action`] that each step answers with.

use crate::config::{Config, ConfigView};
use crate::models::{copy_gists, gists_view, Gist, GistView};
use crate::text::{
    chars_of, contains, decimal, decimal_of, digits_of, extend, lowered, occurs_at, occurs_in,
    pop_char, push_char, string_of, to_lower,
};
use vstd::prelude::*;

verus! {

/// How long a status message stays visible, in milliseconds.
pub const STATUS_MILLIS: u64 = 5000;

/// How many rows a page key moves the selection or the help text.
pub const PAGE_STEP: usize = 10;

/// What a confirmation dialog asks about.
#[derive(Debug, Clone, Copy, PartialEq, Eq, Structural)]
pub enum ConfirmAction {
    Delete(i64),
    Quit,
}

/// How keys are read at the moment.
#[derive(Debug, Clone, Copy, PartialEq, Eq, Structural)]
pub enum InputMode {
    Normal,
    Searching,
    Confirming(ConfirmAction),
    TagEditing,
    Help,
}

/// The panel that is drawn as focused.
#[derive(Debug, Clone, Copy, PartialEq, Eq, Structural)]
pub enum Panel {
    List,
    Content,
}

/// How a viewer session ended.
#[derive(Debug, PartialEq, Eq)]
pub enum UIResult {
    Modified,
    NoChanges,
    Error(String),
}

/// How a viewer session ended, as plain mathematical values.
pub ghost enum UIResultView {
    Modified,
    NoChanges,
    Error(Seq<char>),
}

impl View for UIResult {
    type V = UIResultView;

    open spec fn view(&self) -> UIResultView {
        match self {
            UIResult::Modified => UIResultView::Modified,
            UIResult::NoChanges => UIResultView::NoChanges,
            UIResult::Error(m) => UIResultView::Error(m@),
        }
    }
}

/// The viewer's state, as plain mathematical values.
pub ghost struct StateView {
    /// Every snippet, in the store's order.
    pub all: Seq<GistView>,
    /// The snippets that are listed.
    pub filtered: Seq<GistView>,
    /// The listed row that is selected.
    pub selected: Option<usize>,
    pub mode: InputMode,
    /// The query as typed so far.
    pub search_query: Seq<char>,
    /// The query that `filtered` was last computed from.
    pub active_query: Seq<char>,
    pub edit_buffer: Seq<char>,
    /// The status message and the time it was set at.
    pub status: Option<(Seq<char>, u64)>,
    pub modified: bool,
    pub help_scroll: u16,
    pub config: ConfigView,
    pub focused_panel: Panel,
}

/// A snippet matches a search key when its lowercase content, its lowercase
/// tags or its id in decimal holds the key.
pub open spec fn gist_matches(g: GistView, key: Seq<char>) -> bool {
    ||| occurs_in(lowered(g.content), key)
    ||| occurs_in(lowered(g.tags), key)
    ||| occurs_in(decimal(g.id), key)
}

/// The test of matching a key.
pub open spec fn hit(key: Seq<char>) -> spec_fn(GistView) -> bool {
    |g: GistView| gist_matches(g, key)
}

/// The snippets that match a key, in their order.
pub open spec fn matching(all: Seq<GistView>, key: Seq<char>) -> Seq<GistView> {
    all.filter(hit(key))
}

/// The snippets that a query finds: those that match it without regard to
/// case.
pub open spec fn search_results(all: Seq<GistView>, query: Seq<char>) -> Seq<GistView> {
    matching(all, lowered(query))
}

/// The selection in a freshly computed list: its first row, if it has one.
pub open spec fn first_row(len: nat) -> Option<usize> {
    if len == 0 {
        None
    } else {
        Some(0usize)
    }
}

/// The selection brought back into a list of the given length: unchanged
/// where it still names a row, else the last row; the first row where
/// nothing was selected; nothing in an empty list.
pub open spec fn clamped(sel: Option<usize>, len: nat) -> Option<usize> {
    if len == 0 {
        None
    } else {
        match sel {
            Some(i) => if i < len {
                Some(i)
            } else {
                Some((len - 1) as usize)
            },
            None => Some(0usize),
        }
    }
}

/// One step down, from the last row round to the first.
pub open spec fn next_row(sel: Option<usize>, len: nat) -> Option<usize> {
    if len == 0 {
        sel
    } else {
        match sel {
            Some(i) => if i + 1 >= len {
                Some(0usize)
            } else {
                Some((i + 1) as usize)
            },
            None => Some(0usize),
        }
    }
}

/// One step up, from the first row round to the last.
pub open spec fn prev_row(sel: Option<usize>, len: nat) -> Option<usize> {
    if len == 0 {
        sel
    } else {
        match sel {
            Some(i) => if i == 0 || i > len {
                Some((len - 1) as usize)
            } else {
                Some((i - 1) as usize)
            },
            None => Some(0usize),
        }
    }
}

/// A page down, stopping at the last row.
pub open spec fn page_down_row(sel: Option<usize>, len: nat) -> Option<usize> {
    if len == 0 {
        sel
    } else {
        match sel {
            Some(i) => if i + PAGE_STEP >= len {
                Some((len - 1) as usize)
            } else {
                Some((i + PAGE_STEP) as usize)
            },
            None => Some(0usize),
        }
    }
}

/// A page up, stopping at the first row.
pub open spec fn page_up_row(sel: Option<usize>, len: nat) -> Option<usize> {
    if len == 0 {
        sel
    } else {
        match sel {
            Some(i) => if i < PAGE_STEP {
                Some(0usize)
            } else if i - PAGE_STEP >= len {
                Some((len - 1) as usize)
            } else {
                Some((i - PAGE_STEP) as usize)
            },
            None => Some(0usize),
        }
    }
}

impl StateView {
    /// The state's invariant: the listed snippets are those that the active
    /// query finds, the selection names a listed row or the list is empty,
    /// and the edit buffer is empty outside tag editing.
    pub open spec fn wf(self) -> bool {
        &&& self.filtered == search_results(self.all, self.active_query)
        &&& match self.selected {
            Some(i) => i < self.filtered.len(),
            None => self.filtered.len() == 0,
        }
        &&& self.buffer_ok()
    }

    /// The edit buffer is empty outside tag editing.
    pub open spec fn buffer_ok(self) -> bool {
        self.mode != InputMode::TagEditing ==> self.edit_buffer.len() == 0
    }

    /// The selected snippet.
    pub open spec fn current(self) -> Option<GistView> {
        match self.selected {
            Some(i) => if i < self.filtered.len() {
                Some(self.filtered[i as int])
            } else {
                None
            },
            None => None,
        }
    }

    /// The status message that is visible at `now`.
    pub open spec fn status_at(self, now: u64) -> Option<Seq<char>> {
        match self.status {
            Some((msg, at)) => if now < at || now - at < STATUS_MILLIS {
                Some(msg)
            } else {
                None
            },
            None => None,
        }
    }

    /// The state with a status message set at `now`.
    pub open spec fn with_status(self, msg: Seq<char>, now: u64) -> StateView {
        StateView { status: Some((msg, now)), ..self }
    }

    /// The state with every snippet listed, the query forgotten and the
    /// first row selected.
    pub open spec fn unfiltered(self) -> StateView {
        StateView {
            filtered: self.all,
            selected: first_row(self.all.len()),
            search_query: Seq::empty(),
            active_query: Seq::empty(),
            ..self
        }
    }

    /// The state after the typed query was applied.
    pub open spec fn searched(self) -> StateView {
        StateView {
            filtered: search_results(self.all, self.search_query),
            selected: first_row(search_results(self.all, self.search_query).len()),
            active_query: self.search_query,
            ..self
        }
    }

    /// The state after the store's list was read anew.
    pub open spec fn reloaded(self, gists: Seq<GistView>) -> StateView {
        StateView {
            all: gists,
            filtered: gists,
            selected: first_row(gists.len()),
            active_query: Seq::empty(),
            ..self
        }
    }
}

/// The state that a session starts in.
pub open spec fn initial_state(gists: Seq<GistView>, config: ConfigView) -> StateView {
    StateView {
        all: gists,
        filtered: gists,
        selected: first_row(gists.len()),
        mode: InputMode::Normal,
        search_query: Seq::empty(),
        active_query: Seq::empty(),
        edit_buffer: Seq::empty(),
        status: None,
        modified: false,
        help_scroll: 0,
        config: config,
        focused_panel: Panel::List,
    }
}

/// What an optional status message holds.
pub open spec fn status_view(o: Option<(String, u64)>) -> Option<(Seq<char>, u64)> {
    match o {
        Some((m, at)) => Some((m@, at)),
        None => None,
    }
}

/// What an optional snippet of one's own holds.
pub open spec fn fetched_view(o: Option<Gist>) -> Option<GistView> {
    match o {
        Some(g) => Some(g@),
        None => None,
    }
}

/// What an optional snippet holds.
pub open spec fn opt_gist_view(o: Option<&Gist>) -> Option<GistView> {
    match o {
        Some(g) => Some(g@),
        None => None,
    }
}

/// The empty key stands in every text, so every snippet matches it.
pub proof fn lemma_empty_key_matches_all(all: Seq<GistView>)
    ensures
        matching(all, Seq::empty()) == all,
    decreases all.len(),
{
    reveal(Seq::filter);
    if all.len() > 0 {
        lemma_empty_key_matches_all(all.drop_last());
        let g = all.last();
        let text = lowered(g.content);
        assert(text.subrange(0, 0) =~= Seq::<char>::empty());
        assert(occurs_at(text, Seq::empty(), 0));
        assert(gist_matches(g, Seq::empty()));
        assert(all.drop_last().push(g) =~= all);
    } else {
        assert(matching(all, Seq::empty()) =~= all);
    }
}

/// An empty query finds every snippet.
pub proof fn lemma_empty_query_finds_all(all: Seq<GistView>)
    ensures
        search_results(all, Seq::empty()) == all,
{
    lemma_empty_key_matches_all(all);
}

/// The viewer's state.
pub struct AppState {
    all_gists: Vec<Gist>,
    filtered_gists: Vec<Gist>,
    selected: Option<usize>,
    mode: InputMode,
    search_query: String,
    active_query: String,
    edit_buffer: String,
    status_message: Option<(String, u64)>,
    modified: bool,
    help_scroll: u16,
    config: Config,
    focused_panel: Panel,
}

impl View for AppState {
    type V = StateView;

    closed spec fn view(&self) -> StateView {
        StateView {
            all: gists_view(self.all_gists@),
            filtered: gists_view(self.filtered_gists@),
            selected: self.selected,
            mode: self.mode,
            search_query: self.search_query@,
            active_query: self.active_query@,
            edit_buffer: self.edit_buffer@,
            status: status_view(self.status_message),
            modified: self.modified,
            help_scroll: self.help_scroll,
            config: self.config@,
            focused_panel: self.focused_panel,
        }
    }
}

/// Whether a snippet matches a search key.
fn gist_hit(g: &Gist, key: &Vec<char>) -> (b: bool)
    ensures
        b == gist_matches(g@, key@),
{
    let content = to_lower(g.content.as_str());
    if contains(&chars_of(content.as_str()), key) {
        return true;
    }
    let tags = to_lower(g.tags.as_str());
    if contains(&chars_of(tags.as_str()), key) {
        return true;
    }
    contains(&decimal_of(g.id), key)
}

/// The snippets that match a key, in their order.
fn filter_gists(all: &Vec<Gist>, key: &Vec<char>) -> (out: Vec<Gist>)
    ensures
        gists_view(out@) == matching(gists_view(all@), key@),
{
    let mut out: Vec<Gist> = Vec::new();
    let mut i: usize = 0;
    proof {
        reveal(Seq::filter);
        assert(gists_view(all@).take(0) =~= Seq::<GistView>::empty());
        assert(gists_view(out@) =~= Seq::<GistView>::empty());
    }
    while i < all.len()
        invariant
            i <= all.len(),
            gists_view(out@) == matching(gists_view(all@).take(i as int), key@),
        decreases all.len() - i,
    {
        proof {
            reveal(Seq::filter);
            let upto = gists_view(all@).take(i + 1);
            assert(upto.drop_last() =~= gists_view(all@).take(i as int));
            assert(upto.last() == all@[i as int]@);
        }
        if gist_hit(&all[i], key) {
            let g = all[i].clone();
            let ghost before = out@;
            out.push(g);
            proof {
                assert(gists_view(out@) =~= gists_view(before).push(g@));
            }
        }
        i += 1;
    }
    proof {
        assert(gists_view(all@).take(all.len() as int) =~= gists_view(all@));
    }
    out
}

/// The selection in a freshly computed list.
fn first_of(len: usize) -> (r: Option<usize>)
    ensures
        r == first_row(len as nat),
{
    if len == 0 {
        None
    } else {
        Some(0)
    }
}

impl AppState {
    /// The state's invariant, see [`StateView::wf`].
    pub open spec fn wf(&self) -> bool {
        self@.wf()
    }

    /// The state that a session starts in: every snippet listed, the first
    /// one selected, nothing modified.
    pub fn new(gists: Vec<Gist>, config: Config) -> (s: Self)
        ensures
            s@ == initial_state(gists_view(gists@), config@),
            s.wf(),
    {
        let filtered = copy_gists(&gists);
        let selected = first_of(filtered.len());
        proof {
            lemma_empty_query_finds_all(gists_view(gists@));
        }
        AppState {
            filtered_gists: filtered,
            all_gists: gists,
            selected: selected,
            mode: InputMode::Normal,
            search_query: String::new(),
            active_query: String::new(),
            edit_buffer: String::new(),
            status_message: None,
            modified: false,
            help_scroll: 0,
            config: config,
            focused_panel: Panel::List,
        }
    }

    /// Replaces the snippets by a fresh list from the store and lists them
    /// all.
    pub fn reload(&mut self, gists: Vec<Gist>)
        ensures
            final(self)@ == old(self)@.reloaded(gists_view(gists@)),
            old(self)@.buffer_ok() ==> final(self).wf(),
    {
        self.filtered_gists = copy_gists(&gists);
        self.all_gists = gists;
        self.selected = first_of(self.filtered_gists.len());
        self.active_query = String::new();
        proof {
            lemma_empty_query_finds_all(gists_view(gists@));
        }
    }

    /// Lists every snippet again and forgets the query.
    pub fn reset_filter(&mut self)
        ensures
            final(self)@ == old(self)@.unfiltered(),
            old(self)@.buffer_ok() ==> final(self).wf(),
    {
        self.filtered_gists = copy_gists(&self.all_gists);
        self.selected = first_of(self.filtered_gists.len());
        self.search_query = String::new();
        self.active_query = String::new();
        proof {
            lemma_empty_query_finds_all(gists_view(self.all_gists@));
        }
    }

    /// Applies the typed query: lists the snippets whose content, tags or id
    /// hold it, without regard to case, and selects the first of them.
    pub fn do_search(&mut self)
        ensures
            final(self)@ == old(self)@.searched(),
            old(self)@.buffer_ok() ==> final(self).wf(),
    {
        let q = to_lower(self.search_query.as_str());
        let key = chars_of(q.as_str());
        self.filtered_gists = filter_gists(&self.all_gists, &key);
        self.selected = first_of(self.filtered_gists.len());
        self.active_query = self.search_query.clone();
    }

    /// Shows a status message from `now` on.
    pub fn set_status(&mut self, msg: String, now: u64)
        ensures
            final(self)@ == old(self)@.with_status(msg@, now),
    {
        self.status_message = Some((msg, now));
    }

    /// The status message, while it is less than five seconds old.
    pub fn get_status(&self, now: u64) -> (r: Option<String>)
        ensures
            crate::config::opt_text(r) == self@.status_at(now),
    {
        match &self.status_message {
            Some((msg, at)) => {
                if now < *at || now - *at < STATUS_MILLIS {
                    Some(msg.clone())
                } else {
                    None
                }
            },
            None => None,
        }
    }

    /// Moves the selection one row down, from the last row to the first.
    pub fn select_next(&mut self)
        ensures
            final(self)@ == (StateView {
                selected: next_row(old(self)@.selected, old(self)@.filtered.len()),
                ..old(self)@
            }),
            old(self).wf() ==> final(self).wf(),
    {
        let len = self.filtered_gists.len();
        if len == 0 {
            return ;
        }
        let i: usize = match self.selected {
            Some(i) => if i >= len - 1 {
                0
            } else {
                i + 1
            },
            None => 0,
        };
        self.selected = Some(i);
    }

    /// Moves the selection one row up, from the first row to the last.
    pub fn select_prev(&mut self)
        ensures
            final(self)@ == (StateView {
                selected: prev_row(old(self)@.selected, old(self)@.filtered.len()),
                ..old(self)@
            }),
            old(self).wf() ==> final(self).wf(),
    {
        let len = self.filtered_gists.len();
        if len == 0 {
            return ;
        }
        let i: usize = match self.selected {
            Some(i) => if i == 0 || i > len {
                len - 1
            } else {
                i - 1
            },
            None => 0,
        };
        self.selected = Some(i);
    }

    /// The selected snippet.
    pub fn current_gist(&self) -> (r: Option<&Gist>)
        ensures
            opt_gist_view(r) == self@.current(),
    {
        match self.selected {
            Some(i) => if i < self.filtered_gists.len() {
                Some(&self.filtered_gists[i])
            } else {
                None
            },
            None => None,
        }
    }

    /// The id of the selected snippet.
    pub fn selected_id(&self) -> (r: Option<i64>)
        ensures
            match (r, self@.current()) {
                (Some(id), Some(g)) => id == g.id,
                (None, None) => true,
                _ => false,
            },
    {
        match self.current_gist() {
            Some(g) => Some(g.id),
            None => None,
        }
    }

    /// Moves the focus to the other panel.
    pub fn toggle_panel(&mut self)
        ensures
            final(self)@ == (StateView {
                focused_panel: match old(self)@.focused_panel {
                    Panel::List => Panel::Content,
                    Panel::Content => Panel::List,
                },
                ..old(self)@
            }),
            old(self).wf() ==> final(self).wf(),
    {
        self.focused_panel = match self.focused_panel {
            Panel::List => Panel::Content,
            Panel::Content => Panel::List,
        };
    }
}

/// A key press, as far as the viewer tells keys apart.
#[derive(Debug, Clone, Copy, PartialEq, Eq, Structural)]
pub enum Key {
    Char(char),
    Enter,
    Esc,
    Backspace,
    Up,
    Down,
    PageUp,
    PageDown,
    Home,
    End,
    Tab,
    Other,
}

/// A request to the store, as the background worker takes it.
#[derive(Debug, PartialEq, Eq)]
pub enum DbOperation {
    Add(String, String),
    Update(i64, String, String),
    Delete(i64),
    Get(i64),
}

/// A request to the store, as plain mathematical values.
pub ghost enum DbOperationView {
    Add(Seq<char>, Seq<char>),
    Update(int, Seq<char>, Seq<char>),
    Delete(int),
    Get(int),
}

impl View for DbOperation {
    type V = DbOperationView;

    open spec fn view(&self) -> DbOperationView {
        match self {
            DbOperation::Add(content, tags) => DbOperationView::Add(content@, tags@),
            DbOperation::Update(id, content, tags) => DbOperationView::Update(
                *id as int,
                content@,
                tags@,
            ),
            DbOperation::Delete(id) => DbOperationView::Delete(*id as int),
            DbOperation::Get(id) => DbOperationView::Get(*id as int),
        }
    }
}

/// What the event loop has to do after a step of the viewer.
#[derive(Debug, PartialEq, Eq)]
pub enum Action {
    /// Nothing but draw again.
    Nothing,
    /// Leave the loop and report how the session ended.
    Quit(UIResult),
    /// Run the named editor on an empty file and hand back what it wrote.
    EditNew(String),
    /// Run the editor on a snippet's content and hand back what it wrote.
    EditExisting { editor: String, id: i64, content: String, tags: String },
    /// Put the text on the system clipboard and hand back how that went.
    Copy(String),
    /// Read the whole list from the store and hand it back.
    Reload,
    /// Hand the request to the background worker.
    Submit(DbOperation),
}

/// What the event loop has to do, as plain mathematical values.
pub ghost enum ActionView {
    Nothing,
    Quit(UIResultView),
    EditNew(Seq<char>),
    EditExisting { editor: Seq<char>, id: int, content: Seq<char>, tags: Seq<char> },
    Copy(Seq<char>),
    Reload,
    Submit(DbOperationView),
}

impl View for Action {
    type V = ActionView;

    open spec fn view(&self) -> ActionView {
        match self {
            Action::Nothing => ActionView::Nothing,
            Action::Quit(r) => ActionView::Quit(r@),
            Action::EditNew(editor) => ActionView::EditNew(editor@),
            Action::EditExisting { editor, id, content, tags } => ActionView::EditExisting {
                editor: editor@,
                id: *id as int,
                content: content@,
                tags: tags@,
            },
            Action::Copy(text) => ActionView::Copy(text@),
            Action::Reload => ActionView::Reload,
            Action::Submit(op) => ActionView::Submit(op@),
        }
    }
}

/// The message shown where a key needs a selected snippet and there is none.
pub open spec fn no_selection() -> Seq<char> {
    "No gist selected"@
}

/// The editor that the viewer starts: the configured one, or `nvim` where
/// none is configured.
pub open spec fn editor_command(config: ConfigView) -> Seq<char> {
    if config.editor.len() == 0 {
        "nvim"@
    } else {
        config.editor
    }
}

/// The help text's offset after scrolling up by `n` lines, not above the top.
pub open spec fn scrolled_up(offset: u16, n: u16) -> u16 {
    if offset > n {
        (offset - n) as u16
    } else {
        0
    }
}

/// The help text's offset after scrolling down by `n` lines, as far as the
/// counter reaches.
pub open spec fn scrolled_down(offset: u16, n: u16) -> u16 {
    if offset + n > u16::MAX {
        u16::MAX
    } else {
        (offset + n) as u16
    }
}

/// A text without its last character, if it has one.
pub open spec fn without_last(s: Seq<char>) -> Seq<char> {
    if s.len() > 0 {
        s.drop_last()
    } else {
        s
    }
}

impl StateView {
    /// The state with another selection.
    pub open spec fn select(self, sel: Option<usize>) -> StateView {
        StateView { selected: sel, ..self }
    }

    /// The state in another mode.
    pub open spec fn in_mode(self, mode: InputMode) -> StateView {
        StateView { mode: mode, ..self }
    }

    /// The state after a key in normal mode.
    pub open spec fn normal_key(self, key: Key, now: u64) -> StateView {
        let len = self.filtered.len();
        match key {
            Key::Char(c) => if c == 'q' {
                if self.modified {
                    self.in_mode(InputMode::Confirming(ConfirmAction::Quit))
                } else {
                    self
                }
            } else if c == '?' {
                StateView { mode: InputMode::Help, help_scroll: 0, ..self }
            } else if c == 's' || c == '/' {
                StateView { mode: InputMode::Searching, search_query: Seq::empty(), ..self }
            } else if c == 'e' || c == 'y' {
                if self.current() is Some {
                    self
                } else {
                    self.with_status(no_selection(), now)
                }
            } else if c == 'd' {
                match self.current() {
                    Some(g) => self.in_mode(
                        InputMode::Confirming(ConfirmAction::Delete(g.id as i64)),
                    ),
                    None => self.with_status(no_selection(), now),
                }
            } else if c == 't' {
                match self.current() {
                    Some(g) => StateView {
                        mode: InputMode::TagEditing,
                        edit_buffer: g.tags,
                        ..self
                    },
                    None => self.with_status(no_selection(), now),
                }
            } else if c == 'j' {
                self.select(next_row(self.selected, len))
            } else if c == 'k' {
                self.select(prev_row(self.selected, len))
            } else {
                self
            },
            Key::Down => self.select(next_row(self.selected, len)),
            Key::Up => self.select(prev_row(self.selected, len)),
            Key::PageDown => self.select(page_down_row(self.selected, len)),
            Key::PageUp => self.select(page_up_row(self.selected, len)),
            Key::Home => if len > 0 {
                self.select(Some(0usize))
            } else {
                self
            },
            Key::End => if len > 0 {
                self.select(Some((len - 1) as usize))
            } else {
                self
            },
            Key::Tab => StateView {
                focused_panel: match self.focused_panel {
                    Panel::List => Panel::Content,
                    Panel::Content => Panel::List,
                },
                ..self
            },
            _ => self,
        }
    }

    /// The state after a key while a query is typed.
    pub open spec fn search_key(self, key: Key) -> StateView {
        match key {
            Key::Esc => self.in_mode(InputMode::Normal).unfiltered(),
            Key::Enter => self.in_mode(InputMode::Normal).searched(),
            Key::Backspace => StateView { search_query: without_last(self.search_query), ..self },
            Key::Char(c) => StateView { search_query: self.search_query.push(c), ..self },
            _ => self,
        }
    }

    /// The state after a key while tags are edited.
    pub open spec fn tag_key(self, key: Key) -> StateView {
        match key {
            Key::Esc | Key::Enter => StateView {
                mode: InputMode::Normal,
                edit_buffer: Seq::empty(),
                ..self
            },
            Key::Backspace => StateView { edit_buffer: without_last(self.edit_buffer), ..self },
            Key::Char(c) => StateView { edit_buffer: self.edit_buffer.push(c), ..self },
            _ => self,
        }
    }

    /// The state after a key while the help text is shown.
    pub open spec fn help_key(self, key: Key) -> StateView {
        match key {
            Key::Esc => self.in_mode(InputMode::Normal),
            Key::Char(c) => if c == '?' {
                self.in_mode(InputMode::Normal)
            } else {
                self
            },
            Key::Up => StateView { help_scroll: scrolled_up(self.help_scroll, 1), ..self },
            Key::Down => StateView { help_scroll: scrolled_down(self.help_scroll, 1), ..self },
            Key::PageUp => StateView {
                help_scroll: scrolled_up(self.help_scroll, PAGE_STEP as u16),
                ..self
            },
            Key::PageDown => StateView {
                help_scroll: scrolled_down(self.help_scroll, PAGE_STEP as u16),
                ..self
            },
            _ => self,
        }
    }

    /// The state after a key while a confirmation is asked for.
    pub open spec fn confirm_key(self, what: ConfirmAction, key: Key) -> StateView {
        match key {
            Key::Esc => self.in_mode(InputMode::Normal),
            Key::Char(c) => if c == 'y' && what is Delete {
                self.in_mode(InputMode::Normal)
            } else {
                self
            },
            _ => self,
        }
    }

    /// The state after a key, whatever the mode.
    pub open spec fn after_key(self, key: Key, now: u64) -> StateView {
        match self.mode {
            InputMode::Normal => self.normal_key(key, now),
            InputMode::Searching => self.search_key(key),
            InputMode::TagEditing => self.tag_key(key),
            InputMode::Help => self.help_key(key),
            InputMode::Confirming(what) => self.confirm_key(what, key),
        }
    }

    /// How a session ends when the user leaves it in this state.
    pub open spec fn verdict(self) -> UIResultView {
        if self.modified {
            UIResultView::Modified
        } else {
            UIResultView::NoChanges
        }
    }

    /// What the event loop has to do after a key.
    pub open spec fn action_for(self, key: Key) -> ActionView {
        match (self.mode, key) {
            (InputMode::Normal, Key::Char(c)) => if c == 'q' && !self.modified {
                ActionView::Quit(UIResultView::NoChanges)
            } else if c == 'a' {
                ActionView::EditNew(editor_command(self.config))
            } else if c == 'e' {
                match self.current() {
                    Some(g) => ActionView::EditExisting {
                        editor: editor_command(self.config),
                        id: g.id,
                        content: g.content,
                        tags: g.tags,
                    },
                    None => ActionView::Nothing,
                }
            } else if c == 'y' {
                match self.current() {
                    Some(g) => ActionView::Copy(g.content),
                    None => ActionView::Nothing,
                }
            } else if c == 'r' {
                ActionView::Reload
            } else {
                ActionView::Nothing
            },
            (InputMode::TagEditing, Key::Enter) => match self.current() {
                Some(g) => ActionView::Submit(
                    DbOperationView::Update(g.id, g.content, self.edit_buffer),
                ),
                None => ActionView::Nothing,
            },
            (InputMode::Confirming(what), Key::Char(c)) => if c == 'y' {
                match what {
                    ConfirmAction::Quit => ActionView::Quit(self.verdict()),
                    ConfirmAction::Delete(id) => ActionView::Submit(
                        DbOperationView::Delete(id as int),
                    ),
                }
            } else {
                ActionView::Nothing
            },
            _ => ActionView::Nothing,
        }
    }
}

/// The help text's offset after scrolling up.
fn scroll_up(offset: u16, n: u16) -> (r: u16)
    ensures
        r == scrolled_up(offset, n),
{
    if offset > n {
        offset - n
    } else {
        0
    }
}

/// The help text's offset after scrolling down.
fn scroll_down(offset: u16, n: u16) -> (r: u16)
    ensures
        r == scrolled_down(offset, n),
{
    if offset > u16::MAX - n {
        u16::MAX
    } else {
        offset + n
    }
}

impl AppState {
    /// The editor that the viewer starts.
    pub fn editor(&self) -> (r: String)
        ensures
            r@ == editor_command(self@.config),
    {
        if self.config.editor.as_str().is_empty() {
            "nvim".to_owned()
        } else {
            self.config.editor.clone()
        }
    }

    /// How the session ends when the user leaves it now.
    pub fn verdict(&self) -> (r: UIResult)
        ensures
            r@ == self@.verdict(),
    {
        if self.modified {
            UIResult::Modified
        } else {
            UIResult::NoChanges
        }
    }

    /// Moves the selection a page down, stopping at the last row.
    pub fn page_down(&mut self)
        ensures
            final(self)@ == old(self)@.select(
                page_down_row(old(self)@.selected, old(self)@.filtered.len()),
            ),
            old(self).wf() ==> final(self).wf(),
    {
        let len = self.filtered_gists.len();
        if len == 0 {
            return ;
        }
        let i: usize = match self.selected {
            Some(i) => if i >= len - 1 || len - 1 - i <= PAGE_STEP {
                len - 1
            } else {
                i + PAGE_STEP
            },
            None => 0,
        };
        self.selected = Some(i);
    }

    /// Moves the selection a page up, stopping at the first row.
    pub fn page_up(&mut self)
        ensures
            final(self)@ == old(self)@.select(
                page_up_row(old(self)@.selected, old(self)@.filtered.len()),
            ),
            old(self).wf() ==> final(self).wf(),
    {
        let len = self.filtered_gists.len();
        if len == 0 {
            return ;
        }
        let i: usize = match self.selected {
            Some(i) => if i < PAGE_STEP {
                0
            } else if i - PAGE_STEP >= len {
                len - 1
            } else {
                i - PAGE_STEP
            },
            None => 0,
        };
        self.selected = Some(i);
    }

    /// A key in normal mode.
    fn on_normal_key(&mut self, key: Key, now: u64) -> (action: Action)
        requires
            old(self).wf(),
            old(self)@.mode == InputMode::Normal,
        ensures
            final(self)@ == old(self)@.normal_key(key, now),
            action@ == old(self)@.action_for(key),
            final(self).wf(),
    {
        match key {
            Key::Char(c) => {
                if c == 'q' {
                    if self.modified {
                        self.mode = InputMode::Confirming(ConfirmAction::Quit);
                        Action::Nothing
                    } else {
                        Action::Quit(UIResult::NoChanges)
                    }
                } else if c == '?' {
                    self.mode = InputMode::Help;
                    self.help_scroll = 0;
                    Action::Nothing
                } else if c == 's' || c == '/' {
                    self.mode = InputMode::Searching;
                    self.search_query = String::new();
                    Action::Nothing
                } else if c == 'a' {
                    Action::EditNew(self.editor())
                } else if c == 'e' {
                    let editor = self.editor();
                    let job = match self.current_gist() {
                        Some(g) => Some((g.id, g.content.clone(), g.tags.clone())),
                        None => None,
                    };
                    match job {
                        Some((id, content, tags)) => Action::EditExisting {
                            editor,
                            id,
                            content,
                            tags,
                        },
                        None => {
                            self.set_status("No gist selected".to_owned(), now);
                            Action::Nothing
                        },
                    }
                } else if c == 'd' {
                    match self.selected_id() {
                        Some(id) => {
                            self.mode = InputMode::Confirming(ConfirmAction::Delete(id));
                        },
                        None => {
                            self.set_status("No gist selected".to_owned(), now);
                        },
                    }
                    Action::Nothing
                } else if c == 't' {
                    let tags = match self.current_gist() {
                        Some(g) => Some(g.tags.clone()),
                        None => None,
                    };
                    match tags {
                        Some(current_tags) => {
                            self.edit_buffer = current_tags;
                            self.mode = InputMode::TagEditing;
                        },
                        None => {
                            self.set_status("No gist selected".to_owned(), now);
                        },
                    }
                    Action::Nothing
                } else if c == 'y' {
                    let text = match self.current_gist() {
                        Some(g) => Some(g.content.clone()),
                        None => None,
                    };
                    match text {
                        Some(content) => Action::Copy(content),
                        None => {
                            self.set_status("No gist selected".to_owned(), now);
                            Action::Nothing
                        },
                    }
                } else if c == 'r' {
                    Action::Reload
                } else if c == 'j' {
                    self.select_next();
                    Action::Nothing
                } else if c == 'k' {
                    self.select_prev();
                    Action::Nothing
                } else {
                    Action::Nothing
                }
            },
            Key::Down => {
                self.select_next();
                Action::Nothing
            },
            Key::Up => {
                self.select_prev();
                Action::Nothing
            },
            Key::PageDown => {
                self.page_down();
                Action::Nothing
            },
            Key::PageUp => {
                self.page_up();
                Action::Nothing
            },
            Key::Home => {
                if self.filtered_gists.len() > 0 {
                    self.selected = Some(0);
                }
                Action::Nothing
            },
            Key::End => {
                if self.filtered_gists.len() > 0 {
                    self.selected = Some(self.filtered_gists.len() - 1);
                }
                Action::Nothing
            },
            Key::Tab => {
                self.toggle_panel();
                Action::Nothing
            },
            _ => Action::Nothing,
        }
    }

    /// A key while a query is typed.
    fn on_search_key(&mut self, key: Key) -> (action: Action)
        requires
            old(self).wf(),
            old(self)@.mode == InputMode::Searching,
        ensures
            final(self)@ == old(self)@.search_key(key),
            action@ == old(self)@.action_for(key),
            final(self).wf(),
    {
        match key {
            Key::Esc => {
                self.mode = InputMode::Normal;
                self.reset_filter();
            },
            Key::Enter => {
                self.mode = InputMode::Normal;
                self.do_search();
            },
            Key::Backspace => {
                let _ = pop_char(&mut self.search_query);
            },
            Key::Char(c) => {
                push_char(&mut self.search_query, c);
            },
            _ => {},
        }
        Action::Nothing
    }

    /// A key while tags are edited.
    fn on_tag_key(&mut self, key: Key) -> (action: Action)
        requires
            old(self).wf(),
            old(self)@.mode == InputMode::TagEditing,
        ensures
            final(self)@ == old(self)@.tag_key(key),
            action@ == old(self)@.action_for(key),
            final(self).wf(),
    {
        match key {
            Key::Esc => {
                self.mode = InputMode::Normal;
                self.edit_buffer = String::new();
                Action::Nothing
            },
            Key::Enter => {
                let job = match self.current_gist() {
                    Some(g) => Some((g.id, g.content.clone())),
                    None => None,
                };
                let action = match job {
                    Some((id, content)) => Action::Submit(
                        DbOperation::Update(id, content, self.edit_buffer.clone()),
                    ),
                    None => Action::Nothing,
                };
                self.mode = InputMode::Normal;
                self.edit_buffer = String::new();
                action
            },
            Key::Backspace => {
                let _ = pop_char(&mut self.edit_buffer);
                Action::Nothing
            },
            Key::Char(c) => {
                push_char(&mut self.edit_buffer, c);
                Action::Nothing
            },
            _ => Action::Nothing,
        }
    }

    /// A key while the help text is shown.
    fn on_help_key(&mut self, key: Key) -> (action: Action)
        requires
            old(self).wf(),
            old(self)@.mode == InputMode::Help,
        ensures
            final(self)@ == old(self)@.help_key(key),
            action@ == old(self)@.action_for(key),
            final(self).wf(),
    {
        match key {
            Key::Esc => {
                self.mode = InputMode::Normal;
            },
            Key::Char(c) => {
                if c == '?' {
                    self.mode = InputMode::Normal;
                }
            },
            Key::Up => {
                self.help_scroll = scroll_up(self.help_scroll, 1);
            },
            Key::Down => {
                self.help_scroll = scroll_down(self.help_scroll, 1);
            },
            Key::PageUp => {
                self.help_scroll = scroll_up(self.help_scroll, PAGE_STEP as u16);
            },
            Key::PageDown => {
                self.help_scroll = scroll_down(self.help_scroll, PAGE_STEP as u16);
            },
            _ => {},
        }
        Action::Nothing
    }

    /// A key while a confirmation is asked for.
    fn on_confirm_key(&mut self, what: ConfirmAction, key: Key) -> (action: Action)
        requires
            old(self).wf(),
            old(self)@.mode == InputMode::Confirming(what),
        ensures
            final(self)@ == old(self)@.confirm_key(what, key),
            action@ == old(self)@.action_for(key),
            final(self).wf(),
    {
        match key {
            Key::Esc => {
                self.mode = InputMode::Normal;
                Action::Nothing
            },
            Key::Char(c) => {
                if c == 'y' {
                    match what {
                        ConfirmAction::Quit => Action::Quit(self.verdict()),
                        ConfirmAction::Delete(id) => {
                            self.mode = InputMode::Normal;
                            Action::Submit(DbOperation::Delete(id))
                        },
                    }
                } else {
                    Action::Nothing
                }
            },
            _ => Action::Nothing,
        }
    }

    /// Takes one key press: changes the state as the current mode says and
    /// answers with what the event loop has to do.
    pub fn handle_key(&mut self, key: Key, now: u64) -> (action: Action)
        requires
            old(self).wf(),
        ensures
            final(self)@ == old(self)@.after_key(key, now),
            action@ == old(self)@.action_for(key),
            final(self).wf(),
    {
        match self.mode {
            InputMode::Normal => self.on_normal_key(key, now),
            InputMode::Searching => self.on_search_key(key),
            InputMode::TagEditing => self.on_tag_key(key),
            InputMode::Help => self.on_help_key(key),
            InputMode::Confirming(what) => self.on_confirm_key(what, key),
        }
    }
}

/// What the background worker reports of a request.
#[derive(Debug, PartialEq, Eq)]
pub enum OperationResult {
    /// A snippet was stored under this id.
    Add(i64),
    /// The snippet of this id was changed.
    Update(i64),
    /// The store was asked to delete this id, and whether it held it.
    Delete(i64, bool),
    /// The store failed, with its message.
    Error(String),
}

/// What the background worker reports, as plain mathematical values.
pub ghost enum OperationResultView {
    Add(int),
    Update(int),
    Delete(int, bool),
    Error(Seq<char>),
}

impl View for OperationResult {
    type V = OperationResultView;

    open spec fn view(&self) -> OperationResultView {
        match self {
            OperationResult::Add(id) => OperationResultView::Add(*id as int),
            OperationResult::Update(id) => OperationResultView::Update(*id as int),
            OperationResult::Delete(id, found) => OperationResultView::Delete(*id as int, *found),
            OperationResult::Error(msg) => OperationResultView::Error(msg@),
        }
    }
}

/// How an attempt to use the clipboard went.
#[derive(Debug, Clone, Copy, PartialEq, Eq, Structural)]
pub enum ClipboardOutcome {
    Copied,
    Failed,
    Unavailable,
}

/// The test of having another id.
pub open spec fn other_id(id: int) -> spec_fn(GistView) -> bool {
    |g: GistView| g.id != id
}

/// The snippets without those of the given id.
pub open spec fn without_id(s: Seq<GistView>, id: int) -> Seq<GistView> {
    s.filter(other_id(id))
}

/// The position of the first snippet of the given id, or the length of
/// the list where none has it.
pub open spec fn index_of_id(s: Seq<GistView>, id: int) -> int
    decreases s.len(),
{
    if s.len() == 0 {
        0
    } else if s.first().id == id {
        0
    } else {
        1 + index_of_id(s.drop_first(), id)
    }
}

/// The snippets with the first one of the given id replaced by `g`.
pub open spec fn replace_first(s: Seq<GistView>, id: int, g: GistView) -> Seq<GistView> {
    let i = index_of_id(s, id);
    if 0 <= i < s.len() {
        s.update(i, g)
    } else {
        s
    }
}

/// A message that ends in a number.
pub open spec fn numbered(prefix: Seq<char>, n: int) -> Seq<char> {
    prefix + decimal(n)
}

/// The message about a failure of the store.
pub open spec fn error_msg(msg: Seq<char>) -> Seq<char> {
    "Error: "@ + msg
}

/// The message about how many snippets were read.
pub open spec fn count_msg(prefix: Seq<char>, n: nat) -> Seq<char> {
    prefix + decimal(n as int) + " gists"@
}

/// The message about an attempt to use the clipboard.
pub open spec fn clipboard_msg(outcome: ClipboardOutcome) -> Seq<char> {
    match outcome {
        ClipboardOutcome::Copied => "Copied to clipboard"@,
        ClipboardOutcome::Failed => "Failed to copy to clipboard"@,
        ClipboardOutcome::Unavailable => "Clipboard not available"@,
    }
}

/// The full list after a result of the background worker. `fetched` is the
/// snippet as the store holds it now, for a result that names a stored one.
pub open spec fn list_after(
    list: Seq<GistView>,
    result: OperationResultView,
    fetched: Option<GistView>,
) -> Seq<GistView> {
    match (result, fetched) {
        (OperationResultView::Add(_), Some(g)) => list.push(g),
        (OperationResultView::Update(id), Some(g)) => replace_first(list, id, g),
        (OperationResultView::Delete(id, true), _) => without_id(list, id),
        _ => list,
    }
}

/// Whether a result changes the list of snippets.
pub open spec fn takes_effect(result: OperationResultView, fetched: Option<GistView>) -> bool {
    match (result, fetched) {
        (OperationResultView::Add(_), Some(_)) => true,
        (OperationResultView::Update(_), Some(_)) => true,
        (OperationResultView::Delete(_, found), _) => found,
        _ => false,
    }
}

/// Whether a result tells of a change that the store carried out.
pub open spec fn store_changed(result: OperationResultView) -> bool {
    match result {
        OperationResultView::Add(_) => true,
        OperationResultView::Update(_) => true,
        OperationResultView::Delete(_, found) => found,
        OperationResultView::Error(_) => false,
    }
}

/// The message about a change whose snippet the store did not hand back.
pub open spec fn unread_msg(prefix: Seq<char>, id: int) -> Seq<char> {
    numbered(prefix, id) + ", but it could not be read back"@
}

/// The status message that a result leaves.
pub open spec fn result_msg(result: OperationResultView, fetched: Option<GistView>) -> Seq<char> {
    match result {
        OperationResultView::Add(id) => if fetched is Some {
            numbered("Added gist #"@, id)
        } else {
            unread_msg("Added gist #"@, id)
        },
        OperationResultView::Update(id) => if fetched is Some {
            numbered("Updated gist #"@, id)
        } else {
            unread_msg("Updated gist #"@, id)
        },
        OperationResultView::Delete(id, found) => if found {
            numbered("Deleted gist #"@, id)
        } else {
            numbered("Failed to delete gist #"@, id)
        },
        OperationResultView::Error(msg) => error_msg(msg),
    }
}

impl StateView {
    /// The state with the listed snippets computed anew from the full list
    /// and the active query, and the selection brought back into range.
    pub open spec fn refiltered(self) -> StateView {
        let filtered = search_results(self.all, self.active_query);
        StateView { filtered: filtered, selected: clamped(self.selected, filtered.len()), ..self }
    }

    /// The state after a result of the background worker was folded in. A
    /// change that the store carried out marks the session as modified. A
    /// snippet that came back changes the full list, and the listed
    /// snippets with it; without it the lists stay and the message says so.
    pub open spec fn after_result(
        self,
        result: OperationResultView,
        fetched: Option<GistView>,
        now: u64,
    ) -> StateView {
        let changed = StateView {
            all: list_after(self.all, result, fetched),
            modified: self.modified || store_changed(result),
            ..self
        };
        let listed = if !takes_effect(result, fetched) {
            changed
        } else if result is Add {
            changed.unfiltered()
        } else {
            changed.refiltered()
        };
        listed.with_status(result_msg(result, fetched), now)
    }
}

/// The first position that holds the given id is the one before which no
/// snippet has it.
pub proof fn lemma_index_of_id(s: Seq<GistView>, id: int, i: int)
    requires
        0 <= i <= s.len(),
        forall|j: int| 0 <= j < i ==> s[j].id != id,
        i < s.len() ==> s[i].id == id,
    ensures
        index_of_id(s, id) == i,
    decreases i,
{
    if i > 0 {
        let rest = s.drop_first();
        assert forall|j: int| 0 <= j < i - 1 implies rest[j].id != id by {
            assert(rest[j] == s[j + 1]);
        }
        lemma_index_of_id(rest, id, i - 1);
    }
}

/// A message that ends in a number.
fn numbered_text(prefix: &str, n: i64) -> (r: String)
    ensures
        r@ == numbered(prefix@, n as int),
{
    let mut text = chars_of(prefix);
    let number = decimal_of(n);
    extend(&mut text, &number);
    string_of(&text)
}

/// The message about a change whose snippet the store did not hand back.
fn unread_text(prefix: &str, n: i64) -> (r: String)
    ensures
        r@ == unread_msg(prefix@, n as int),
{
    let mut text = chars_of(prefix);
    let number = decimal_of(n);
    extend(&mut text, &number);
    let tail = chars_of(", but it could not be read back");
    extend(&mut text, &tail);
    string_of(&text)
}

/// The message about how many snippets were read.
fn count_text(prefix: &str, n: usize) -> (r: String)
    ensures
        r@ == count_msg(prefix@, n as nat),
{
    let mut text = chars_of(prefix);
    let number = digits_of(n as u64);
    extend(&mut text, &number);
    let tail = chars_of(" gists");
    extend(&mut text, &tail);
    string_of(&text)
}

/// The message about a failure of the store.
fn error_text(msg: &str) -> (r: String)
    ensures
        r@ == error_msg(msg@),
{
    let mut text = chars_of("Error: ");
    let tail = chars_of(msg);
    extend(&mut text, &tail);
    string_of(&text)
}

/// Removes the snippets of the given id.
fn remove_id(v: &mut Vec<Gist>, id: i64)
    ensures
        gists_view(final(v)@) == without_id(gists_view(old(v)@), id as int),
{
    let mut out: Vec<Gist> = Vec::new();
    let mut i: usize = 0;
    proof {
        reveal(Seq::filter);
        assert(gists_view(v@).take(0) =~= Seq::<GistView>::empty());
        assert(gists_view(out@) =~= Seq::<GistView>::empty());
    }
    while i < v.len()
        invariant
            i <= v.len(),
            v@ == old(v)@,
            gists_view(out@) == without_id(gists_view(v@).take(i as int), id as int),
        decreases v.len() - i,
    {
        proof {
            reveal(Seq::filter);
            let upto = gists_view(v@).take(i + 1);
            assert(upto.drop_last() =~= gists_view(v@).take(i as int));
            assert(upto.last() == v@[i as int]@);
        }
        if v[i].id != id {
            let g = v[i].clone();
            let ghost before = out@;
            out.push(g);
            proof {
                assert(gists_view(out@) =~= gists_view(before).push(g@));
            }
        }
        i += 1;
    }
    proof {
        assert(gists_view(v@).take(v.len() as int) =~= gists_view(v@));
    }
    *v = out;
}

/// Replaces the first snippet of the given id by a copy of `g`.
fn replace_id(v: &mut Vec<Gist>, id: i64, g: &Gist)
    ensures
        gists_view(final(v)@) == replace_first(gists_view(old(v)@), id as int, g@),
{
    let mut i: usize = 0;
    while i < v.len() && v[i].id != id
        invariant
            i <= v.len(),
            v@ == old(v)@,
            forall|j: int| 0 <= j < i ==> gists_view(v@)[j].id != id,
        decreases v.len() - i,
    {
        i += 1;
    }
    proof {
        lemma_index_of_id(gists_view(v@), id as int, i as int);
    }
    if i < v.len() {
        let copy = g.clone();
        v.set(i, copy);
        proof {
            assert(gists_view(v@) =~= gists_view(old(v)@).update(i as int, g@));
        }
    }
}

impl OperationResult {
    /// The id of the snippet to read from the store before this result is
    /// folded into the state, if it names one.
    pub fn fetch_id(&self) -> (r: Option<i64>)
        ensures
            r == match self {
                OperationResult::Add(id) => Some(*id),
                OperationResult::Update(id) => Some(*id),
                _ => None::<i64>,
            },
    {
        match self {
            OperationResult::Add(id) => Some(*id),
            OperationResult::Update(id) => Some(*id),
            _ => None,
        }
    }
}

impl AppState {
    /// Computes the listed snippets anew from the full list and the active
    /// query, and brings the selection back into range.
    fn refilter(&mut self)
        ensures
            final(self)@ == old(self)@.refiltered(),
    {
        let q = to_lower(self.active_query.as_str());
        let key = chars_of(q.as_str());
        self.filtered_gists = filter_gists(&self.all_gists, &key);
        let len = self.filtered_gists.len();
        self.selected = if len == 0 {
            None
        } else {
            match self.selected {
                Some(i) => if i < len {
                    Some(i)
                } else {
                    Some(len - 1)
                },
                None => Some(0),
            }
        };
    }

    /// Folds a result of the background worker into the state and into the
    /// caller's copy of the list: a stored snippet joins both lists and
    /// every snippet is listed again; a changed one takes the place of its
    /// earlier form; a deleted one leaves. `fetched` is the snippet as the
    /// store holds it now, for a result that names a stored one; where the
    /// store did not hand it back, the lists stay as they are, the session
    /// still counts as modified, and the message says what happened. A
    /// failure leaves only its message.
    pub fn apply_result(
        &mut self,
        mirror: &mut Vec<Gist>,
        result: OperationResult,
        fetched: Option<Gist>,
        now: u64,
    )
        requires
            old(self).wf(),
        ensures
            final(self)@ == old(self)@.after_result(result@, fetched_view(fetched), now),
            gists_view(final(mirror)@) == list_after(
                gists_view(old(mirror)@),
                result@,
                fetched_view(fetched),
            ),
            final(self).wf(),
    {
        match result {
            OperationResult::Add(id) => {
                if let Some(gist) = fetched {
                    let ghost all_before = self.all_gists@;
                    let ghost mirror_before = mirror@;
                    self.all_gists.push(gist.clone());
                    mirror.push(gist);
                    proof {
                        assert(gists_view(self.all_gists@) =~= gists_view(all_before).push(gist@));
                        assert(gists_view(mirror@) =~= gists_view(mirror_before).push(gist@));
                    }
                    self.modified = true;
                    self.reset_filter();
                    self.set_status(numbered_text("Added gist #", id), now);
                } else {
                    self.modified = true;
                    self.set_status(unread_text("Added gist #", id), now);
                }
            },
            OperationResult::Update(id) => {
                if let Some(gist) = fetched {
                    replace_id(&mut self.all_gists, id, &gist);
                    replace_id(mirror, id, &gist);
                    self.modified = true;
                    self.refilter();
                    self.set_status(numbered_text("Updated gist #", id), now);
                } else {
                    self.modified = true;
                    self.set_status(unread_text("Updated gist #", id), now);
                }
            },
            OperationResult::Delete(id, found) => {
                if found {
                    remove_id(&mut self.all_gists, id);
                    remove_id(mirror, id);
                    self.modified = true;
                    self.refilter();
                    self.set_status(numbered_text("Deleted gist #", id), now);
                } else {
                    self.set_status(numbered_text("Failed to delete gist #", id), now);
                }
            },
            OperationResult::Error(msg) => {
                self.set_status(error_text(msg.as_str()), now);
            },
        }
    }

    /// Shows how an attempt to use the clipboard went.
    pub fn clipboard_done(&mut self, outcome: ClipboardOutcome, now: u64)
        ensures
            final(self)@ == old(self)@.with_status(clipboard_msg(outcome), now),
            old(self).wf() ==> final(self).wf(),
    {
        let msg = match outcome {
            ClipboardOutcome::Copied => "Copied to clipboard",
            ClipboardOutcome::Failed => "Failed to copy to clipboard",
            ClipboardOutcome::Unavailable => "Clipboard not available",
        };
        self.set_status(msg.to_owned(), now);
    }

    /// Takes what a fresh read of the store's list gave: the new list
    /// replaces the old one here and in the caller's copy, or the failure is
    /// shown and nothing changes.
    pub fn reload_done(
        &mut self,
        mirror: &mut Vec<Gist>,
        outcome: Result<Vec<Gist>, String>,
        now: u64,
    )
        requires
            old(self).wf(),
        ensures
            match outcome {
                Ok(gists) => {
                    &&& final(self)@ == old(self)@.reloaded(gists_view(gists@)).with_status(
                        count_msg("Reloaded "@, gists@.len()),
                        now,
                    )
                    &&& gists_view(final(mirror)@) == gists_view(gists@)
                },
                Err(e) => {
                    &&& final(self)@ == old(self)@.with_status(error_msg(e@), now)
                    &&& final(mirror)@ == old(mirror)@
                },
            },
            final(self).wf(),
    {
        match outcome {
            Ok(gists) => {
                *mirror = copy_gists(&gists);
                let n = gists.len();
                self.reload(gists);
                self.set_status(count_text("Reloaded ", n), now);
            },
            Err(e) => {
                self.set_status(error_text(e.as_str()), now);
            },
        }
    }

    /// Shows how many snippets the session starts with.
    pub fn announce_loaded(&mut self, now: u64)
        ensures
            final(self)@ == old(self)@.with_status(
                count_msg("Loaded "@, old(self)@.all.len()),
                now,
            ),
            old(self).wf() ==> final(self).wf(),
    {
        let n = self.all_gists.len();
        self.set_status(count_text("Loaded ", n), now);
    }
}

impl AppState {
    /// Every snippet, in the store's order.
    pub fn all_gists(&self) -> (r: &Vec<Gist>)
        ensures
            gists_view(r@) == self@.all,
    {
        &self.all_gists
    }

    /// The snippets that are listed.
    pub fn filtered_gists(&self) -> (r: &Vec<Gist>)
        ensures
            gists_view(r@) == self@.filtered,
    {
        &self.filtered_gists
    }

    /// The listed row that is selected.
    pub fn selected(&self) -> (r: Option<usize>)
        ensures
            r == self@.selected,
    {
        self.selected
    }

    /// How keys are read at the moment.
    pub fn mode(&self) -> (r: InputMode)
        ensures
            r == self@.mode,
    {
        self.mode
    }

    /// The query as typed so far.
    pub fn search_query(&self) -> (r: &String)
        ensures
            r@ == self@.search_query,
    {
        &self.search_query
    }

    /// The query that the listed snippets were last computed from.
    pub fn active_query(&self) -> (r: &String)
        ensures
            r@ == self@.active_query,
    {
        &self.active_query
    }

    /// The tags as edited so far.
    pub fn edit_buffer(&self) -> (r: &String)
        ensures
            r@ == self@.edit_buffer,
    {
        &self.edit_buffer
    }

    /// Whether the session changed the store.
    pub fn modified(&self) -> (r: bool)
        ensures
            r == self@.modified,
    {
        self.modified
    }

    /// How far the help text is scrolled.
    pub fn help_scroll(&self) -> (r: u16)
        ensures
            r == self@.help_scroll,
    {
        self.help_scroll
    }

    /// The panel that is drawn as focused.
    pub fn focused_panel(&self) -> (r: Panel)
        ensures
            r == self@.focused_panel,
    {
        self.focused_panel
    }

    /// The settings that the session started with.
    pub fn config(&self) -> (r: &Config)
        ensures
            r@ == self@.config,
    {
        &self.config
    }
}

} // verus!
