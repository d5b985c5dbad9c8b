//! What the viewer shows: the state turned into panels of text. Painting
//! them on a terminal is the caller's part.

use crate::layout::{
    centered_rect, centred_in, inside, main_panels, panels_fit, panels_of, Area, Panels,
};
use crate::models::{Gist, GistView};
use crate::text::{
    chars_of, concat3, decimal, decimal_of, extend, join, join_with, rows, string_of, texts,
};
use crate::viewer::{AppState, ConfirmAction, InputMode, Panel, StateView};
use vstd::prelude::*;

verus! {

/// The share of the screen's width that a confirmation dialog takes.
pub const DIALOG_WIDTH_PERCENT: u16 = 60;

/// The share of the screen's height that a confirmation dialog takes.
pub const DIALOG_HEIGHT_PERCENT: u16 = 20;

/// The main screen: the list, the selected snippet and the status bar.
#[derive(Debug, PartialEq, Eq)]
pub struct MainScreen {
    pub panels: Panels,
    /// One label for each listed snippet.
    pub rows: Vec<String>,
    /// The row that is drawn as selected.
    pub highlighted: Option<usize>,
    /// The panel whose border is drawn as focused.
    pub focus: Panel,
    pub content_title: String,
    pub content: String,
    pub status: String,
    /// Whether the status bar is drawn in the colour of normal mode.
    pub status_normal: bool,
}

/// The help screen, which takes the whole terminal.
#[derive(Debug, PartialEq, Eq)]
pub struct HelpScreen {
    pub area: Area,
    pub title: String,
    pub text: String,
    pub scroll: u16,
}

/// A dialog that is laid over the main screen.
#[derive(Debug, PartialEq, Eq)]
pub struct Dialog {
    pub area: Area,
    pub title: String,
    pub text: String,
}

/// What there is to draw.
#[derive(Debug, PartialEq, Eq)]
pub enum Screen {
    Main(MainScreen),
    Help(HelpScreen),
    Confirm(MainScreen, Dialog),
}

/// The label of a snippet in the list: its id and its tags.
pub open spec fn row_label(g: GistView) -> Seq<char> {
    "#"@ + decimal(g.id) + " "@ + g.tags
}

/// The labels of the listed snippets.
pub open spec fn row_labels(listed: Seq<GistView>) -> Seq<Seq<char>> {
    listed.map_values(|g: GistView| row_label(g))
}

/// The text of the content panel: the selected snippet's content and the
/// time it was made at, or a note where nothing is selected.
pub open spec fn content_text(current: Option<GistView>) -> Seq<char> {
    match current {
        Some(g) => g.content + "\n\n"@ + ("Created: "@ + g.created_at),
        None => "(no gists)"@,
    }
}

/// The title of the content panel.
pub open spec fn content_title(current: Option<GistView>) -> Seq<char> {
    match current {
        Some(g) => "Content (ID: "@ + decimal(g.id) + ")"@,
        None => "Content"@,
    }
}

/// The line of key bindings that the status bar shows when it has nothing
/// else to say.
pub open spec fn key_hints() -> Seq<char> {
    "↑↓ j/k:Navigate  Tab:Switch Panel  a:Add  e:Edit  d:Delete  "@
        + "t:Edit Tags  y:Copy  s/:Search  ?:Help  q:Quit"@
}

/// The status bar at `now`: the status message while it is fresh; else the
/// query or the tags that are being typed; else the key bindings.
pub open spec fn status_line(s: StateView, now: u64) -> Seq<char> {
    match s.status_at(now) {
        Some(msg) => msg,
        None => if s.mode == InputMode::Searching {
            "/ "@ + s.search_query
        } else if s.mode == InputMode::TagEditing {
            "Edit Tags: "@ + s.edit_buffer
        } else {
            key_hints()
        },
    }
}

/// How a dialog tells the user to answer.
pub open spec fn how_to_answer() -> Seq<char> {
    "\n\nPress y to confirm or Esc to cancel."@
}

/// The question that a confirmation dialog asks.
pub open spec fn confirm_text(what: ConfirmAction, modified: bool) -> Seq<char> {
    match what {
        ConfirmAction::Delete(id) => "Are you sure you want to delete gist #"@ + decimal(
            id as int,
        ) + ("?"@ + how_to_answer()),
        ConfirmAction::Quit => if modified {
            "You have unsaved changes. Quit anyway?"@ + how_to_answer()
        } else {
            "Are you sure you want to quit?"@ + how_to_answer()
        },
    }
}

/// The lines of the help text.
pub open spec fn help_lines() -> Seq<Seq<char>> {
    seq![
        "Navigation:"@,
        "  ↑/↓, j/k     - Move selection up/down"@,
        "  PgUp/PgDown  - Move by page"@,
        "  Home/End     - Jump to start/end"@,
        "  Tab          - Switch between list and content panels"@,
        ""@,
        "Actions:"@,
        "  a            - Add new snippet"@,
        "  e            - Edit selected snippet"@,
        "  d            - Delete selected snippet (with confirmation)"@,
        "  y            - Copy snippet content to clipboard"@,
        "  t            - Edit tags for the selected snippet"@,
        "  r            - Refresh snippet list"@,
        ""@,
        "Search:"@,
        "  s, /         - Start search mode"@,
        "  Esc          - Exit search/help mode or cancel action"@,
        "  Enter        - Execute search"@,
        ""@,
        "UI:"@,
        "  ?            - Toggle this help screen"@,
        "  q            - Quit (with confirmation if changes)"@,
        ""@,
        "Press ESC to return"@,
    ]
}

/// The help text: its lines, one below the other.
pub open spec fn help_text() -> Seq<char> {
    join(help_lines(), seq!['\n'])
}

/// The main screen shows the state `s` at `now`.
pub open spec fn shows(m: MainScreen, s: StateView, now: u64) -> bool {
    &&& texts(m.rows@) == row_labels(s.filtered)
    &&& m.highlighted == s.selected
    &&& m.focus == s.focused_panel
    &&& m.content_title@ == content_title(s.current())
    &&& m.content@ == content_text(s.current())
    &&& m.status@ == status_line(s, now)
    &&& m.status_normal == (s.mode == InputMode::Normal)
}

/// The panels are the list with 30 percent of the width, the content
/// beside it, and the status bar on the last line; they stand inside the
/// screen.
pub open spec fn stands(p: Panels, size: Area) -> bool {
    &&& p == panels_of(size)
    &&& panels_fit(p, size)
}

/// The help screen shows the help text, scrolled as the state says.
pub open spec fn shows_help(h: HelpScreen, s: StateView, size: Area) -> bool {
    &&& h.area == size
    &&& h.title@ == "Help & Keyboard Shortcuts"@
    &&& h.text@ == help_text()
    &&& h.scroll == s.help_scroll
}

/// The screen shows the state `s` at `now`: the help text in help mode, the
/// main screen under a dialog while a confirmation is asked for, and the
/// main screen alone in every other mode.
pub open spec fn screen_shows(screen: Screen, s: StateView, size: Area, now: u64) -> bool {
    match screen {
        Screen::Help(h) => s.mode == InputMode::Help && shows_help(h, s, size),
        Screen::Confirm(m, d) => {
            &&& s.mode is Confirming
            &&& shows(m, s, now)
            &&& stands(m.panels, size)
            &&& inside(d.area, size)
            &&& d.area == centred_in(DIALOG_WIDTH_PERCENT, DIALOG_HEIGHT_PERCENT, size)
            &&& d.title@ == "Confirm"@
            &&& d.text@ == confirm_text(s.mode->Confirming_0, s.modified)
        },
        Screen::Main(m) => {
            &&& s.mode != InputMode::Help
            &&& !(s.mode is Confirming)
            &&& shows(m, s, now)
            &&& stands(m.panels, size)
        },
    }
}

/// The label of a snippet in the list.
pub fn label_of(g: &Gist) -> (r: String)
    ensures
        r@ == row_label(g@),
{
    let mut text = chars_of("#");
    let id = decimal_of(g.id);
    extend(&mut text, &id);
    let gap = chars_of(" ");
    extend(&mut text, &gap);
    let tags = chars_of(g.tags.as_str());
    extend(&mut text, &tags);
    string_of(&text)
}

/// The labels of the listed snippets.
pub fn labels_of(listed: &Vec<Gist>) -> (r: Vec<String>)
    ensures
        texts(r@) == row_labels(crate::models::gists_view(listed@)),
{
    let mut r: Vec<String> = Vec::new();
    let mut i: usize = 0;
    let ghost wanted = row_labels(crate::models::gists_view(listed@));
    while i < listed.len()
        invariant
            i <= listed.len(),
            wanted == row_labels(crate::models::gists_view(listed@)),
            texts(r@) == wanted.take(i as int),
        decreases listed.len() - i,
    {
        let label = label_of(&listed[i]);
        let ghost before = r@;
        r.push(label);
        proof {
            assert(texts(r@) =~= texts(before).push(label@));
            assert(wanted.take(i + 1) =~= wanted.take(i as int).push(
                row_label(listed@[i as int]@),
            ));
        }
        i += 1;
    }
    proof {
        assert(wanted.take(listed.len() as int) =~= wanted);
    }
    r
}

/// The text of the content panel.
pub fn content_of(current: Option<&Gist>) -> (r: String)
    ensures
        r@ == content_text(crate::viewer::opt_gist_view(current)),
{
    match current {
        Some(g) => {
            let made = concat3("Created: ", g.created_at.as_str(), "");
            proof {
                assert("Created: "@ + g.created_at@ + ""@ =~= "Created: "@ + g.created_at@) by {
                    reveal_strlit("");
                }
            }
            concat3(g.content.as_str(), "\n\n", made.as_str())
        },
        None => "(no gists)".to_owned(),
    }
}

/// The title of the content panel.
pub fn title_of(current: Option<&Gist>) -> (r: String)
    ensures
        r@ == content_title(crate::viewer::opt_gist_view(current)),
{
    match current {
        Some(g) => {
            let id = string_of(&decimal_of(g.id));
            concat3("Content (ID: ", id.as_str(), ")")
        },
        None => "Content".to_owned(),
    }
}

/// The status bar at `now`.
pub fn status_of(state: &AppState, now: u64) -> (r: String)
    ensures
        r@ == status_line(state@, now),
{
    match state.get_status(now) {
        Some(msg) => msg,
        None => {
            match state.mode() {
                InputMode::Searching => {
                    let line = concat3("/ ", state.search_query().as_str(), "");
                    proof {
                        reveal_strlit("");
                        assert(line@ =~= "/ "@ + state@.search_query);
                    }
                    line
                },
                InputMode::TagEditing => {
                    let line = concat3("Edit Tags: ", state.edit_buffer().as_str(), "");
                    proof {
                        reveal_strlit("");
                        assert(line@ =~= "Edit Tags: "@ + state@.edit_buffer);
                    }
                    line
                },
                _ => {
                    let line = concat3(
                        "↑↓ j/k:Navigate  Tab:Switch Panel  a:Add  e:Edit  d:Delete  ",
                        "t:Edit Tags  y:Copy  s/:Search  ?:Help  q:Quit",
                        "",
                    );
                    proof {
                        reveal_strlit("");
                        assert(line@ =~= key_hints());
                    }
                    line
                },
            }
        },
    }
}

/// The question that a confirmation dialog asks.
pub fn question_of(what: ConfirmAction, modified: bool) -> (r: String)
    ensures
        r@ == confirm_text(what, modified),
{
    let answer = "\n\nPress y to confirm or Esc to cancel.";
    match what {
        ConfirmAction::Delete(id) => {
            let number = string_of(&decimal_of(id));
            let tail = concat3("?", answer, "");
            proof {
                reveal_strlit("");
                assert(tail@ =~= "?"@ + how_to_answer());
            }
            concat3("Are you sure you want to delete gist #", number.as_str(), tail.as_str())
        },
        ConfirmAction::Quit => {
            let line = if modified {
                concat3("You have unsaved changes. Quit anyway?", answer, "")
            } else {
                concat3("Are you sure you want to quit?", answer, "")
            };
            proof {
                reveal_strlit("");
                assert(line@ =~= confirm_text(what, modified));
            }
            line
        },
    }
}

/// The main screen: one label for each listed snippet with the selected
/// row marked, the selected snippet's content, and the status bar.
pub fn render_main(state: &AppState, size: Area, now: u64) -> (m: MainScreen)
    ensures
        shows(m, state@, now),
        stands(m.panels, size),
{
    let current = state.current_gist();
    MainScreen {
        panels: main_panels(size),
        rows: labels_of(state.filtered_gists()),
        highlighted: state.selected(),
        focus: state.focused_panel(),
        content_title: title_of(current),
        content: content_of(current),
        status: status_of(state, now),
        status_normal: state.mode() == InputMode::Normal,
    }
}

/// The lines of the help text.
fn help_rows() -> (r: Vec<Vec<char>>)
    ensures
        rows(r@) == help_lines(),
{
    let mut r: Vec<Vec<char>> = Vec::new();
    r.push(chars_of("Navigation:"));
    r.push(chars_of("  ↑/↓, j/k     - Move selection up/down"));
    r.push(chars_of("  PgUp/PgDown  - Move by page"));
    r.push(chars_of("  Home/End     - Jump to start/end"));
    r.push(chars_of("  Tab          - Switch between list and content panels"));
    r.push(chars_of(""));
    r.push(chars_of("Actions:"));
    r.push(chars_of("  a            - Add new snippet"));
    r.push(chars_of("  e            - Edit selected snippet"));
    r.push(chars_of("  d            - Delete selected snippet (with confirmation)"));
    r.push(chars_of("  y            - Copy snippet content to clipboard"));
    r.push(chars_of("  t            - Edit tags for the selected snippet"));
    r.push(chars_of("  r            - Refresh snippet list"));
    r.push(chars_of(""));
    r.push(chars_of("Search:"));
    r.push(chars_of("  s, /         - Start search mode"));
    r.push(chars_of("  Esc          - Exit search/help mode or cancel action"));
    r.push(chars_of("  Enter        - Execute search"));
    r.push(chars_of(""));
    r.push(chars_of("UI:"));
    r.push(chars_of("  ?            - Toggle this help screen"));
    r.push(chars_of("  q            - Quit (with confirmation if changes)"));
    r.push(chars_of(""));
    r.push(chars_of("Press ESC to return"));
    proof {
        assert(rows(r@) =~= help_lines());
    }
    r
}

/// The help screen.
pub fn render_help(state: &AppState, size: Area) -> (h: HelpScreen)
    ensures
        shows_help(h, state@, size),
{
    let mut feed: Vec<char> = Vec::new();
    feed.push('\n');
    proof {
        assert(feed@ =~= seq!['\n']);
    }
    HelpScreen {
        area: size,
        title: "Help & Keyboard Shortcuts".to_owned(),
        text: string_of(&join_with(&help_rows(), &feed)),
        scroll: state.help_scroll(),
    }
}

/// What there is to draw for the state at `now` on a terminal of the given
/// size.
pub fn render_ui(state: &AppState, size: Area, now: u64) -> (screen: Screen)
    ensures
        screen_shows(screen, state@, size, now),
{
    match state.mode() {
        InputMode::Help => Screen::Help(render_help(state, size)),
        InputMode::Confirming(what) => {
            let main = render_main(state, size, now);
            let dialog = Dialog {
                area: centered_rect(DIALOG_WIDTH_PERCENT, DIALOG_HEIGHT_PERCENT, size),
                title: "Confirm".to_owned(),
                text: question_of(what, state.modified()),
            };
            Screen::Confirm(main, dialog)
        },
        _ => Screen::Main(render_main(state, size, now)),
    }
}

} // verus!
