//! What holds of the viewer and of tag strings in general, proved from the
//! definitions that the contracts are stated in.

use crate::models::GistView;
use crate::tags::{clean_pieces, sanitized, tag_list, MAX_TAGS};
use crate::channel::new_edit_action;
use crate::text::{
    is_blank, is_space, join, lemma_pieces_hold_no_separator, lemma_split_nonempty,
    lemma_trimmed, lowered, split_on, trim_end, trim_start, trimmed,
};
use crate::viewer::{
    editor_command, error_msg, gist_matches, hit, list_after, numbered, other_id, result_msg, store_changed,
    takes_effect, without_id,
    ActionView, ConfirmAction, DbOperationView, InputMode, Key, OperationResultView, StateView,
    UIResultView,
};
use vstd::prelude::*;

verus! {

/// Filtering a list that ends in `x`: `x` stays at the end if it passes.
pub proof fn lemma_filter_push<A>(s: Seq<A>, x: A, keep: spec_fn(A) -> bool)
    ensures
        s.push(x).filter(keep) == if keep(x) {
            s.filter(keep).push(x)
        } else {
            s.filter(keep)
        },
{
    reveal(Seq::filter);
    assert(s.push(x).drop_last() =~= s);
}

/// A filtered list holds the entries of the list that pass, and no others.
pub proof fn lemma_filter_members<A>(s: Seq<A>, keep: spec_fn(A) -> bool)
    ensures
        forall|x: A| #[trigger] s.filter(keep).contains(x) <==> s.contains(x) && keep(x),
    decreases s.len(),
{
    if s.len() == 0 {
        reveal(Seq::filter);
    } else {
        let front = s.drop_last();
        let last = s.last();
        let kept = front.filter(keep);
        lemma_filter_members(front, keep);
        assert(front.push(last) =~= s);
        lemma_filter_push(front, last, keep);
        assert forall|x: A| #[trigger] s.filter(keep).contains(x) <==> s.contains(x) && keep(
            x,
        ) by {
            if s.filter(keep).contains(x) {
                let i = choose|i: int| 0 <= i < s.filter(keep).len() && s.filter(keep)[i] == x;
                if keep(last) && i == kept.len() {
                    assert(s[s.len() - 1] == x);
                } else {
                    assert(kept[i] == x);
                    assert(kept.contains(x));
                    assert(front.contains(x));
                    let j = choose|j: int| 0 <= j < front.len() && front[j] == x;
                    assert(s[j] == x);
                }
            }
            if s.contains(x) && keep(x) {
                let j = choose|j: int| 0 <= j < s.len() && s[j] == x;
                if j == s.len() - 1 {
                    assert(s.filter(keep)[kept.len() as int] == x);
                } else {
                    assert(front[j] == x);
                    assert(front.contains(x));
                    assert(kept.contains(x));
                    let i = choose|i: int| 0 <= i < kept.len() && kept[i] == x;
                    assert(s.filter(keep)[i] == x);
                }
            }
        }
    }
}

/// Two filters give the same list in either order.
pub proof fn lemma_filters_commute<A>(s: Seq<A>, p: spec_fn(A) -> bool, q: spec_fn(A) -> bool)
    ensures
        s.filter(p).filter(q) == s.filter(q).filter(p),
    decreases s.len(),
{
    reveal(Seq::filter);
    if s.len() > 0 {
        let front = s.drop_last();
        let last = s.last();
        lemma_filters_commute(front, p, q);
        assert(front.push(last) =~= s);
        lemma_filter_push(front, last, p);
        lemma_filter_push(front, last, q);
        lemma_filter_push(front.filter(p), last, q);
        lemma_filter_push(front.filter(q), last, p);
    }
}

/// After a search the list shows exactly the snippets whose content, tags
/// or decimal id hold the query without regard to case, in the order of the
/// full list; the empty query lists every snippet.
pub proof fn law_search_lists_the_matches(s: StateView)
    ensures
        s.searched().filtered == s.all.filter(hit(lowered(s.search_query))),
        forall|g: GistView| #[trigger]
            s.searched().filtered.contains(g) <==> s.all.contains(g) && gist_matches(
                g,
                lowered(s.search_query),
            ),
        s.search_query.len() == 0 ==> s.searched().filtered == s.all,
        s.buffer_ok() ==> s.searched().wf(),
{
    lemma_filter_members(s.all, hit(lowered(s.search_query)));
    if s.search_query.len() == 0 {
        crate::viewer::lemma_empty_query_finds_all(s.all);
        assert(s.search_query =~= Seq::<char>::empty());
    }
}

/// In a list of more than one row, a step down from the last row selects
/// the first, and a step up from the first selects the last. In an empty
/// list the arrow keys change nothing and nothing is selected.
pub proof fn law_navigation_wraps(s: StateView, now: u64)
    requires
        s.wf(),
        s.mode == InputMode::Normal,
        s.filtered.len() <= usize::MAX,
    ensures
        s.filtered.len() > 1 && s.selected == Some((s.filtered.len() - 1) as usize) ==> {
            &&& s.after_key(Key::Down, now).selected == Some(0usize)
            &&& s.after_key(Key::Char('j'), now).selected == Some(0usize)
        },
        s.filtered.len() > 1 && s.selected == Some(0usize) ==> {
            &&& s.after_key(Key::Up, now).selected == Some((s.filtered.len() - 1) as usize)
            &&& s.after_key(Key::Char('k'), now).selected == Some(
                (s.filtered.len() - 1) as usize,
            )
        },
        s.filtered.len() == 0 ==> {
            &&& s.selected is None
            &&& s.after_key(Key::Down, now) == s
            &&& s.after_key(Key::Up, now) == s
            &&& s.after_key(Key::Char('j'), now) == s
            &&& s.after_key(Key::Char('k'), now) == s
            &&& s.after_key(Key::PageDown, now) == s
            &&& s.after_key(Key::PageUp, now) == s
            &&& s.after_key(Key::Home, now) == s
            &&& s.after_key(Key::End, now) == s
        },
{
}

/// A key that edits a line of text: a character or the backspace.
pub open spec fn is_typing(key: Key) -> bool {
    key is Char || key is Backspace
}

/// The state after a row of keys.
pub open spec fn after_keys(s: StateView, keys: Seq<Key>, now: u64) -> StateView
    decreases keys.len(),
{
    if keys.len() == 0 {
        s
    } else {
        after_keys(s.after_key(keys.first(), now), keys.drop_first(), now)
    }
}

/// Typing while a query is entered changes the typed query and nothing else.
pub proof fn lemma_typing_a_query(s: StateView, keys: Seq<Key>, now: u64)
    requires
        s.mode == InputMode::Searching,
        forall|i: int| 0 <= i < keys.len() ==> is_typing(#[trigger] keys[i]),
    ensures
        after_keys(s, keys, now) == (StateView {
            search_query: after_keys(s, keys, now).search_query,
            ..s
        }),
    decreases keys.len(),
{
    if keys.len() > 0 {
        assert(is_typing(keys[0]));
        let rest = keys.drop_first();
        assert forall|i: int| 0 <= i < rest.len() implies is_typing(#[trigger] rest[i]) by {
            assert(rest[i] == keys[i + 1]);
        }
        lemma_typing_a_query(s.after_key(keys.first(), now), rest, now);
    }
}

/// Typing while tags are edited changes the edit buffer and nothing else.
pub proof fn lemma_typing_tags(s: StateView, keys: Seq<Key>, now: u64)
    requires
        s.mode == InputMode::TagEditing,
        forall|i: int| 0 <= i < keys.len() ==> is_typing(#[trigger] keys[i]),
    ensures
        after_keys(s, keys, now) == (StateView {
            edit_buffer: after_keys(s, keys, now).edit_buffer,
            ..s
        }),
    decreases keys.len(),
{
    if keys.len() > 0 {
        assert(is_typing(keys[0]));
        let rest = keys.drop_first();
        assert forall|i: int| 0 <= i < rest.len() implies is_typing(#[trigger] rest[i]) by {
            assert(rest[i] == keys[i + 1]);
        }
        lemma_typing_tags(s.after_key(keys.first(), now), rest, now);
    }
}

/// Starting a search in a list that shows every snippet, typing anything and
/// pressing Esc leaves the mode, the listed snippets and the edit buffer as
/// they were, and the typed query is gone.
pub proof fn law_escape_discards_a_search(s: StateView, opener: Key, typed: Seq<Key>, now: u64)
    requires
        s.wf(),
        s.mode == InputMode::Normal,
        s.filtered == s.all,
        opener == Key::Char('s') || opener == Key::Char('/'),
        forall|i: int| 0 <= i < typed.len() ==> is_typing(#[trigger] typed[i]),
    ensures
        ({
            let end = after_keys(s.after_key(opener, now), typed, now).after_key(Key::Esc, now);
            &&& end.mode == s.mode
            &&& end.filtered == s.filtered
            &&& end.all == s.all
            &&& end.edit_buffer == s.edit_buffer
            &&& end.search_query.len() == 0
            &&& end.modified == s.modified
            &&& end.wf()
        }),
{
    let opened = s.after_key(opener, now);
    lemma_typing_a_query(opened, typed, now);
    crate::viewer::lemma_empty_query_finds_all(s.all);
}

/// Starting to edit the tags of the selected snippet, typing anything and
/// pressing Esc leaves the state as it was: nothing is submitted and the
/// buffer is discarded.
pub proof fn law_escape_discards_a_tag_edit(s: StateView, typed: Seq<Key>, now: u64)
    requires
        s.wf(),
        s.mode == InputMode::Normal,
        forall|i: int| 0 <= i < typed.len() ==> is_typing(#[trigger] typed[i]),
    ensures
        ({
            let opened = s.after_key(Key::Char('t'), now);
            let typed_in = after_keys(opened, typed, now);
            let end = typed_in.after_key(Key::Esc, now);
            s.current() is Some ==> {
                &&& opened.mode == InputMode::TagEditing
                &&& typed_in.action_for(Key::Esc) == ActionView::Nothing
                &&& end == s
            }
        }),
{
    if s.current() is Some {
        let opened = s.after_key(Key::Char('t'), now);
        lemma_typing_tags(opened, typed, now);
        assert(s.edit_buffer =~= Seq::<char>::empty());
    }
}

/// Whether an action ends the session.
pub open spec fn ends_session(a: ActionView) -> bool {
    a is Quit
}

/// With nothing modified, `q` in normal mode ends the session at once and
/// no confirmation is asked for. With something modified, `q` asks for
/// confirmation and ends nothing; the session then ends on `y`, and on no
/// other key. No other key in any mode ends a session.
pub proof fn law_quit_is_gated(s: StateView, key: Key, now: u64)
    ensures
        s.mode == InputMode::Normal && !s.modified ==> {
            &&& s.action_for(Key::Char('q')) == ActionView::Quit(UIResultView::NoChanges)
            &&& s.after_key(Key::Char('q'), now) == s
        },
        s.mode == InputMode::Normal && s.modified ==> {
            &&& s.action_for(Key::Char('q')) == ActionView::Nothing
            &&& s.after_key(Key::Char('q'), now).mode == InputMode::Confirming(
                ConfirmAction::Quit,
            )
        },
        s.mode == InputMode::Confirming(ConfirmAction::Quit) ==> {
            &&& s.action_for(Key::Char('y')) == ActionView::Quit(s.verdict())
            &&& (s.modified ==> s.action_for(Key::Char('y')) == ActionView::Quit(
                UIResultView::Modified,
            ))
            &&& (key != Key::Char('y') ==> !ends_session(s.action_for(key)))
        },
        ends_session(s.action_for(key)) ==> {
            ||| s.mode == InputMode::Normal && key == Key::Char('q') && !s.modified
            ||| s.mode == InputMode::Confirming(ConfirmAction::Quit) && key == Key::Char('y')
        },
{
}

/// A confirmed deletion that the store carried out removes the snippet from
/// the full list, from the listed snippets and from the caller's copy,
/// leaves a valid selection (none in an empty list) and marks the session
/// as modified. One that found nothing to delete leaves a message and
/// changes nothing else.
pub proof fn law_delete_removes_everywhere(
    s: StateView,
    mirror: Seq<GistView>,
    id: int,
    fetched: Option<GistView>,
    now: u64,
)
    requires
        s.wf(),
    ensures
        ({
            let done = s.after_result(OperationResultView::Delete(id, true), fetched, now);
            &&& done.all == without_id(s.all, id)
            &&& done.filtered == without_id(s.filtered, id)
            &&& list_after(mirror, OperationResultView::Delete(id, true), fetched) == without_id(
                mirror,
                id,
            )
            &&& forall|g: GistView| #[trigger]
                done.all.contains(g) <==> s.all.contains(g) && g.id != id
            &&& forall|g: GistView| #[trigger]
                done.filtered.contains(g) <==> s.filtered.contains(g) && g.id != id
            &&& match done.selected {
                Some(i) => i < done.filtered.len(),
                None => done.filtered.len() == 0,
            }
            &&& done.modified
            &&& done.wf()
        }),
        ({
            let failed = s.after_result(OperationResultView::Delete(id, false), fetched, now);
            &&& failed == s.with_status(numbered("Failed to delete gist #"@, id), now)
            &&& list_after(mirror, OperationResultView::Delete(id, false), fetched) == mirror
        }),
{
    let key = lowered(s.active_query);
    lemma_filters_commute(s.all, other_id(id), hit(key));
    lemma_filter_members(s.all, other_id(id));
    lemma_filter_members(s.filtered, other_id(id));
}

/// A stored snippet joins the end of the full list and of the caller's
/// copy, every snippet is listed, and the session counts as modified.
pub proof fn law_add_appends(
    s: StateView,
    mirror: Seq<GistView>,
    id: int,
    g: GistView,
    now: u64,
)
    requires
        s.wf(),
    ensures
        ({
            let done = s.after_result(OperationResultView::Add(id), Some(g), now);
            &&& done.all == s.all.push(g)
            &&& done.filtered == s.all.push(g)
            &&& done.all.last() == g
            &&& list_after(mirror, OperationResultView::Add(id), Some(g)) == mirror.push(g)
            &&& done.modified
            &&& done.status == Some((numbered("Added gist #"@, id), now))
            &&& done.wf()
        }),
{
    crate::viewer::lemma_empty_query_finds_all(s.all.push(g));
}

/// Adding a snippet, start to end: in normal mode `a` asks for the editor
/// and changes nothing; what the editor wrote, unless it is blank, is asked
/// to be stored as it is and without tags, once; and when the store hands
/// the new snippet back it stands at the end of the full list, of the
/// listed snippets and of the caller's copy, behind all earlier snippets in
/// their order, and the session counts as modified.
pub proof fn law_add_round_trip(
    s: StateView,
    mirror: Seq<GistView>,
    content: Seq<char>,
    id: int,
    g: GistView,
    now: u64,
)
    requires
        s.wf(),
        s.mode == InputMode::Normal,
        !is_blank(content),
    ensures
        s.action_for(Key::Char('a')) == ActionView::EditNew(editor_command(s.config)),
        s.after_key(Key::Char('a'), now) == s,
        new_edit_action(Some(content)) == ActionView::Submit(
            DbOperationView::Add(content, Seq::empty()),
        ),
        ({
            let done = s.after_result(OperationResultView::Add(id), Some(g), now);
            let copy = list_after(mirror, OperationResultView::Add(id), Some(g));
            &&& done.all == s.all.push(g)
            &&& done.filtered == s.all.push(g)
            &&& copy == mirror.push(g)
            &&& done.all.len() == s.all.len() + 1
            &&& done.all.last() == g
            &&& forall|i: int| 0 <= i < s.all.len() ==> done.all[i] == s.all[i]
            &&& forall|i: int| 0 <= i < mirror.len() ==> copy[i] == mirror[i]
            &&& done.modified
            &&& done.mode == InputMode::Normal
            &&& done.wf()
        }),
{
    crate::viewer::lemma_empty_query_finds_all(s.all.push(g));
}

/// The text `hello world` is not blank, so it is stored as it is and
/// without tags.
pub proof fn law_hello_world_is_stored()
    ensures
        !is_blank("hello world"@),
        new_edit_action(Some("hello world"@)) == ActionView::Submit(
            DbOperationView::Add("hello world"@, Seq::empty()),
        ),
{
    reveal_strlit("hello world");
    let text = "hello world"@;
    assert(text[0] == 'h');
    assert(!is_space(text[0]));
}

/// Every step keeps the state's invariant, and a session that counts as
/// modified stays so.
pub proof fn law_steps_keep_the_invariant(
    s: StateView,
    key: Key,
    result: OperationResultView,
    fetched: Option<GistView>,
    now: u64,
)
    requires
        s.wf(),
    ensures
        s.after_key(key, now).wf(),
        s.after_result(result, fetched, now).wf(),
        s.modified ==> s.after_key(key, now).modified,
        s.modified ==> s.after_result(result, fetched, now).modified,
        !takes_effect(result, fetched) ==> s.after_result(result, fetched, now).all == s.all,
        s.after_key(key, now).all == s.all,
{
    crate::viewer::lemma_empty_query_finds_all(s.all);
    crate::viewer::lemma_empty_query_finds_all(list_after(s.all, result, fetched));
}

/// A result of the background worker never changes the mode, and a failure
/// of the store changes nothing but the status message.
pub proof fn law_results_keep_the_mode(
    s: StateView,
    result: OperationResultView,
    fetched: Option<GistView>,
    msg: Seq<char>,
    now: u64,
)
    ensures
        s.after_result(result, fetched, now).mode == s.mode,
        s.after_result(result, fetched, now).edit_buffer == s.edit_buffer,
        s.after_result(OperationResultView::Error(msg), fetched, now) == s.with_status(
            error_msg(msg),
            now,
        ),
{
}

/// A change that the store carried out marks the session as modified and
/// leaves a message, whether or not the store handed the snippet back;
/// without the snippet the lists and the selection stay as they are.
pub proof fn law_store_changes_count(
    s: StateView,
    mirror: Seq<GistView>,
    result: OperationResultView,
    fetched: Option<GistView>,
    now: u64,
)
    ensures
        store_changed(result) ==> s.after_result(result, fetched, now).modified,
        s.after_result(result, fetched, now).status == Some((result_msg(result, fetched), now)),
        (result is Add || result is Update) && fetched is None ==> {
            &&& s.after_result(result, fetched, now) == (StateView { modified: true, ..s }).with_status(
                result_msg(result, fetched),
                now,
            )
            &&& list_after(mirror, result, fetched) == mirror
        },
{
}

/// A caller's copy that holds what the full list holds still does so after
/// any result was folded into both.
pub proof fn law_the_copy_follows(
    s: StateView,
    mirror: Seq<GistView>,
    result: OperationResultView,
    fetched: Option<GistView>,
    now: u64,
)
    requires
        mirror == s.all,
    ensures
        list_after(mirror, result, fetched) == s.after_result(result, fetched, now).all,
{
}

/// The submitted requests carry what the state shows at that moment: an
/// edit of the tags names the selected snippet, its content as it stands and
/// the buffer; a confirmed deletion names the id that was asked about.
pub proof fn law_requests_use_what_is_shown(s: StateView, id: i64)
    ensures
        s.mode == InputMode::TagEditing ==> match s.current() {
            Some(g) => s.action_for(Key::Enter) == ActionView::Submit(
                DbOperationView::Update(g.id, g.content, s.edit_buffer),
            ),
            None => s.action_for(Key::Enter) == ActionView::Nothing,
        },
        s.mode == InputMode::Confirming(ConfirmAction::Delete(id)) ==> s.action_for(
            Key::Char('y'),
        ) == ActionView::Submit(DbOperationView::Delete(id as int)),
{
}

/// A cleaned tag string holds at most ten tags; each of them is a piece of
/// the raw string between commas, trimmed and not empty; they stand in the
/// order of the raw string and are joined by a comma and a space.
pub proof fn law_tags_are_clean(raw: Seq<char>)
    ensures
        tag_list(raw).len() <= MAX_TAGS,
        forall|i: int|
            0 <= i < tag_list(raw).len() ==> (#[trigger] tag_list(raw)[i]).len() > 0
                && split_on(raw, ',').map_values(|p: Seq<char>| trimmed(p)).contains(
                tag_list(raw)[i],
            ),
        tag_list(raw) == clean_pieces(split_on(raw, ',')).take(tag_list(raw).len() as int),
        sanitized(raw) == join(tag_list(raw), seq![',', ' ']),
{
    let pieces = split_on(raw, ',').map_values(|p: Seq<char>| trimmed(p));
    let keep = |p: Seq<char>| p.len() > 0;
    let kept = pieces.filter(keep);
    assert(kept == clean_pieces(split_on(raw, ',')));
    lemma_filter_members(pieces, keep);
    assert(tag_list(raw) =~= kept.take(tag_list(raw).len() as int));
    assert forall|i: int| 0 <= i < tag_list(raw).len() implies (#[trigger] tag_list(raw)[i]).len()
        > 0 && pieces.contains(tag_list(raw)[i]) by {
        assert(tag_list(raw)[i] == kept[i]);
        assert(kept.contains(kept[i]));
    }
}

/// A text holds no such character.
pub open spec fn free_of(s: Seq<char>, c: char) -> bool {
    forall|i: int| 0 <= i < s.len() ==> (#[trigger] s[i]) != c
}

/// A text is a clean tag: not empty, without whitespace at either end, and
/// without a comma.
pub open spec fn is_tag(s: Seq<char>) -> bool {
    &&& s.len() > 0
    &&& !is_space(s.first())
    &&& !is_space(s.last())
    &&& free_of(s, ',')
}

/// Every text of the list is a clean tag.
pub open spec fn all_tags(tags: Seq<Seq<char>>) -> bool {
    forall|i: int| 0 <= i < tags.len() ==> is_tag(#[trigger] tags[i])
}

/// The pieces between the commas of a joined tag list: the first tag, and
/// every later tag behind a space.
pub open spec fn spaced(tags: Seq<Seq<char>>) -> Seq<Seq<char>> {
    Seq::new(
        tags.len(),
        |i: int|
            if i == 0 {
                tags[0]
            } else {
                seq![' '] + tags[i]
            },
    )
}

/// Trimming the front takes no character in.
pub proof fn lemma_trim_start_free(s: Seq<char>, c: char)
    requires
        free_of(s, c),
    ensures
        free_of(trim_start(s), c),
    decreases s.len(),
{
    if s.len() > 0 && is_space(s.first()) {
        let rest = s.drop_first();
        assert forall|i: int| 0 <= i < rest.len() implies (#[trigger] rest[i]) != c by {
            assert(rest[i] == s[i + 1]);
        }
        lemma_trim_start_free(rest, c);
    }
}

/// Trimming the end takes no character in.
pub proof fn lemma_trim_end_free(s: Seq<char>, c: char)
    requires
        free_of(s, c),
    ensures
        free_of(trim_end(s), c),
    decreases s.len(),
{
    if s.len() > 0 && is_space(s.last()) {
        let rest = s.drop_last();
        assert forall|i: int| 0 <= i < rest.len() implies (#[trigger] rest[i]) != c by {
            assert(rest[i] == s[i]);
        }
        lemma_trim_end_free(rest, c);
    }
}

/// A clean tag is its own trimmed form, also behind a space.
pub proof fn lemma_trim_of_tag(t: Seq<char>)
    requires
        is_tag(t),
    ensures
        trimmed(t) == t,
        trimmed(seq![' '] + t) == t,
{
    let behind = seq![' '] + t;
    assert(behind.first() == ' ');
    assert(is_space(' '));
    assert(behind.drop_first() =~= t);
    assert(trim_start(behind) == trim_start(t));
}

/// Behind a text that holds no separator, the last piece grows and no new
/// piece begins.
pub proof fn lemma_split_append(s: Seq<char>, b: Seq<char>, sep: char)
    requires
        free_of(b, sep),
    ensures
        split_on(s + b, sep) == split_on(s, sep).drop_last().push(split_on(s, sep).last() + b),
    decreases b.len(),
{
    let pieces = split_on(s, sep);
    lemma_split_nonempty(s, sep);
    if b.len() == 0 {
        assert(s + b =~= s);
        assert(pieces.last() + b =~= pieces.last());
        assert(pieces.drop_last().push(pieces.last()) =~= pieces);
    } else {
        let front = b.drop_last();
        let c = b.last();
        assert(c == b[b.len() - 1]);
        assert forall|i: int| 0 <= i < front.len() implies (#[trigger] front[i]) != sep by {
            assert(front[i] == b[i]);
        }
        lemma_split_append(s, front, sep);
        let before = split_on(s + front, sep);
        assert((s + b).drop_last() =~= s + front);
        assert((s + b).last() == c);
        assert(before.drop_last() =~= pieces.drop_last());
        assert(before.last() == pieces.last() + front);
        assert((pieces.last() + front).push(c) =~= pieces.last() + b);
    }
}

/// The pieces between the commas of a joined list of clean tags are the
/// first tag and every later tag behind a space.
pub proof fn lemma_split_of_join(tags: Seq<Seq<char>>)
    requires
        tags.len() > 0,
        all_tags(tags),
    ensures
        split_on(join(tags, seq![',', ' ']), ',') == spaced(tags),
    decreases tags.len(),
{
    let sep = seq![',', ' '];
    let empty = Seq::<char>::empty();
    if tags.len() == 1 {
        let t = tags[0];
        assert(is_tag(t));
        lemma_split_append(empty, t, ',');
        assert(empty + t =~= t);
        assert(split_on(empty, ',') =~= seq![empty]);
        assert(split_on(t, ',') =~= seq![t]);
        assert(spaced(tags) =~= seq![t]);
    } else {
        let front = tags.drop_last();
        let t = tags.last();
        assert(is_tag(tags[tags.len() - 1]));
        assert forall|i: int| 0 <= i < front.len() implies is_tag(#[trigger] front[i]) by {
            assert(front[i] == tags[i]);
        }
        lemma_split_of_join(front);
        let joined = join(front, sep);
        let behind = seq![' '] + t;
        assert(join(tags, sep) =~= joined.push(',') + behind);
        assert(joined.push(',').drop_last() =~= joined);
        assert(split_on(joined.push(','), ',') == split_on(joined, ',').push(empty));
        assert forall|i: int| 0 <= i < behind.len() implies (#[trigger] behind[i]) != ',' by {
            if i > 0 {
                assert(behind[i] == t[i - 1]);
            }
        }
        lemma_split_append(joined.push(','), behind, ',');
        assert(split_on(joined, ',').push(empty).drop_last() =~= split_on(joined, ','));
        assert(empty + behind =~= behind);
        assert(spaced(front).push(behind) =~= spaced(tags));
    }
}

/// A filter that every entry passes keeps the list as it is.
pub proof fn lemma_filter_all<A>(s: Seq<A>, keep: spec_fn(A) -> bool)
    requires
        forall|i: int| 0 <= i < s.len() ==> keep(#[trigger] s[i]),
    ensures
        s.filter(keep) == s,
    decreases s.len(),
{
    if s.len() == 0 {
        reveal(Seq::filter);
    } else {
        let front = s.drop_last();
        assert forall|i: int| 0 <= i < front.len() implies keep(#[trigger] front[i]) by {
            assert(front[i] == s[i]);
        }
        lemma_filter_all(front, keep);
        assert(keep(s[s.len() - 1]));
        lemma_filter_push(front, s.last(), keep);
        assert(front.push(s.last()) =~= s);
    }
}

/// Cleaning the pieces of a joined list of clean tags gives the tags back.
pub proof fn lemma_clean_of_spaced(tags: Seq<Seq<char>>)
    requires
        all_tags(tags),
    ensures
        clean_pieces(spaced(tags)) == tags,
{
    let trimmed_all = spaced(tags).map_values(|p: Seq<char>| trimmed(p));
    let keep = |p: Seq<char>| p.len() > 0;
    assert forall|i: int| 0 <= i < tags.len() implies #[trigger] trimmed_all[i] == tags[i] by {
        assert(is_tag(tags[i]));
        lemma_trim_of_tag(tags[i]);
    }
    assert(trimmed_all =~= tags);
    assert forall|i: int| 0 <= i < tags.len() implies keep(#[trigger] tags[i]) by {
        assert(is_tag(tags[i]));
    }
    lemma_filter_all(tags, keep);
}

/// The tags of a raw tag string are clean tags.
pub proof fn lemma_tag_list_is_clean(raw: Seq<char>)
    ensures
        all_tags(tag_list(raw)),
        tag_list(raw).len() <= MAX_TAGS,
{
    let pieces = split_on(raw, ',');
    let trimmed_all = pieces.map_values(|p: Seq<char>| trimmed(p));
    let keep = |p: Seq<char>| p.len() > 0;
    let kept = trimmed_all.filter(keep);
    assert(kept == clean_pieces(pieces));
    lemma_filter_members(trimmed_all, keep);
    lemma_pieces_hold_no_separator(raw, ',');
    let tags = tag_list(raw);
    assert forall|i: int| 0 <= i < tags.len() implies is_tag(#[trigger] tags[i]) by {
        let t = tags[i];
        assert(t == kept[i]);
        assert(kept.contains(t));
        assert(trimmed_all.contains(t) && keep(t));
        let j = choose|j: int| 0 <= j < trimmed_all.len() && trimmed_all[j] == t;
        let piece = pieces[j];
        assert(t == trimmed(piece));
        assert forall|k: int| 0 <= k < piece.len() implies (#[trigger] piece[k]) != ',' by {
            assert(split_on(raw, ',')[j][k] != ',');
        }
        lemma_trim_start_free(piece, ',');
        lemma_trim_end_free(trim_start(piece), ',');
        lemma_trimmed(piece);
    }
}

/// Cleaning a cleaned tag string changes nothing.
pub proof fn law_cleaning_twice_is_cleaning_once(raw: Seq<char>)
    ensures
        tag_list(sanitized(raw)) == tag_list(raw),
        sanitized(sanitized(raw)) == sanitized(raw),
{
    let tags = tag_list(raw);
    lemma_tag_list_is_clean(raw);
    if tags.len() == 0 {
        let empty = Seq::<char>::empty();
        assert(sanitized(raw) =~= empty);
        let pieces = split_on(empty, ',');
        assert(pieces =~= seq![empty]);
        let trimmed_all = pieces.map_values(|p: Seq<char>| trimmed(p));
        let keep = |p: Seq<char>| p.len() > 0;
        assert(trimmed(empty) =~= empty);
        assert(trimmed_all =~= seq![empty]);
        lemma_filter_push(Seq::<Seq<char>>::empty(), empty, keep);
        assert(Seq::<Seq<char>>::empty().push(empty) =~= seq![empty]);
        assert(Seq::<Seq<char>>::empty().filter(keep) =~= Seq::<Seq<char>>::empty()) by {
            reveal(Seq::filter);
        }
        assert(clean_pieces(pieces) =~= Seq::<Seq<char>>::empty());
        assert(tag_list(sanitized(raw)) =~= tags);
    } else {
        lemma_split_of_join(tags);
        lemma_clean_of_spaced(tags);
        assert(tag_list(sanitized(raw)) =~= tags);
    }
}

} // verus!
