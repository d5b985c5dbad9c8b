use gist::config::Config;
use gist::layout::{centered_rect, main_panels, middle, Area};
use gist::models::Gist;
use gist::render::{
    content_of, label_of, labels_of, question_of, render_help, render_main, render_ui, status_of,
    title_of, Screen,
};
use gist::viewer::{AppState, ConfirmAction, Key, OperationResult, Panel};

fn gist(id: i64, content: &str, tags: &str) -> Gist {
    Gist {
        id,
        content: content.to_string(),
        tags: tags.to_string(),
        created_at: "2024-05-06 07:08:09".to_string(),
    }
}

fn sample_state() -> AppState {
    AppState::new(
        vec![gist(2, "print('hi')", "python"), gist(1, "SELECT 1", "sql, db")],
        Config::default(),
    )
}

fn screen() -> Area {
    Area { x: 0, y: 0, width: 100, height: 30 }
}

const HINTS: &str = "↑↓ j/k:Navigate  Tab:Switch Panel  a:Add  e:Edit  d:Delete  t:Edit Tags  y:Copy  s/:Search  ?:Help  q:Quit";

#[test]
fn a_row_shows_id_and_tags() {
    assert_eq!(label_of(&gist(12, "x", "a, b")), "#12 a, b");
    assert_eq!(label_of(&gist(-3, "x", "")), "#-3 ");
    assert_eq!(
        labels_of(&vec![gist(2, "x", "p"), gist(1, "y", "q")]),
        vec!["#2 p".to_string(), "#1 q".to_string()]
    );
    assert!(labels_of(&Vec::new()).is_empty());
}

#[test]
fn the_content_panel_shows_content_and_creation_time() {
    let g = gist(2, "print('hi')", "python");
    assert_eq!(content_of(Some(&g)), "print('hi')\n\nCreated: 2024-05-06 07:08:09");
    assert_eq!(title_of(Some(&g)), "Content (ID: 2)");
}

#[test]
fn the_content_panel_says_when_nothing_is_selected() {
    assert_eq!(content_of(None), "(no gists)");
    assert_eq!(title_of(None), "Content");
}

#[test]
fn the_status_bar_prefers_a_fresh_message() {
    let mut s = sample_state();
    s.handle_key(Key::Char('/'), 0);
    s.handle_key(Key::Char('x'), 0);
    s.set_status("Saved".to_string(), 100);
    assert_eq!(status_of(&s, 100), "Saved");
    assert_eq!(status_of(&s, 5099), "Saved");
    assert_eq!(status_of(&s, 5100), "/ x");
}

#[test]
fn the_status_bar_shows_what_is_typed() {
    let mut s = sample_state();
    s.handle_key(Key::Char('t'), 0);
    s.handle_key(Key::Char('!'), 0);
    assert_eq!(status_of(&s, 0), "Edit Tags: python!");
    s.handle_key(Key::Esc, 0);
    assert_eq!(status_of(&s, 0), HINTS);
    s.handle_key(Key::Char('s'), 0);
    assert_eq!(status_of(&s, 0), "/ ");
}

#[test]
fn the_confirmation_asks_the_right_question() {
    assert_eq!(
        question_of(ConfirmAction::Delete(7), false),
        "Are you sure you want to delete gist #7?\n\nPress y to confirm or Esc to cancel."
    );
    assert_eq!(
        question_of(ConfirmAction::Quit, true),
        "You have unsaved changes. Quit anyway?\n\nPress y to confirm or Esc to cancel."
    );
    assert_eq!(
        question_of(ConfirmAction::Quit, false),
        "Are you sure you want to quit?\n\nPress y to confirm or Esc to cancel."
    );
}

#[test]
fn the_main_screen_shows_the_state() {
    let mut s = sample_state();
    s.handle_key(Key::Down, 0);
    s.handle_key(Key::Tab, 0);
    let m = render_main(&s, screen(), 0);
    assert_eq!(m.rows, vec!["#2 python".to_string(), "#1 sql, db".to_string()]);
    assert_eq!(m.highlighted, Some(1));
    assert_eq!(m.focus, Panel::Content);
    assert_eq!(m.content_title, "Content (ID: 1)");
    assert_eq!(m.content, "SELECT 1\n\nCreated: 2024-05-06 07:08:09");
    assert_eq!(m.status, HINTS);
    assert!(m.status_normal);
    assert_eq!(m.panels, main_panels(screen()));
}

#[test]
fn the_main_screen_of_an_empty_list() {
    let s = AppState::new(Vec::new(), Config::default());
    let m = render_main(&s, screen(), 0);
    assert!(m.rows.is_empty());
    assert_eq!(m.highlighted, None);
    assert_eq!(m.content, "(no gists)");
    assert_eq!(m.content_title, "Content");
}

#[test]
fn the_status_colour_follows_the_mode() {
    let mut s = sample_state();
    s.handle_key(Key::Char('s'), 0);
    assert!(!render_main(&s, screen(), 0).status_normal);
}

#[test]
fn the_help_screen_takes_the_whole_terminal() {
    let mut s = sample_state();
    s.handle_key(Key::Char('?'), 0);
    s.handle_key(Key::Down, 0);
    let h = render_help(&s, screen());
    assert_eq!(h.area, screen());
    assert_eq!(h.title, "Help & Keyboard Shortcuts");
    assert_eq!(h.scroll, 1);
    let lines: Vec<&str> = h.text.split('\n').collect();
    assert_eq!(lines.len(), 24);
    assert_eq!(lines[0], "Navigation:");
    assert_eq!(lines[1], "  ↑/↓, j/k     - Move selection up/down");
    assert_eq!(lines[12], "  r            - Refresh snippet list");
    assert_eq!(lines[23], "Press ESC to return");
}

#[test]
fn each_mode_has_its_screen() {
    let mut s = sample_state();
    assert!(matches!(render_ui(&s, screen(), 0), Screen::Main(_)));
    s.handle_key(Key::Char('s'), 0);
    assert!(matches!(render_ui(&s, screen(), 0), Screen::Main(_)));
    s.handle_key(Key::Esc, 0);
    s.handle_key(Key::Char('t'), 0);
    assert!(matches!(render_ui(&s, screen(), 0), Screen::Main(_)));
    s.handle_key(Key::Esc, 0);
    s.handle_key(Key::Char('?'), 0);
    assert!(matches!(render_ui(&s, screen(), 0), Screen::Help(_)));
    s.handle_key(Key::Esc, 0);
    s.handle_key(Key::Char('d'), 0);
    match render_ui(&s, screen(), 0) {
        Screen::Confirm(main, dialog) => {
            assert_eq!(main.rows.len(), 2);
            assert_eq!(dialog.title, "Confirm");
            assert_eq!(
                dialog.text,
                "Are you sure you want to delete gist #2?\n\nPress y to confirm or Esc to cancel."
            );
            assert_eq!(dialog.area, centered_rect(60, 20, screen()));
        }
        other => panic!("unexpected screen {:?}", other),
    }
}

#[test]
fn the_quit_dialog_mentions_unsaved_changes() {
    let mut s = sample_state();
    let mut mirror = Vec::new();
    s.apply_result(&mut mirror, OperationResult::Delete(1, true), None, 0);
    s.handle_key(Key::Char('q'), 0);
    match render_ui(&s, screen(), 10_000) {
        Screen::Confirm(_, dialog) => assert_eq!(
            dialog.text,
            "You have unsaved changes. Quit anyway?\n\nPress y to confirm or Esc to cancel."
        ),
        other => panic!("unexpected screen {:?}", other),
    }
}

#[test]
fn the_panels_divide_the_screen() {
    let p = main_panels(screen());
    assert_eq!(p.status, Area { x: 0, y: 29, width: 100, height: 1 });
    assert_eq!(p.list, Area { x: 0, y: 0, width: 30, height: 29 });
    assert_eq!(p.content, Area { x: 30, y: 0, width: 70, height: 29 });
}

#[test]
fn the_panels_follow_the_origin_of_the_screen() {
    let p = main_panels(Area { x: 5, y: 3, width: 50, height: 11 });
    assert_eq!(p.status, Area { x: 5, y: 13, width: 50, height: 1 });
    assert_eq!(p.list, Area { x: 5, y: 3, width: 15, height: 10 });
    assert_eq!(p.content, Area { x: 20, y: 3, width: 35, height: 10 });
}

#[test]
fn the_dialog_stands_in_the_middle() {
    assert_eq!(
        centered_rect(60, 20, Area { x: 0, y: 0, width: 100, height: 50 }),
        Area { x: 20, y: 20, width: 60, height: 10 }
    );
    assert_eq!(
        centered_rect(100, 100, Area { x: 2, y: 1, width: 10, height: 10 }),
        Area { x: 2, y: 1, width: 10, height: 10 }
    );
}

#[test]
fn the_middle_of_three_is_the_second() {
    let a = Area { x: 0, y: 0, width: 1, height: 1 };
    let b = Area { x: 1, y: 0, width: 2, height: 1 };
    let c = Area { x: 3, y: 0, width: 1, height: 1 };
    assert_eq!(middle(&vec![a, b, c]), b);
}

#[test]
fn every_part_stays_on_the_screen() {
    for (x, y, width, height) in [(0, 0, 80, 24), (3, 2, 7, 5), (0, 0, 1, 1), (10, 10, 0, 0), (0, 0, 200, 61)] {
        let size = Area { x, y, width, height };
        let p = main_panels(size);
        let d = centered_rect(60, 20, size);
        for part in [p.list, p.content, p.status, d] {
            assert!(part.x >= size.x && part.x + part.width <= size.x + size.width);
            assert!(part.y >= size.y && part.y + part.height <= size.y + size.height);
        }
        assert_eq!((p.status.x, p.status.width), (size.x, size.width));
        assert_eq!((p.list.y, p.list.height), (p.content.y, p.content.height));
    }
}
