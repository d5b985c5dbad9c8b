use gist::utils::{answer_is_yes, choose_editor, split_command, validate_content};

#[test]
fn test_validate_content() {
    assert!(validate_content("hello").is_ok());
    assert!(validate_content("").is_err());
    assert!(validate_content("   ").is_err());

    let large = "a".repeat(1_000_001);
    assert!(validate_content(&large).is_err());
}

#[test]
fn each_fault_has_its_message() {
    assert_eq!(validate_content(" \n\t"), Err("Content cannot be empty".to_string()));
    assert_eq!(
        validate_content(&"a".repeat(1_000_001)),
        Err("Content is too large (max 1MB)".to_string())
    );
    assert_eq!(
        validate_content(&" ".repeat(1_000_001)),
        Err("Content cannot be empty".to_string())
    );
}

#[test]
fn the_size_limit_counts_bytes_and_is_inclusive() {
    assert_eq!(validate_content(&"a".repeat(1_000_000)), Ok(()));
    assert_eq!(validate_content(&"é".repeat(500_000)), Ok(()));
    assert!(validate_content(&"é".repeat(500_001)).is_err());
}

#[test]
fn unicode_whitespace_is_blank() {
    assert!(validate_content("\u{2003}\u{00a0}").is_err());
    assert!(validate_content("\u{2003}x").is_ok());
}

#[test]
fn yes_is_the_letter_y_alone() {
    assert!(answer_is_yes("y"));
    assert!(answer_is_yes("Y\n"));
    assert!(answer_is_yes("  y  "));
    assert!(!answer_is_yes("yes"));
    assert!(!answer_is_yes("n"));
    assert!(!answer_is_yes(""));
    assert!(!answer_is_yes("y y"));
}

#[test]
fn an_editor_command_splits_at_whitespace() {
    assert_eq!(
        split_command("code  --wait\t-n"),
        ("code".to_string(), vec!["--wait".to_string(), "-n".to_string()])
    );
    assert_eq!(split_command("vim"), ("vim".to_string(), Vec::<String>::new()));
}

#[test]
fn an_empty_editor_command_means_vi() {
    assert_eq!(split_command(""), ("vi".to_string(), Vec::<String>::new()));
    assert_eq!(split_command("  \t "), ("vi".to_string(), Vec::<String>::new()));
}

#[test]
fn the_editor_is_chosen_in_order() {
    assert_eq!(choose_editor("hx", Some("emacs".to_string()), false, true, true), "hx");
    assert_eq!(choose_editor("", Some("emacs".to_string()), true, true, true), "emacs");
    assert_eq!(choose_editor("", None, true, true, true), "notepad");
    assert_eq!(choose_editor("", None, false, true, true), "nvim");
    assert_eq!(choose_editor("", None, false, false, true), "vim");
    assert_eq!(choose_editor("", None, false, false, false), "nano");
}
