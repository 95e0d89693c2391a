use icymegle::controller::Controller;
use icymegle::interests::parse_interests;
use icymegle::message::{AppEffect, AppMessage};

#[test]
fn parse_splits_and_trims() {
    assert_eq!(parse_interests("a, b"), vec!["a", "b"]);
    assert_eq!(
        parse_interests("rust,  chess , ,music"),
        vec!["rust", "chess", "music"]
    );
}

#[test]
fn parse_empty_text_gives_no_interests() {
    assert_eq!(parse_interests(""), Vec::<String>::new());
}

#[test]
fn parse_drops_whitespace_only_tokens() {
    assert_eq!(parse_interests(" , ,"), Vec::<String>::new());
    assert_eq!(parse_interests(",a,"), vec!["a"]);
}

#[test]
fn parse_single_token() {
    assert_eq!(parse_interests("one"), vec!["one"]);
    assert_eq!(parse_interests("  one  "), vec!["one"]);
}

#[test]
fn parse_trims_tabs_and_newlines() {
    assert_eq!(parse_interests("\ta\n,\r b \t"), vec!["a", "b"]);
}

#[test]
fn parse_keeps_inner_whitespace() {
    assert_eq!(parse_interests(" board games , piano "), vec![
        "board games",
        "piano"
    ]);
}

#[test]
fn pairing_carries_current_interests() {
    let mut c = Controller::new();
    let effects = c.update(
        AppMessage::UpdateInterestString("rust, chess".to_string()),
        0,
    );
    assert!(effects.is_empty());
    assert_eq!(c.interests_string().as_str(), "rust, chess");
    assert_eq!(c.interests(), &vec!["rust".to_string(), "chess".to_string()]);
    let effects = c.update(AppMessage::StartNewChat, 1);
    assert_eq!(
        effects,
        vec![AppEffect::StartChat(vec![
            "rust".to_string(),
            "chess".to_string()
        ])]
    );
}

#[test]
fn interests_edit_after_pairing_changes_nothing_until_next_pairing() {
    let mut c = Controller::new();
    c.update(AppMessage::UpdateInterestString("a".to_string()), 0);
    c.update(AppMessage::StartNewChat, 1);
    c.update(AppMessage::UpdateChat(Some(1)), 2);
    // Edits while connected only retune the list for the next attempt.
    let effects = c.update(AppMessage::UpdateInterestString("a, b".to_string()), 3);
    assert!(effects.is_empty());
    c.update(AppMessage::Disconnect, 4);
    let effects = c.update(AppMessage::StartNewChat, 5);
    assert_eq!(
        effects,
        vec![AppEffect::StartChat(vec!["a".to_string(), "b".to_string()])]
    );
}
