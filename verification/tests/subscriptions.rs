use zero2prod::routes::subscriptions::{
    is_valid_name, name_rules_accept, subscribe_step, FormData, ResponseStatus, SubscribeAction,
    SubscribeEvent, SubscribeStage, MAX_NAME_GRAPHEMES,
};

fn form(name: &str) -> FormData {
    FormData { name: name.to_string(), email: "ursula_le_guin@gmail.com".to_string() }
}

/// Runs the handling of one request with the given outcomes of the outside work,
/// and returns the actions taken.
fn run(name: &str, connected: bool, inserted: bool) -> Vec<SubscribeAction> {
    let form = form(name);
    let mut actions = Vec::new();
    let mut stage = SubscribeStage::Received;
    let mut event = SubscribeEvent::Start;
    loop {
        let (next, action) = subscribe_step(&form, stage, event);
        actions.push(action);
        stage = next;
        event = match (stage, action) {
            (SubscribeStage::Answered, _) => return actions,
            (_, SubscribeAction::GetConnection) => {
                if connected { SubscribeEvent::ConnectionReady } else { SubscribeEvent::ConnectionFailed }
            }
            (_, SubscribeAction::InsertSubscriber) => {
                if inserted { SubscribeEvent::InsertDone } else { SubscribeEvent::InsertFailed }
            }
            (_, SubscribeAction::Respond(_)) => unreachable!(),
        };
    }
}

#[test]
fn valid_names() {
    assert!(is_valid_name("le guin"));
    assert!(is_valid_name("Ursula K. Le Guin"));
    assert!(is_valid_name("a"));
    assert!(is_valid_name("  padded  "));
    assert!(is_valid_name("Émile Zola"));
}

#[test]
fn empty_or_blank_names_are_invalid() {
    assert!(!is_valid_name(""));
    assert!(!is_valid_name(" "));
    assert!(!is_valid_name(" \t\n\r "));
    assert!(!is_valid_name("\u{3000}\u{a0}\u{2028}"));
}

#[test]
fn names_with_forbidden_characters_are_invalid() {
    for c in ['/', '(', ')', '"', '<', '>', '\\', '{', '}'] {
        let name = format!("ursula{}", c);
        assert!(!is_valid_name(&name), "{name} was accepted");
    }
    assert!(!is_valid_name("<script>alert(1)</script>"));
}

#[test]
fn names_up_to_the_grapheme_limit_are_valid() {
    assert!(is_valid_name(&"a".repeat(256)));
    assert!(!is_valid_name(&"a".repeat(257)));
    assert!(is_valid_name(&"ё".repeat(256)));
}

#[test]
fn the_limit_counts_graphemes_not_characters() {
    // "e" followed by a combining acute accent: two characters, one grapheme.
    let name = "e\u{301}".repeat(256);
    assert_eq!(name.chars().count(), 512);
    assert!(is_valid_name(&name));
    assert!(!is_valid_name(&"e\u{301}".repeat(257)));
}

#[test]
fn name_rules_take_the_grapheme_count_as_given() {
    assert!(name_rules_accept("le guin", 7));
    assert!(name_rules_accept("le guin", MAX_NAME_GRAPHEMES));
    assert!(!name_rules_accept("le guin", MAX_NAME_GRAPHEMES + 1));
    assert!(!name_rules_accept("le/guin", 7));
    assert!(!name_rules_accept("   ", 3));
}

#[test]
fn status_codes() {
    assert_eq!(ResponseStatus::Success.as_u16(), 200);
    assert_eq!(ResponseStatus::BadRequest.as_u16(), 400);
    assert_eq!(ResponseStatus::InternalServerError.as_u16(), 500);
}

#[test]
fn valid_form_is_saved_and_answered_200() {
    assert_eq!(
        run("le guin", true, true),
        vec![
            SubscribeAction::GetConnection,
            SubscribeAction::InsertSubscriber,
            SubscribeAction::Respond(ResponseStatus::Success),
        ]
    );
}

#[test]
fn invalid_name_is_answered_400_without_touching_the_database() {
    for name in ["", "   ", "le/guin"] {
        assert_eq!(
            run(name, true, true),
            vec![SubscribeAction::Respond(ResponseStatus::BadRequest)]
        );
    }
}

#[test]
fn failed_connection_is_answered_500() {
    assert_eq!(
        run("le guin", false, true),
        vec![
            SubscribeAction::GetConnection,
            SubscribeAction::Respond(ResponseStatus::InternalServerError),
        ]
    );
}

#[test]
fn failed_insert_is_answered_500() {
    assert_eq!(
        run("le guin", true, false),
        vec![
            SubscribeAction::GetConnection,
            SubscribeAction::InsertSubscriber,
            SubscribeAction::Respond(ResponseStatus::InternalServerError),
        ]
    );
}

#[test]
fn single_steps() {
    let form = form("le guin");
    assert_eq!(
        subscribe_step(&form, SubscribeStage::Connecting, SubscribeEvent::ConnectionReady),
        (SubscribeStage::Inserting, SubscribeAction::InsertSubscriber)
    );
    assert_eq!(
        subscribe_step(&form, SubscribeStage::Inserting, SubscribeEvent::InsertDone),
        (SubscribeStage::Answered, SubscribeAction::Respond(ResponseStatus::Success))
    );
}

#[test]
fn carriage_return_and_line_feed_count_as_one_grapheme() {
    // 128 pairs "\r\n" make 256 characters but 128 clusters; with a letter the
    // name is not blank.
    let name = format!("a{}", "\r\n".repeat(128));
    assert!(is_valid_name(&name));
    let name = format!("a{}", "\r\n".repeat(256));
    assert!(!is_valid_name(&name));
}
