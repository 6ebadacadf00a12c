use tbot::text::{can_trim_command, is_command, parse_command, trim_command, Entity, EntityKind, Text};

fn entity(kind: EntityKind, offset: usize, length: usize) -> Entity {
    Entity { kind, offset, length }
}

fn text(value: &str, entities: Vec<Entity>) -> Text {
    Text { value: value.to_string(), entities }
}

#[test]
fn text_without_entities_is_no_command() {
    assert!(!is_command(&text("/start", vec![])));
    assert!(!is_command(&text("", vec![])));
}

#[test]
fn first_entity_decides_whether_text_is_a_command() {
    assert!(is_command(&text("/start", vec![entity(EntityKind::BotCommand, 0, 6)])));
    assert!(!is_command(&text("a /start", vec![entity(EntityKind::BotCommand, 2, 6)])));
    assert!(!is_command(&text("/start", vec![entity(EntityKind::Bold, 0, 6)])));
    assert!(!is_command(&text(
        "hi /start",
        vec![entity(EntityKind::Bold, 0, 2), entity(EntityKind::BotCommand, 3, 6)],
    )));
}

#[test]
fn parse_command_splits_name_and_username() {
    let t = text("/foo@bar baz", vec![entity(EntityKind::BotCommand, 0, 8)]);
    let (command, username) = parse_command(&t);
    assert_eq!(command, "foo");
    assert_eq!(username.as_deref(), Some("bar"));
}

#[test]
fn parse_command_without_username() {
    let t = text("/start now", vec![entity(EntityKind::BotCommand, 0, 6)]);
    let (command, username) = parse_command(&t);
    assert_eq!(command, "start");
    assert_eq!(username, None);
}

#[test]
fn parse_command_stops_at_any_whitespace() {
    let t = text("/help\targs", vec![entity(EntityKind::BotCommand, 0, 5)]);
    assert_eq!(parse_command(&t).0, "help");
    let t = text("/help\u{3000}args", vec![entity(EntityKind::BotCommand, 0, 5)]);
    assert_eq!(parse_command(&t).0, "help");
}

#[test]
fn parse_command_splits_once_on_at_sign() {
    let t = text("/a@b@c", vec![entity(EntityKind::BotCommand, 0, 6)]);
    let (command, username) = parse_command(&t);
    assert_eq!(command, "a");
    assert_eq!(username.as_deref(), Some("b@c"));
}

#[test]
fn trim_command_removes_command_and_following_whitespace() {
    let t = text(
        "/start   hello *world*",
        vec![entity(EntityKind::BotCommand, 0, 6), entity(EntityKind::Bold, 15, 7)],
    );
    assert!(can_trim_command(&t));
    let trimmed = trim_command(t);
    assert_eq!(trimmed.value, "hello *world*");
    assert_eq!(trimmed.entities, vec![entity(EntityKind::Bold, 6, 7)]);
    assert_eq!(&trimmed.value[6..13], "*world*");
}

#[test]
fn trim_command_counts_characters_not_bytes() {
    let t = text(
        "/say é ü",
        vec![entity(EntityKind::BotCommand, 0, 4), entity(EntityKind::Italic, 7, 1)],
    );
    let trimmed = trim_command(t);
    assert_eq!(trimmed.value, "é ü");
    assert_eq!(trimmed.entities, vec![entity(EntityKind::Italic, 2, 1)]);
    assert_eq!(trimmed.value.chars().nth(2), Some('ü'));
}

#[test]
fn trim_command_of_bare_command_is_empty() {
    let trimmed = trim_command(text("/start", vec![entity(EntityKind::BotCommand, 0, 6)]));
    assert_eq!(trimmed.value, "");
    assert!(trimmed.entities.is_empty());
}

#[test]
fn entity_inside_removed_part_blocks_trimming() {
    let t = text(
        "/start  x",
        vec![entity(EntityKind::BotCommand, 0, 6), entity(EntityKind::Code, 7, 2)],
    );
    assert!(!can_trim_command(&t));
    assert!(!can_trim_command(&text("/start", vec![])));
}
