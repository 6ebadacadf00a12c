use tbot::event_loop::{Anomaly, Call, Category, Context, Dispatch, EventLoop, IdentityError, Outcome, Stage};
use tbot::message::{Chat, Media, Message, MessageData, MessageKind, User};
use tbot::text::{Entity, EntityKind, Text};
use tbot::update::{CallbackKind, CallbackOrigin, CallbackQuery, Update, UpdateKind};

fn user() -> User {
    User { id: 7, is_bot: false, first_name: "Ann".to_string(), username: None }
}

fn data(edit_date: Option<i64>) -> MessageData {
    MessageData {
        id: 42,
        from: Some(user()),
        date: 1_600_000_000,
        chat: Chat { id: -100, title: Some("group".to_string()) },
        edit_date,
    }
}

fn message(kind: MessageKind) -> Message {
    Message::new(data(None), kind)
}

fn edited(kind: MessageKind) -> Message {
    Message::new(data(Some(1_600_000_100)), kind)
}

fn plain(value: &str) -> Text {
    Text { value: value.to_string(), entities: vec![] }
}

fn command_text(value: &str, length: usize) -> Text {
    Text {
        value: value.to_string(),
        entities: vec![Entity { kind: EntityKind::BotCommand, offset: 0, length }],
    }
}

fn update(kind: UpdateKind) -> Update {
    Update { id: 5, kind }
}

fn routed(handlers: &[usize]) -> Vec<Call> {
    handlers.iter().map(|&handler| Call { handler, stage: Stage::Routed }).collect()
}

fn sticker() -> MessageKind {
    MessageKind::Sticker(Media { file_id: "sticker".to_string(), file_size: None })
}

fn callback(kind: CallbackKind) -> CallbackQuery {
    CallbackQuery {
        id: "q".to_string(),
        from: user(),
        origin: CallbackOrigin::Inline("inline".to_string()),
        chat_instance: "instance".to_string(),
        kind,
    }
}

#[test]
fn command_for_other_bot_reaches_no_handler() {
    let mut bot: EventLoop<&str> = EventLoop::new();
    bot.username("mybot".to_string());
    bot.start("start");
    bot.unhandled("unhandled");
    let kind = MessageKind::Text(command_text("/start@otherbot", 15));
    let dispatch = bot.handle_update(update(UpdateKind::Message(message(kind))));
    assert!(dispatch.calls.is_empty());
    assert_eq!(dispatch.outcome, Outcome::ForeignCommand);
}

#[test]
fn command_with_username_but_none_configured_is_foreign() {
    let mut bot: EventLoop<&str> = EventLoop::new();
    bot.start("start");
    let kind = MessageKind::Text(command_text("/start@mybot", 12));
    let dispatch = bot.handle_update(update(UpdateKind::Message(message(kind))));
    assert!(dispatch.calls.is_empty());
    assert_eq!(dispatch.outcome, Outcome::ForeignCommand);
}

#[test]
fn command_for_this_bot_is_trimmed_and_delivered() {
    let mut bot: EventLoop<&str> = EventLoop::new();
    bot.username("mybot".to_string());
    bot.start("start");
    let kind = MessageKind::Text(command_text("/start@mybot  hello", 12));
    let dispatch = bot.handle_update(update(UpdateKind::Message(message(kind))));
    assert_eq!(dispatch.calls, routed(&[0]));
    assert_eq!(bot.handler(0), Some(&"start"));
    assert_eq!(
        dispatch.outcome,
        Outcome::Delivered(Context::Command("start".to_string(), data(None), plain("hello")))
    );
}

#[test]
fn unregistered_command_falls_back_untrimmed() {
    let mut bot: EventLoop<&str> = EventLoop::new();
    bot.help("help");
    bot.unhandled("unhandled");
    let kind = MessageKind::Text(command_text("/settings x", 9));
    let dispatch = bot.handle_update(update(UpdateKind::Message(message(kind))));
    assert_eq!(dispatch.calls, routed(&[1]));
    let original = MessageKind::Text(command_text("/settings x", 9));
    assert_eq!(
        dispatch.outcome,
        Outcome::Delivered(Context::Unhandled(UpdateKind::Message(message(original))))
    );
}

#[test]
fn one_handler_for_several_commands() {
    let mut bot: EventLoop<&str> = EventLoop::new();
    bot.commands(&["a", "b"], "ab");
    bot.command("b", "b");
    let kind = MessageKind::Text(command_text("/b", 2));
    let dispatch = bot.handle_update(update(UpdateKind::Message(message(kind))));
    assert_eq!(dispatch.calls, routed(&[0, 1]));
    let kind = MessageKind::Text(command_text("/a", 2));
    let dispatch = bot.handle_update(update(UpdateKind::Message(message(kind))));
    assert_eq!(dispatch.calls, routed(&[0]));
    assert_eq!(bot.handler(2), None);
}

#[test]
fn category_without_handlers_falls_back_to_unhandled() {
    let mut bot: EventLoop<&str> = EventLoop::new();
    bot.unhandled("unhandled");
    let dispatch = bot.handle_update(update(UpdateKind::Message(message(sticker()))));
    assert_eq!(dispatch.calls, routed(&[0]));
    assert_eq!(dispatch.update_id, 5);
    assert_eq!(
        dispatch.outcome,
        Outcome::Delivered(Context::Unhandled(UpdateKind::Message(message(sticker()))))
    );
}

#[test]
fn channel_post_falls_back_in_its_own_shape() {
    let mut bot: EventLoop<&str> = EventLoop::new();
    bot.unhandled("unhandled");
    let dispatch = bot.handle_update(update(UpdateKind::ChannelPost(message(sticker()))));
    assert_eq!(
        dispatch.outcome,
        Outcome::Delivered(Context::Unhandled(UpdateKind::ChannelPost(message(sticker()))))
    );
}

#[test]
fn nothing_registered_discards_update() {
    let bot: EventLoop<&str> = EventLoop::new();
    let dispatch = bot.handle_update(update(UpdateKind::Message(message(sticker()))));
    assert!(dispatch.calls.is_empty());
    assert_eq!(dispatch.outcome, Outcome::Discarded);
}

#[test]
fn handlers_of_one_category_launch_in_registration_order() {
    let mut bot: EventLoop<usize> = EventLoop::new();
    bot.register(Category::Text, 10);
    bot.register(Category::Text, 11);
    bot.register(Category::Text, 12);
    let dispatch = bot.handle_update(update(UpdateKind::Message(message(MessageKind::Text(plain("hi"))))));
    let order: Vec<usize> = dispatch.calls.iter().map(|c| *bot.handler(c.handler).unwrap()).collect();
    assert_eq!(order, vec![10, 11, 12]);
    assert_eq!(
        dispatch.outcome,
        Outcome::Delivered(Context::Message(data(None), MessageKind::Text(plain("hi"))))
    );
}

#[test]
fn migration_to_supergroup_is_never_delivered() {
    let mut bot: EventLoop<&str> = EventLoop::new();
    bot.unhandled("unhandled");
    let dispatch = bot.handle_update(update(UpdateKind::Message(message(MessageKind::MigrateTo(123)))));
    assert!(dispatch.calls.is_empty());
    assert_eq!(dispatch.outcome, Outcome::Discarded);
}

#[test]
fn before_and_after_handlers_surround_routed_ones() {
    let mut bot: EventLoop<&str> = EventLoop::new();
    bot.register(Category::AfterUpdate, "after");
    bot.register(Category::Text, "text");
    bot.register(Category::BeforeUpdate, "before");
    let dispatch = bot.handle_update(update(UpdateKind::Message(message(MessageKind::Text(plain("hi"))))));
    assert_eq!(
        dispatch.calls,
        vec![
            Call { handler: 2, stage: Stage::BeforeUpdate },
            Call { handler: 1, stage: Stage::Routed },
            Call { handler: 0, stage: Stage::AfterUpdate },
        ]
    );
}

#[test]
fn before_and_after_handlers_run_even_when_nothing_matches() {
    let mut bot: EventLoop<&str> = EventLoop::new();
    bot.register(Category::BeforeUpdate, "before");
    bot.register(Category::AfterUpdate, "after");
    let dispatch = bot.handle_update(update(UpdateKind::Unknown));
    assert_eq!(
        dispatch.calls,
        vec![
            Call { handler: 0, stage: Stage::BeforeUpdate },
            Call { handler: 1, stage: Stage::AfterUpdate },
        ]
    );
    assert_eq!(dispatch.outcome, Outcome::Discarded);
}

#[test]
fn unknown_update_goes_to_unhandled() {
    let mut bot: EventLoop<&str> = EventLoop::new();
    bot.unhandled("unhandled");
    let dispatch = bot.handle_update(update(UpdateKind::Unknown));
    assert_eq!(dispatch.calls, routed(&[0]));
    assert_eq!(dispatch.outcome, Outcome::Delivered(Context::Unhandled(UpdateKind::Unknown)));
}

#[test]
fn supergroup_created_is_an_anomaly() {
    let mut bot: EventLoop<&str> = EventLoop::new();
    bot.unhandled("unhandled");
    let dispatch = bot.handle_update(update(UpdateKind::Message(message(MessageKind::SupergroupCreated))));
    assert!(dispatch.calls.is_empty());
    assert_eq!(
        dispatch.outcome,
        Outcome::Anomaly(Anomaly::UnexpectedMessage(MessageKind::SupergroupCreated))
    );
}

#[test]
fn edited_message_without_edit_date_is_an_anomaly() {
    let mut bot: EventLoop<&str> = EventLoop::new();
    bot.register(Category::EditedText, "edited");
    let dispatch = bot.handle_update(update(UpdateKind::EditedMessage(message(MessageKind::Text(plain("x"))))));
    assert!(dispatch.calls.is_empty());
    assert_eq!(dispatch.outcome, Outcome::Anomaly(Anomaly::MissingEditDate));
}

#[test]
fn edited_sticker_is_an_anomaly() {
    let mut bot: EventLoop<&str> = EventLoop::new();
    bot.unhandled("unhandled");
    let dispatch = bot.handle_update(update(UpdateKind::EditedMessage(edited(sticker()))));
    assert!(dispatch.calls.is_empty());
    assert_eq!(dispatch.outcome, Outcome::Anomaly(Anomaly::UnexpectedEdit(sticker())));
}

#[test]
fn edited_text_is_delivered_with_its_edit_date() {
    let mut bot: EventLoop<&str> = EventLoop::new();
    bot.register(Category::EditedText, "edited");
    let dispatch = bot.handle_update(update(UpdateKind::EditedChannelPost(edited(MessageKind::Text(plain("x"))))));
    assert_eq!(dispatch.calls, routed(&[0]));
    assert_eq!(
        dispatch.outcome,
        Outcome::Delivered(Context::EditedMessage(
            data(Some(1_600_000_100)),
            1_600_000_100,
            MessageKind::Text(plain("x"))
        ))
    );
}

#[test]
fn edited_command_uses_edited_command_handlers() {
    let mut bot: EventLoop<&str> = EventLoop::new();
    bot.command("go", "go");
    bot.edited_commands(&["go"], "edited go");
    let kind = MessageKind::Text(command_text("/go far", 3));
    let dispatch = bot.handle_update(update(UpdateKind::EditedMessage(edited(kind))));
    assert_eq!(dispatch.calls, routed(&[1]));
    assert_eq!(
        dispatch.outcome,
        Outcome::Delivered(Context::EditedCommand(
            "go".to_string(),
            data(Some(1_600_000_100)),
            1_600_000_100,
            plain("far")
        ))
    );
}

#[test]
fn edited_command_only_reaches_edited_handlers() {
    let mut bot: EventLoop<&str> = EventLoop::new();
    bot.edited_command("go", "edited go");
    let kind = MessageKind::Text(command_text("/go", 3));
    let dispatch = bot.handle_update(update(UpdateKind::Message(message(kind))));
    assert!(dispatch.calls.is_empty());
    assert_eq!(dispatch.outcome, Outcome::Discarded);
}

#[test]
fn malformed_command_is_an_anomaly() {
    let mut bot: EventLoop<&str> = EventLoop::new();
    bot.command("go", "go");
    let t = Text {
        value: "/go  x".to_string(),
        entities: vec![
            Entity { kind: EntityKind::BotCommand, offset: 0, length: 3 },
            Entity { kind: EntityKind::Code, offset: 4, length: 2 },
        ],
    };
    let dispatch = bot.handle_update(update(UpdateKind::Message(message(MessageKind::Text(t)))));
    assert!(dispatch.calls.is_empty());
    assert_eq!(dispatch.outcome, Outcome::Anomaly(Anomaly::MalformedCommand));
}

#[test]
fn callbacks_route_by_their_kind() {
    let mut bot: EventLoop<&str> = EventLoop::new();
    bot.register(Category::DataCallback, "data");
    bot.register(Category::GameCallback, "game");
    let data_kind = CallbackKind::Data("d".to_string());
    let dispatch = bot.handle_update(update(UpdateKind::CallbackQuery(callback(data_kind.clone()))));
    assert_eq!(dispatch.calls, routed(&[0]));
    assert_eq!(dispatch.outcome, Outcome::Delivered(Context::Callback(callback(data_kind))));
    let game_kind = CallbackKind::Game("g".to_string());
    let dispatch = bot.handle_update(update(UpdateKind::CallbackQuery(callback(game_kind))));
    assert_eq!(dispatch.calls, routed(&[1]));
}

#[test]
fn callback_without_handler_falls_back() {
    let mut bot: EventLoop<&str> = EventLoop::new();
    bot.register(Category::DataCallback, "data");
    bot.unhandled("unhandled");
    let game_kind = CallbackKind::Game("g".to_string());
    let dispatch = bot.handle_update(update(UpdateKind::CallbackQuery(callback(game_kind.clone()))));
    assert_eq!(dispatch.calls, routed(&[1]));
    assert_eq!(
        dispatch.outcome,
        Outcome::Delivered(Context::Unhandled(UpdateKind::CallbackQuery(callback(game_kind))))
    );
}

#[test]
fn dispatch_reports_update_id() {
    let bot: EventLoop<&str> = EventLoop::new();
    let Dispatch { update_id, .. } = bot.handle_update(Update { id: 77, kind: UpdateKind::Unknown });
    assert_eq!(update_id, 77);
}

#[test]
fn identity_with_username_configures_gate() {
    let mut bot: EventLoop<&str> = EventLoop::new();
    bot.start("start");
    let me = User { id: 1, is_bot: true, first_name: "Bot".to_string(), username: Some("mybot".to_string()) };
    assert_eq!(bot.username_from_identity(me), Ok(()));
    let kind = MessageKind::Text(command_text("/start@mybot", 12));
    let dispatch = bot.handle_update(update(UpdateKind::Message(message(kind))));
    assert_eq!(dispatch.calls, routed(&[0]));
}

#[test]
fn identity_without_username_is_an_error() {
    let mut bot: EventLoop<&str> = EventLoop::new();
    let me = User { id: 1, is_bot: true, first_name: "Bot".to_string(), username: None };
    assert_eq!(bot.username_from_identity(me), Err(IdentityError::NoUsername));
}
