use tbot::inline_message_id::{self, InlineMessageId};
use tbot::inline_query;
use tbot::input_message_content;
use tbot::keyboard::{Button, ButtonKind, Game, Keyboard, LoginUrl};
use tbot::labeled_price::LabeledPrice;
use tbot::message::{Chat, Message, MessageData, MessageKind};
use tbot::parameters::{self, ParseMode};
use tbot::poll::{Answer, Any, AutoClose, Kind, Poll, Quiz};
use tbot::update::{CallbackKind, CallbackOrigin, CallbackQueryError, CallbackQueryFields};
use tbot::message::User;

fn user() -> User {
    User { id: 1, is_bot: false, first_name: "Bo".to_string(), username: Some("bo".to_string()) }
}

fn fields() -> CallbackQueryFields {
    CallbackQueryFields {
        id: Some("id".to_string()),
        from: Some(user()),
        message: None,
        inline_message_id: Some("inline".to_string()),
        chat_instance: Some("chat".to_string()),
        data: Some("data".to_string()),
        game_short_name: None,
    }
}

fn envelope() -> MessageData {
    MessageData { id: 3, from: None, date: 10, chat: Chat { id: 9, title: None }, edit_date: None }
}

#[test]
fn callback_query_from_complete_fields() {
    let query = fields().build().unwrap();
    assert_eq!(query.id, "id");
    assert_eq!(query.chat_instance, "chat");
    assert_eq!(query.origin, CallbackOrigin::Inline("inline".to_string()));
    assert_eq!(query.kind, CallbackKind::Data("data".to_string()));
}

#[test]
fn callback_query_prefers_message_and_data() {
    let mut f = fields();
    f.message = Some(Message::new(envelope(), MessageKind::GroupCreated));
    f.game_short_name = Some("game".to_string());
    let query = f.build().unwrap();
    assert_eq!(
        query.origin,
        CallbackOrigin::Message(Box::new(Message::new(envelope(), MessageKind::GroupCreated)))
    );
    assert_eq!(query.kind, CallbackKind::Data("data".to_string()));
}

#[test]
fn callback_query_game_kind() {
    let mut f = fields();
    f.data = None;
    f.game_short_name = Some("game".to_string());
    assert_eq!(f.build().unwrap().kind, CallbackKind::Game("game".to_string()));
}

#[test]
fn callback_query_errors() {
    let mut f = fields();
    f.inline_message_id = None;
    assert_eq!(f.build().unwrap_err(), CallbackQueryError::NoOrigin);
    let mut f = fields();
    f.data = None;
    assert_eq!(f.build().unwrap_err(), CallbackQueryError::NoKind);
    let mut f = fields();
    f.id = None;
    assert_eq!(f.build().unwrap_err(), CallbackQueryError::MissingId);
    let mut f = fields();
    f.from = None;
    assert_eq!(f.build().unwrap_err(), CallbackQueryError::MissingFrom);
    let mut f = fields();
    f.chat_instance = None;
    assert_eq!(f.build().unwrap_err(), CallbackQueryError::MissingChatInstance);
}

#[test]
fn callback_query_origin_error_comes_first() {
    let f = CallbackQueryFields {
        id: None,
        from: None,
        message: None,
        inline_message_id: None,
        chat_instance: None,
        data: None,
        game_short_name: None,
    };
    assert_eq!(f.build().unwrap_err(), CallbackQueryError::NoOrigin);
}

#[test]
fn split_and_new_are_inverse() {
    let m = Message::new(envelope(), MessageKind::NewChatTitle("t".to_string()));
    let (data, kind) = m.split();
    assert_eq!(data, envelope());
    assert_eq!(kind, MessageKind::NewChatTitle("t".to_string()));
    assert_eq!(
        Message::new(data, kind),
        Message::new(envelope(), MessageKind::NewChatTitle("t".to_string()))
    );
}

#[test]
fn inline_message_id_round_trip() {
    let id = InlineMessageId("abc".to_string());
    let r = id.as_ref();
    assert_eq!(r, inline_message_id::Ref("abc"));
    assert_eq!(r.to_owned(), id);
}

#[test]
fn inline_query_id_round_trip() {
    let id = inline_query::Id("q1".to_string());
    let r = id.as_ref();
    assert_eq!(r, inline_query::Ref("q1"));
    assert_eq!(r.to_owned(), id);
}

#[test]
fn input_text_configures_preview() {
    let t = input_message_content::Text::new(parameters::Text { text: "*hi*", parse_mode: Some(ParseMode::Markdown) });
    assert_eq!(t.message_text(), "*hi*");
    assert_eq!(t.parse_mode(), Some(ParseMode::Markdown));
    assert_eq!(t.web_page_preview_disabled(), None);
    let t = t.is_web_page_preview_disabled(true);
    assert_eq!(t.web_page_preview_disabled(), Some(true));
    assert_eq!(t.message_text(), "*hi*");
}

#[test]
fn labeled_price_keeps_label_and_amount() {
    let p = LabeledPrice::new("Tax", 250);
    assert_eq!(p.label(), "Tax");
    assert_eq!(p.amount(), 250);
}

#[test]
fn poll_answers() {
    assert!(Poll::new(Answer::Multiple).allows_multiple_answers());
    assert!(!Poll::new(Answer::Single).allows_multiple_answers());
}

#[test]
fn quiz_explanation() {
    let q = Quiz::new(2);
    assert_eq!(q.correct_option_id(), 2);
    assert_eq!(q.explanation_text(), None);
    let q = q.explanation(parameters::Text { text: "because", parse_mode: Some(ParseMode::Html) });
    assert_eq!(q.correct_option_id(), 2);
    assert_eq!(q.explanation_text(), Some("because"));
    assert_eq!(q.explanation_parse_mode(), Some(ParseMode::Html));
}

#[test]
fn any_poll_builder() {
    let p = Any::new("Why?", vec!["a", "b", "c"], Kind::Poll(Poll::new(Answer::Single)));
    assert_eq!(p.question(), "Why?");
    assert_eq!(p.option_count(), 3);
    assert_eq!(p.closed_setting(), None);
    let p = p.is_immediately_closed(true).is_anonymous(false).auto_close(AutoClose::OpenPeriod(60));
    assert_eq!(p.closed_setting(), Some(true));
    assert_eq!(p.anonymous_setting(), Some(false));
    assert_eq!(p.auto_close_setting(), Some(AutoClose::OpenPeriod(60)));
    assert_eq!(p.kind(), Kind::Poll(Poll::new(Answer::Single)));
}

#[test]
fn button_kinds_and_field_names() {
    assert_eq!(ButtonKind::with_url("u"), ButtonKind::Url("u"));
    assert_eq!(ButtonKind::with_url("u").field_name(), "url");
    assert_eq!(ButtonKind::with_login_url("l"), ButtonKind::LoginUrl(LoginUrl { url: "l" }));
    assert_eq!(ButtonKind::with_login_url("l").field_name(), "login_url");
    assert_eq!(ButtonKind::with_callback_data("d").field_name(), "callback_data");
    assert_eq!(ButtonKind::with_switch_inline_query("q").field_name(), "switch_inline_query");
    assert_eq!(
        ButtonKind::with_switch_inline_query_current_chat("q").field_name(),
        "switch_inline_query_current_chat"
    );
    assert_eq!(ButtonKind::with_callback_game(), ButtonKind::CallbackGame(Game));
    assert_eq!(ButtonKind::with_callback_game().field_name(), "callback_game");
    assert_eq!(ButtonKind::with_pay(true), ButtonKind::Pay(true));
    assert_eq!(ButtonKind::with_pay(true).field_name(), "pay");
}

#[test]
fn button_and_keyboard() {
    let b = Button::new("Open", ButtonKind::with_url("https://example.com"));
    assert_eq!(b.text(), "Open");
    assert_eq!(b.kind(), ButtonKind::Url("https://example.com"));
    assert_eq!(b.from_ref(), b);
    let k = Keyboard::new(vec![vec![b], vec![b, b]]);
    assert_eq!(k.rows().len(), 2);
    assert_eq!(k.rows()[1].len(), 2);
}

#[test]
fn keyboard_from_borrowed_rows() {
    let a = Button::new("A", ButtonKind::with_callback_data("a"));
    let b = Button::new("B", ButtonKind::with_pay(true));
    let first: &[Button] = &[a, b];
    let second: &[Button] = &[b];
    let k = Keyboard::from_rows(&[first, second]);
    assert_eq!(k.rows(), &vec![vec![a, b], vec![b]]);
    assert_eq!(Keyboard::from_rows(&[]).rows().len(), 0);
}
