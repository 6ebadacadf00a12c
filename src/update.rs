//! Updates: the events that the remote side sends to the bot.
use crate::inline_message_id::InlineMessageId;
use crate::inline_query;
use crate::message::{Message, Poll, User};
use vstd::prelude::*;

verus! {

/// Where a callback query comes from.
#[derive(Debug, PartialEq, Eq)]
pub enum CallbackOrigin {
    /// The callback comes from this message.
    Message(Box<Message>),
    /// The callback comes from an inline message with this ID.
    Inline(String),
}

/// What a callback query carries.
#[derive(Debug, PartialEq, Eq, Clone, Hash)]
pub enum CallbackKind {
    /// The callback is sent with some data.
    Data(String),
    /// The callback is sent to open a game.
    Game(String),
}

/// A query sent when a user presses a button of an inline keyboard.
#[derive(Debug, PartialEq, Eq)]
pub struct CallbackQuery {
    /// The ID of the callback.
    pub id: String,
    /// The user who initiated the callback.
    pub from: User,
    /// The origin of the query.
    pub origin: CallbackOrigin,
    /// The identifier of the chat.
    pub chat_instance: String,
    /// The kind of the callback.
    pub kind: CallbackKind,
}

/// The fields of a callback query as they arrive, each of them possibly
/// missing.
pub struct CallbackQueryFields {
    /// The `id` field.
    pub id: Option<String>,
    /// The `from` field.
    pub from: Option<User>,
    /// The `message` field: the message that the button was attached to.
    pub message: Option<Message>,
    /// The `inline_message_id` field: the inline message that the button
    /// was attached to.
    pub inline_message_id: Option<String>,
    /// The `chat_instance` field.
    pub chat_instance: Option<String>,
    /// The `data` field: the data of a callback button.
    pub data: Option<String>,
    /// The `game_short_name` field: the game that a button launches.
    pub game_short_name: Option<String>,
}

/// Why the fields of a callback query do not make one.
#[derive(Debug, Clone, Copy, PartialEq, Eq)]
pub enum CallbackQueryError {
    /// Neither `message` nor `inline_message_id` is present.
    NoOrigin,
    /// Neither `data` nor `game_short_name` is present.
    NoKind,
    /// `id` is missing.
    MissingId,
    /// `from` is missing.
    MissingFrom,
    /// `chat_instance` is missing.
    MissingChatInstance,
}

impl CallbackQueryFields {
    /// The error that building from these fields meets first, if any: a
    /// missing origin, then a missing kind, then the missing fields in the
    /// order `id`, `from`, `chat_instance`.
    pub open spec fn first_error(&self) -> Option<CallbackQueryError> {
        if self.message is None && self.inline_message_id is None {
            Some(CallbackQueryError::NoOrigin)
        } else if self.data is None && self.game_short_name is None {
            Some(CallbackQueryError::NoKind)
        } else if self.id is None {
            Some(CallbackQueryError::MissingId)
        } else if self.from is None {
            Some(CallbackQueryError::MissingFrom)
        } else if self.chat_instance is None {
            Some(CallbackQueryError::MissingChatInstance)
        } else {
            None
        }
    }

    /// Builds a callback query. A message, when present, is the origin, even
    /// if an inline message ID is present too; likewise data, when present,
    /// is the kind, even if a game's short name is present too.
    pub fn build(self) -> (r: Result<CallbackQuery, CallbackQueryError>)
        ensures
            match self.first_error() {
                Some(e) => r == Err::<CallbackQuery, CallbackQueryError>(e),
                None => r is Ok && {
                    let q = r->Ok_0;
                    &&& q.id == self.id->0
                    &&& q.from == self.from->0
                    &&& q.chat_instance == self.chat_instance->0
                    &&& q.origin == match self.message {
                        Some(m) => CallbackOrigin::Message(Box::new(m)),
                        None => CallbackOrigin::Inline(self.inline_message_id->0),
                    }
                    &&& q.kind == match self.data {
                        Some(d) => CallbackKind::Data(d),
                        None => CallbackKind::Game(self.game_short_name->0),
                    }
                },
            },
    {
        let origin = match self.message {
            Some(message) => CallbackOrigin::Message(Box::new(message)),
            None => match self.inline_message_id {
                Some(id) => CallbackOrigin::Inline(id),
                None => return Err(CallbackQueryError::NoOrigin),
            },
        };
        let kind = match self.data {
            Some(data) => CallbackKind::Data(data),
            None => match self.game_short_name {
                Some(name) => CallbackKind::Game(name),
                None => return Err(CallbackQueryError::NoKind),
            },
        };
        let id = match self.id {
            Some(id) => id,
            None => return Err(CallbackQueryError::MissingId),
        };
        let from = match self.from {
            Some(from) => from,
            None => return Err(CallbackQueryError::MissingFrom),
        };
        let chat_instance = match self.chat_instance {
            Some(chat_instance) => chat_instance,
            None => return Err(CallbackQueryError::MissingChatInstance),
        };
        Ok(CallbackQuery { id, from, origin, chat_instance, kind })
    }
}

/// An inline query.
#[derive(Debug, Clone, PartialEq, Eq)]
pub struct InlineQuery {
    /// The ID of the query.
    pub id: inline_query::Id,
    /// The user who sent the query.
    pub from: User,
    /// The text of the query.
    pub query: String,
    /// The offset of the results to return.
    pub offset: String,
}

/// An inline result that a user chose.
#[derive(Debug, Clone, PartialEq, Eq)]
pub struct ChosenInlineResult {
    /// The ID of the chosen result.
    pub result_id: String,
    /// The user who chose the result.
    pub from: User,
    /// The ID of the message sent, if it has an inline keyboard.
    pub inline_message_id: Option<InlineMessageId>,
    /// The query that gave the result.
    pub query: String,
}

/// A shipping query.
#[derive(Debug, Clone, PartialEq, Eq)]
pub struct ShippingQuery {
    /// The ID of the query.
    pub id: String,
    /// The user who sent the query.
    pub from: User,
    /// The payload of the invoice, as the bot set it.
    pub invoice_payload: String,
}

/// A pre-checkout query.
#[derive(Debug, Clone, PartialEq, Eq)]
pub struct PreCheckoutQuery {
    /// The ID of the query.
    pub id: String,
    /// The user who sent the query.
    pub from: User,
    /// The three-letter ISO 4217 code of the currency.
    pub currency: String,
    /// The total price in the smallest units of the currency.
    pub total_amount: u32,
    /// The payload of the invoice, as the bot set it.
    pub invoice_payload: String,
}

/// A user's answer in a non-anonymous poll.
#[derive(Debug, Clone, PartialEq, Eq)]
pub struct PollAnswer {
    /// The ID of the poll.
    pub poll_id: String,
    /// The user who answered.
    pub user: User,
    /// The options that the user chose.
    pub option_ids: Vec<usize>,
}

/// What an update is about.
#[derive(Debug, PartialEq, Eq)]
pub enum UpdateKind {
    /// A new message.
    Message(Message),
    /// A new version of a message that was edited.
    EditedMessage(Message),
    /// A new post in a channel.
    ChannelPost(Message),
    /// A new version of a channel post that was edited.
    EditedChannelPost(Message),
    /// An inline query.
    InlineQuery(InlineQuery),
    /// An inline result that a user chose.
    ChosenInlineResult(ChosenInlineResult),
    /// A callback query.
    CallbackQuery(CallbackQuery),
    /// A shipping query.
    ShippingQuery(ShippingQuery),
    /// A pre-checkout query.
    PreCheckoutQuery(PreCheckoutQuery),
    /// A new state of a poll.
    Poll(Poll),
    /// A user's answer in a non-anonymous poll.
    PollAnswer(PollAnswer),
    /// A kind of update that this library does not model yet.
    Unknown,
}

/// An update.
#[derive(Debug, PartialEq, Eq)]
pub struct Update {
    /// The ID of the update, growing from one update to the next.
    pub id: u32,
    /// What the update is about.
    pub kind: UpdateKind,
}

} // verus!
