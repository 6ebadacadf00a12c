//! Messages: the envelope that every message carries, and the payload that
//! tells one kind of message from another.
use crate::media::{PhotoSize, Video, VideoNote};
use crate::text::Text;
use vstd::prelude::*;

verus! {

/// A user or a bot.
#[derive(Debug, Clone, PartialEq, Eq)]
pub struct User {
    /// The ID of the user.
    pub id: u64,
    /// Whether the user is a bot.
    pub is_bot: bool,
    /// The user's first name.
    pub first_name: String,
    /// The user's username, if they have one.
    pub username: Option<String>,
}

/// A chat that a message was sent to.
#[derive(Debug, Clone, PartialEq, Eq)]
pub struct Chat {
    /// The ID of the chat.
    pub id: i64,
    /// The title of the chat, for groups, supergroups and channels.
    pub title: Option<String>,
}

/// A file of some kind that a message carries: an animation, an audio, a
/// document, a sticker or a voice message.
#[derive(Debug, Clone, PartialEq, Eq)]
pub struct Media {
    /// The ID with which the file can be downloaded or sent again.
    pub file_id: String,
    /// The size of the file in bytes, if known.
    pub file_size: Option<u32>,
}

/// A point on the map, in millionths of a degree.
#[derive(Debug, Clone, Copy, PartialEq, Eq)]
pub struct Location {
    /// The latitude, in millionths of a degree.
    pub latitude: i64,
    /// The longitude, in millionths of a degree.
    pub longitude: i64,
}

/// A venue: a named place on the map.
#[derive(Debug, Clone, PartialEq, Eq)]
pub struct Venue {
    /// Where the venue is.
    pub location: Location,
    /// The name of the venue.
    pub title: String,
    /// The address of the venue.
    pub address: String,
}

/// A shared contact.
#[derive(Debug, Clone, PartialEq, Eq)]
pub struct Contact {
    /// The contact's phone number.
    pub phone_number: String,
    /// The contact's first name.
    pub first_name: String,
    /// The contact's user ID, if they are a user.
    pub user_id: Option<u64>,
}

/// An invoice for a payment, or a payment that succeeded.
#[derive(Debug, Clone, PartialEq, Eq)]
pub struct Invoice {
    /// The title of the product.
    pub title: String,
    /// The three-letter ISO 4217 code of the currency.
    pub currency: String,
    /// The total price in the smallest units of the currency.
    pub total_amount: u32,
}

/// A poll, as it stands now.
#[derive(Debug, Clone, PartialEq, Eq)]
pub struct Poll {
    /// The ID of the poll.
    pub id: String,
    /// The question of the poll.
    pub question: String,
    /// The options that can be chosen.
    pub options: Vec<String>,
    /// Whether the poll is closed.
    pub is_closed: bool,
}

/// The payload of a message: what tells one kind of message from another.
#[derive(Debug, PartialEq, Eq)]
pub enum MessageKind {
    /// An animation, with its caption.
    Animation(Media, Text),
    /// An audio, with its caption.
    Audio(Media, Text),
    /// The chat's photo was deleted.
    ChatPhotoDeleted,
    /// The user logged in on the website with the given domain.
    ConnectedWebsite(String),
    /// A shared contact.
    Contact(Contact),
    /// A document, with its caption.
    Document(Media, Text),
    /// A game, with its title.
    Game(String),
    /// A group was created.
    GroupCreated,
    /// An invoice.
    Invoice(Invoice),
    /// A member left the chat.
    LeftChatMember(User),
    /// A location.
    Location(Location),
    /// The group was migrated from the basic group with the given ID.
    MigrateFrom(i64),
    /// The group was migrated to the supergroup with the given ID.
    MigrateTo(i64),
    /// New members joined the chat.
    NewChatMembers(Vec<User>),
    /// The chat's photo changed.
    NewChatPhoto(Vec<PhotoSize>),
    /// The chat's title changed.
    NewChatTitle(String),
    /// Passport data, as the remote side encoded it.
    PassportData(String),
    /// A photo in several sizes, with its caption and media group.
    Photo(Vec<PhotoSize>, Text, Option<String>),
    /// A message was pinned.
    Pinned(Box<Message>),
    /// A poll.
    Poll(Poll),
    /// A sticker.
    Sticker(Media),
    /// A payment succeeded.
    SuccessfulPayment(Invoice),
    /// A text message.
    Text(Text),
    /// A venue.
    Venue(Venue),
    /// A video, with its caption and media group.
    Video(Video, Text, Option<String>),
    /// A video note.
    VideoNote(VideoNote),
    /// A voice message, with its caption.
    Voice(Media, Text),
    /// A supergroup was created.
    SupergroupCreated,
    /// A channel was created.
    ChannelCreated,
    /// A kind of message that this library does not model yet.
    Unknown,
}

/// The data that every message carries, whatever its kind.
#[derive(Debug, Clone, PartialEq, Eq)]
pub struct MessageData {
    /// The ID of the message.
    pub id: u32,
    /// The sender of the message, absent for channel posts.
    pub from: Option<User>,
    /// When the message was sent, as a Unix timestamp.
    pub date: i64,
    /// The chat that the message was sent to.
    pub chat: Chat,
    /// When the message was last edited, as a Unix timestamp.
    pub edit_date: Option<i64>,
}

/// A message.
#[derive(Debug, PartialEq, Eq)]
pub struct Message {
    /// The ID of the message.
    pub id: u32,
    /// The sender of the message, absent for channel posts.
    pub from: Option<User>,
    /// When the message was sent, as a Unix timestamp.
    pub date: i64,
    /// The chat that the message was sent to.
    pub chat: Chat,
    /// When the message was last edited, as a Unix timestamp.
    pub edit_date: Option<i64>,
    /// What the message holds.
    pub kind: MessageKind,
}

impl Message {
    /// The envelope of the message: all of it but its payload.
    pub open spec fn envelope(&self) -> MessageData {
        MessageData {
            id: self.id,
            from: self.from,
            date: self.date,
            chat: self.chat,
            edit_date: self.edit_date,
        }
    }

    /// The message with the given envelope and payload.
    pub open spec fn assemble(data: MessageData, kind: MessageKind) -> Message {
        Message {
            id: data.id,
            from: data.from,
            date: data.date,
            chat: data.chat,
            edit_date: data.edit_date,
            kind,
        }
    }

    /// Puts a message together from its envelope and its payload.
    pub fn new(data: MessageData, kind: MessageKind) -> (r: Message)
        ensures
            r == Message::assemble(data, kind),
    {
        Message {
            id: data.id,
            from: data.from,
            date: data.date,
            chat: data.chat,
            edit_date: data.edit_date,
            kind,
        }
    }

    /// Takes a message apart into its envelope and its payload.
    pub fn split(self) -> (r: (MessageData, MessageKind))
        ensures
            r.0 == self.envelope(),
            r.1 == self.kind,
    {
        let data = MessageData {
            id: self.id,
            from: self.from,
            date: self.date,
            chat: self.chat,
            edit_date: self.edit_date,
        };
        (data, self.kind)
    }
}

/// Splitting a message and putting it back together gives the same message,
/// and putting one together then splitting it gives back the same parts.
pub proof fn lemma_split_inverts_new(m: Message, data: MessageData, kind: MessageKind)
    ensures
        Message::assemble(m.envelope(), m.kind) == m,
        Message::assemble(data, kind).envelope() == data,
        Message::assemble(data, kind).kind == kind,
{
}

} // verus!
