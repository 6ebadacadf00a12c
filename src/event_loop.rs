//! The registry of update handlers and the dispatcher that routes each update
//! to them.
//!
//! Handlers are values of any type `H`; the event loop keeps them and hands
//! out their indices. Dispatching an update does not run anything: it returns
//! a [`Dispatch`], which lists the handlers to launch, in order, and the
//! context that the routed ones receive.
use crate::message::{Message, MessageData, MessageKind, Poll, User};
use crate::text::{
    command_name, command_username, is_command, option_view, parse_command, trim_command, Text,
};
use crate::update::{
    CallbackKind, CallbackQuery, ChosenInlineResult, InlineQuery, PollAnswer, PreCheckoutQuery,
    ShippingQuery, Update, UpdateKind,
};
use vstd::prelude::*;

verus! {

/// A category of updates that handlers can be registered for. Besides the
/// categories named below, each category takes the messages, edited messages
/// or queries of the kind that its name gives.
#[derive(Debug, Clone, Copy, PartialEq, Eq, Structural)]
pub enum Category {
    /// Run before every update, whatever becomes of it.
    BeforeUpdate,
    /// Run after every update, whatever became of it.
    AfterUpdate,
    Animation,
    Audio,
    ChosenInline,
    Contact,
    ConnectedWebsite,
    CreatedGroup,
    DataCallback,
    DeletedChatPhoto,
    Document,
    EditedAnimation,
    EditedAudio,
    EditedDocument,
    EditedLocation,
    EditedPhoto,
    EditedText,
    EditedVideo,
    GameCallback,
    Game,
    Inline,
    Invoice,
    LeftMember,
    Location,
    Migration,
    NewChatPhoto,
    NewChatTitle,
    NewMembers,
    Passport,
    Payment,
    Photo,
    PinnedMessage,
    Poll,
    PollAnswer,
    PreCheckout,
    Shipping,
    Sticker,
    Text,
    /// Updates that no other handler takes.
    Unhandled,
    UpdatedPoll,
    Venue,
    Video,
    VideoNote,
    Voice,
}

/// What a handler is registered for: a category, or a command by name.
#[derive(Debug, Clone, PartialEq, Eq)]
pub enum Route {
    /// A category of updates.
    Category(Category),
    /// A command in a new message.
    Command(String),
    /// A command in an edited message.
    EditedCommand(String),
}

/// The mathematical value of a [`Route`].
pub enum RouteKey {
    Category(Category),
    /// The name of a command in a new message.
    Command(Seq<char>),
    /// The name of a command in an edited message.
    EditedCommand(Seq<char>),
}

impl View for Route {
    type V = RouteKey;

    open spec fn view(&self) -> RouteKey {
        match self {
            Route::Category(c) => RouteKey::Category(*c),
            Route::Command(name) => RouteKey::Command(name@),
            Route::EditedCommand(name) => RouteKey::EditedCommand(name@),
        }
    }
}

/// One registration: a route, and the index of the handler that it runs.
#[derive(Debug, Clone, PartialEq, Eq)]
pub struct Registration {
    /// What the handler is registered for.
    pub route: Route,
    /// The index of the handler.
    pub handler: usize,
}

/// The handlers registered for `key`, in the order of registration, out of
/// registrations given as pairs of a route's value and a handler's index.
pub open spec fn handlers_for(regs: Seq<(RouteKey, usize)>, key: RouteKey) -> Seq<usize>
    decreases regs.len(),
{
    if regs.len() == 0 {
        Seq::empty()
    } else {
        let earlier = handlers_for(regs.drop_last(), key);
        if regs.last().0 == key {
            earlier.push(regs.last().1)
        } else {
            earlier
        }
    }
}

/// A registration as the pair of its route's value and its handler's index.
pub open spec fn registration_key(r: Registration) -> (RouteKey, usize) {
    (r.route@, r.handler)
}

/// Why an update breaks the protocol.
#[derive(Debug, PartialEq, Eq)]
pub enum Anomaly {
    /// An edited message came without its edit date.
    MissingEditDate,
    /// A new message of a kind that is never sent live.
    UnexpectedMessage(MessageKind),
    /// An edited message of a kind that cannot be edited.
    UnexpectedEdit(MessageKind),
    /// A command with an entity that starts inside the command or the
    /// whitespace after it.
    MalformedCommand,
}

/// What the handlers of the category that an update was routed to receive.
#[derive(Debug, PartialEq, Eq)]
pub enum Context {
    /// A new message or channel post: its envelope and its payload.
    Message(MessageData, MessageKind),
    /// An edited message: its envelope, its edit date and its payload.
    EditedMessage(MessageData, i64, MessageKind),
    /// A command: its name, the message's envelope, and the text without the
    /// command.
    Command(String, MessageData, Text),
    /// A command in an edited message: its name, the message's envelope, its
    /// edit date, and the text without the command.
    EditedCommand(String, MessageData, i64, Text),
    /// A callback query, with data or for a game.
    Callback(CallbackQuery),
    /// An inline query.
    Inline(InlineQuery),
    /// An inline result that a user chose.
    ChosenInline(ChosenInlineResult),
    /// A shipping query.
    Shipping(ShippingQuery),
    /// A pre-checkout query.
    PreCheckout(PreCheckoutQuery),
    /// A new state of a poll.
    UpdatedPoll(Poll),
    /// A user's answer in a poll.
    PollAnswer(PollAnswer),
    /// An update that no other handler takes, in the shape it arrived in.
    Unhandled(UpdateKind),
}

/// What became of an update.
#[derive(Debug, PartialEq, Eq)]
pub enum Outcome {
    /// The update was routed; its handlers receive this context.
    Delivered(Context),
    /// No handler takes the update: nothing was registered for it, or it is a
    /// migration to a supergroup, which is never delivered.
    Discarded,
    /// A command addressed to another bot; no handler takes it.
    ForeignCommand,
    /// The update breaks the protocol; no handler takes it.
    Anomaly(Anomaly),
}

/// When a handler runs relative to the routing of an update.
#[derive(Debug, Clone, Copy, PartialEq, Eq, Structural)]
pub enum Stage {
    /// Before the update is routed.
    BeforeUpdate,
    /// As one of the handlers that the update is routed to.
    Routed,
    /// After the update was routed.
    AfterUpdate,
}

/// One handler to launch.
#[derive(Debug, Clone, Copy, PartialEq, Eq, Structural)]
pub struct Call {
    /// The index of the handler.
    pub handler: usize,
    /// Whether it receives the update's ID (before or after the update) or
    /// the routed context.
    pub stage: Stage,
}

/// What dispatching an update amounts to.
#[derive(Debug, PartialEq, Eq)]
pub struct Dispatch {
    /// The ID of the update, which before- and after-update handlers receive.
    pub update_id: u32,
    /// The handlers to launch, in order.
    pub calls: Vec<Call>,
    /// What became of the update.
    pub outcome: Outcome,
}

/// The calls of the handlers `ids`, in order, at `stage`.
pub open spec fn calls_of(ids: Seq<usize>, stage: Stage) -> Seq<Call> {
    ids.map_values(|h: usize| Call { handler: h, stage })
}

/// What the dispatcher owes an update, in the terms of the registry.
pub enum Expected {
    /// The handlers of the key receive the context.
    Deliver(RouteKey, Context),
    /// The handlers of the key receive a command's context, made from the
    /// envelope, the edit date (for an edited message), and the text.
    DeliverCommand(RouteKey, MessageData, Option<i64>, Text),
    /// No handler takes the update.
    Discard,
    /// A command addressed to another bot; no handler takes it.
    Foreign,
    /// The update breaks the protocol; no handler takes it.
    Anomaly(Anomaly),
}

/// The category that handles a new message of this kind, if any.
pub open spec fn message_category(kind: MessageKind) -> Option<Category> {
    match kind {
        MessageKind::Animation(..) => Some(Category::Animation),
        MessageKind::Audio(..) => Some(Category::Audio),
        MessageKind::ChatPhotoDeleted => Some(Category::DeletedChatPhoto),
        MessageKind::ConnectedWebsite(..) => Some(Category::ConnectedWebsite),
        MessageKind::Contact(..) => Some(Category::Contact),
        MessageKind::Document(..) => Some(Category::Document),
        MessageKind::Game(..) => Some(Category::Game),
        MessageKind::GroupCreated => Some(Category::CreatedGroup),
        MessageKind::Invoice(..) => Some(Category::Invoice),
        MessageKind::LeftChatMember(..) => Some(Category::LeftMember),
        MessageKind::Location(..) => Some(Category::Location),
        MessageKind::MigrateFrom(..) => Some(Category::Migration),
        MessageKind::NewChatMembers(..) => Some(Category::NewMembers),
        MessageKind::NewChatPhoto(..) => Some(Category::NewChatPhoto),
        MessageKind::NewChatTitle(..) => Some(Category::NewChatTitle),
        MessageKind::PassportData(..) => Some(Category::Passport),
        MessageKind::Photo(..) => Some(Category::Photo),
        MessageKind::Pinned(..) => Some(Category::PinnedMessage),
        MessageKind::Poll(..) => Some(Category::Poll),
        MessageKind::Sticker(..) => Some(Category::Sticker),
        MessageKind::SuccessfulPayment(..) => Some(Category::Payment),
        MessageKind::Text(..) => Some(Category::Text),
        MessageKind::Venue(..) => Some(Category::Venue),
        MessageKind::Video(..) => Some(Category::Video),
        MessageKind::VideoNote(..) => Some(Category::VideoNote),
        MessageKind::Voice(..) => Some(Category::Voice),
        _ => None,
    }
}

/// The category that handles an edited message of this kind, if the kind can
/// be edited.
pub open spec fn edit_category(kind: MessageKind) -> Option<Category> {
    match kind {
        MessageKind::Animation(..) => Some(Category::EditedAnimation),
        MessageKind::Audio(..) => Some(Category::EditedAudio),
        MessageKind::Document(..) => Some(Category::EditedDocument),
        MessageKind::Location(..) => Some(Category::EditedLocation),
        MessageKind::Photo(..) => Some(Category::EditedPhoto),
        MessageKind::Text(..) => Some(Category::EditedText),
        MessageKind::Video(..) => Some(Category::EditedVideo),
        _ => None,
    }
}

/// Whether `out` is what `e` asks for.
pub open spec fn fulfils(out: Outcome, e: Expected) -> bool {
    match e {
        Expected::Deliver(_, ctx) => out == Outcome::Delivered(ctx),
        Expected::DeliverCommand(_, data, edit, text) => {
            &&& out is Delivered
            &&& command_context(out->Delivered_0, data, edit, text)
        },
        Expected::Discard => out is Discarded,
        Expected::Foreign => out is ForeignCommand,
        Expected::Anomaly(a) => out == Outcome::Anomaly(a),
    }
}

/// Whether `ctx` is the context of the command in `text`: its name, the
/// envelope, the edit date if the message was edited, and the trimmed text.
pub open spec fn command_context(ctx: Context, data: MessageData, edit: Option<i64>, text: Text) -> bool {
    match (ctx, edit) {
        (Context::Command(name, d, t), None) => {
            &&& name@ == command_name(text.value@)
            &&& d == data
            &&& t.value@ == text.trimmed_value()
            &&& t.entities@ == text.trimmed_entities()
        },
        (Context::EditedCommand(name, d, date, t), Some(edit_date)) => {
            &&& name@ == command_name(text.value@)
            &&& d == data
            &&& date == edit_date
            &&& t.value@ == text.trimmed_value()
            &&& t.entities@ == text.trimmed_entities()
        },
        _ => false,
    }
}

/// Why the bot's identity, as the remote side reported it, cannot configure
/// the event loop.
#[derive(Debug, Clone, Copy, PartialEq, Eq, Structural)]
pub enum IdentityError {
    /// The bot has no username; every bot account is expected to have one.
    NoUsername,
}

/// A registry of handlers, and the bot's username.
pub struct EventLoop<H> {
    username: Option<String>,
    /// The handlers, indexed by the registrations.
    handlers: Vec<H>,
    /// The registrations, in the order in which they were made.
    registrations: Vec<Registration>,
}

impl<H> EventLoop<H> {
    /// The bot's username, if it is set.
    pub closed spec fn username_view(&self) -> Option<Seq<char>> {
        option_view(self.username)
    }

    /// The handlers, by index.
    pub closed spec fn handlers_view(&self) -> Seq<H> {
        self.handlers@
    }

    /// The registrations, in order.
    pub closed spec fn registrations_view(&self) -> Seq<(RouteKey, usize)> {
        self.registrations@.map_values(|r: Registration| registration_key(r))
    }

    /// The handlers registered for `key`, in the order of registration.
    pub open spec fn handlers_of(&self, key: RouteKey) -> Seq<usize> {
        handlers_for(self.registrations_view(), key)
    }

    /// Whether a handler is registered for `key`.
    pub open spec fn handles(&self, key: RouteKey) -> bool {
        self.handlers_of(key).len() > 0
    }

    /// Whether a command addressed to `username` is for this bot: it is when
    /// no username is given, and otherwise only when the bot's own username
    /// is set and equal to it.
    pub open spec fn for_this_bot(&self, username: Option<Seq<char>>) -> bool {
        match username {
            None => true,
            Some(u) => self.username_view() == Some(u),
        }
    }

    /// What is owed to an update that no handler of its category takes: the
    /// unhandled handlers receive it, in the shape it arrived in, if there are
    /// any.
    pub open spec fn expect_fall_back(&self, received: UpdateKind) -> Expected {
        if self.handles(RouteKey::Category(Category::Unhandled)) {
            Expected::Deliver(
                RouteKey::Category(Category::Unhandled),
                Context::Unhandled(received),
            )
        } else {
            Expected::Discard
        }
    }

    /// What is owed to an update of category `c`: its handlers receive `ctx`
    /// if there are any; otherwise it falls back.
    pub open spec fn expect_delivery(&self, c: Category, ctx: Context, received: UpdateKind) -> Expected {
        if self.handles(RouteKey::Category(c)) {
            Expected::Deliver(RouteKey::Category(c), ctx)
        } else {
            self.expect_fall_back(received)
        }
    }

    /// What is owed to a command in `text`, from a message with envelope
    /// `data`, edited at `edit` if it was edited.
    pub open spec fn expect_command(&self, data: MessageData, edit: Option<i64>, text: Text, received: UpdateKind) -> Expected {
        let s = text.value@;
        let key = match edit {
            None => RouteKey::Command(command_name(s)),
            Some(_) => RouteKey::EditedCommand(command_name(s)),
        };
        if !self.for_this_bot(command_username(s)) {
            Expected::Foreign
        } else if self.handles(key) {
            if text.can_trim_command() {
                Expected::DeliverCommand(key, data, edit, text)
            } else {
                Expected::Anomaly(Anomaly::MalformedCommand)
            }
        } else {
            self.expect_fall_back(received)
        }
    }

    /// What is owed to a new message or channel post.
    pub open spec fn expect_message(&self, m: Message, received: UpdateKind) -> Expected {
        match m.kind {
            MessageKind::Text(t) => if t.denotes_command() {
                self.expect_command(m.envelope(), None, t, received)
            } else {
                self.expect_delivery(Category::Text, Context::Message(m.envelope(), m.kind), received)
            },
            MessageKind::MigrateTo(..) => Expected::Discard,
            MessageKind::SupergroupCreated => Expected::Anomaly(Anomaly::UnexpectedMessage(m.kind)),
            MessageKind::ChannelCreated => Expected::Anomaly(Anomaly::UnexpectedMessage(m.kind)),
            MessageKind::Unknown => self.expect_fall_back(received),
            _ => self.expect_delivery(
                message_category(m.kind)->0,
                Context::Message(m.envelope(), m.kind),
                received,
            ),
        }
    }

    /// What is owed to an edited message or channel post.
    pub open spec fn expect_edit(&self, m: Message, received: UpdateKind) -> Expected {
        match m.edit_date {
            None => Expected::Anomaly(Anomaly::MissingEditDate),
            Some(edit_date) => match m.kind {
                MessageKind::Text(t) => if t.denotes_command() {
                    self.expect_command(m.envelope(), Some(edit_date), t, received)
                } else {
                    self.expect_delivery(
                        Category::EditedText,
                        Context::EditedMessage(m.envelope(), edit_date, m.kind),
                        received,
                    )
                },
                MessageKind::Unknown => self.expect_fall_back(received),
                _ => match edit_category(m.kind) {
                    Some(c) => self.expect_delivery(
                        c,
                        Context::EditedMessage(m.envelope(), edit_date, m.kind),
                        received,
                    ),
                    None => Expected::Anomaly(Anomaly::UnexpectedEdit(m.kind)),
                },
            },
        }
    }

    /// What is owed to an update of this kind.
    pub open spec fn expected(&self, kind: UpdateKind) -> Expected {
        match kind {
            UpdateKind::Message(m) => self.expect_message(m, kind),
            UpdateKind::ChannelPost(m) => self.expect_message(m, kind),
            UpdateKind::EditedMessage(m) => self.expect_edit(m, kind),
            UpdateKind::EditedChannelPost(m) => self.expect_edit(m, kind),
            UpdateKind::CallbackQuery(q) => match q.kind {
                CallbackKind::Data(_) => self.expect_delivery(
                    Category::DataCallback,
                    Context::Callback(q),
                    kind,
                ),
                CallbackKind::Game(_) => self.expect_delivery(
                    Category::GameCallback,
                    Context::Callback(q),
                    kind,
                ),
            },
            UpdateKind::InlineQuery(q) => self.expect_delivery(Category::Inline, Context::Inline(q), kind),
            UpdateKind::ChosenInlineResult(r) => self.expect_delivery(
                Category::ChosenInline,
                Context::ChosenInline(r),
                kind,
            ),
            UpdateKind::ShippingQuery(q) => self.expect_delivery(Category::Shipping, Context::Shipping(q), kind),
            UpdateKind::PreCheckoutQuery(q) => self.expect_delivery(
                Category::PreCheckout,
                Context::PreCheckout(q),
                kind,
            ),
            UpdateKind::Poll(p) => self.expect_delivery(Category::UpdatedPoll, Context::UpdatedPoll(p), kind),
            UpdateKind::PollAnswer(a) => self.expect_delivery(Category::PollAnswer, Context::PollAnswer(a), kind),
            UpdateKind::Unknown => self.expect_fall_back(kind),
        }
    }

    /// The handlers that receive the routed context under `e`, in order.
    pub open spec fn routed(&self, e: Expected) -> Seq<usize> {
        match e {
            Expected::Deliver(key, _) => self.handlers_of(key),
            Expected::DeliverCommand(key, ..) => self.handlers_of(key),
            _ => Seq::empty(),
        }
    }

    /// Whether routing an update of this kind to `ids` with outcome `out` is
    /// what is owed.
    pub open spec fn settles(&self, kind: UpdateKind, ids: Seq<usize>, out: Outcome) -> bool {
        self.meets(self.expected(kind), ids, out)
    }

    /// Whether routing to `ids` with outcome `out` is what `e` asks for.
    pub open spec fn meets(&self, e: Expected, ids: Seq<usize>, out: Outcome) -> bool {
        &&& ids == self.routed(e)
        &&& fulfils(out, e)
    }

    /// The calls that dispatching an update of this kind launches, in order:
    /// the before-update handlers, the routed ones, the after-update ones.
    pub open spec fn launches(&self, kind: UpdateKind) -> Seq<Call> {
        calls_of(self.handlers_of(RouteKey::Category(Category::BeforeUpdate)), Stage::BeforeUpdate)
            + calls_of(self.routed(self.expected(kind)), Stage::Routed)
            + calls_of(self.handlers_of(RouteKey::Category(Category::AfterUpdate)), Stage::AfterUpdate)
    }
}

/// A route to look up, borrowing the command's name.
enum Wanted<'a> {
    Category(Category),
    Command(&'a String),
    EditedCommand(&'a String),
}

impl<'a> Wanted<'a> {
    spec fn key(&self) -> RouteKey {
        match self {
            Wanted::Category(c) => RouteKey::Category(*c),
            Wanted::Command(name) => RouteKey::Command(name@),
            Wanted::EditedCommand(name) => RouteKey::EditedCommand(name@),
        }
    }
}

/// Whether `route` is the route looked for.
fn route_matches(route: &Route, wanted: &Wanted) -> (r: bool)
    ensures
        r == (route@ == wanted.key()),
{
    match (route, wanted) {
        (Route::Category(a), Wanted::Category(b)) => *a == *b,
        (Route::Command(a), Wanted::Command(b)) => *a == **b,
        (Route::EditedCommand(a), Wanted::EditedCommand(b)) => *a == **b,
        _ => false,
    }
}

/// The category that handles a new message of this kind, if any.
fn category_of_message(kind: &MessageKind) -> (r: Option<Category>)
    ensures
        r == message_category(*kind),
{
    match kind {
        MessageKind::Animation(..) => Some(Category::Animation),
        MessageKind::Audio(..) => Some(Category::Audio),
        MessageKind::ChatPhotoDeleted => Some(Category::DeletedChatPhoto),
        MessageKind::ConnectedWebsite(..) => Some(Category::ConnectedWebsite),
        MessageKind::Contact(..) => Some(Category::Contact),
        MessageKind::Document(..) => Some(Category::Document),
        MessageKind::Game(..) => Some(Category::Game),
        MessageKind::GroupCreated => Some(Category::CreatedGroup),
        MessageKind::Invoice(..) => Some(Category::Invoice),
        MessageKind::LeftChatMember(..) => Some(Category::LeftMember),
        MessageKind::Location(..) => Some(Category::Location),
        MessageKind::MigrateFrom(..) => Some(Category::Migration),
        MessageKind::NewChatMembers(..) => Some(Category::NewMembers),
        MessageKind::NewChatPhoto(..) => Some(Category::NewChatPhoto),
        MessageKind::NewChatTitle(..) => Some(Category::NewChatTitle),
        MessageKind::PassportData(..) => Some(Category::Passport),
        MessageKind::Photo(..) => Some(Category::Photo),
        MessageKind::Pinned(..) => Some(Category::PinnedMessage),
        MessageKind::Poll(..) => Some(Category::Poll),
        MessageKind::Sticker(..) => Some(Category::Sticker),
        MessageKind::SuccessfulPayment(..) => Some(Category::Payment),
        MessageKind::Text(..) => Some(Category::Text),
        MessageKind::Venue(..) => Some(Category::Venue),
        MessageKind::Video(..) => Some(Category::Video),
        MessageKind::VideoNote(..) => Some(Category::VideoNote),
        MessageKind::Voice(..) => Some(Category::Voice),
        _ => None,
    }
}

/// The category that handles an edited message of this kind, if any.
fn category_of_edit(kind: &MessageKind) -> (r: Option<Category>)
    ensures
        r == edit_category(*kind),
{
    match kind {
        MessageKind::Animation(..) => Some(Category::EditedAnimation),
        MessageKind::Audio(..) => Some(Category::EditedAudio),
        MessageKind::Document(..) => Some(Category::EditedDocument),
        MessageKind::Location(..) => Some(Category::EditedLocation),
        MessageKind::Photo(..) => Some(Category::EditedPhoto),
        MessageKind::Text(..) => Some(Category::EditedText),
        MessageKind::Video(..) => Some(Category::EditedVideo),
        _ => None,
    }
}

/// The registration of a command named `name`, in edited messages if
/// `edited`, for the handler with index `id`.
pub open spec fn command_registration(name: Seq<char>, edited: bool, id: usize) -> (RouteKey, usize) {
    if edited {
        (RouteKey::EditedCommand(name), id)
    } else {
        (RouteKey::Command(name), id)
    }
}

/// The update that a message arrived in: a new or an edited message, in a
/// chat or in a channel.
pub open spec fn wrapped(edited: bool, post: bool, m: Message) -> UpdateKind {
    match (edited, post) {
        (false, false) => UpdateKind::Message(m),
        (false, true) => UpdateKind::ChannelPost(m),
        (true, false) => UpdateKind::EditedMessage(m),
        (true, true) => UpdateKind::EditedChannelPost(m),
    }
}

/// Wraps a message back into the update that it arrived in.
fn rewrap(edited: bool, post: bool, m: Message) -> (r: UpdateKind)
    ensures
        r == wrapped(edited, post, m),
{
    if edited {
        if post {
            UpdateKind::EditedChannelPost(m)
        } else {
            UpdateKind::EditedMessage(m)
        }
    } else {
        if post {
            UpdateKind::ChannelPost(m)
        } else {
            UpdateKind::Message(m)
        }
    }
}

/// Appends the calls of the handlers `ids` at `stage` to `calls`.
fn push_calls(calls: &mut Vec<Call>, ids: &Vec<usize>, stage: Stage)
    ensures
        final(calls)@ == old(calls)@ + calls_of(ids@, stage),
{
    let ghost start = old(calls)@;
    let mut i: usize = 0;
    while i < ids.len()
        invariant
            i <= ids@.len(),
            calls@ == start + calls_of(ids@.take(i as int), stage),
        decreases ids@.len() - i,
    {
        calls.push(Call { handler: ids[i], stage });
        i = i + 1;
        assert(calls_of(ids@.take(i as int), stage) =~= calls_of(ids@.take(i - 1), stage).push(
            Call { handler: ids@[i - 1], stage },
        ));
    }
    assert(ids@.take(ids@.len() as int) =~= ids@);
}

impl<H> EventLoop<H> {
    /// An event loop with no handlers and no username.
    pub fn new() -> (r: Self)
        ensures
            r.username_view() is None,
            r.handlers_view().len() == 0,
            r.registrations_view().len() == 0,
    {
        let r = EventLoop { username: None, handlers: Vec::new(), registrations: Vec::new() };
        assert(r.registrations_view() =~= Seq::<(RouteKey, usize)>::empty());
        r
    }

    /// Sets the bot's username, which commands of the form
    /// `/command@username` are checked against.
    pub fn username(&mut self, username: String)
        ensures
            final(self).username_view() == Some(username@),
            final(self).handlers_view() == old(self).handlers_view(),
            final(self).registrations_view() == old(self).registrations_view(),
    {
        self.username = Some(username);
    }

    /// Sets the bot's username from the identity that the remote side
    /// reported for the bot, which must hold one.
    pub fn username_from_identity(&mut self, identity: User) -> (r: Result<(), IdentityError>)
        ensures
            match identity.username {
                Some(u) => r is Ok && final(self).username_view() == Some(u@),
                None => r == Err::<(), IdentityError>(IdentityError::NoUsername)
                    && final(self).username_view() == old(self).username_view(),
            },
            final(self).handlers_view() == old(self).handlers_view(),
            final(self).registrations_view() == old(self).registrations_view(),
    {
        match identity.username {
            Some(username) => {
                self.username(username);
                Ok(())
            },
            None => Err(IdentityError::NoUsername),
        }
    }

    /// The handler with index `id`, if there is one.
    pub fn handler(&self, id: usize) -> (r: Option<&H>)
        ensures
            id < self.handlers_view().len() ==> r == Some(&self.handlers_view()[id as int]),
            id >= self.handlers_view().len() ==> r is None,
    {
        if id < self.handlers.len() {
            Some(&self.handlers[id])
        } else {
            None
        }
    }

    /// Keeps `handler`, and returns its index.
    fn keep(&mut self, handler: H) -> (r: usize)
        ensures
            r == old(self).handlers_view().len(),
            final(self).handlers_view() == old(self).handlers_view().push(handler),
            final(self).registrations_view() == old(self).registrations_view(),
            final(self).username_view() == old(self).username_view(),
    {
        let id: usize = self.handlers.len();
        self.handlers.push(handler);
        id
    }

    /// Adds a registration of the handler with index `id` for `route`.
    fn add_route(&mut self, route: Route, id: usize)
        ensures
            final(self).registrations_view() == old(self).registrations_view().push((route@, id)),
            final(self).handlers_view() == old(self).handlers_view(),
            final(self).username_view() == old(self).username_view(),
    {
        let ghost old_regs = self.registrations@;
        let registration = Registration { route, handler: id };
        self.registrations.push(registration);
        assert(self.registrations_view() =~= old(self).registrations_view().push((route@, id)));
    }

    /// Adds a handler for a category. Handlers of one category run in the
    /// order in which they were added.
    pub fn register(&mut self, category: Category, handler: H)
        ensures
            final(self).handlers_view() == old(self).handlers_view().push(handler),
            final(self).registrations_view() == old(self).registrations_view().push(
                (RouteKey::Category(category), old(self).handlers_view().len() as usize),
            ),
            final(self).username_view() == old(self).username_view(),
    {
        let id: usize = self.keep(handler);
        self.add_route(Route::Category(category), id);
    }

    /// Adds a handler for updates that no other handler takes.
    pub fn unhandled(&mut self, handler: H)
        ensures
            final(self).handlers_view() == old(self).handlers_view().push(handler),
            final(self).registrations_view() == old(self).registrations_view().push(
                (RouteKey::Category(Category::Unhandled), old(self).handlers_view().len() as usize),
            ),
            final(self).username_view() == old(self).username_view(),
    {
        self.register(Category::Unhandled, handler);
    }

    /// Adds a handler for a command.
    pub fn command(&mut self, command: &str, handler: H)
        ensures
            final(self).handlers_view() == old(self).handlers_view().push(handler),
            final(self).registrations_view() == old(self).registrations_view().push(
                (RouteKey::Command(command@), old(self).handlers_view().len() as usize),
            ),
            final(self).username_view() == old(self).username_view(),
    {
        let id: usize = self.keep(handler);
        self.add_route(Route::Command(String::from_str(command)), id);
    }

    /// Adds a handler for a command in an edited message.
    pub fn edited_command(&mut self, command: &str, handler: H)
        ensures
            final(self).handlers_view() == old(self).handlers_view().push(handler),
            final(self).registrations_view() == old(self).registrations_view().push(
                (RouteKey::EditedCommand(command@), old(self).handlers_view().len() as usize),
            ),
            final(self).username_view() == old(self).username_view(),
    {
        let id: usize = self.keep(handler);
        self.add_route(Route::EditedCommand(String::from_str(command)), id);
    }

    /// Adds one handler for several commands, or for several commands in
    /// edited messages.
    fn add_commands(&mut self, commands: &[&str], edited: bool, handler: H)
        ensures
            final(self).handlers_view() == old(self).handlers_view().push(handler),
            final(self).registrations_view() == old(self).registrations_view() + commands@.map_values(
                |c: &str| command_registration(c@, edited, old(self).handlers_view().len() as usize),
            ),
            final(self).username_view() == old(self).username_view(),
    {
        let id: usize = self.keep(handler);
        let ghost start = self.registrations_view();
        let ghost key_of = |c: &str| command_registration(c@, edited, id);
        let mut i: usize = 0;
        while i < commands.len()
            invariant
                i <= commands@.len(),
                id == old(self).handlers_view().len(),
                key_of == (|c: &str| command_registration(c@, edited, id)),
                self.registrations_view() == start + commands@.take(i as int).map_values(key_of),
                self.handlers_view() == old(self).handlers_view().push(handler),
                self.username_view() == old(self).username_view(),
            decreases commands@.len() - i,
        {
            let command: &str = commands[i];
            let name = String::from_str(command);
            let route = if edited {
                Route::EditedCommand(name)
            } else {
                Route::Command(name)
            };
            assert((route@, id) == key_of(commands@[i as int]));
            self.add_route(route, id);
            assert(commands@.take(i + 1).map_values(key_of) =~= commands@.take(i as int).map_values(
                key_of,
            ).push(key_of(commands@[i as int])));
            assert(self.registrations_view() =~= start + commands@.take(i + 1).map_values(key_of));
            i = i + 1;
        }
        assert(commands@.take(commands@.len() as int) =~= commands@);
    }

    /// Adds one handler for several commands.
    pub fn commands(&mut self, commands: &[&str], handler: H)
        ensures
            final(self).handlers_view() == old(self).handlers_view().push(handler),
            final(self).registrations_view() == old(self).registrations_view() + commands@.map_values(
                |c: &str| (RouteKey::Command(c@), old(self).handlers_view().len() as usize),
            ),
            final(self).username_view() == old(self).username_view(),
    {
        self.add_commands(commands, false, handler);
        assert(final(self).registrations_view() =~= old(self).registrations_view() + commands@.map_values(
            |c: &str| (RouteKey::Command(c@), old(self).handlers_view().len() as usize),
        ));
    }

    /// Adds one handler for several commands in edited messages.
    pub fn edited_commands(&mut self, commands: &[&str], handler: H)
        ensures
            final(self).handlers_view() == old(self).handlers_view().push(handler),
            final(self).registrations_view() == old(self).registrations_view() + commands@.map_values(
                |c: &str| (RouteKey::EditedCommand(c@), old(self).handlers_view().len() as usize),
            ),
            final(self).username_view() == old(self).username_view(),
    {
        self.add_commands(commands, true, handler);
        assert(final(self).registrations_view() =~= old(self).registrations_view() + commands@.map_values(
            |c: &str| (RouteKey::EditedCommand(c@), old(self).handlers_view().len() as usize),
        ));
    }

    /// Adds a handler for the `/start` command.
    pub fn start(&mut self, handler: H)
        ensures
            final(self).handlers_view() == old(self).handlers_view().push(handler),
            final(self).registrations_view() == old(self).registrations_view().push(
                (RouteKey::Command("start"@), old(self).handlers_view().len() as usize),
            ),
            final(self).username_view() == old(self).username_view(),
    {
        self.command("start", handler);
    }

    /// Adds a handler for the `/settings` command.
    pub fn settings(&mut self, handler: H)
        ensures
            final(self).handlers_view() == old(self).handlers_view().push(handler),
            final(self).registrations_view() == old(self).registrations_view().push(
                (RouteKey::Command("settings"@), old(self).handlers_view().len() as usize),
            ),
            final(self).username_view() == old(self).username_view(),
    {
        self.command("settings", handler);
    }

    /// Adds a handler for the `/help` command.
    pub fn help(&mut self, handler: H)
        ensures
            final(self).handlers_view() == old(self).handlers_view().push(handler),
            final(self).registrations_view() == old(self).registrations_view().push(
                (RouteKey::Command("help"@), old(self).handlers_view().len() as usize),
            ),
            final(self).username_view() == old(self).username_view(),
    {
        self.command("help", handler);
    }

    /// The handlers registered for the route looked for, in order.
    fn lookup(&self, wanted: &Wanted) -> (r: Vec<usize>)
        ensures
            r@ == self.handlers_of(wanted.key()),
    {
        let ghost regs = self.registrations_view();
        let mut ids: Vec<usize> = Vec::new();
        let mut i: usize = 0;
        while i < self.registrations.len()
            invariant
                i <= self.registrations@.len(),
                regs == self.registrations_view(),
                regs.len() == self.registrations@.len(),
                ids@ == handlers_for(regs.take(i as int), wanted.key()),
            decreases self.registrations@.len() - i,
        {
            let registration = &self.registrations[i];
            assert(regs[i as int] == registration_key(*registration));
            assert(regs.take(i + 1).drop_last() =~= regs.take(i as int));
            if route_matches(&registration.route, wanted) {
                ids.push(registration.handler);
            }
            i = i + 1;
        }
        assert(regs.take(regs.len() as int) =~= regs);
        ids
    }

    /// The handlers registered for category `c`, in order.
    fn category_handlers(&self, c: Category) -> (r: Vec<usize>)
        ensures
            r@ == self.handlers_of(RouteKey::Category(c)),
    {
        self.lookup(&Wanted::Category(c))
    }

    /// Whether a command addressed to `username` is for this bot.
    fn is_for_this_bot(&self, username: &Option<String>) -> (r: bool)
        ensures
            r == self.for_this_bot(option_view(*username)),
    {
        match username {
            None => true,
            Some(u) => match &self.username {
                Some(mine) => *mine == *u,
                None => false,
            },
        }
    }

    /// Hands an update that no handler of its category takes to the unhandled
    /// handlers, if there are any.
    fn fall_back(&self, received: UpdateKind) -> (r: (Vec<usize>, Outcome))
        ensures
            self.meets(self.expect_fall_back(received), r.0@, r.1),
    {
        let ids = self.category_handlers(Category::Unhandled);
        if ids.len() > 0 {
            (ids, Outcome::Delivered(Context::Unhandled(received)))
        } else {
            (Vec::new(), Outcome::Discarded)
        }
    }

    /// Routes a new message of category `c` with envelope `data` and payload
    /// `kind`.
    fn deliver_message(&self, c: Category, data: MessageData, kind: MessageKind, post: bool) -> (r: (
        Vec<usize>,
        Outcome,
    ))
        ensures
            self.meets(
                self.expect_delivery(
                    c,
                    Context::Message(data, kind),
                    wrapped(false, post, Message::assemble(data, kind)),
                ),
                r.0@,
                r.1,
            ),
    {
        let ids = self.category_handlers(c);
        if ids.len() > 0 {
            (ids, Outcome::Delivered(Context::Message(data, kind)))
        } else {
            self.fall_back(rewrap(false, post, Message::new(data, kind)))
        }
    }

    /// Routes an edited message of category `c` with envelope `data`, edit
    /// date `edit_date` and payload `kind`.
    fn deliver_edit(&self, c: Category, data: MessageData, edit_date: i64, kind: MessageKind, post: bool) -> (r: (
        Vec<usize>,
        Outcome,
    ))
        ensures
            self.meets(
                self.expect_delivery(
                    c,
                    Context::EditedMessage(data, edit_date, kind),
                    wrapped(true, post, Message::assemble(data, kind)),
                ),
                r.0@,
                r.1,
            ),
    {
        let ids = self.category_handlers(c);
        if ids.len() > 0 {
            (ids, Outcome::Delivered(Context::EditedMessage(data, edit_date, kind)))
        } else {
            self.fall_back(rewrap(true, post, Message::new(data, kind)))
        }
    }

    /// Routes a command in `text`, from a message with envelope `data`,
    /// edited at `edit` if it was edited.
    fn route_command(&self, data: MessageData, edit: Option<i64>, text: Text, post: bool) -> (r: (
        Vec<usize>,
        Outcome,
    ))
        ensures
            self.meets(
                self.expect_command(
                    data,
                    edit,
                    text,
                    wrapped(edit is Some, post, Message::assemble(data, MessageKind::Text(text))),
                ),
                r.0@,
                r.1,
            ),
    {
        let (name, username) = parse_command(&text);
        if !self.is_for_this_bot(&username) {
            return (Vec::new(), Outcome::ForeignCommand);
        }
        let ids = match edit {
            None => self.lookup(&Wanted::Command(&name)),
            Some(_) => self.lookup(&Wanted::EditedCommand(&name)),
        };
        if ids.len() > 0 {
            if crate::text::can_trim_command(&text) {
                let trimmed = trim_command(text);
                let context = match edit {
                    None => Context::Command(name, data, trimmed),
                    Some(edit_date) => Context::EditedCommand(name, data, edit_date, trimmed),
                };
                (ids, Outcome::Delivered(context))
            } else {
                (Vec::new(), Outcome::Anomaly(Anomaly::MalformedCommand))
            }
        } else {
            self.fall_back(rewrap(edit.is_some(), post, Message::new(data, MessageKind::Text(text))))
        }
    }

    /// Routes a new message or channel post.
    fn route_message(&self, m: Message, post: bool) -> (r: (Vec<usize>, Outcome))
        ensures
            self.meets(self.expect_message(m, wrapped(false, post, m)), r.0@, r.1),
    {
        let (data, kind) = m.split();
        match kind {
            MessageKind::Text(text) => {
                if is_command(&text) {
                    self.route_command(data, None, text, post)
                } else {
                    self.deliver_message(Category::Text, data, MessageKind::Text(text), post)
                }
            },
            MessageKind::MigrateTo(_) => (Vec::new(), Outcome::Discarded),
            MessageKind::SupergroupCreated => (
                Vec::new(),
                Outcome::Anomaly(Anomaly::UnexpectedMessage(MessageKind::SupergroupCreated)),
            ),
            MessageKind::ChannelCreated => (
                Vec::new(),
                Outcome::Anomaly(Anomaly::UnexpectedMessage(MessageKind::ChannelCreated)),
            ),
            MessageKind::Unknown => self.fall_back(
                rewrap(false, post, Message::new(data, MessageKind::Unknown)),
            ),
            other => match category_of_message(&other) {
                Some(c) => self.deliver_message(c, data, other, post),
                None => (Vec::new(), Outcome::Discarded),
            },
        }
    }

    /// Routes an edited message or channel post.
    fn route_edit(&self, m: Message, post: bool) -> (r: (Vec<usize>, Outcome))
        ensures
            self.meets(self.expect_edit(m, wrapped(true, post, m)), r.0@, r.1),
    {
        let (data, kind) = m.split();
        let edit_date: i64 = match data.edit_date {
            Some(edit_date) => edit_date,
            None => return (Vec::new(), Outcome::Anomaly(Anomaly::MissingEditDate)),
        };
        match kind {
            MessageKind::Text(text) => {
                if is_command(&text) {
                    self.route_command(data, Some(edit_date), text, post)
                } else {
                    self.deliver_edit(Category::EditedText, data, edit_date, MessageKind::Text(text), post)
                }
            },
            MessageKind::Unknown => self.fall_back(
                rewrap(true, post, Message::new(data, MessageKind::Unknown)),
            ),
            other => match category_of_edit(&other) {
                Some(c) => self.deliver_edit(c, data, edit_date, other, post),
                None => (Vec::new(), Outcome::Anomaly(Anomaly::UnexpectedEdit(other))),
            },
        }
    }

    /// Routes an update: finds the handlers that receive it, and what they
    /// receive.
    fn route(&self, kind: UpdateKind) -> (r: (Vec<usize>, Outcome))
        ensures
            self.settles(kind, r.0@, r.1),
    {
        match kind {
            UpdateKind::Message(m) => self.route_message(m, false),
            UpdateKind::ChannelPost(m) => self.route_message(m, true),
            UpdateKind::EditedMessage(m) => self.route_edit(m, false),
            UpdateKind::EditedChannelPost(m) => self.route_edit(m, true),
            UpdateKind::CallbackQuery(q) => {
                let c = match q.kind {
                    CallbackKind::Data(_) => Category::DataCallback,
                    CallbackKind::Game(_) => Category::GameCallback,
                };
                let ids = self.category_handlers(c);
                if ids.len() > 0 {
                    (ids, Outcome::Delivered(Context::Callback(q)))
                } else {
                    self.fall_back(UpdateKind::CallbackQuery(q))
                }
            },
            UpdateKind::InlineQuery(q) => {
                let ids = self.category_handlers(Category::Inline);
                if ids.len() > 0 {
                    (ids, Outcome::Delivered(Context::Inline(q)))
                } else {
                    self.fall_back(UpdateKind::InlineQuery(q))
                }
            },
            UpdateKind::ChosenInlineResult(result) => {
                let ids = self.category_handlers(Category::ChosenInline);
                if ids.len() > 0 {
                    (ids, Outcome::Delivered(Context::ChosenInline(result)))
                } else {
                    self.fall_back(UpdateKind::ChosenInlineResult(result))
                }
            },
            UpdateKind::ShippingQuery(q) => {
                let ids = self.category_handlers(Category::Shipping);
                if ids.len() > 0 {
                    (ids, Outcome::Delivered(Context::Shipping(q)))
                } else {
                    self.fall_back(UpdateKind::ShippingQuery(q))
                }
            },
            UpdateKind::PreCheckoutQuery(q) => {
                let ids = self.category_handlers(Category::PreCheckout);
                if ids.len() > 0 {
                    (ids, Outcome::Delivered(Context::PreCheckout(q)))
                } else {
                    self.fall_back(UpdateKind::PreCheckoutQuery(q))
                }
            },
            UpdateKind::Poll(poll) => {
                let ids = self.category_handlers(Category::UpdatedPoll);
                if ids.len() > 0 {
                    (ids, Outcome::Delivered(Context::UpdatedPoll(poll)))
                } else {
                    self.fall_back(UpdateKind::Poll(poll))
                }
            },
            UpdateKind::PollAnswer(answer) => {
                let ids = self.category_handlers(Category::PollAnswer);
                if ids.len() > 0 {
                    (ids, Outcome::Delivered(Context::PollAnswer(answer)))
                } else {
                    self.fall_back(UpdateKind::PollAnswer(answer))
                }
            },
            UpdateKind::Unknown => self.fall_back(UpdateKind::Unknown),
        }
    }

    /// Dispatches an update: the before-update handlers are launched first,
    /// then the handlers that the update is routed to, then the after-update
    /// handlers, whatever became of the update.
    pub fn handle_update(&self, update: Update) -> (r: Dispatch)
        ensures
            r.update_id == update.id,
            r.calls@ == self.launches(update.kind),
            fulfils(r.outcome, self.expected(update.kind)),
    {
        let update_id: u32 = update.id;
        let ghost kind = update.kind;
        let before = self.category_handlers(Category::BeforeUpdate);
        let (routed, outcome) = self.route(update.kind);
        let after = self.category_handlers(Category::AfterUpdate);
        let mut calls: Vec<Call> = Vec::new();
        push_calls(&mut calls, &before, Stage::BeforeUpdate);
        push_calls(&mut calls, &routed, Stage::Routed);
        push_calls(&mut calls, &after, Stage::AfterUpdate);
        assert(calls@ =~= self.launches(kind));
        Dispatch { update_id, calls, outcome }
    }
}

/// Where a stage falls in the order of launching: before-update handlers,
/// then routed ones, then after-update ones.
pub open spec fn stage_rank(stage: Stage) -> int {
    match stage {
        Stage::BeforeUpdate => 0,
        Stage::Routed => 1,
        Stage::AfterUpdate => 2,
    }
}

/// Registering a handler for a route appends it to that route's handlers and
/// leaves every other route's handlers as they were.
pub proof fn lemma_registration_appends(regs: Seq<(RouteKey, usize)>, added: (RouteKey, usize), key: RouteKey)
    ensures
        handlers_for(regs.push(added), key) == if added.0 == key {
            handlers_for(regs, key).push(added.1)
        } else {
            handlers_for(regs, key)
        },
{
    assert(regs.push(added).drop_last() =~= regs);
}

/// Three handlers registered one after another for a category that had none
/// are that category's handlers, in the order of registration.
pub proof fn lemma_three_handlers_in_order(
    regs: Seq<(RouteKey, usize)>,
    c: Category,
    first: usize,
    second: usize,
    third: usize,
)
    requires
        handlers_for(regs, RouteKey::Category(c)).len() == 0,
    ensures
        handlers_for(
            regs.push((RouteKey::Category(c), first)).push((RouteKey::Category(c), second)).push(
                (RouteKey::Category(c), third),
            ),
            RouteKey::Category(c),
        ) == seq![first, second, third],
{
    let key = RouteKey::Category(c);
    let one = regs.push((key, first));
    let two = one.push((key, second));
    lemma_registration_appends(regs, (key, first), key);
    lemma_registration_appends(one, (key, second), key);
    lemma_registration_appends(two, (key, third), key);
    assert(handlers_for(two.push((key, third)), key) =~= seq![first, second, third]);
}

impl<H> EventLoop<H> {
    /// A command addressed to a username other than the bot's own reaches no
    /// handler at all: not a command handler, not an unhandled one. Only the
    /// before- and after-update handlers run.
    pub proof fn lemma_foreign_command_reaches_no_handler(&self, m: Message, post: bool)
        requires
            m.kind is Text,
            m.kind->Text_0.denotes_command(),
            command_username(m.kind->Text_0.value@) is Some,
            self.username_view() != command_username(m.kind->Text_0.value@),
        ensures
            self.expected(wrapped(false, post, m)) is Foreign,
            self.routed(self.expected(wrapped(false, post, m))).len() == 0,
    {
    }

    /// An update of a category without handlers goes, in the shape it arrived in,
    /// to the unhandled handlers, once to each.
    pub proof fn lemma_fall_back_delivers_original(&self, m: Message, post: bool, c: Category)
        requires
            m.kind !is Text,
            message_category(m.kind) == Some(c),
            !self.handles(RouteKey::Category(c)),
            self.handles(RouteKey::Category(Category::Unhandled)),
        ensures
            self.expected(wrapped(false, post, m)) == Expected::Deliver(
                RouteKey::Category(Category::Unhandled),
                Context::Unhandled(wrapped(false, post, m)),
            ),
            self.routed(self.expected(wrapped(false, post, m))) == self.handlers_of(
                RouteKey::Category(Category::Unhandled),
            ),
    {
    }

    /// A migration to a supergroup is never delivered, not even to unhandled
    /// handlers.
    pub proof fn lemma_migration_to_is_discarded(&self, m: Message, post: bool)
        requires
            m.kind is MigrateTo,
        ensures
            self.expected(wrapped(false, post, m)) is Discard,
            self.routed(self.expected(wrapped(false, post, m))).len() == 0,
    {
    }

    /// In the calls that dispatching an update launches, every before-update
    /// handler comes before every routed handler, which comes before every
    /// after-update handler.
    pub proof fn lemma_launch_stages_ordered(&self, kind: UpdateKind, i: int, j: int)
        requires
            0 <= i < j < self.launches(kind).len(),
        ensures
            stage_rank(self.launches(kind)[i].stage) <= stage_rank(self.launches(kind)[j].stage),
    {
        let before = calls_of(self.handlers_of(RouteKey::Category(Category::BeforeUpdate)), Stage::BeforeUpdate);
        let routed = calls_of(self.routed(self.expected(kind)), Stage::Routed);
        let after = calls_of(self.handlers_of(RouteKey::Category(Category::AfterUpdate)), Stage::AfterUpdate);
        let all = self.launches(kind);
        assert(all == before + routed + after);
        assert forall|x: int| 0 <= x < all.len() implies stage_rank(all[x].stage) == if x < before.len() {
            0int
        } else if x < before.len() + routed.len() {
            1int
        } else {
            2int
        } by {
            if x < before.len() {
                assert(all[x] == before[x]);
            } else if x < before.len() + routed.len() {
                assert(all[x] == routed[x - before.len()]);
            } else {
                assert(all[x] == after[x - before.len() - routed.len()]);
            }
        }
    }
}

} // verus!
