//! Inline keyboards: buttons attached to a message.
use vstd::prelude::*;

verus! {

/// A URL that logs the user in on a website when opened.
#[derive(Debug, PartialEq, Eq, Clone, Copy, Hash)]
pub struct LoginUrl<'a> {
    /// The URL to open.
    pub url: &'a str,
}

/// A placeholder for the game that a button launches; it holds no
/// information.
#[derive(Debug, PartialEq, Eq, Clone, Copy, Hash)]
pub struct Game;

/// What an inline button does when pressed.
#[derive(Debug, PartialEq, Eq, Clone, Copy, Hash)]
pub enum ButtonKind<'a> {
    /// Opens a URL.
    Url(&'a str),
    /// Logs the user in on a website.
    LoginUrl(LoginUrl<'a>),
    /// Sends a callback query with this data.
    CallbackData(&'a str),
    /// Switches to inline mode in a chat of the user's choice, with this
    /// query inserted.
    SwitchInlineQuery(&'a str),
    /// Switches to inline mode in the current chat, with this query inserted.
    SwitchInlineQueryCurrentChat(&'a str),
    /// Launches a game.
    CallbackGame(Game),
    /// A pay button, if `true`.
    Pay(bool),
}

/// A button of an inline keyboard.
#[derive(Debug, PartialEq, Eq, Clone, Copy, Hash)]
pub struct Button<'a> {
    text: &'a str,
    kind: ButtonKind<'a>,
}

/// An inline keyboard: rows of buttons.
#[derive(Debug, PartialEq, Eq, Clone, Hash)]
pub struct Keyboard<'a> {
    inline_keyboard: Vec<Vec<Button<'a>>>,
}

/// The name of the field that carries a button's action of this kind.
pub open spec fn action_field(kind: ButtonKind) -> Seq<char> {
    match kind {
        ButtonKind::Url(_) => "url"@,
        ButtonKind::LoginUrl(_) => "login_url"@,
        ButtonKind::CallbackData(_) => "callback_data"@,
        ButtonKind::SwitchInlineQuery(_) => "switch_inline_query"@,
        ButtonKind::SwitchInlineQueryCurrentChat(_) => "switch_inline_query_current_chat"@,
        ButtonKind::CallbackGame(_) => "callback_game"@,
        ButtonKind::Pay(_) => "pay"@,
    }
}

impl<'a> ButtonKind<'a> {
    /// A copy of `self` that borrows what `self` borrows.
    fn from_ref(&self) -> (r: Self)
        ensures
            r == *self,
    {
        match self {
            ButtonKind::Url(data) => ButtonKind::Url(data),
            ButtonKind::LoginUrl(data) => ButtonKind::LoginUrl(LoginUrl { url: data.url }),
            ButtonKind::CallbackData(data) => ButtonKind::CallbackData(data),
            ButtonKind::SwitchInlineQuery(data) => ButtonKind::SwitchInlineQuery(data),
            ButtonKind::SwitchInlineQueryCurrentChat(data) => ButtonKind::SwitchInlineQueryCurrentChat(data),
            ButtonKind::CallbackGame(_) => ButtonKind::CallbackGame(Game),
            ButtonKind::Pay(data) => ButtonKind::Pay(*data),
        }
    }

    /// Constructs a `ButtonKind` of type `Url`.
    pub fn with_url(url: &'a str) -> (r: Self)
        ensures
            r == ButtonKind::Url(url),
    {
        ButtonKind::Url(url)
    }

    /// Constructs a `ButtonKind` of type `LoginUrl`.
    pub fn with_login_url(login_url: &'a str) -> (r: Self)
        ensures
            r == ButtonKind::LoginUrl(LoginUrl { url: login_url }),
    {
        ButtonKind::LoginUrl(LoginUrl { url: login_url })
    }

    /// Constructs a `ButtonKind` of type `CallbackData`.
    pub fn with_callback_data(callback_data: &'a str) -> (r: Self)
        ensures
            r == ButtonKind::CallbackData(callback_data),
    {
        ButtonKind::CallbackData(callback_data)
    }

    /// Constructs a `ButtonKind` of type `SwitchInlineQuery`.
    pub fn with_switch_inline_query(switch_inline_query: &'a str) -> (r: Self)
        ensures
            r == ButtonKind::SwitchInlineQuery(switch_inline_query),
    {
        ButtonKind::SwitchInlineQuery(switch_inline_query)
    }

    /// Constructs a `ButtonKind` of type `SwitchInlineQueryCurrentChat`.
    pub fn with_switch_inline_query_current_chat(switch_inline_query_current_chat: &'a str) -> (r: Self)
        ensures
            r == ButtonKind::SwitchInlineQueryCurrentChat(switch_inline_query_current_chat),
    {
        ButtonKind::SwitchInlineQueryCurrentChat(switch_inline_query_current_chat)
    }

    /// Constructs a `ButtonKind` of type `CallbackGame`.
    pub fn with_callback_game() -> (r: Self)
        ensures
            r == ButtonKind::CallbackGame(Game),
    {
        ButtonKind::CallbackGame(Game)
    }

    /// Constructs a `ButtonKind` of type `Pay`.
    pub fn with_pay(pay: bool) -> (r: Self)
        ensures
            r == ButtonKind::Pay(pay),
    {
        ButtonKind::Pay(pay)
    }

    /// The name of the field that carries the button's action.
    pub fn field_name(&self) -> (r: &'static str)
        ensures
            r@ == action_field(*self),
    {
        proof {
            reveal_strlit("url");
            reveal_strlit("login_url");
            reveal_strlit("callback_data");
            reveal_strlit("switch_inline_query");
            reveal_strlit("switch_inline_query_current_chat");
            reveal_strlit("callback_game");
            reveal_strlit("pay");
        }
        match self {
            ButtonKind::Url(_) => "url",
            ButtonKind::LoginUrl(_) => "login_url",
            ButtonKind::CallbackData(_) => "callback_data",
            ButtonKind::SwitchInlineQuery(_) => "switch_inline_query",
            ButtonKind::SwitchInlineQueryCurrentChat(_) => "switch_inline_query_current_chat",
            ButtonKind::CallbackGame(_) => "callback_game",
            ButtonKind::Pay(_) => "pay",
        }
    }
}

impl<'a> Button<'a> {
    /// The text on the button.
    pub closed spec fn text_view(&self) -> &'a str {
        self.text
    }

    /// What the button does.
    pub closed spec fn kind_view(&self) -> ButtonKind<'a> {
        self.kind
    }

    /// Constructs an inline `Button`.
    pub fn new(text: &'a str, kind: ButtonKind<'a>) -> (r: Self)
        ensures
            r.text_view() == text,
            r.kind_view() == kind,
    {
        Self { text, kind }
    }

    /// A copy of `self` that borrows what `self` borrows.
    pub fn from_ref(&self) -> (r: Self)
        ensures
            r == *self,
    {
        Self { text: self.text, kind: self.kind.from_ref() }
    }

    /// The text on the button.
    pub fn text(&self) -> (r: &'a str)
        ensures
            r == self.text_view(),
    {
        self.text
    }

    /// What the button does.
    pub fn kind(&self) -> (r: ButtonKind<'a>)
        ensures
            r == self.kind_view(),
    {
        self.kind
    }
}

impl<'a> Keyboard<'a> {
    /// The rows of buttons.
    pub closed spec fn rows_view(&self) -> Seq<Seq<Button<'a>>> {
        self.inline_keyboard@.map_values(|row: Vec<Button<'a>>| row@)
    }

    /// Constructs an inline `Keyboard` from rows of buttons.
    pub fn new(buttons: Vec<Vec<Button<'a>>>) -> (r: Self)
        ensures
            r.rows_view() == buttons@.map_values(|row: Vec<Button<'a>>| row@),
    {
        Self { inline_keyboard: buttons }
    }

    /// Constructs an inline `Keyboard` from borrowed rows of buttons, copying
    /// each button with [`Button::from_ref`].
    pub fn from_rows(rows: &[&[Button<'a>]]) -> (r: Self)
        ensures
            r.rows_view() == rows@.map_values(|row: &[Button<'a>]| row@),
    {
        let mut keyboard: Vec<Vec<Button<'a>>> = Vec::new();
        let mut i: usize = 0;
        while i < rows.len()
            invariant
                i <= rows@.len(),
                keyboard@.len() == i,
                forall|k: int| 0 <= k < i ==> #[trigger] keyboard@[k]@ == rows@[k]@,
            decreases rows@.len() - i,
        {
            let source: &[Button<'a>] = rows[i];
            let mut row: Vec<Button<'a>> = Vec::new();
            let mut j: usize = 0;
            while j < source.len()
                invariant
                    j <= source@.len(),
                    row@ == source@.take(j as int),
                decreases source@.len() - j,
            {
                let button = source[j].from_ref();
                assert(button == source@[j as int]);
                row.push(button);
                j = j + 1;
                assert(row@ =~= source@.take(j as int));
            }
            assert(source@.take(source@.len() as int) =~= source@);
            keyboard.push(row);
            i = i + 1;
        }
        let r = Self { inline_keyboard: keyboard };
        assert(r.rows_view() =~= rows@.map_values(|row: &[Button<'a>]| row@));
        r
    }

    /// The rows of buttons.
    pub fn rows(&self) -> (r: &Vec<Vec<Button<'a>>>)
        ensures
            r@.map_values(|row: Vec<Button<'a>>| row@) == self.rows_view(),
    {
        &self.inline_keyboard
    }
}

} // verus!
