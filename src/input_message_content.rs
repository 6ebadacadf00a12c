//! The content of a message to send as the result of an inline query.
use crate::parameters::{self, ParseMode};
use vstd::prelude::*;

verus! {

/// The content of a text message to send.
#[derive(Debug, PartialEq, Eq, Clone, Copy, Hash)]
pub struct Text<'a> {
    message_text: &'a str,
    parse_mode: Option<ParseMode>,
    disable_web_page_preview: Option<bool>,
}

impl<'a> Text<'a> {
    /// The text of the message.
    pub closed spec fn message_text_view(&self) -> Seq<char> {
        self.message_text@
    }

    /// How the markup of the text is parsed.
    pub closed spec fn parse_mode_view(&self) -> Option<ParseMode> {
        self.parse_mode
    }

    /// Whether the preview of links is disabled, if configured.
    pub closed spec fn web_page_preview_disabled_view(&self) -> Option<bool> {
        self.disable_web_page_preview
    }

    /// Constructs a new `Text`, with the preview of links left unconfigured.
    pub fn new(message_text: parameters::Text<'a>) -> (r: Self)
        ensures
            r.message_text_view() == message_text.text@,
            r.parse_mode_view() == message_text.parse_mode,
            r.web_page_preview_disabled_view() is None,
    {
        Self {
            message_text: message_text.text,
            parse_mode: message_text.parse_mode,
            disable_web_page_preview: None,
        }
    }

    /// Configures whether the preview of links is disabled.
    pub fn is_web_page_preview_disabled(self, is_disabled: bool) -> (r: Self)
        ensures
            r.message_text_view() == self.message_text_view(),
            r.parse_mode_view() == self.parse_mode_view(),
            r.web_page_preview_disabled_view() == Some(is_disabled),
    {
        Self { disable_web_page_preview: Some(is_disabled), ..self }
    }

    /// The text of the message.
    pub fn message_text(&self) -> (r: &'a str)
        ensures
            r@ == self.message_text_view(),
    {
        self.message_text
    }

    /// How the markup of the text is parsed.
    pub fn parse_mode(&self) -> (r: Option<ParseMode>)
        ensures
            r == self.parse_mode_view(),
    {
        self.parse_mode
    }

    /// Whether the preview of links is disabled, if configured.
    pub fn web_page_preview_disabled(&self) -> (r: Option<bool>)
        ensures
            r == self.web_page_preview_disabled_view(),
    {
        self.disable_web_page_preview
    }
}

} // verus!
