//! Parameters of a poll to send.
use crate::parameters::{self, ParseMode};
use vstd::prelude::*;

verus! {

/// Whether multiple answers are allowed in a poll.
#[derive(Debug, PartialEq, Eq, Clone, Copy, Hash, Structural)]
pub enum Answer {
    /// Only a single answer is allowed.
    Single,
    /// Multiple answers are allowed.
    Multiple,
}

/// When a poll is closed automatically.
#[derive(Debug, PartialEq, Eq, Clone, Copy, Hash, Structural)]
pub enum AutoClose {
    /// This many seconds after it is sent.
    OpenPeriod(u16),
    /// At this Unix timestamp.
    CloseDate(i64),
}

/// A quiz: a poll with one correct option.
#[derive(Debug, PartialEq, Eq, Clone, Copy, Hash)]
pub struct Quiz<'a> {
    correct_option_id: usize,
    explanation: Option<&'a str>,
    explanation_parse_mode: Option<ParseMode>,
}

/// A regular poll.
#[derive(Debug, PartialEq, Eq, Clone, Copy, Hash, Structural)]
pub struct Poll {
    allows_multiple_answers: bool,
}

/// Either a quiz or a regular poll.
#[derive(Debug, PartialEq, Eq, Clone, Copy, Hash)]
pub enum Kind<'a> {
    Quiz(Quiz<'a>),
    Poll(Poll),
}

/// A poll to send.
#[derive(Debug, PartialEq, Eq, Clone, Hash)]
pub struct Any<'a> {
    kind: Kind<'a>,
    question: &'a str,
    options: Vec<&'a str>,
    is_closed: Option<bool>,
    is_anonymous: Option<bool>,
    auto_close: Option<AutoClose>,
}

impl<'a> Quiz<'a> {
    /// The index of the correct option.
    pub closed spec fn correct_option_id_view(&self) -> usize {
        self.correct_option_id
    }

    /// The explanation shown after a wrong answer, if set.
    pub closed spec fn explanation_view(&self) -> Option<Seq<char>> {
        match self.explanation {
            Some(e) => Some(e@),
            None => None,
        }
    }

    /// How the markup of the explanation is parsed.
    pub closed spec fn explanation_parse_mode_view(&self) -> Option<ParseMode> {
        self.explanation_parse_mode
    }

    /// Constructs a quiz whose correct option has the given index, without an
    /// explanation.
    pub fn new(correct_option_id: usize) -> (r: Self)
        ensures
            r.correct_option_id_view() == correct_option_id,
            r.explanation_view() is None,
            r.explanation_parse_mode_view() is None,
    {
        Self { correct_option_id, explanation: None, explanation_parse_mode: None }
    }

    /// Sets the explanation shown after a wrong answer, and how its markup
    /// is parsed.
    pub fn explanation(self, explanation: parameters::Text<'a>) -> (r: Self)
        ensures
            r.correct_option_id_view() == self.correct_option_id_view(),
            r.explanation_view() == Some(explanation.text@),
            r.explanation_parse_mode_view() == explanation.parse_mode,
    {
        Self {
            explanation: Some(explanation.text),
            explanation_parse_mode: explanation.parse_mode,
            ..self
        }
    }

    /// The index of the correct option.
    pub fn correct_option_id(&self) -> (r: usize)
        ensures
            r == self.correct_option_id_view(),
    {
        self.correct_option_id
    }

    /// The explanation shown after a wrong answer, if set.
    pub fn explanation_text(&self) -> (r: Option<&'a str>)
        ensures
            match r {
                Some(e) => self.explanation_view() == Some(e@),
                None => self.explanation_view() is None,
            },
    {
        self.explanation
    }

    /// How the markup of the explanation is parsed.
    pub fn explanation_parse_mode(&self) -> (r: Option<ParseMode>)
        ensures
            r == self.explanation_parse_mode_view(),
    {
        self.explanation_parse_mode
    }
}

impl Poll {
    /// Whether the poll allows multiple answers.
    pub closed spec fn allows_multiple_answers_view(&self) -> bool {
        self.allows_multiple_answers
    }

    /// Constructs a regular poll that allows a single answer or multiple
    /// answers.
    pub fn new(answer: Answer) -> (r: Self)
        ensures
            r.allows_multiple_answers_view() == (answer == Answer::Multiple),
    {
        Self { allows_multiple_answers: answer == Answer::Multiple }
    }

    /// Whether the poll allows multiple answers.
    pub fn allows_multiple_answers(&self) -> (r: bool)
        ensures
            r == self.allows_multiple_answers_view(),
    {
        self.allows_multiple_answers
    }
}

impl<'a> Any<'a> {
    /// Whether it is a quiz or a regular poll.
    pub closed spec fn kind_view(&self) -> Kind<'a> {
        self.kind
    }

    /// The question.
    pub closed spec fn question_view(&self) -> Seq<char> {
        self.question@
    }

    /// The options, in order.
    pub closed spec fn options_view(&self) -> Seq<Seq<char>> {
        self.options@.map_values(|o: &str| o@)
    }

    /// Whether the poll is closed as soon as it is sent, if configured.
    pub closed spec fn is_closed_view(&self) -> Option<bool> {
        self.is_closed
    }

    /// Whether the poll is anonymous, if configured.
    pub closed spec fn is_anonymous_view(&self) -> Option<bool> {
        self.is_anonymous
    }

    /// When the poll is closed automatically, if configured.
    pub closed spec fn auto_close_view(&self) -> Option<AutoClose> {
        self.auto_close
    }

    /// Constructs a poll with a question and its options, leaving everything
    /// else unconfigured.
    pub fn new(question: &'a str, options: Vec<&'a str>, kind: Kind<'a>) -> (r: Self)
        ensures
            r.kind_view() == kind,
            r.question_view() == question@,
            r.options_view() == options@.map_values(|o: &str| o@),
            r.is_closed_view() is None,
            r.is_anonymous_view() is None,
            r.auto_close_view() is None,
    {
        Self { kind, question, options, is_closed: None, is_anonymous: None, auto_close: None }
    }

    /// Configures whether the poll is closed as soon as it is sent.
    pub fn is_immediately_closed(self, is_closed: bool) -> (r: Self)
        ensures
            r.kind_view() == self.kind_view(),
            r.question_view() == self.question_view(),
            r.options_view() == self.options_view(),
            r.is_closed_view() == Some(is_closed),
            r.is_anonymous_view() == self.is_anonymous_view(),
            r.auto_close_view() == self.auto_close_view(),
    {
        Self { is_closed: Some(is_closed), ..self }
    }

    /// Configures whether the poll is anonymous.
    pub fn is_anonymous(self, is_anonymous: bool) -> (r: Self)
        ensures
            r.kind_view() == self.kind_view(),
            r.question_view() == self.question_view(),
            r.options_view() == self.options_view(),
            r.is_closed_view() == self.is_closed_view(),
            r.is_anonymous_view() == Some(is_anonymous),
            r.auto_close_view() == self.auto_close_view(),
    {
        Self { is_anonymous: Some(is_anonymous), ..self }
    }

    /// Configures when the poll is closed automatically.
    pub fn auto_close(self, auto_close: AutoClose) -> (r: Self)
        ensures
            r.kind_view() == self.kind_view(),
            r.question_view() == self.question_view(),
            r.options_view() == self.options_view(),
            r.is_closed_view() == self.is_closed_view(),
            r.is_anonymous_view() == self.is_anonymous_view(),
            r.auto_close_view() == Some(auto_close),
    {
        Self { auto_close: Some(auto_close), ..self }
    }

    /// Whether it is a quiz or a regular poll.
    pub fn kind(&self) -> (r: Kind<'a>)
        ensures
            r == self.kind_view(),
    {
        self.kind
    }

    /// The question.
    pub fn question(&self) -> (r: &'a str)
        ensures
            r@ == self.question_view(),
    {
        self.question
    }

    /// The number of options.
    pub fn option_count(&self) -> (r: usize)
        ensures
            r == self.options_view().len(),
    {
        self.options.len()
    }

    /// Whether the poll is closed as soon as it is sent, if configured.
    pub fn closed_setting(&self) -> (r: Option<bool>)
        ensures
            r == self.is_closed_view(),
    {
        self.is_closed
    }

    /// Whether the poll is anonymous, if configured.
    pub fn anonymous_setting(&self) -> (r: Option<bool>)
        ensures
            r == self.is_anonymous_view(),
    {
        self.is_anonymous
    }

    /// When the poll is closed automatically, if configured.
    pub fn auto_close_setting(&self) -> (r: Option<AutoClose>)
        ensures
            r == self.auto_close_view(),
    {
        self.auto_close
    }
}

} // verus!
