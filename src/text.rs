//! Message text with its entities, and the parsing of bot commands out of it.
//!
//! Offsets and lengths of entities count Unicode scalar values (`char`s),
//! the same unit in which a `String`'s view is measured.
use vstd::prelude::*;

verus! {

/// What an entity marks in a text.
#[derive(Debug, Clone, PartialEq, Eq)]
pub enum EntityKind {
    Mention,
    Hashtag,
    Cashtag,
    BotCommand,
    Url,
    Email,
    PhoneNumber,
    Bold,
    Italic,
    Underline,
    Strikethrough,
    Code,
    /// A block of code, with its language if one was given.
    Pre(Option<String>),
    /// A link with the given URL.
    TextLink(String),
    /// A mention of the user with the given ID.
    TextMention(u64),
}

/// A formatting or semantic annotation over a range of a text's characters.
#[derive(Debug, Clone, PartialEq, Eq)]
pub struct Entity {
    /// What the entity marks.
    pub kind: EntityKind,
    /// The index of the first character in the range.
    pub offset: usize,
    /// The number of characters in the range.
    pub length: usize,
}

/// A text together with its entities.
#[derive(Debug, Clone, PartialEq, Eq)]
pub struct Text {
    /// The text itself.
    pub value: String,
    /// The entities, in the order the remote side sent them.
    pub entities: Vec<Entity>,
}

/// Whether `c` has Unicode's `White_Space` property.
pub uninterp spec fn white_space(c: char) -> bool;

/// Relies on `char::is_whitespace`: whether `c` has Unicode's `White_Space`
/// property, which depends on `c` alone.
#[verifier::external_body]
fn is_white_space(c: char) -> (r: bool)
    ensures
        r == white_space(c),
{
    c.is_whitespace()
}

/// The first index at or after `i` whose character's whiteness differs from
/// `white`, or the length of `s` if there is none.
pub open spec fn skip_while_white(s: Seq<char>, i: nat, white: bool) -> nat
    decreases s.len() - i,
{
    if i < s.len() && white_space(s[i as int]) == white {
        skip_while_white(s, i + 1, white)
    } else {
        i
    }
}

/// The first index in `[i, end)` that holds `'@'`, or `end` if there is none.
pub open spec fn find_at_sign(s: Seq<char>, i: nat, end: nat) -> nat
    decreases end - i,
{
    if i < end && s[i as int] != '@' {
        find_at_sign(s, i + 1, end)
    } else {
        i
    }
}

/// Where the first whitespace-delimited token of `s` starts.
pub open spec fn token_start(s: Seq<char>) -> nat {
    skip_while_white(s, 0, true)
}

/// Where the first whitespace-delimited token of `s` ends.
pub open spec fn token_end(s: Seq<char>) -> nat {
    skip_while_white(s, token_start(s), false)
}

/// Where the command's name starts: just past the leading `/` of the first
/// token (the token is empty only when `s` is all whitespace).
pub open spec fn name_start(s: Seq<char>) -> nat {
    if token_start(s) < token_end(s) {
        token_start(s) + 1
    } else {
        token_end(s)
    }
}

/// Where the command's name ends: at the first `'@'` of the token, or at its
/// end.
pub open spec fn name_end(s: Seq<char>) -> nat {
    find_at_sign(s, name_start(s), token_end(s))
}

/// The command's name: the first token without its leading `/`, up to the
/// first `'@'`.
pub open spec fn command_name(s: Seq<char>) -> Seq<char> {
    s.subrange(name_start(s) as int, name_end(s) as int)
}

/// The username that the command is addressed to: what follows the first
/// `'@'` in the first token, if the token holds one.
pub open spec fn command_username(s: Seq<char>) -> Option<Seq<char>> {
    if name_end(s) < token_end(s) {
        Some(s.subrange(name_end(s) + 1int, token_end(s) as int))
    } else {
        None
    }
}

/// The view of an optional string.
pub open spec fn option_view(o: Option<String>) -> Option<Seq<char>> {
    match o {
        Some(s) => Some(s@),
        None => None,
    }
}

/// An entity with its offset moved `shift` characters back.
pub open spec fn shifted(e: Entity, shift: nat) -> Entity {
    Entity { offset: (e.offset - shift) as usize, ..e }
}

impl Text {
    /// Whether the text is a command: its first entity is a bot command that
    /// starts at the text's very beginning.
    pub open spec fn denotes_command(&self) -> bool {
        &&& self.entities@.len() > 0
        &&& self.entities@[0].kind is BotCommand
        &&& self.entities@[0].offset == 0
    }

    /// The number of characters that trimming the command removes: those of
    /// the command entity (at most the whole text), then any whitespace that
    /// follows.
    pub open spec fn command_prefix_len(&self) -> nat
        recommends
            self.entities@.len() > 0,
    {
        let s = self.value@;
        let len = self.entities@[0].length as nat;
        let start = if len <= s.len() {
            len
        } else {
            s.len()
        };
        skip_while_white(s, start, true)
    }

    /// Whether every entity after the first starts at or after the part that
    /// trimming the command removes, so that each can be moved back by the
    /// whole of that part.
    pub open spec fn can_trim_command(&self) -> bool {
        &&& self.entities@.len() > 0
        &&& forall|k: int|
            1 <= k < self.entities@.len() ==> self.entities@[k].offset >= self.command_prefix_len()
    }

    /// The text that remains after trimming the command.
    pub open spec fn trimmed_value(&self) -> Seq<char> {
        self.value@.subrange(self.command_prefix_len() as int, self.value@.len() as int)
    }

    /// The entities that remain after trimming the command: all but the
    /// first, moved back by the number of characters removed.
    pub open spec fn trimmed_entities(&self) -> Seq<Entity> {
        self.entities@.drop_first().map_values(|e: Entity| shifted(e, self.command_prefix_len()))
    }
}

/// Whether `text` is a command: its first entity, if any, is a bot command at
/// offset zero.
pub fn is_command(text: &Text) -> (r: bool)
    ensures
        r == text.denotes_command(),
{
    if text.entities.len() == 0 {
        return false;
    }
    let first = &text.entities[0];
    matches!(first.kind, EntityKind::BotCommand) && first.offset == 0
}

/// The first index at or after `i` whose character's whiteness differs from
/// `white`.
fn skip_white(s: &str, len: usize, i: usize, white: bool) -> (r: usize)
    requires
        len == s@.len(),
        i <= len,
    ensures
        r == skip_while_white(s@, i as nat, white),
        i <= r <= len,
{
    let mut j: usize = i;
    while j < len && is_white_space(s.get_char(j)) == white
        invariant
            len == s@.len(),
            i <= j <= len,
            skip_while_white(s@, j as nat, white) == skip_while_white(s@, i as nat, white),
        decreases len - j,
    {
        j = j + 1;
    }
    j
}

/// The first index in `[i, end)` that holds `'@'`, or `end`.
fn find_at(s: &str, i: usize, end: usize) -> (r: usize)
    requires
        i <= end <= s@.len(),
    ensures
        r == find_at_sign(s@, i as nat, end as nat),
        i <= r <= end,
{
    let mut j: usize = i;
    while j < end && s.get_char(j) != '@'
        invariant
            i <= j <= end <= s@.len(),
            find_at_sign(s@, j as nat, end as nat) == find_at_sign(s@, i as nat, end as nat),
        decreases end - j,
    {
        j = j + 1;
    }
    j
}

/// Parses a command out of its text: the first whitespace-delimited token,
/// without its leading `/`, split once on `'@'` into the command's name and
/// the username it is addressed to.
pub fn parse_command(text: &Text) -> (r: (String, Option<String>))
    ensures
        r.0@ == command_name(text.value@),
        option_view(r.1) == command_username(text.value@),
{
    let s = text.value.as_str();
    let len: usize = s.unicode_len();
    let start: usize = skip_white(s, len, 0, true);
    let end: usize = skip_white(s, len, start, false);
    let name_from: usize = if start < end {
        start + 1
    } else {
        end
    };
    let at: usize = find_at(s, name_from, end);
    let command = String::from_str(s.substring_char(name_from, at));
    let username = if at < end {
        Some(String::from_str(s.substring_char(at + 1, end)))
    } else {
        None
    };
    (command, username)
}

/// The number of characters that trimming the command removes from `text`,
/// with the number of characters in its value.
fn command_prefix(text: &Text) -> (r: (usize, usize))
    requires
        text.entities@.len() > 0,
    ensures
        r.0 == text.command_prefix_len(),
        r.1 == text.value@.len(),
        r.0 <= r.1,
{
    let s = text.value.as_str();
    let len: usize = s.unicode_len();
    let command_length: usize = text.entities[0].length;
    let start: usize = if command_length <= len {
        command_length
    } else {
        len
    };
    (skip_white(s, len, start, true), len)
}

/// Whether the command can be trimmed from `text`: it has a first entity, and
/// every other entity starts at or after the characters that trimming
/// removes.
pub fn can_trim_command(text: &Text) -> (r: bool)
    ensures
        r == text.can_trim_command(),
{
    if text.entities.len() == 0 {
        return false;
    }
    let (removed, _) = command_prefix(text);
    let mut k: usize = 1;
    while k < text.entities.len()
        invariant
            1 <= k <= text.entities@.len(),
            removed == text.command_prefix_len(),
            forall|j: int| 1 <= j < k ==> text.entities@[j].offset >= removed,
        decreases text.entities@.len() - k,
    {
        if text.entities[k].offset < removed {
            return false;
        }
        k = k + 1;
    }
    true
}

/// Removes the command from its text: the characters of the command entity
/// and the whitespace after them leave the value, the command entity leaves
/// the entities, and every other entity moves back by the number of
/// characters removed.
pub fn trim_command(text: Text) -> (r: Text)
    requires
        text.can_trim_command(),
    ensures
        r.value@ == text.trimmed_value(),
        r.entities@ == text.trimmed_entities(),
{
    let ghost old_entities = text.entities@;
    let (removed, len) = command_prefix(&text);
    let value = String::from_str(text.value.as_str().substring_char(removed, len));

    let mut rest = text.entities;
    rest.remove(0);
    let ghost tail = rest@;
    let mut entities: Vec<Entity> = Vec::new();
    while rest.len() > 0
        invariant
            tail == old_entities.drop_first(),
            forall|k: int| 0 <= k < tail.len() ==> tail[k].offset >= removed,
            removed == text.command_prefix_len(),
            entities@.len() + rest@.len() == tail.len(),
            rest@ == tail.subrange(entities@.len() as int, tail.len() as int),
            forall|k: int| 0 <= k < entities@.len() ==> entities@[k] == shifted(tail[k], removed as nat),
        decreases rest@.len(),
    {
        let ghost done = entities@.len() as int;
        assert(rest@[0] == tail[done]);
        let entity = rest.remove(0);
        entities.push(Entity { kind: entity.kind, offset: entity.offset - removed, length: entity.length });
        assert(rest@ =~= tail.subrange(entities@.len() as int, tail.len() as int));
    }
    assert(entities@ =~= text.trimmed_entities());
    Text { value, entities }
}

/// A text without entities is never a command.
pub proof fn lemma_no_entities_no_command(text: Text)
    requires
        text.entities@.len() == 0,
    ensures
        !text.denotes_command(),
{
}

/// Skipping characters from `i` stops between `i` and the end of `s`.
pub proof fn lemma_skip_bounds(s: Seq<char>, i: nat, white: bool)
    requires
        i <= s.len(),
    ensures
        i <= skip_while_white(s, i, white) <= s.len(),
    decreases s.len() - i,
{
    if i < s.len() && white_space(s[i as int]) == white {
        lemma_skip_bounds(s, i + 1, white);
    }
}

/// Trimming a command removes exactly as many characters from the value as
/// it moves every other entity back, so that each of those entities marks,
/// in the trimmed text, the very characters it marked in the untrimmed text.
pub proof fn lemma_trim_keeps_spans(text: Text, k: int)
    requires
        text.can_trim_command(),
        1 <= k < text.entities@.len(),
        text.entities@[k].offset + text.entities@[k].length <= text.value@.len(),
    ensures
        text.value@.len() - text.trimmed_value().len() == text.command_prefix_len(),
        text.trimmed_entities().len() == text.entities@.len() - 1,
        text.trimmed_entities()[k - 1].kind == text.entities@[k].kind,
        text.trimmed_entities()[k - 1].length == text.entities@[k].length,
        text.trimmed_entities()[k - 1].offset == text.entities@[k].offset - text.command_prefix_len(),
        ({
            let e = text.entities@[k];
            let t = text.trimmed_entities()[k - 1];
            text.trimmed_value().subrange(t.offset as int, t.offset + t.length)
                == text.value@.subrange(e.offset as int, e.offset + e.length)
        }),
{
    let s = text.value@;
    let len = text.entities@[0].length as nat;
    let start = if len <= s.len() {
        len
    } else {
        s.len()
    };
    lemma_skip_bounds(s, start, true);
    let removed = text.command_prefix_len();
    let e = text.entities@[k];
    let t = text.trimmed_entities()[k - 1];
    assert(t == shifted(e, removed));
    assert(text.trimmed_value().subrange(t.offset as int, t.offset + t.length) =~= s.subrange(
        e.offset as int,
        e.offset + e.length,
    ));
}

} // verus!
