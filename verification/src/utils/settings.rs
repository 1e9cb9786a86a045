//! The trusted boundary to the `config` crate: its parser and its lookups.

use vstd::prelude::*;

verus! {

/// A parsed settings tree of the `config` crate (`config::types::Config`),
/// held opaquely: what it holds is seen only through the lookups below.
#[verifier::external_body]
pub struct SettingsTree {
    tree: ::config::types::Config,
}

/// Whether `config::reader::from_str` accepts the text. Acceptance is a
/// matter of the text's syntax alone; the values of `$"NAME"::type` settings
/// are read from the environment, so the tree built is not named here.
pub uninterp spec fn settings_text_parses(text: Seq<char>) -> bool;

/// Where a scan of settings text stands, following the lexical structure
/// of the `config` crate's grammar.
#[derive(Debug, Clone, Copy, PartialEq, Eq, Structural)]
pub enum LexState {
    /// Outside comments and quoted strings.
    Plain,
    /// In a `#` or `//` comment, which runs to the next carriage return or
    /// line feed.
    LineComment,
    /// On the `*` that opens a `/*` comment.
    BlockOpen,
    /// In a `/* */` comment.
    Block,
    /// On the `/` that closes a `/* */` comment.
    BlockClose,
    /// In a quoted string.
    Quoted,
    /// On the character after a `\` in a quoted string.
    Escaped,
}

/// Whether, scanning `text` from position `i` in state `st`, a quoted string
/// holds a carriage return that no line feed follows.
pub open spec fn lone_cr_from(text: Seq<char>, i: int, st: LexState) -> bool
    decreases text.len() - i,
{
    if i < 0 || i >= text.len() {
        false
    } else {
        let c = text[i];
        let next_is = |d: char| i + 1 < text.len() && text[i + 1] == d;
        match st {
            LexState::Plain => if c == '"' {
                lone_cr_from(text, i + 1, LexState::Quoted)
            } else if c == '#' || (c == '/' && next_is('/')) {
                lone_cr_from(text, i + 1, LexState::LineComment)
            } else if c == '/' && next_is('*') {
                lone_cr_from(text, i + 1, LexState::BlockOpen)
            } else {
                lone_cr_from(text, i + 1, LexState::Plain)
            },
            LexState::LineComment => if c == '\r' || c == '\n' {
                lone_cr_from(text, i + 1, LexState::Plain)
            } else {
                lone_cr_from(text, i + 1, LexState::LineComment)
            },
            LexState::BlockOpen => lone_cr_from(text, i + 1, LexState::Block),
            LexState::Block => if c == '*' && next_is('/') {
                lone_cr_from(text, i + 1, LexState::BlockClose)
            } else {
                lone_cr_from(text, i + 1, LexState::Block)
            },
            LexState::BlockClose => lone_cr_from(text, i + 1, LexState::Plain),
            LexState::Quoted => if c == '\\' {
                lone_cr_from(text, i + 1, LexState::Escaped)
            } else if c == '"' {
                lone_cr_from(text, i + 1, LexState::Plain)
            } else if c == '\r' && !next_is('\n') {
                true
            } else {
                lone_cr_from(text, i + 1, LexState::Quoted)
            },
            LexState::Escaped => lone_cr_from(text, i + 1, LexState::Quoted),
        }
    }
}

/// Whether a quoted string of `text` holds a carriage return that no line
/// feed follows. The `config` crate's string unescaper panics on such a
/// string literal; carriage returns elsewhere are whitespace to it.
pub open spec fn quoted_lone_carriage_return(text: Seq<char>) -> bool {
    lone_cr_from(text, 0, LexState::Plain)
}

/// The dotted paths (in the syntax of `lookup`) that lead to a value in the
/// tree `config::reader::from_str` builds from `text`. The tree's shape of
/// groups, arrays and lists comes from the text alone, so this set does not
/// depend on the environment.
pub uninterp spec fn written_paths(text: Seq<char>) -> Set<Seq<char>>;

/// The string settings that `config::reader::from_str` yields for `text` at
/// paths whose value the text writes as a literal (not as a `$"NAME"`
/// environment reference): dotted path to string, as `lookup_str` finds
/// them in the tree the crate builds. These do not depend on the
/// environment.
pub uninterp spec fn literal_strings(text: Seq<char>) -> Map<Seq<char>, Seq<char>>;

/// The 32-bit integer settings that `config::reader::from_str` yields for
/// `text` at paths whose value the text writes as a literal: dotted path to
/// value, as `lookup_integer32` finds them in the tree the crate builds.
pub uninterp spec fn literal_integers(text: Seq<char>) -> Map<Seq<char>, i32>;

/// The string settings of a tree as `lookup_str` finds them: dotted path to
/// string value.
pub uninterp spec fn settings_strings(tree: SettingsTree) -> Map<Seq<char>, Seq<char>>;

/// The 32-bit integer settings of a tree as `lookup_integer32` finds them:
/// dotted path to value.
pub uninterp spec fn settings_integers(tree: SettingsTree) -> Map<Seq<char>, i32>;

/// Calls `config::reader::from_str`, on texts whose quoted strings hold no
/// carriage return without a following line feed (on such a string literal
/// the crate panics). The contract claims that the result is present
/// exactly when the crate accepts the text, and that the tree then holds the
/// settings the text writes as literals (`literal_strings`,
/// `literal_integers`), and that every setting it yields stands at a path
/// the text writes (`written_paths`). What it holds at paths written as
/// `$"NAME"` references is left unsaid: it comes from the environment.
#[verifier::external_body]
pub(crate) fn parse_settings(text: &str) -> (r: Option<SettingsTree>)
    requires
        !quoted_lone_carriage_return(text@),
    ensures
        r is Some <==> settings_text_parses(text@),
        r matches Some(tree) ==> literal_strings(text@).submap_of(settings_strings(tree))
            && literal_integers(text@).submap_of(settings_integers(tree))
            && settings_strings(tree).dom().subset_of(written_paths(text@))
            && settings_integers(tree).dom().subset_of(written_paths(text@)),
{
    match ::config::reader::from_str(text) {
        Ok(tree) => Some(SettingsTree { tree }),
        Err(_) => None,
    }
}

/// Calls `Config::lookup_str` of the `config` crate: the string stored at the
/// dotted `path`, if the path leads to a string setting.
#[verifier::external_body]
pub(crate) fn lookup_str<'a>(tree: &'a SettingsTree, path: &str) -> (r: Option<&'a str>)
    ensures
        r is Some <==> settings_strings(*tree).contains_key(path@),
        r matches Some(v) ==> v@ == settings_strings(*tree)[path@],
{
    tree.tree.lookup_str(path)
}

/// Calls `Config::lookup_integer32` of the `config` crate: the 32-bit integer
/// stored at the dotted `path`, if the path leads to one.
#[verifier::external_body]
pub(crate) fn lookup_integer32(tree: &SettingsTree, path: &str) -> (r: Option<i32>)
    ensures
        r is Some <==> settings_integers(*tree).contains_key(path@),
        r matches Some(v) ==> v == settings_integers(*tree)[path@],
{
    tree.tree.lookup_integer32(path)
}

} // verus!
