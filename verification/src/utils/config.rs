//! Access to the application's settings file (libconfig syntax), read with
//! the `config` crate.

use vstd::prelude::*;
use super::settings::{SettingsTree, parse_settings, lookup_str, lookup_integer32, settings_strings, settings_integers, settings_text_parses, quoted_lone_carriage_return, lone_cr_from, LexState, literal_strings, literal_integers, written_paths};
use super::text::chars_of;

verus! {

/// Whether a quoted string of `text` holds a carriage return that no line
/// feed follows (comments are skipped as the settings grammar skips them).
pub fn has_quoted_lone_carriage_return(text: &str) -> (r: bool)
    ensures
        r == quoted_lone_carriage_return(text@),
{
    let v = chars_of(text);
    let n = v.len();
    let mut st = LexState::Plain;
    let mut i: usize = 0;
    while i < n
        invariant
            v@ == text@,
            n == text@.len(),
            i <= n,
            lone_cr_from(text@, i as int, st) == quoted_lone_carriage_return(text@),
        decreases n - i,
    {
        let c = v[i];
        let next: Option<char> = if i + 1 < n { Some(v[i + 1]) } else { None };
        st = match st {
            LexState::Plain => if c == '"' {
                LexState::Quoted
            } else if c == '#' || (c == '/' && next == Some('/')) {
                LexState::LineComment
            } else if c == '/' && next == Some('*') {
                LexState::BlockOpen
            } else {
                LexState::Plain
            },
            LexState::LineComment => if c == '\r' || c == '\n' {
                LexState::Plain
            } else {
                LexState::LineComment
            },
            LexState::BlockOpen => LexState::Block,
            LexState::Block => if c == '*' && next == Some('/') {
                LexState::BlockClose
            } else {
                LexState::Block
            },
            LexState::BlockClose => LexState::Plain,
            LexState::Quoted => if c == '\\' {
                LexState::Escaped
            } else if c == '"' {
                LexState::Plain
            } else if c == '\r' && next != Some('\n') {
                return true;
            } else {
                LexState::Quoted
            },
            LexState::Escaped => LexState::Quoted,
        };
        i = i + 1;
    }
    false
}

/// The application's settings.
pub struct Config {
    config: SettingsTree,
}

impl Config {
    /// The parsed settings tree.
    pub closed spec fn tree(&self) -> SettingsTree {
        self.config
    }

    /// String settings by dotted path.
    pub open spec fn strings(&self) -> Map<Seq<char>, Seq<char>> {
        settings_strings(self.tree())
    }

    /// 32-bit integer settings by dotted path.
    pub open spec fn integers(&self) -> Map<Seq<char>, i32> {
        settings_integers(self.tree())
    }

    /// Where the application's settings file lies.
    pub fn default_path() -> (p: &'static str)
        ensures
            p@ == "./web-root/config/web.conf"@,
    {
        "./web-root/config/web.conf"
    }

    /// The settings held in `text`, which must be well-formed and hold no
    /// quoted string with a carriage return that no line feed follows. Every
    /// setting written as a literal is there with its value, and every
    /// setting there stands at a path the text writes.
    pub fn new(text: &str) -> (c: Config)
        requires
            !quoted_lone_carriage_return(text@),
            settings_text_parses(text@),
        ensures
            literal_strings(text@).submap_of(c.strings()),
            literal_integers(text@).submap_of(c.integers()),
            c.strings().dom().subset_of(written_paths(text@)),
            c.integers().dom().subset_of(written_paths(text@)),
    {
        let tree = parse_settings(text).unwrap();
        Config { config: tree }
    }

    /// The settings held in `text`, or `None` when the text is not
    /// well-formed or a quoted string in it holds a carriage return that no
    /// line feed follows (which the settings parser cannot take).
    pub fn parse(text: &str) -> (r: Option<Config>)
        ensures
            r is Some <==> !quoted_lone_carriage_return(text@) && settings_text_parses(text@),
            r matches Some(c) ==> literal_strings(text@).submap_of(c.strings())
                && literal_integers(text@).submap_of(c.integers())
                && c.strings().dom().subset_of(written_paths(text@))
                && c.integers().dom().subset_of(written_paths(text@)),
    {
        if has_quoted_lone_carriage_return(text) {
            return None;
        }
        if parse_settings(text).is_some() {
            Some(Config::new(text))
        } else {
            None
        }
    }

    /// The string at `key`, which must name a string setting.
    pub fn get_str(&self, key: &str) -> (v: &str)
        requires
            self.strings().contains_key(key@),
        ensures
            v@ == self.strings()[key@],
    {
        lookup_str(&self.config, key).unwrap()
    }

    /// The string at `key`, or `None` when `key` names no string setting.
    pub fn try_get_str(&self, key: &str) -> (r: Option<&str>)
        ensures
            r is Some <==> self.strings().contains_key(key@),
            r matches Some(v) ==> v@ == self.strings()[key@],
    {
        if lookup_str(&self.config, key).is_some() {
            Some(self.get_str(key))
        } else {
            None
        }
    }

    /// The 32-bit integer at `key`, which must name such a setting.
    pub fn get_i32(&self, key: &str) -> (v: i32)
        requires
            self.integers().contains_key(key@),
        ensures
            v == self.integers()[key@],
    {
        lookup_integer32(&self.config, key).unwrap()
    }

    /// The 32-bit integer at `key`, or `None` when `key` names no such
    /// setting.
    pub fn try_get_i32(&self, key: &str) -> (r: Option<i32>)
        ensures
            r is Some <==> self.integers().contains_key(key@),
            r matches Some(v) ==> v == self.integers()[key@],
    {
        if lookup_integer32(&self.config, key).is_some() {
            Some(self.get_i32(key))
        } else {
            None
        }
    }
}

} // verus!
