//! Browser page metadata derived from the selected mode and the local team.

use crate::color::NPC_PIECE_COLOR;
use crate::text::{contains_text, lowercase_text, occurs_at, to_lowercase, trim, trimmed};
use vstd::prelude::*;
use vstd::std_specs::cmp::PartialEqSpecImpl;
use vstd::string::StringExecFns;

verus! {

/// Name of the application, shown in the browser tab.
pub const APP_TITLE: &'static str = "FFChess";

/// Separator between the mode name and the application name in the title.
pub const TITLE_SEPARATOR: &'static str = " - ";

/// Browser metadata derived from the selected mode and the local player's team.
#[derive(Clone, Debug, Eq)]
pub struct PageMetadata {
    mode_name: Option<String>,
    team_color: Option<String>,
}

/// The text trimmed, or nothing when only whitespace remains.
pub open spec fn normalized(value: Option<String>) -> Option<Seq<char>> {
    match value {
        Some(v) => if trimmed(v@).len() == 0 { None } else { Some(trimmed(v@)) },
        None => None,
    }
}

/// The view of an optional string.
pub open spec fn opt_view(value: Option<String>) -> Option<Seq<char>> {
    match value {
        Some(v) => Some(v@),
        None => None,
    }
}

/// Trims a text and drops it when nothing but whitespace was there.
pub fn normalize_text(value: Option<String>) -> (r: Option<String>)
    ensures
        opt_view(r) == normalized(value),
{
    match value {
        Some(v) => {
            let t = trim(v.as_str());
            if t.as_str().unicode_len() == 0 {
                None
            } else {
                Some(t)
            }
        },
        None => None,
    }
}

impl PageMetadata {
    /// Builds page metadata from the currently selected mode and local team color.
    pub fn new(mode_name: Option<String>, team_color: Option<String>) -> (r: Self)
        ensures
            r.mode_name_view() == normalized(mode_name),
            r.team_color_view() == normalized(team_color),
    {
        PageMetadata { mode_name: normalize_text(mode_name), team_color: normalize_text(team_color) }
    }

    /// The mode name, when one is set.
    pub closed spec fn mode_name_view(&self) -> Option<Seq<char>> {
        opt_view(self.mode_name)
    }

    /// The team color, when one is set.
    pub closed spec fn team_color_view(&self) -> Option<Seq<char>> {
        opt_view(self.team_color)
    }

    /// The document title: `<mode> - FFChess`, or `FFChess` without a mode.
    pub fn title(&self) -> (t: String)
        ensures
            t@ == match self.mode_name_view() {
                Some(m) => m + TITLE_SEPARATOR@ + APP_TITLE@,
                None => APP_TITLE@,
            },
    {
        match &self.mode_name {
            Some(m) => m.clone().concat(TITLE_SEPARATOR).concat(APP_TITLE),
            None => String::from_str(APP_TITLE),
        }
    }

    /// The color that tints the favicon: the team color, or the neutral NPC gray.
    pub fn favicon_color(&self) -> (c: &str)
        ensures
            c@ == match self.team_color_view() {
                Some(t) => t,
                None => NPC_PIECE_COLOR@,
            },
    {
        match &self.team_color {
            Some(c) => c.as_str(),
            None => NPC_PIECE_COLOR,
        }
    }
}

/// Words of a browser's user agent (in lower case) that mark a phone or tablet.
pub open spec fn mobile_marker(agent: Seq<char>) -> bool {
    let l = lowercase_text(agent);
    ||| exists|i: int| occurs_at(l, "mobi"@, i)
    ||| exists|i: int| occurs_at(l, "android"@, i)
    ||| exists|i: int| occurs_at(l, "iphone"@, i)
    ||| exists|i: int| occurs_at(l, "ipad"@, i)
}

/// Whether a user agent names a phone or tablet: its lower-case form
/// contains `mobi`, `android`, `iphone` or `ipad`.
pub fn is_mobile_agent(user_agent: &str) -> (b: bool)
    ensures
        b == mobile_marker(user_agent@),
{
    let l = to_lowercase(user_agent);
    contains_text(l.as_str(), "mobi") || contains_text(l.as_str(), "android")
        || contains_text(l.as_str(), "iphone") || contains_text(l.as_str(), "ipad")
}

impl Default for PageMetadata {
    /// No mode name and no team color.
    fn default() -> (r: Self)
        ensures
            r.mode_name_view() is None,
            r.team_color_view() is None,
    {
        PageMetadata { mode_name: None, team_color: None }
    }
}

/// Whether two optional texts are both absent or both present with the same characters.
fn same_text(a: &Option<String>, b: &Option<String>) -> (r: bool)
    ensures
        r == (opt_view(*a) == opt_view(*b)),
{
    match (a, b) {
        (Some(x), Some(y)) => crate::text::str_equal(x.as_str(), y.as_str()),
        (None, None) => true,
        _ => false,
    }
}

impl PartialEq for PageMetadata {
    fn eq(&self, other: &Self) -> (r: bool) {
        same_text(&self.mode_name, &other.mode_name) && same_text(&self.team_color, &other.team_color)
    }
}

impl PartialEqSpecImpl for PageMetadata {
    open spec fn obeys_eq_spec() -> bool {
        true
    }

    /// Two metadata values are equal when they name the same mode and team color.
    open spec fn eq_spec(&self, other: &Self) -> bool {
        self.mode_name_view() == other.mode_name_view() && self.team_color_view() == other.team_color_view()
    }
}

} // verus!
