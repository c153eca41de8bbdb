//! The orientation of the tab bar, and its persisted configuration form.

use vstd::prelude::*;

verus! {

/// Where the tab bar sits: `Top` lays the bar out as a horizontal row,
/// `Right` as a vertical column. `Top` is the default.
#[derive(Clone, Copy, Debug, PartialEq, Eq, Structural)]
pub enum TabBarPosition {
    Top,
    Right,
}

impl Default for TabBarPosition {
    fn default() -> (r: Self)
        ensures
            r == TabBarPosition::Top,
    {
        TabBarPosition::Top
    }
}

/// The lowercase name under which a position is persisted in configuration.
pub open spec fn position_config_name(p: TabBarPosition) -> Seq<char> {
    match p {
        TabBarPosition::Top => "top"@,
        TabBarPosition::Right => "right"@,
    }
}

/// The position a persisted name stands for: unrecognized names fall back to
/// the default, `Top`.
pub open spec fn position_of_config_name(s: Seq<char>) -> TabBarPosition {
    if s == "right"@ {
        TabBarPosition::Right
    } else {
        TabBarPosition::Top
    }
}

impl TabBarPosition {
    /// Serializes the position as its lowercase configuration name.
    pub fn config_name(self) -> (r: &'static str)
        ensures
            r@ == position_config_name(self),
    {
        match self {
            TabBarPosition::Top => "top",
            TabBarPosition::Right => "right",
        }
    }

    /// Parses a persisted configuration name; anything but the two known
    /// names yields the default position.
    pub fn from_config_name(s: &str) -> (r: Self)
        ensures
            r == position_of_config_name(s@),
    {
        let owned: String = s.to_owned();
        if owned == "right".to_owned() {
            TabBarPosition::Right
        } else {
            TabBarPosition::Top
        }
    }

    /// Reads a position from an optional persisted value: an absent value
    /// yields the default position, `Top`.
    pub fn from_config(s: Option<&str>) -> (r: Self)
        ensures
            match s {
                Some(name) => r == position_of_config_name(name@),
                None => r == TabBarPosition::Top,
            },
    {
        match s {
            Some(name) => Self::from_config_name(name),
            None => TabBarPosition::Top,
        }
    }
}

/// Serializing a position and parsing the result yields the position back,
/// and the two configuration names are distinct.
pub proof fn lemma_config_name_round_trip(p: TabBarPosition)
    ensures
        position_of_config_name(position_config_name(p)) == p,
        position_config_name(TabBarPosition::Top) != position_config_name(TabBarPosition::Right),
{
    reveal_strlit("top");
    reveal_strlit("right");
    assert("top"@.len() == 3);
    assert("right"@.len() == 5);
}

} // verus!
