//! The color theme of a user interface, and the name under which it is stored.
use vstd::prelude::*;

verus! {

/// A light or dark theme
#[derive(Debug, PartialEq, Eq, Clone, Copy, Structural)]
pub enum Theme {
    /// The light theme
    Light,
    /// The dark theme
    Dark,
}

/// The other theme.
pub open spec fn spec_opposite(theme: Theme) -> Theme {
    match theme {
        Theme::Light => Theme::Dark,
        Theme::Dark => Theme::Light,
    }
}

/// The name under which a theme is stored.
pub open spec fn theme_name(theme: Theme) -> Seq<char> {
    match theme {
        Theme::Light => "light"@,
        Theme::Dark => "dark"@,
    }
}

/// The theme stored under `name`, if `name` is the name of one.
pub open spec fn theme_named(name: Seq<char>) -> Option<Theme> {
    if name == "light"@ {
        Some(Theme::Light)
    } else if name == "dark"@ {
        Some(Theme::Dark)
    } else {
        None
    }
}

/// The opposite of the opposite of a theme is the theme itself.
pub proof fn lemma_opposite_twice(theme: Theme)
    ensures
        spec_opposite(spec_opposite(theme)) == theme,
        spec_opposite(theme) != theme,
{
}

/// A theme is read back from the name it is stored under.
pub proof fn lemma_name_round_trip(theme: Theme)
    ensures
        theme_named(theme_name(theme)) == Some(theme),
{
    reveal_strlit("light");
    reveal_strlit("dark");
    assert("light"@ != "dark"@) by {
        assert("light"@.len() != "dark"@.len());
    }
}

impl Theme {
    /// The other theme
    pub fn opposite(&self) -> (r: Self)
        ensures
            r == spec_opposite(*self),
    {
        match self {
            Theme::Light => Theme::Dark,
            Theme::Dark => Theme::Light,
        }
    }

    /// The name under which the theme is stored: `light` or `dark`
    pub fn name(self) -> (r: &'static str)
        ensures
            r@ == theme_name(self),
    {
        match self {
            Theme::Light => "light",
            Theme::Dark => "dark",
        }
    }

    /// The theme stored under `name`, or `None` for a name that is not a theme's
    pub fn from_name(name: &String) -> (r: Option<Self>)
        ensures
            r == theme_named(name@),
    {
        let light = "light".to_owned();
        let dark = "dark".to_owned();
        if *name == light {
            Some(Theme::Light)
        } else if *name == dark {
            Some(Theme::Dark)
        } else {
            None
        }
    }
}

} // verus!
