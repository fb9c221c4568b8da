//! The contextual colours of the Bootstrap theme.
use vstd::prelude::*;

verus! {

/// One of the contextual colours that Bootstrap defines.
#[derive(Debug, Clone, Copy, PartialEq, Eq, Structural)]
pub enum Color {
    Primary,
    Secondary,
    Success,
    Danger,
    Warning,
    Info,
    Light,
    Dark,
}

impl Color {
    /// The colour's name as Bootstrap class names spell it.
    pub open spec fn name(self) -> Seq<char> {
        match self {
            Color::Primary => "primary"@,
            Color::Secondary => "secondary"@,
            Color::Success => "success"@,
            Color::Danger => "danger"@,
            Color::Warning => "warning"@,
            Color::Info => "info"@,
            Color::Light => "light"@,
            Color::Dark => "dark"@,
        }
    }

    /// The background utility class of the colour: `bg-` and its name.
    pub open spec fn background(self) -> Seq<char> {
        "bg-"@ + self.name()
    }

    /// The colour's name, as it is written into class attributes.
    pub fn as_ref(&self) -> (r: &'static str)
        ensures
            r@ == self.name(),
    {
        match self {
            Color::Primary => "primary",
            Color::Secondary => "secondary",
            Color::Success => "success",
            Color::Danger => "danger",
            Color::Warning => "warning",
            Color::Info => "info",
            Color::Light => "light",
            Color::Dark => "dark",
        }
    }

    /// The background utility class of the colour.
    pub fn as_background(&self) -> (r: &'static str)
        ensures
            r@ == self.background(),
    {
        proof {
            reveal_strlit("bg-");
            reveal_strlit("primary");
            reveal_strlit("secondary");
            reveal_strlit("success");
            reveal_strlit("danger");
            reveal_strlit("warning");
            reveal_strlit("info");
            reveal_strlit("light");
            reveal_strlit("dark");
            reveal_strlit("bg-primary");
            reveal_strlit("bg-secondary");
            reveal_strlit("bg-success");
            reveal_strlit("bg-danger");
            reveal_strlit("bg-warning");
            reveal_strlit("bg-info");
            reveal_strlit("bg-light");
            reveal_strlit("bg-dark");
        }
        let r = match self {
            Color::Primary => "bg-primary",
            Color::Secondary => "bg-secondary",
            Color::Success => "bg-success",
            Color::Danger => "bg-danger",
            Color::Warning => "bg-warning",
            Color::Info => "bg-info",
            Color::Light => "bg-light",
            Color::Dark => "bg-dark",
        };
        assert(r@ =~= self.background());
        r
    }

    /// The colour's name as an owned string.
    pub fn to_string(&self) -> (r: String)
        ensures
            r@ == self.name(),
    {
        self.as_ref().to_owned()
    }
}

} // verus!
