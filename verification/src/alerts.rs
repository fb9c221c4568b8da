//! Alerts and the list that shows them.
use vstd::prelude::*;
use crate::color::Color;
use crate::htmx::Dynamic;
use crate::icons::fa::EXCLAMATION_CIRCLE;
use crate::icons::Icon;

verus! {

/// One alert.
#[derive(Debug, Clone)]
pub struct Alert {
    /// The colour behind the alert's icon.
    pub color: Color,
    /// The alert's icon.
    pub icon: Icon,
    /// The headline, mostly the date and time of the alert.
    pub headline: String,
    /// What the alert says.
    pub message: String,
    /// Whether the alert is new; the message of a new alert is set in bold.
    pub unread: bool,
}

impl Alert {
    /// A read alert in the warning colour, with the exclamation icon.
    pub fn new(headline: &str, message: &str) -> (r: Self)
        ensures
            r.headline@ == headline@,
            r.message@ == message@,
            r.color == Color::Warning,
            r.icon == EXCLAMATION_CIRCLE,
            !r.unread,
    {
        Alert {
            headline: headline.to_owned(),
            message: message.to_owned(),
            color: Color::Warning,
            icon: EXCLAMATION_CIRCLE,
            unread: false,
        }
    }

    /// Sets the icon.
    pub fn with_icon(self, icon: Icon) -> (r: Self)
        ensures
            r == (Alert { icon, ..self }),
    {
        let mut r = self;
        r.icon = icon;
        r
    }

    /// Sets the colour.
    pub fn with_color(self, color: Color) -> (r: Self)
        ensures
            r == (Alert { color, ..self }),
    {
        let mut r = self;
        r.color = color;
        r
    }

    /// Marks the alert as new.
    pub fn unread(self) -> (r: Self)
        ensures
            r == (Alert { unread: true, ..self }),
    {
        let mut r = self;
        r.unread = true;
        r
    }
}

/// The alerts in the order in which they are shown.
pub struct AlertList(pub Vec<Alert>);

impl AlertList {
    /// Whether there is no alert.
    pub fn is_empty(&self) -> (r: bool)
        ensures
            r == (self.0@.len() == 0),
    {
        self.0.len() == 0
    }
}

/// The alerts of a dashboard.
pub struct Alerts {
    /// The list of alerts, which may refresh by itself.
    pub alerts: Dynamic<AlertList>,
    /// The page that shows all alerts, if there is one.
    pub show_all_url: Option<String>,
}

} // verus!
