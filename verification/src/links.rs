//! Links: what a press does, and the plain and the icon form of a link.
use vstd::prelude::*;
use vstd::string::StringExecFns;
use crate::icons::Icon;
use crate::modal::Modal;
use crate::markup::{escape_html, escaped, joined_escaped};
use crate::text::joined;

verus! {

/// What a press on a link does: go to a path, or toggle a dialog.
pub enum LinkAction {
    Href(String),
    ToggleModal(String),
}

impl LinkAction {
    /// The value of the link's `href` attribute: the path, or `#` for a link
    /// that toggles a dialog.
    pub open spec fn href_text(self) -> Seq<char> {
        match self {
            LinkAction::Href(url) => url@,
            LinkAction::ToggleModal(_) => "#"@,
        }
    }

    /// The attributes that the link carries besides `href`: none for a path,
    /// and for a dialog those that tell Bootstrap which dialog to toggle.
    pub open spec fn props_text(self) -> Seq<char> {
        match self {
            LinkAction::Href(_) => Seq::empty(),
            LinkAction::ToggleModal(modal) => " data-toggle=\"modal\" data-target=\"#"@ + modal@
                + "\""@,
        }
    }

    /// A link to `url`.
    pub fn to(url: &str) -> (r: Self)
        ensures
            r is Href,
            r->Href_0@ == url@,
    {
        LinkAction::Href(url.to_owned())
    }

    /// A link that toggles the dialog whose id is `name`.
    pub fn modal_name(name: &str) -> (r: Self)
        ensures
            r is ToggleModal,
            r->ToggleModal_0@ == name@,
    {
        LinkAction::ToggleModal(name.to_owned())
    }

    /// A link that toggles `modal`.
    pub fn modal(modal: &Modal) -> (r: Self)
        ensures
            r == LinkAction::ToggleModal(modal.id),
    {
        LinkAction::ToggleModal(modal.id.clone())
    }

    /// The value of the link's `href` attribute.
    pub fn href(&self) -> (r: String)
        ensures
            r@ == self.href_text(),
    {
        match self {
            LinkAction::Href(url) => url.clone(),
            LinkAction::ToggleModal(_) => "#".to_owned(),
        }
    }

    /// The attributes that the link carries besides `href`.
    pub fn props(&self) -> (r: String)
        ensures
            r@ == self.props_text(),
    {
        match self {
            LinkAction::Href(_) => String::new(),
            LinkAction::ToggleModal(modal) => {
                let mut out = joined(" data-toggle=\"modal\" data-target=\"#", modal.as_str());
                out.append("\"");
                out
            },
        }
    }
}

/// A link without an icon.
pub struct PlainLink {
    pub label: String,
    pub active: bool,
    pub action: LinkAction,
}

impl PlainLink {
    /// Whether `after` is this link made active: the same label and action,
    /// and the active flag set.
    pub open spec fn marked(self, after: Self) -> bool {
        after.label == self.label && after.action == self.action && after.active
    }

    /// Making a link active leaves one result: two links that are this link
    /// made active are the same link.
    pub proof fn marked_is_one(self, first: Self, second: Self)
        requires
            self.marked(first),
            self.marked(second),
        ensures
            first == second,
    {
    }

    /// The link as markup: an anchor of class `nav-link` around the label.
    /// The address and the label are escaped; the further attributes are
    /// written as they are.
    pub open spec fn markup(self) -> Seq<char> {
        "\n<a class=\"nav-link\" href=\""@ + escaped(self.action.href_text()) + "\" "@
            + self.action.props_text() + ">\n<span>"@ + escaped(self.label@) + "</span></a>\n"@
    }

    /// The link as markup.
    pub fn to_string(&self) -> (r: String)
        ensures
            r@ == self.markup(),
    {
        let href = self.action.href();
        let props = self.action.props();
        let label = escape_html(self.label.as_str());
        let mut out = joined_escaped("\n<a class=\"nav-link\" href=\"", href.as_str());
        out.append("\" ");
        out.append(props.as_str());
        out.append(">\n<span>");
        out.append(label.as_str());
        out.append("</span></a>\n");
        out
    }

    /// An inactive link.
    pub fn new(label: &str, action: LinkAction) -> (r: Self)
        ensures
            r.label@ == label@,
            !r.active,
            r.action == action,
    {
        PlainLink { label: label.to_owned(), active: false, action }
    }

    /// The same link with an icon.
    pub fn with_icon(self, icon: Icon) -> (r: IconLink)
        ensures
            r == (IconLink { label: self.label, icon, active: self.active, action: self.action }),
    {
        IconLink { label: self.label, icon, active: self.active, action: self.action }
    }
}

/// A link with a Font Awesome icon.
pub struct IconLink {
    pub label: String,
    pub icon: Icon,
    pub active: bool,
    pub action: LinkAction,
}

impl IconLink {
    /// Whether `after` is this link made active: the same label, icon and
    /// action, and the active flag set.
    pub open spec fn marked(self, after: Self) -> bool {
        after.label == self.label && after.icon == self.icon && after.action == self.action
            && after.active
    }

    /// Making a link active leaves one result: two links that are this link
    /// made active are the same link.
    pub proof fn marked_is_one(self, first: Self, second: Self)
        requires
            self.marked(first),
            self.marked(second),
        ensures
            first == second,
    {
    }

    /// The link as markup: an anchor of class `nav-link` around the icon and
    /// the label. The address, the icon's class and the label are escaped;
    /// the further attributes are written as they are.
    pub open spec fn markup(self) -> Seq<char> {
        "\n<a class=\"nav-link\" href=\""@ + escaped(self.action.href_text()) + "\" "@
            + self.action.props_text() + ">\n<i class=\"fas fa-fw "@ + escaped(self.icon@)
            + "\"></i>\n<span>"@ + escaped(self.label@) + "</span></a>\n"@
    }

    /// The link as markup.
    pub fn to_string(&self) -> (r: String)
        ensures
            r@ == self.markup(),
    {
        let href = self.action.href();
        let props = self.action.props();
        let icon = escape_html(self.icon);
        let label = escape_html(self.label.as_str());
        let mut out = joined_escaped("\n<a class=\"nav-link\" href=\"", href.as_str());
        out.append("\" ");
        out.append(props.as_str());
        out.append(">\n<i class=\"fas fa-fw ");
        out.append(icon.as_str());
        out.append("\"></i>\n<span>");
        out.append(label.as_str());
        out.append("</span></a>\n");
        out
    }

    /// An inactive link.
    pub fn new(label: &str, icon: Icon, action: LinkAction) -> (r: Self)
        ensures
            r.label@ == label@,
            r.icon == icon,
            !r.active,
            r.action == action,
    {
        IconLink { label: label.to_owned(), active: false, icon, action }
    }
}

/// Either a plain or an icon link.
pub enum NavLink {
    Plain(PlainLink),
    Icon(IconLink),
}

impl NavLink {
    /// The label of the link.
    pub open spec fn label_of(self) -> String {
        match self {
            NavLink::Plain(plain) => plain.label,
            NavLink::Icon(icon) => icon.label,
        }
    }

    /// The icon of the link, if it has one.
    pub open spec fn icon_of(self) -> Option<Icon> {
        match self {
            NavLink::Plain(_) => None,
            NavLink::Icon(link) => Some(link.icon),
        }
    }

    /// What a press on the link does.
    pub open spec fn action_of(self) -> LinkAction {
        match self {
            NavLink::Plain(plain) => plain.action,
            NavLink::Icon(icon) => icon.action,
        }
    }

    /// Whether the link is marked as active.
    pub open spec fn is_active(self) -> bool {
        match self {
            NavLink::Plain(plain) => plain.active,
            NavLink::Icon(icon) => icon.active,
        }
    }

    /// Whether `after` is this link made active: the same form of link, the
    /// same in all but the active flag, which is set.
    pub open spec fn marked(self, after: Self) -> bool {
        match self {
            NavLink::Plain(plain) => after is Plain && plain.marked(after->Plain_0),
            NavLink::Icon(icon) => after is Icon && icon.marked(after->Icon_0),
        }
    }

    /// The link as markup: the markup of its form between two pairs of line
    /// breaks.
    pub open spec fn markup(self) -> Seq<char> {
        match self {
            NavLink::Plain(plain) => "\n\n"@ + plain.markup() + "\n\n"@,
            NavLink::Icon(icon) => "\n\n"@ + icon.markup() + "\n\n"@,
        }
    }

    /// The link as markup.
    pub fn to_string(&self) -> (r: String)
        ensures
            r@ == self.markup(),
    {
        let inner = match self {
            NavLink::Plain(plain) => plain.to_string(),
            NavLink::Icon(icon) => icon.to_string(),
        };
        let mut out = joined("\n\n", inner.as_str());
        out.append("\n\n");
        out
    }

    /// The label of the link.
    pub fn label(&self) -> (r: &String)
        ensures
            *r == self.label_of(),
    {
        match self {
            NavLink::Plain(plain) => &plain.label,
            NavLink::Icon(icon) => &icon.label,
        }
    }

    /// The icon of the link, if it has one.
    pub fn icon(&self) -> (r: Option<&Icon>)
        ensures
            r is Some == self.icon_of() is Some,
            r is Some ==> *r.unwrap() == self.icon_of().unwrap(),
    {
        match self {
            NavLink::Plain(_) => None,
            NavLink::Icon(link) => Some(&link.icon),
        }
    }

    /// What a press on the link does.
    pub fn action(&self) -> (r: &LinkAction)
        ensures
            *r == self.action_of(),
    {
        match self {
            NavLink::Plain(plain) => &plain.action,
            NavLink::Icon(icon) => &icon.action,
        }
    }

    /// Whether the link is marked as active.
    pub fn active(&self) -> (r: bool)
        ensures
            r == self.is_active(),
    {
        match self {
            NavLink::Plain(plain) => plain.active,
            NavLink::Icon(icon) => icon.active,
        }
    }
}

impl From<IconLink> for NavLink {
    /// The icon link as it is.
    fn from(value: IconLink) -> (r: Self)
        ensures
            r == NavLink::Icon(value),
    {
        NavLink::Icon(value)
    }
}

impl vstd::std_specs::convert::FromSpecImpl<IconLink> for NavLink {
    open spec fn obeys_from_spec() -> bool {
        true
    }

    open spec fn from_spec(value: IconLink) -> Self {
        NavLink::Icon(value)
    }
}

impl From<PlainLink> for NavLink {
    /// The plain link as it is.
    fn from(value: PlainLink) -> (r: Self)
        ensures
            r == NavLink::Plain(value),
    {
        NavLink::Plain(value)
    }
}

impl vstd::std_specs::convert::FromSpecImpl<PlainLink> for NavLink {
    open spec fn obeys_from_spec() -> bool {
        true
    }

    open spec fn from_spec(value: PlainLink) -> Self {
        NavLink::Plain(value)
    }
}

} // verus!
