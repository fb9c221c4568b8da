//! Bootstrap-styled dashboard components: value objects with chained builders,
//! the text of partial-refresh attributes, and the marking of the active
//! navigation link.
use vstd::prelude::*;

mod alerts;
pub mod card;
mod color;
pub mod error;
pub mod favicons;
pub mod files;
pub mod grid;
pub mod htmx;
pub mod icons;
mod links;
pub mod login;
pub mod markup;
pub mod modal;
mod page_header;
mod sidebar;
pub mod text;
mod userinfo;

pub use alerts::{Alert, AlertList, Alerts};
pub use color::Color;
pub use htmx::Dynamic;
pub use icons::Icon;
pub use links::{IconLink, LinkAction, NavLink, PlainLink};
pub use page_header::PageHeader;
pub use sidebar::{
    any_hit, first_hit_at, is_suffix, marks_first, Group, NavItem, Selector, Sidebar, SubGroup,
};
pub use userinfo::UserInfo;

use favicons::FavIcons;

verus! {

/// A bare label, on its way to becoming a link.
pub struct Label(pub String);

impl Label {
    /// A value with this label.
    pub fn new(label: &str) -> (r: Self)
        ensures
            r.0@ == label@,
    {
        Label(label.to_owned())
    }

    /// An inactive plain link with this label.
    pub fn with_link(self, action: LinkAction) -> (r: PlainLink)
        ensures
            r == (PlainLink { label: self.0, active: false, action }),
    {
        PlainLink { label: self.0, active: false, action }
    }
}

/// The frame of every page: it carries the title and the addresses of the
/// style sheets and scripts, and holds the content.
pub struct Page<Content = &'static str> {
    pub title: String,
    /// The path under which the static assets are served. It must be the
    /// prefix that the assets are routed at.
    pub static_path: String,
    pub favicons: Option<FavIcons>,
    pub content: Content,
}

impl Page<&'static str> {
    /// A page with empty content and no icons.
    pub fn new(title: &str, static_path: &str) -> (r: Self)
        ensures
            r.title@ == title@,
            r.static_path@ == static_path@,
            r.favicons is None,
            r.content@ == Seq::<char>::empty(),
    {
        proof {
            reveal_strlit("");
        }
        let r = Page {
            title: title.to_owned(),
            static_path: static_path.to_owned(),
            favicons: None,
            content: "",
        };
        assert(r.content@ =~= Seq::<char>::empty());
        r
    }
}

impl<Content> Page<Content> {
    /// The page with other content. The icons are not kept: set them after
    /// the content.
    pub fn with_content<NewContent>(self, content: NewContent) -> (r: Page<NewContent>)
        ensures
            r.title == self.title,
            r.static_path == self.static_path,
            r.favicons is None,
            r.content == content,
    {
        Page { title: self.title, static_path: self.static_path, favicons: None, content }
    }

    /// Sets the icons, in place of earlier ones.
    pub fn with_favicons(self, favicons: FavIcons) -> (r: Self)
        ensures
            r == (Page { favicons: Some(favicons), ..self }),
    {
        Page {
            title: self.title,
            static_path: self.static_path,
            favicons: Some(favicons),
            content: self.content,
        }
    }
}

/// A dashboard: the menu, the alerts, the user and the page's header around
/// the content. It is the content of a [`Page`].
pub struct Dashboard<Content = &'static str> {
    /// The holder of the copyright, for the notice at the foot.
    pub copyright: Option<String>,
    /// The left-hand menu.
    pub sidebar: Option<Sidebar>,
    pub alerts: Option<Dynamic<Alerts>>,
    pub userinfo: Option<UserInfo>,
    pub page_header: Option<PageHeader>,
    pub content: Content,
}

impl<Content> Dashboard<Content> {
    /// Whether nothing is set around the content.
    pub open spec fn bare(self) -> bool {
        &&& self.copyright is None
        &&& self.sidebar is None
        &&& self.alerts is None
        &&& self.userinfo is None
        &&& self.page_header is None
    }
}

impl Dashboard<&'static str> {
    /// A dashboard with empty content and nothing around it.
    pub fn new() -> (r: Self)
        ensures
            r.bare(),
            r.content@ == Seq::<char>::empty(),
    {
        proof {
            reveal_strlit("");
        }
        let r = Dashboard {
            copyright: None,
            sidebar: None,
            alerts: None,
            userinfo: None,
            page_header: None,
            content: "",
        };
        assert(r.content@ =~= Seq::<char>::empty());
        r
    }
}

impl Default for Dashboard<&'static str> {
    /// The value that stands where none is given.
    fn default() -> (r: Self)
        ensures
            r.bare(),
            r.content@ == Seq::<char>::empty(),
    {
        Self::new()
    }
}

impl<Content> Dashboard<Content> {
    /// Sets the menu to what `sidebar` converts into.
    pub fn with_sidebar<S: Into<Sidebar>>(self, sidebar: S) -> (r: Self)
        ensures
            r.sidebar is Some,
            call_ensures(<S as Into<Sidebar>>::into, (sidebar,), r.sidebar.unwrap()),
            r.copyright == self.copyright,
            r.alerts == self.alerts,
            r.userinfo == self.userinfo,
            r.page_header == self.page_header,
            r.content == self.content,
    {
        let mut r = self;
        r.sidebar = Some(sidebar.into());
        r
    }

    /// Sets the holder of the copyright.
    pub fn with_copyright(self, copyright: &str) -> (r: Self)
        ensures
            r.copyright is Some,
            r.copyright.unwrap()@ == copyright@,
            r.sidebar == self.sidebar,
            r.alerts == self.alerts,
            r.userinfo == self.userinfo,
            r.page_header == self.page_header,
            r.content == self.content,
    {
        let mut r = self;
        r.copyright = Some(copyright.to_owned());
        r
    }

    /// Sets the alerts to what `alerts` converts into.
    pub fn with_alerts<T: Into<Dynamic<Alerts>>>(self, alerts: T) -> (r: Self)
        ensures
            r.alerts is Some,
            call_ensures(<T as Into<Dynamic<Alerts>>>::into, (alerts,), r.alerts.unwrap()),
            r.copyright == self.copyright,
            r.sidebar == self.sidebar,
            r.userinfo == self.userinfo,
            r.page_header == self.page_header,
            r.content == self.content,
    {
        let mut r = self;
        r.alerts = Some(alerts.into());
        r
    }

    /// Sets the user.
    pub fn with_userinfo(self, userinfo: UserInfo) -> (r: Self)
        ensures
            r == (Dashboard { userinfo: Some(userinfo), ..self }),
    {
        let mut r = self;
        r.userinfo = Some(userinfo);
        r
    }

    /// Sets the page's header to what `page_header` converts into.
    pub fn with_page_header<P: Into<PageHeader>>(self, page_header: P) -> (r: Self)
        ensures
            r.page_header is Some,
            call_ensures(<P as Into<PageHeader>>::into, (page_header,), r.page_header.unwrap()),
            r.copyright == self.copyright,
            r.sidebar == self.sidebar,
            r.alerts == self.alerts,
            r.userinfo == self.userinfo,
            r.content == self.content,
    {
        let mut r = self;
        r.page_header = Some(page_header.into());
        r
    }

    /// The dashboard with other content; all around it is kept.
    pub fn replace_content<NewContent>(self, content: NewContent) -> (r: Dashboard<NewContent>)
        ensures
            r.copyright == self.copyright,
            r.sidebar == self.sidebar,
            r.alerts == self.alerts,
            r.userinfo == self.userinfo,
            r.page_header == self.page_header,
            r.content == content,
    {
        Dashboard {
            copyright: self.copyright,
            sidebar: self.sidebar,
            alerts: self.alerts,
            userinfo: self.userinfo,
            page_header: self.page_header,
            content,
        }
    }
}

} // verus!
