use bootstrap_dashboard::card::{Card, CardButton, ContextGroup};
use bootstrap_dashboard::error::Error;
use bootstrap_dashboard::files::{asset_path, respond, static_response};
use bootstrap_dashboard::grid::{Breakpoint, Column, ColumnSize, ColumnWidth, Row};
use bootstrap_dashboard::htmx::{Dynamic, HxSwap};
use bootstrap_dashboard::icons::fa;
use bootstrap_dashboard::modal::{Modal, ModalAction};
use bootstrap_dashboard::text::{bool_text, decimal_text, joined};
use bootstrap_dashboard::{
    Alert, AlertList, Alerts, Color, Dashboard, LinkAction, Page, PageHeader, Sidebar, UserInfo,
};

#[test]
fn colour_names() {
    assert_eq!(Color::Primary.as_ref(), "primary");
    assert_eq!(Color::Secondary.as_ref(), "secondary");
    assert_eq!(Color::Success.as_ref(), "success");
    assert_eq!(Color::Danger.as_ref(), "danger");
    assert_eq!(Color::Warning.as_ref(), "warning");
    assert_eq!(Color::Info.as_ref(), "info");
    assert_eq!(Color::Light.as_ref(), "light");
    assert_eq!(Color::Dark.to_string(), "dark");
    assert_eq!(Color::Primary.as_background(), "bg-primary");
    assert_eq!(Color::Secondary.as_background(), "bg-secondary");
    assert_eq!(Color::Success.as_background(), "bg-success");
    assert_eq!(Color::Danger.as_background(), "bg-danger");
    assert_eq!(Color::Warning.as_background(), "bg-warning");
    assert_eq!(Color::Info.as_background(), "bg-info");
    assert_eq!(Color::Light.as_background(), "bg-light");
    assert_eq!(Color::Dark.as_background(), "bg-dark");
}

#[test]
fn text_builders() {
    assert_eq!(joined("a", "b"), "ab");
    assert_eq!(joined("", ""), "");
    assert_eq!(bool_text(true), "true");
    assert_eq!(bool_text(false), "false");
    assert_eq!(decimal_text(0), "0");
    assert_eq!(decimal_text(7), "7");
    assert_eq!(decimal_text(10), "10");
    assert_eq!(decimal_text(42), "42");
    assert_eq!(decimal_text(99), "99");
    assert_eq!(decimal_text(100), "100");
    assert_eq!(decimal_text(205), "205");
    assert_eq!(decimal_text(255), "255");
}

#[test]
fn decimal_agrees_with_std_on_every_byte() {
    let mut n: u8 = 0;
    loop {
        assert_eq!(decimal_text(n), format!("{}", n));
        if n == u8::MAX {
            break;
        }
        n += 1;
    }
}

#[test]
fn column_classes() {
    assert_eq!(ColumnSize::default().to_string(), "col");
    assert_eq!(ColumnSize::new(Breakpoint::Medium, ColumnWidth::Sized(6)).to_string(), "col-md-6");
    assert_eq!(ColumnSize::new(Breakpoint::ExtraSmall, ColumnWidth::Sized(12)).to_string(), "col-12");
    assert_eq!(ColumnSize::new(Breakpoint::Small, ColumnWidth::Unset).to_string(), "col-sm");
    assert_eq!(ColumnSize::new(Breakpoint::Large, ColumnWidth::Auto).to_string(), "col-lg-auto");
    assert_eq!(
        ColumnSize::default().with_breakpoint(Breakpoint::ExtraLarge).with_width(3).to_string(),
        "col-xl-3"
    );
    assert_eq!(ColumnSize::default().with_auto_width().to_string(), "col-auto");
    assert_eq!(Breakpoint::default(), Breakpoint::ExtraSmall);
    assert_eq!(Breakpoint::ExtraSmall.to_string(), "");
    assert_eq!(Breakpoint::Small.as_ref(), "-sm");
    assert_eq!(ColumnWidth::default(), ColumnWidth::Unset);
    assert_eq!(ColumnWidth::from(4), ColumnWidth::Sized(4));
    assert_eq!(ColumnWidth::Unset.to_string(), "");
    assert_eq!(ColumnWidth::Sized(0).to_string(), "-0");
    assert_eq!(ColumnWidth::Auto.to_string(), "-auto");
}

#[test]
fn column_keeps_each_size_once() {
    let column = Column::new("<p>hi</p>")
        .with_size(Breakpoint::Medium, 6)
        .with_size(Breakpoint::Small, ColumnWidth::Auto)
        .with_size(Breakpoint::Medium, 6)
        .with_size(Breakpoint::Medium, 4);
    assert_eq!(column.content, "<p>hi</p>");
    assert_eq!(
        column.sizes,
        vec![
            ColumnSize::new(Breakpoint::Medium, ColumnWidth::Sized(6)),
            ColumnSize::new(Breakpoint::Small, ColumnWidth::Auto),
            ColumnSize::new(Breakpoint::Medium, ColumnWidth::Sized(4)),
        ]
    );
}

#[test]
fn row_takes_columns_and_text() {
    let row = Row::new().with_column("left").with_column(Column::new("right").with_size(Breakpoint::Large, 2));
    assert_eq!(row.0.len(), 2);
    assert_eq!(row.0[0].content, "left");
    assert!(row.0[0].sizes.is_empty());
    assert_eq!(row.0[1].content, "right");
    assert_eq!(row.0[1].sizes.len(), 1);
    assert!(Row::new().0.is_empty());
}

#[test]
fn asset_path_drops_leading_slashes() {
    assert_eq!(asset_path("/css/app.css"), "css/app.css");
    assert_eq!(asset_path("///js/app.js"), "js/app.js");
    assert_eq!(asset_path("img/a/b.png"), "img/a/b.png");
    assert_eq!(asset_path("a//b/"), "a//b/");
    assert_eq!(asset_path("/"), "");
    assert_eq!(asset_path("////"), "");
    assert_eq!(asset_path(""), "");
    assert_eq!(asset_path("/\u{e9}t\u{e9}/x"), "\u{e9}t\u{e9}/x");
}

#[test]
fn trimming_twice_is_trimming_once() {
    assert_eq!(asset_path(asset_path("//a/b")), "a/b");
    assert_eq!(asset_path(asset_path("a/b")), asset_path("a/b"));
    assert!(!asset_path("///x").starts_with('/'));
    assert!("///x".ends_with(asset_path("///x")));
}

#[test]
fn column_from_owned_text() {
    let row = Row::new().with_column(String::from("owned"));
    assert_eq!(row.0[0].content, "owned");
    assert!(row.0[0].sizes.is_empty());
    let mut seen = std::collections::HashSet::new();
    assert!(seen.insert(ColumnSize::new(Breakpoint::Small, ColumnWidth::Auto)));
    assert!(!seen.insert(ColumnSize::new(Breakpoint::Small, ColumnWidth::Auto)));
    assert!(seen.insert(ColumnSize::new(Breakpoint::Small, ColumnWidth::Sized(1))));
}

#[test]
fn missing_asset_is_not_found() {
    let response = respond("css/none.css", None);
    assert_eq!(response.status, 404);
    assert!(response.content_type.is_none());
    assert!(response.body.is_empty());
    let response = static_response(String::from("text/css"), None);
    assert_eq!(response.status, 404);
    assert!(response.content_type.is_none());
    assert!(response.body.is_empty());
}

#[test]
fn found_asset_is_sent_under_its_media_type() {
    let response = respond("css/app.css", Some(vec![98, 111, 100, 121]));
    assert_eq!(response.status, 200);
    assert_eq!(response.content_type.as_deref(), Some("text/css"));
    assert_eq!(response.body, vec![98, 111, 100, 121]);
    let response = respond("README", Some(Vec::new()));
    assert_eq!(response.status, 200);
    assert_eq!(response.content_type.as_deref(), Some("text/plain"));
    assert!(response.body.is_empty());
    let response = static_response(String::from("image/png"), Some(vec![1, 2]));
    assert_eq!(response.status, 200);
    assert_eq!(response.content_type.as_deref(), Some("image/png"));
    assert_eq!(response.body, vec![1, 2]);
}

#[test]
fn alert_builders() {
    let alert = Alert::new("Today", "Disk is full");
    assert_eq!(alert.headline, "Today");
    assert_eq!(alert.message, "Disk is full");
    assert_eq!(alert.color, Color::Warning);
    assert_eq!(alert.icon, "fa-exclamation-circle");
    assert!(!alert.unread);
    let alert = alert.with_icon(fa::BELL).with_color(Color::Danger).unread();
    assert_eq!(alert.headline, "Today");
    assert_eq!(alert.message, "Disk is full");
    assert_eq!(alert.color, Color::Danger);
    assert_eq!(alert.icon, "fa-bell");
    assert!(alert.unread);
    assert!(AlertList(Vec::new()).is_empty());
    assert!(!AlertList(vec![alert]).is_empty());
}

#[test]
fn card_builders() {
    let card = Card::new(5u8);
    assert!(card.header.is_none());
    assert!(card.buttons.is_empty());
    assert!(card.context_links.is_empty());
    assert_eq!(card.content, 5);
    let card = card
        .with_header("First")
        .with_header("Second")
        .with_button(CardButton::new("Go").with_action(LinkAction::to("/go")))
        .with_button(CardButton::new("Stop").with_outline().with_color(Color::Danger))
        .with_context_group(
            ContextGroup::new("More")
                .with_color(Color::Info)
                .with_link("Edit", LinkAction::to("/edit"))
                .with_link("Drop", LinkAction::modal_name("drop")),
        );
    assert_eq!(card.header.as_deref(), Some("Second"));
    assert_eq!(card.content, 5);
    assert_eq!(card.buttons.len(), 2);
    assert_eq!(card.buttons[0].label, "Go");
    assert_eq!(card.buttons[0].color, Color::Primary);
    assert!(!card.buttons[0].outline);
    assert!(matches!(&card.buttons[0].action, Some(LinkAction::Href(url)) if url == "/go"));
    assert_eq!(card.buttons[1].label, "Stop");
    assert_eq!(card.buttons[1].color, Color::Danger);
    assert!(card.buttons[1].outline);
    assert!(card.buttons[1].action.is_none());
    assert_eq!(card.context_links.len(), 1);
    let group = &card.context_links[0];
    assert_eq!(group.label.as_deref(), Some("More"));
    assert_eq!(group.color, Some(Color::Info));
    assert_eq!(group.items.len(), 2);
    assert_eq!(group.items[0].label, "Edit");
    assert!(!group.items[0].active);
    assert_eq!(group.items[1].label, "Drop");
    assert!(matches!(&group.items[1].action, LinkAction::ToggleModal(name) if name == "drop"));
    let empty = ContextGroup::default();
    assert!(empty.label.is_none());
    assert!(empty.items.is_empty());
    assert!(empty.color.is_none());
}

#[test]
fn page_builders() {
    let page = Page::new("Title", "/static");
    assert_eq!(page.title, "Title");
    assert_eq!(page.static_path, "/static");
    assert!(page.favicons.is_none());
    assert_eq!(page.content, "");
    let icons = bootstrap_dashboard::favicons::FavIcons {
        favicon: Some(String::from("/favicon.ico")),
        apple_touch_icon: None,
        mask_icon: None,
    };
    let page = page.with_content(3u8).with_favicons(icons);
    assert_eq!(page.title, "Title");
    assert_eq!(page.static_path, "/static");
    assert_eq!(page.content, 3);
    assert_eq!(page.favicons.as_ref().and_then(|icons| icons.favicon.as_deref()), Some("/favicon.ico"));
    let page = page.with_content("again");
    assert!(page.favicons.is_none());
    assert_eq!(page.content, "again");
}

#[test]
fn dashboard_builders() {
    let dashboard = Dashboard::new();
    assert!(dashboard.copyright.is_none());
    assert!(dashboard.sidebar.is_none());
    assert!(dashboard.alerts.is_none());
    assert!(dashboard.userinfo.is_none());
    assert!(dashboard.page_header.is_none());
    assert_eq!(dashboard.content, "");
    assert_eq!(Dashboard::default().content, "");
    let alerts = Alerts {
        alerts: Dynamic::new(AlertList(Vec::new()), HxSwap::get("/alerts")),
        show_all_url: Some(String::from("/alerts/all")),
    };
    let dashboard = dashboard
        .with_sidebar(Sidebar::new("Shop", fa::LAUGH_SQUINT))
        .with_copyright("Shop Ltd")
        .with_alerts(alerts)
        .with_userinfo(UserInfo {
            username: String::from("ada"),
            image: String::from("/ada.png"),
            groups: Vec::new(),
        })
        .with_page_header("Overview")
        .replace_content(12u8);
    assert_eq!(dashboard.copyright.as_deref(), Some("Shop Ltd"));
    assert_eq!(dashboard.sidebar.as_ref().map(|sidebar| sidebar.name.as_str()), Some("Shop"));
    let alerts = dashboard.alerts.as_ref().expect("the alerts were set");
    assert_eq!(alerts.content.show_all_url.as_deref(), Some("/alerts/all"));
    assert_eq!(alerts.content.alerts.attributes().as_deref(), Some("hx-get=\"/alerts\""));
    assert_eq!(dashboard.userinfo.as_ref().map(|user| user.username.as_str()), Some("ada"));
    assert_eq!(dashboard.page_header.as_ref().map(|header| header.label.as_str()), Some("Overview"));
    assert_eq!(dashboard.content, 12);
}

#[test]
fn dashboard_takes_plain_alerts() {
    let alerts = Alerts { alerts: Dynamic::from(AlertList(Vec::new())), show_all_url: None };
    let dashboard = Dashboard::new().with_alerts(alerts);
    let alerts = dashboard.alerts.expect("the alerts were set");
    assert!(alerts.hx.is_none());
    assert!(alerts.content.show_all_url.is_none());
}

#[test]
fn page_header_and_error() {
    assert_eq!(PageHeader::new("Head").label, "Head");
    assert_eq!(PageHeader::from("Lit").label, "Lit");
    assert_eq!(PageHeader::from(String::from("Own")).label, "Own");
    let error = Error::new("Oops", 404u16);
    assert_eq!(error.title, "Oops");
    assert_eq!(error.message, 404);
}

#[test]
fn modal_link() {
    let modal = Modal {
        id: String::from("logout"),
        header: String::from("Leave?"),
        content: String::from("You will be logged out."),
        action: ModalAction::Post(String::from("/logout")),
        confirm: String::from("Leave"),
    };
    let action = LinkAction::modal(&modal);
    assert!(matches!(&action, LinkAction::ToggleModal(id) if id == "logout"));
    assert_eq!(action.href(), "#");
    assert_eq!(action.props(), " data-toggle=\"modal\" data-target=\"#logout\"");
    assert_eq!(modal.id, "logout");
}
