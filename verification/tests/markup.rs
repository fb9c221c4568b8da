use bootstrap_dashboard::favicons::{FavIcons, MaskFavIcon};
use bootstrap_dashboard::icons::fa;
use bootstrap_dashboard::markup::joined_escaped;
use bootstrap_dashboard::{IconLink, LinkAction, NavLink, PlainLink};

#[test]
fn the_five_characters_are_escaped() {
    assert_eq!(joined_escaped("", "<"), "&lt;");
    assert_eq!(joined_escaped("", ">"), "&gt;");
    assert_eq!(joined_escaped("", "&"), "&amp;");
    assert_eq!(joined_escaped("", "\""), "&quot;");
    assert_eq!(joined_escaped("", "'"), "&#x27;");
    assert_eq!(joined_escaped("", ""), "");
    assert_eq!(joined_escaped("", "plain text / 1"), "plain text / 1");
    assert_eq!(joined_escaped("", "a<b>&\"c'\u{e9}"), "a&lt;b&gt;&amp;&quot;c&#x27;\u{e9}");
}

#[test]
fn the_head_is_not_escaped() {
    assert_eq!(joined_escaped("<b>", "<i>"), "<b>&lt;i&gt;");
}

#[test]
fn plain_link_markup() {
    let link = PlainLink::new("Home", LinkAction::to("/home"));
    assert_eq!(
        link.to_string(),
        "\n<a class=\"nav-link\" href=\"/home\" >\n<span>Home</span></a>\n"
    );
}

#[test]
fn plain_link_escapes_address_and_label() {
    let link = PlainLink::new("Home & <Garden>", LinkAction::to("/home?a=1&b=\"2\""));
    assert_eq!(
        link.to_string(),
        "\n<a class=\"nav-link\" href=\"/home?a=1&amp;b=&quot;2&quot;\" >\n<span>Home &amp; &lt;Garden&gt;</span></a>\n"
    );
}

#[test]
fn dialog_link_carries_its_attributes_unescaped() {
    let link = PlainLink::new("Leave", LinkAction::modal_name("logout"));
    assert_eq!(
        link.to_string(),
        "\n<a class=\"nav-link\" href=\"#\"  data-toggle=\"modal\" data-target=\"#logout\">\n<span>Leave</span></a>\n"
    );
}

#[test]
fn icon_link_markup() {
    let link = IconLink::new("Settings", fa::COGS, LinkAction::to("/settings"));
    assert_eq!(
        link.to_string(),
        "\n<a class=\"nav-link\" href=\"/settings\" >\n<i class=\"fas fa-fw fa-cogs\"></i>\n<span>Settings</span></a>\n"
    );
}

#[test]
fn nav_link_wraps_either_form() {
    let plain = NavLink::from(PlainLink::new("A", LinkAction::to("/a")));
    assert_eq!(
        plain.to_string(),
        "\n\n\n<a class=\"nav-link\" href=\"/a\" >\n<span>A</span></a>\n\n\n"
    );
    let icon = NavLink::from(IconLink::new("B", fa::BELL, LinkAction::to("/b")));
    assert_eq!(
        icon.to_string(),
        "\n\n\n<a class=\"nav-link\" href=\"/b\" >\n<i class=\"fas fa-fw fa-bell\"></i>\n<span>B</span></a>\n\n\n"
    );
}

#[test]
fn no_icons_leave_only_line_breaks() {
    let icons = FavIcons { favicon: None, apple_touch_icon: None, mask_icon: None };
    assert_eq!(icons.to_string(), "\n\n\n\n\n\n\n");
}

#[test]
fn all_icons_are_linked_in_order() {
    let icons = FavIcons {
        favicon: Some(String::from("/favicon.ico")),
        apple_touch_icon: Some(String::from("/touch.png")),
        mask_icon: Some(MaskFavIcon {
            href: String::from("/mask.svg?a&b"),
            color: String::from("#5bbad5"),
        }),
    };
    assert_eq!(
        icons.to_string(),
        "\n\n<link rel=\"icon\" href=\"/favicon.ico\">\n\n\n<link rel=\"apple-touch-icon\" href=\"/touch.png\">\n\n\n<link rel=\"mask-icon\" href=\"/mask.svg?a&amp;b\" color=\"#5bbad5\">\n\n"
    );
}

#[test]
fn single_icon_is_linked_alone() {
    let icons = FavIcons {
        favicon: None,
        apple_touch_icon: Some(String::from("/touch.png")),
        mask_icon: None,
    };
    assert_eq!(
        icons.to_string(),
        "\n\n\n\n<link rel=\"apple-touch-icon\" href=\"/touch.png\">\n\n\n\n"
    );
}
