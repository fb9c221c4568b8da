use bootstrap_dashboard::icons::fa;
use bootstrap_dashboard::{
    Group, IconLink, Label, LinkAction, NavItem, NavLink, PlainLink, Selector, Sidebar, SubGroup,
};

fn menu() -> Sidebar {
    Sidebar::new("Shop", fa::LAUGH_WINK)
        .with_group(
            Group::unlabeled()
                .with_item(IconLink::new("Dashboard", fa::TACHOMETER_ALT, LinkAction::to("/")))
                .with_item(IconLink::new("Configuration", fa::COGS, LinkAction::to("/config"))),
        )
        .with_group(
            Group::new("Orders")
                .with_item(NavItem::collapsible(
                    "Tickets",
                    fa::TICKET_ALT,
                    vec![
                        SubGroup::new("Open")
                            .with_link(PlainLink::new("Mine", LinkAction::to("/tickets/mine")))
                            .with_link(PlainLink::new("All", LinkAction::to("/tickets"))),
                        SubGroup::unlabeled()
                            .with_link(PlainLink::new("Closed", LinkAction::to("/tickets/closed")))
                            .with_link(PlainLink::new("All", LinkAction::to("/archive"))),
                    ],
                ))
                .with_item(PlainLink::new("Leave", LinkAction::modal_name("logout")))
                .with_item(PlainLink::new("All", LinkAction::to("/everything"))),
        )
}

fn link_flags(sidebar: &Sidebar) -> Vec<bool> {
    let mut flags = Vec::new();
    for group in &sidebar.groups {
        for item in &group.items {
            match item {
                NavItem::Link(link) => flags.push(link.active()),
                NavItem::Collapsible { subgroups, .. } => {
                    for subgroup in subgroups {
                        for link in &subgroup.links {
                            flags.push(link.active);
                        }
                    }
                }
            }
        }
    }
    flags
}

fn collapsed(sidebar: &Sidebar) -> bool {
    match &sidebar.groups[1].items[0] {
        NavItem::Collapsible { collapsed, .. } => *collapsed,
        NavItem::Link(_) => panic!("the first item of the second group unfolds"),
    }
}

#[test]
fn fresh_menu_has_no_active_link() {
    let sidebar = menu();
    assert_eq!(sidebar.name, "Shop");
    assert_eq!(sidebar.logo, "fa-laugh-wink");
    assert_eq!(sidebar.groups.len(), 2);
    assert!(sidebar.groups[0].label.is_none());
    assert_eq!(sidebar.groups[1].label.as_deref(), Some("Orders"));
    assert_eq!(link_flags(&sidebar), vec![false; 8]);
    assert!(collapsed(&sidebar));
}

#[test]
fn label_marks_a_top_level_link() {
    let sidebar = menu().with_active_label("Configuration");
    assert_eq!(
        link_flags(&sidebar),
        vec![false, true, false, false, false, false, false, false]
    );
    assert!(collapsed(&sidebar));
}

#[test]
fn label_marks_only_the_first_of_equal_labels() {
    let sidebar = menu().with_active_label("All");
    assert_eq!(
        link_flags(&sidebar),
        vec![false, false, false, true, false, false, false, false]
    );
    assert!(!collapsed(&sidebar));
}

#[test]
fn marking_a_nested_link_unfolds_its_entry() {
    let sidebar = menu().with_active_label("Closed");
    assert_eq!(
        link_flags(&sidebar),
        vec![false, false, false, false, true, false, false, false]
    );
    assert!(!collapsed(&sidebar));
    match &sidebar.groups[1].items[0] {
        NavItem::Collapsible { label, icon, subgroups, .. } => {
            assert_eq!(label, "Tickets");
            assert_eq!(*icon, "fa-ticket-alt");
            assert!(!subgroups[0].has_active_link());
            assert!(subgroups[1].has_active_link());
            assert_eq!(subgroups[0].label.as_deref(), Some("Open"));
        }
        NavItem::Link(_) => panic!("the first item of the second group unfolds"),
    }
}

#[test]
fn unknown_label_changes_nothing() {
    let sidebar = menu().with_active_label("Nowhere");
    assert_eq!(link_flags(&sidebar), vec![false; 8]);
    assert!(collapsed(&sidebar));
}

#[test]
fn label_must_match_wholly() {
    let sidebar = menu().with_active_label("Config");
    assert_eq!(link_flags(&sidebar), vec![false; 8]);
    let sidebar = menu().with_active_label("configuration");
    assert_eq!(link_flags(&sidebar), vec![false; 8]);
}

#[test]
fn path_marks_the_first_link_it_ends_with() {
    let sidebar = menu().with_active_from_path("/tickets/closed");
    assert_eq!(
        link_flags(&sidebar),
        vec![false, false, false, false, true, false, false, false]
    );
    assert!(!collapsed(&sidebar));
}

#[test]
fn every_path_ends_with_a_slash_link() {
    let sidebar = menu().with_active_from_path("https://shop.example/");
    assert_eq!(
        link_flags(&sidebar),
        vec![true, false, false, false, false, false, false, false]
    );
    let sidebar = menu().with_active_from_path("https://shop.example/config");
    assert_eq!(
        link_flags(&sidebar),
        vec![false, true, false, false, false, false, false, false]
    );
}

#[test]
fn path_never_marks_a_dialog_link() {
    let sidebar = Sidebar::new("S", fa::LIST).with_group(
        Group::unlabeled()
            .with_item(PlainLink::new("Leave", LinkAction::modal_name("logout")))
            .with_item(PlainLink::new("Out", LinkAction::to("logout"))),
    );
    let sidebar = sidebar.with_active_from_path("/logout");
    assert_eq!(link_flags(&sidebar), vec![false, true]);
}

#[test]
fn shorter_path_than_link_marks_nothing() {
    let sidebar = menu().with_active_from_path("closed");
    assert_eq!(link_flags(&sidebar), vec![false; 8]);
}

#[test]
fn empty_link_target_ends_every_path() {
    let sidebar = Sidebar::new("S", fa::LIST).with_group(
        Group::unlabeled()
            .with_item(PlainLink::new("Far", LinkAction::to("/far")))
            .with_item(PlainLink::new("Here", LinkAction::to(""))),
    );
    let sidebar = sidebar.with_active_from_path("/anything");
    assert_eq!(link_flags(&sidebar), vec![false, true]);
}

#[test]
fn selector_is_taken_directly() {
    let sidebar = menu().with_active(&Selector::Label("Mine"));
    assert_eq!(
        link_flags(&sidebar),
        vec![false, false, true, false, false, false, false, false]
    );
    let sidebar = menu().with_active(&Selector::Path("/x/archive"));
    assert_eq!(
        link_flags(&sidebar),
        vec![false, false, false, false, false, true, false, false]
    );
}

#[test]
fn marking_twice_keeps_the_first_mark() {
    let sidebar = menu().with_active_label("Dashboard").with_active_label("Leave");
    assert_eq!(
        link_flags(&sidebar),
        vec![true, false, false, false, false, false, true, false]
    );
}

#[test]
fn a_picked_link_is_active_afterwards() {
    for label in ["Dashboard", "Configuration", "Mine", "All", "Closed", "Leave"] {
        let sidebar = menu().with_active_label(label);
        let flags = link_flags(&sidebar);
        assert_eq!(flags.iter().filter(|flag| **flag).count(), 1);
    }
}

#[test]
fn empty_menu_stays_empty() {
    let sidebar = Sidebar::new("", fa::BELL).with_active_label("x");
    assert!(sidebar.groups.is_empty());
    let sidebar = Sidebar::new("", fa::BELL)
        .with_group(Group::unlabeled())
        .with_active_from_path("/");
    assert_eq!(sidebar.groups.len(), 1);
    assert!(sidebar.groups[0].items.is_empty());
}

#[test]
fn group_builders() {
    let group = Group::unlabeled().with_label("Later");
    assert_eq!(group.label.as_deref(), Some("Later"));
    assert!(group.items.is_empty());
    let group = Group::from(vec![NavItem::from(PlainLink::new("a", LinkAction::to("/a")))]);
    assert!(group.label.is_none());
    assert_eq!(group.items.len(), 1);
    assert_eq!(group.items[0].label(), "a");
    let item = NavItem::collapsible("Fold", fa::USER, Vec::new());
    assert_eq!(item.label(), "Fold");
    assert!(matches!(item, NavItem::Collapsible { collapsed: true, .. }));
    let item = NavItem::from(IconLink::new("i", fa::DOOR_CLOSED, LinkAction::to("/i")));
    assert!(matches!(&item, NavItem::Link(NavLink::Icon(link)) if link.icon == "fa-door-closed"));
}

#[test]
fn subgroup_builders() {
    let subgroup = SubGroup::new("Sub");
    assert_eq!(subgroup.label.as_deref(), Some("Sub"));
    assert!(subgroup.links.is_empty());
    assert!(!subgroup.has_active_link());
    let subgroup = SubGroup::unlabeled()
        .with_link(PlainLink::new("a", LinkAction::to("/a")))
        .with_link(PlainLink { label: String::from("b"), active: true, action: LinkAction::to("/b") });
    assert!(subgroup.label.is_none());
    assert_eq!(subgroup.links.len(), 2);
    assert_eq!(subgroup.links[1].label, "b");
    assert!(subgroup.has_active_link());
}

#[test]
fn links_and_their_actions() {
    let to = LinkAction::to("/home");
    assert_eq!(to.href(), "/home");
    assert_eq!(to.props(), "");
    let toggle = LinkAction::modal_name("logout");
    assert_eq!(toggle.href(), "#");
    assert_eq!(toggle.props(), " data-toggle=\"modal\" data-target=\"#logout\"");
    let plain = Label::new("Home").with_link(LinkAction::to("/home"));
    assert_eq!(plain.label, "Home");
    assert!(!plain.active);
    assert!(matches!(&plain.action, LinkAction::Href(url) if url == "/home"));
    let nav = NavLink::from(plain);
    assert_eq!(nav.label(), "Home");
    assert!(nav.icon().is_none());
    assert!(!nav.active());
    assert_eq!(nav.action().href(), "/home");
    let icon = PlainLink::new("Bell", LinkAction::modal_name("m")).with_icon(fa::BELL);
    assert_eq!(icon.label, "Bell");
    assert_eq!(icon.icon, "fa-bell");
    let nav = NavLink::from(icon);
    assert_eq!(nav.icon().copied(), Some("fa-bell"));
    assert_eq!(nav.action().href(), "#");
}
