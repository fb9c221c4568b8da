//! The left-hand menu: groups of navigation items, and the marking of the
//! one link that is active.
//!
//! The menu is a tree. A sidebar holds groups, a group holds items, and an
//! item is a link or a collapsible entry whose subgroups hold links. Marking
//! walks the tree depth first and sets the active flag of the first link that
//! the selector picks, and of no other.
use vstd::prelude::*;
use crate::icons::Icon;
use crate::links::{IconLink, LinkAction, NavLink, PlainLink};

verus! {

/// Whether `tail` stands at the end of `text`.
pub open spec fn is_suffix(text: Seq<char>, tail: Seq<char>) -> bool {
    tail.len() <= text.len() && text.subrange(text.len() - tail.len(), text.len() as int) == tail
}

/// Compares two string slices with `==` of std: true exactly where they hold
/// the same characters.
#[verifier::external_body]
fn same_text(left: &str, right: &str) -> (r: bool)
    ensures
        r == (left@ == right@),
{
    left == right
}

/// Tests with `str::ends_with` of std whether `tail` stands at the end of
/// `text`; the empty string stands at the end of every text.
#[verifier::external_body]
fn ends_with(text: &str, tail: &str) -> (r: bool)
    ensures
        r == is_suffix(text@, tail@),
{
    text.ends_with(tail)
}

/// How the active link is found.
pub enum Selector<'a> {
    /// The link whose label is this text.
    Label(&'a str),
    /// The link to a path that the current path, this text, ends with.
    Path(&'a str),
}

impl<'a> Selector<'a> {
    /// Whether the selector picks a link with this action and label.
    pub open spec fn picks(self, action: LinkAction, label: Seq<char>) -> bool {
        match self {
            Selector::Label(active_label) => label == active_label@,
            Selector::Path(current_path) => action is Href && is_suffix(
                current_path@,
                action->Href_0@,
            ),
        }
    }

    /// Whether the selector picks a plain link.
    pub open spec fn picks_plain(self, link: PlainLink) -> bool {
        self.picks(link.action, link.label@)
    }

    /// Whether the selector picks a link of either form.
    pub open spec fn picks_link(self, link: NavLink) -> bool {
        self.picks(link.action_of(), link.label_of()@)
    }

    /// Tests whether the selector picks a link with this action and label.
    fn test(&self, action: &LinkAction, label: &str) -> (r: bool)
        ensures
            r == self.picks(*action, label@),
    {
        match self {
            Selector::Label(active_label) => same_text(label, active_label),
            Selector::Path(current_path) => match action {
                LinkAction::Href(url) => ends_with(current_path, url.as_str()),
                LinkAction::ToggleModal(_) => false,
            },
        }
    }
}

/// Whether `hit` holds of an element of `items`.
pub open spec fn any_hit<T>(items: Seq<T>, hit: spec_fn(T) -> bool) -> bool {
    exists|i: int| 0 <= i < items.len() && hit(#[trigger] items[i])
}

/// Whether position `at` holds the first element of `items` that `hit` holds
/// of.
pub open spec fn first_hit_at<T>(items: Seq<T>, hit: spec_fn(T) -> bool, at: int) -> bool {
    &&& 0 <= at < items.len()
    &&& hit(items[at])
    &&& forall|j: int| 0 <= j < at ==> !hit(#[trigger] items[j])
}

/// Whether `after` is `before` with its first hit marked: the first element
/// that `hit` holds of is replaced by one that `marked` relates it to, and
/// every other element stays as it is. Where `hit` holds of none, nothing
/// changes.
pub open spec fn marks_first<T>(
    before: Seq<T>,
    after: Seq<T>,
    hit: spec_fn(T) -> bool,
    marked: spec_fn(T, T) -> bool,
) -> bool {
    &&& after.len() == before.len()
    &&& forall|i: int|
        0 <= i < before.len() ==> if first_hit_at(before, hit, i) {
            marked(before[i], #[trigger] after[i])
        } else {
            after[i] == before[i]
        }
}

/// At most one position holds the first hit.
pub proof fn first_hit_is_unique<T>(items: Seq<T>, hit: spec_fn(T) -> bool, a: int, b: int)
    requires
        first_hit_at(items, hit, a),
        first_hit_at(items, hit, b),
    ensures
        a == b,
{
    if a < b {
        assert(!hit(items[a]));
    } else if b < a {
        assert(!hit(items[b]));
    }
}

/// Where `hit` holds of an element, some position holds the first hit.
pub proof fn first_hit_exists<T>(items: Seq<T>, hit: spec_fn(T) -> bool)
    requires
        any_hit(items, hit),
    ensures
        exists|at: int| first_hit_at(items, hit, at),
    decreases items.len(),
{
    let i = choose|i: int| 0 <= i < items.len() && hit(#[trigger] items[i]);
    let front = items.subrange(0, i);
    if any_hit(front, hit) {
        first_hit_exists(front, hit);
        let at = choose|at: int| first_hit_at(front, hit, at);
        assert(front[at] == items[at]);
        assert forall|j: int| 0 <= j < at implies !hit(#[trigger] items[j]) by {
            assert(front[j] == items[j]);
        }
        assert(first_hit_at(items, hit, at));
    } else {
        assert forall|j: int| 0 <= j < i implies !hit(#[trigger] items[j]) by {
            assert(front[j] == items[j]);
        }
        assert(first_hit_at(items, hit, i));
    }
}

/// Where `hit` holds of an element, marking replaces the first such element
/// by one that `marked` relates it to.
pub proof fn marking_marks_the_first_hit<T>(
    before: Seq<T>,
    after: Seq<T>,
    hit: spec_fn(T) -> bool,
    marked: spec_fn(T, T) -> bool,
) -> (at: int)
    requires
        marks_first(before, after, hit, marked),
        any_hit(before, hit),
    ensures
        first_hit_at(before, hit, at),
        marked(before[at], after[at]),
{
    first_hit_exists(before, hit);
    let at = choose|at: int| first_hit_at(before, hit, at);
    assert(marked(before[at], after[at]));
    at
}

/// Marking changes nothing where `hit` holds of no element.
pub proof fn marking_without_hit_changes_nothing<T>(
    before: Seq<T>,
    after: Seq<T>,
    hit: spec_fn(T) -> bool,
    marked: spec_fn(T, T) -> bool,
)
    requires
        marks_first(before, after, hit, marked),
        !any_hit(before, hit),
    ensures
        after == before,
{
    assert forall|i: int| 0 <= i < before.len() implies after[i] == before[i] by {
        assert(!first_hit_at(before, hit, i));
    }
    assert(after =~= before);
}

/// Marking changes at most one element: of two positions, one holds after
/// the marking what it held before.
pub proof fn marking_changes_one_element<T>(
    before: Seq<T>,
    after: Seq<T>,
    hit: spec_fn(T) -> bool,
    marked: spec_fn(T, T) -> bool,
    i: int,
    j: int,
)
    requires
        marks_first(before, after, hit, marked),
        0 <= i < j < before.len(),
    ensures
        after[i] == before[i] || after[j] == before[j],
{
    if first_hit_at(before, hit, i) {
        assert(!first_hit_at(before, hit, j));
    }
}

/// A group of links inside a collapsible item, under a faint label.
pub struct SubGroup {
    pub label: Option<String>,
    pub links: Vec<PlainLink>,
}

impl SubGroup {
    /// Whether the selector picks a link of this subgroup.
    pub open spec fn hit(self, selector: Selector) -> bool {
        any_hit(self.links@, |link: PlainLink| selector.picks_plain(link))
    }

    /// Whether `after` is this subgroup with the first link that the selector
    /// picks made active.
    pub open spec fn marked(self, after: Self, selector: Selector) -> bool {
        &&& after.label == self.label
        &&& marks_first(
            self.links@,
            after.links@,
            |link: PlainLink| selector.picks_plain(link),
            |link: PlainLink, marked: PlainLink| link.marked(marked),
        )
    }

    /// Whether a link of this subgroup is active.
    pub open spec fn some_active(self) -> bool {
        exists|i: int| 0 <= i < self.links@.len() && (#[trigger] self.links@[i]).active
    }

    /// A subgroup marked with a selector that picks one of its links has an
    /// active link.
    pub proof fn marking_activates(self, after: Self, selector: Selector)
        requires
            self.hit(selector),
            self.marked(after, selector),
        ensures
            after.some_active(),
    {
        let at = marking_marks_the_first_hit(
            self.links@,
            after.links@,
            |link: PlainLink| selector.picks_plain(link),
            |link: PlainLink, marked: PlainLink| link.marked(marked),
        );
        assert(after.links@[at].active);
    }

    /// An empty subgroup under `label`.
    pub fn new(label: &str) -> (r: SubGroup)
        ensures
            r.label is Some,
            r.label.unwrap()@ == label@,
            r.links@ == Seq::<PlainLink>::empty(),
    {
        SubGroup { label: Some(label.to_owned()), links: Vec::new() }
    }

    /// An empty subgroup without a label.
    pub fn unlabeled() -> (r: Self)
        ensures
            r.label is None,
            r.links@ == Seq::<PlainLink>::empty(),
    {
        SubGroup { label: None, links: Vec::new() }
    }

    /// Adds a link behind those that are there.
    pub fn with_link(self, link: PlainLink) -> (r: Self)
        ensures
            r.label == self.label,
            r.links@ == self.links@.push(link),
    {
        let mut r = self;
        r.links.push(link);
        r
    }

    /// Whether a link of this subgroup is active.
    pub fn has_active_link(&self) -> (r: bool)
        ensures
            r == self.some_active(),
    {
        let mut i: usize = 0;
        while i < self.links.len()
            invariant
                i <= self.links.len(),
                forall|j: int| 0 <= j < i ==> !(#[trigger] self.links@[j]).active,
            decreases self.links.len() - i,
        {
            if self.links[i].active {
                return true;
            }
            i += 1;
        }
        false
    }

    /// Tests whether the selector picks a link in here.
    fn hits(&self, selector: &Selector) -> (found: bool)
        ensures
            found == self.hit(*selector),
    {
        let mut i: usize = 0;
        while i < self.links.len()
            invariant
                i <= self.links.len(),
                forall|j: int| 0 <= j < i ==> !selector.picks_plain(#[trigger] self.links@[j]),
            decreases self.links.len() - i,
        {
            if selector.test(&self.links[i].action, self.links[i].label.as_str()) {
                return true;
            }
            i += 1;
        }
        false
    }

    /// Marks the first link in here that the selector picks.
    fn activate(&mut self, selector: &Selector)
        requires
            old(self).hit(*selector),
        ensures
            old(self).marked(*final(self), *selector),
    {
        let mut i: usize = 0;
        while i < self.links.len()
            invariant
                i <= self.links.len(),
                *self == *old(self),
                forall|j: int| 0 <= j < i ==> !selector.picks_plain(#[trigger] self.links@[j]),
            decreases self.links.len() - i,
        {
            if selector.test(&self.links[i].action, self.links[i].label.as_str()) {
                self.links[i].active = true;
                return ;
            }
            i += 1;
        }
    }
}

/// A top-level entry of the menu: a link, or a collapsible entry that holds
/// subgroups of links.
pub enum NavItem {
    /// A link to a page, or one that toggles a dialog.
    Link(NavLink),
    /// A collapsible entry.
    Collapsible {
        /// The entry's label.
        label: String,
        /// The entry's icon.
        icon: Icon,
        /// The subgroups that the entry unfolds.
        subgroups: Vec<SubGroup>,
        /// Whether the entry is folded. An entry starts folded, and is
        /// unfolded when one of its links is made active.
        collapsed: bool,
    },
}

impl NavItem {
    /// The label of the entry.
    pub open spec fn label_of(self) -> String {
        match self {
            NavItem::Link(link) => link.label_of(),
            NavItem::Collapsible { label, .. } => label,
        }
    }

    /// Whether the selector picks this link, or a link of this entry.
    pub open spec fn hit(self, selector: Selector) -> bool {
        match self {
            NavItem::Link(link) => selector.picks_link(link),
            NavItem::Collapsible { subgroups, .. } => any_hit(
                subgroups@,
                |subgroup: SubGroup| subgroup.hit(selector),
            ),
        }
    }

    /// Whether `after` is this item with the first link that the selector
    /// picks made active. A collapsible entry is unfolded with it, and keeps
    /// its label and icon.
    pub open spec fn marked(self, after: Self, selector: Selector) -> bool {
        match self {
            NavItem::Link(link) => after is Link && link.marked(after->Link_0),
            NavItem::Collapsible { label, icon, subgroups, collapsed } => {
                &&& after is Collapsible
                &&& after->label == label
                &&& after->icon == icon
                &&& !after->collapsed
                &&& marks_first(
                    subgroups@,
                    after->subgroups@,
                    |subgroup: SubGroup| subgroup.hit(selector),
                    |subgroup: SubGroup, marked: SubGroup| subgroup.marked(marked, selector),
                )
            },
        }
    }

    /// Whether this link is active, or a link of this entry.
    pub open spec fn some_active(self) -> bool {
        match self {
            NavItem::Link(link) => link.is_active(),
            NavItem::Collapsible { subgroups, .. } => exists|i: int|
                0 <= i < subgroups@.len() && (#[trigger] subgroups@[i]).some_active(),
        }
    }

    /// An item marked with a selector that picks one of its links has an
    /// active link, and is unfolded if it is a collapsible entry.
    pub proof fn marking_activates(self, after: Self, selector: Selector)
        requires
            self.hit(selector),
            self.marked(after, selector),
        ensures
            after.some_active(),
            after is Collapsible ==> !after->collapsed,
    {
        match self {
            NavItem::Link(link) => {},
            NavItem::Collapsible { subgroups, .. } => {
                let at = marking_marks_the_first_hit(
                    subgroups@,
                    after->subgroups@,
                    |subgroup: SubGroup| subgroup.hit(selector),
                    |subgroup: SubGroup, marked: SubGroup| subgroup.marked(marked, selector),
                );
                subgroups@[at].marking_activates(after->subgroups@[at], selector);
            },
        }
    }

    /// A folded entry.
    pub fn collapsible(label: &str, icon: Icon, subgroups: Vec<SubGroup>) -> (r: Self)
        ensures
            r is Collapsible,
            r->label@ == label@,
            r->icon == icon,
            r->subgroups == subgroups,
            r->collapsed,
    {
        NavItem::Collapsible { label: label.to_owned(), icon, subgroups, collapsed: true }
    }

    /// The label of the entry.
    pub fn label(&self) -> (r: &String)
        ensures
            *r == self.label_of(),
    {
        match self {
            NavItem::Link(nav) => nav.label(),
            NavItem::Collapsible { label, .. } => label,
        }
    }

    /// Tests whether the selector picks a link in here.
    fn hits(&self, selector: &Selector) -> (found: bool)
        ensures
            found == self.hit(*selector),
    {
        match self {
            NavItem::Link(link) => selector.test(link.action(), link.label().as_str()),
            NavItem::Collapsible { subgroups, .. } => subgroups_hit(subgroups, selector),
        }
    }

    /// Marks the first link in here that the selector picks.
    fn activate(&mut self, selector: &Selector)
        requires
            old(self).hit(*selector),
        ensures
            old(self).marked(*final(self), *selector),
    {
        match self {
            NavItem::Link(link) => match link {
                NavLink::Plain(plain) => {
                    plain.active = true;
                },
                NavLink::Icon(icon) => {
                    icon.active = true;
                },
            },
            NavItem::Collapsible { subgroups, collapsed, .. } => {
                activate_subgroups(subgroups, selector);
                *collapsed = false;
            },
        }
    }
}

/// Tests whether the selector picks a link of one of the subgroups.
fn subgroups_hit(subgroups: &Vec<SubGroup>, selector: &Selector) -> (found: bool)
    ensures
        found == any_hit(subgroups@, |subgroup: SubGroup| subgroup.hit(*selector)),
{
    let mut i: usize = 0;
    while i < subgroups.len()
        invariant
            i <= subgroups.len(),
            forall|j: int| 0 <= j < i ==> !(#[trigger] subgroups@[j]).hit(*selector),
        decreases subgroups.len() - i,
    {
        if subgroups[i].hits(selector) {
            return true;
        }
        i += 1;
    }
    false
}

/// Marks the first link of the subgroups that the selector picks.
fn activate_subgroups(subgroups: &mut Vec<SubGroup>, selector: &Selector)
    requires
        any_hit(old(subgroups)@, |subgroup: SubGroup| subgroup.hit(*selector)),
    ensures
        marks_first(
            old(subgroups)@,
            final(subgroups)@,
            |subgroup: SubGroup| subgroup.hit(*selector),
            |subgroup: SubGroup, marked: SubGroup| subgroup.marked(marked, *selector),
        ),
{
    let mut i: usize = 0;
    while i < subgroups.len()
        invariant
            i <= subgroups.len(),
            *subgroups == *old(subgroups),
            forall|j: int| 0 <= j < i ==> !(#[trigger] subgroups@[j]).hit(*selector),
        decreases subgroups.len() - i,
    {
        if subgroups[i].hits(selector) {
            subgroups[i].activate(selector);
            return ;
        }
        i += 1;
    }
}

impl From<IconLink> for NavItem {
    /// The icon link as it is.
    fn from(value: IconLink) -> (r: Self)
        ensures
            r == NavItem::Link(NavLink::Icon(value)),
    {
        NavItem::Link(NavLink::Icon(value))
    }
}

impl vstd::std_specs::convert::FromSpecImpl<IconLink> for NavItem {
    open spec fn obeys_from_spec() -> bool {
        true
    }

    open spec fn from_spec(value: IconLink) -> Self {
        NavItem::Link(NavLink::Icon(value))
    }
}

impl From<PlainLink> for NavItem {
    /// The plain link as it is.
    fn from(value: PlainLink) -> (r: Self)
        ensures
            r == NavItem::Link(NavLink::Plain(value)),
    {
        NavItem::Link(NavLink::Plain(value))
    }
}

impl vstd::std_specs::convert::FromSpecImpl<PlainLink> for NavItem {
    open spec fn obeys_from_spec() -> bool {
        true
    }

    open spec fn from_spec(value: PlainLink) -> Self {
        NavItem::Link(NavLink::Plain(value))
    }
}

/// A group of the menu: items under an optional label. Two groups are set
/// apart by a divider.
pub struct Group {
    /// The group's label, if it has one.
    pub label: Option<String>,
    /// The group's items.
    pub items: Vec<NavItem>,
}

impl Group {
    /// Whether the selector picks a link of this group.
    pub open spec fn hit(self, selector: Selector) -> bool {
        any_hit(self.items@, |item: NavItem| item.hit(selector))
    }

    /// Whether `after` is this group with the first link that the selector
    /// picks made active.
    pub open spec fn marked(self, after: Self, selector: Selector) -> bool {
        &&& after.label == self.label
        &&& marks_first(
            self.items@,
            after.items@,
            |item: NavItem| item.hit(selector),
            |item: NavItem, marked: NavItem| item.marked(marked, selector),
        )
    }

    /// Whether a link of this group is active.
    pub open spec fn some_active(self) -> bool {
        exists|i: int| 0 <= i < self.items@.len() && (#[trigger] self.items@[i]).some_active()
    }

    /// A group marked with a selector that picks one of its links has an
    /// active link.
    pub proof fn marking_activates(self, after: Self, selector: Selector)
        requires
            self.hit(selector),
            self.marked(after, selector),
        ensures
            after.some_active(),
    {
        let at = marking_marks_the_first_hit(
            self.items@,
            after.items@,
            |item: NavItem| item.hit(selector),
            |item: NavItem, marked: NavItem| item.marked(marked, selector),
        );
        self.items@[at].marking_activates(after.items@[at], selector);
    }

    /// An empty group without a label.
    pub fn unlabeled() -> (r: Self)
        ensures
            r.label is None,
            r.items@ == Seq::<NavItem>::empty(),
    {
        Group { label: None, items: Vec::new() }
    }

    /// An empty group under `label`.
    pub fn new(label: &str) -> (r: Self)
        ensures
            r.label is Some,
            r.label.unwrap()@ == label@,
            r.items@ == Seq::<NavItem>::empty(),
    {
        Group { label: Some(label.to_owned()), items: Vec::new() }
    }

    /// The same items under `label`.
    pub fn with_label(self, label: &str) -> (r: Self)
        ensures
            r.label is Some,
            r.label.unwrap()@ == label@,
            r.items == self.items,
    {
        Group { label: Some(label.to_owned()), items: self.items }
    }

    /// Adds what `item` converts into behind the items that are there.
    pub fn with_item<I: Into<NavItem>>(self, item: I) -> (r: Self)
        ensures
            r.label == self.label,
            r.items@.len() == self.items@.len() + 1,
            r.items@.drop_last() == self.items@,
            call_ensures(<I as Into<NavItem>>::into, (item,), r.items@.last()),
    {
        let mut r = self;
        r.items.push(item.into());
        assert(r.items@.drop_last() =~= self.items@);
        r
    }

    /// Tests whether the selector picks a link in here.
    fn hits(&self, selector: &Selector) -> (found: bool)
        ensures
            found == self.hit(*selector),
    {
        let mut i: usize = 0;
        while i < self.items.len()
            invariant
                i <= self.items.len(),
                forall|j: int| 0 <= j < i ==> !(#[trigger] self.items@[j]).hit(*selector),
            decreases self.items.len() - i,
        {
            if self.items[i].hits(selector) {
                return true;
            }
            i += 1;
        }
        false
    }

    /// Marks the first link in here that the selector picks.
    fn activate(&mut self, selector: &Selector)
        requires
            old(self).hit(*selector),
        ensures
            old(self).marked(*final(self), *selector),
    {
        let mut i: usize = 0;
        while i < self.items.len()
            invariant
                i <= self.items.len(),
                *self == *old(self),
                forall|j: int| 0 <= j < i ==> !(#[trigger] self.items@[j]).hit(*selector),
            decreases self.items.len() - i,
        {
            if self.items[i].hits(selector) {
                self.items[i].activate(selector);
                return ;
            }
            i += 1;
        }
    }
}

impl From<Vec<NavItem>> for Group {
    /// The items as a group without a label.
    fn from(value: Vec<NavItem>) -> (r: Self)
        ensures
            r.label is None,
            r.items == value,
    {
        Group { label: None, items: value }
    }
}

impl vstd::std_specs::convert::FromSpecImpl<Vec<NavItem>> for Group {
    open spec fn obeys_from_spec() -> bool {
        true
    }

    open spec fn from_spec(value: Vec<NavItem>) -> Self {
        Group { label: None, items: value }
    }
}

/// The dashboard's name and logo, and its left-hand menu.
pub struct Sidebar {
    pub name: String,
    pub logo: Icon,
    pub groups: Vec<Group>,
}

impl Sidebar {
    /// Whether the selector picks a link of this menu.
    pub open spec fn hit(self, selector: Selector) -> bool {
        any_hit(self.groups@, |group: Group| group.hit(selector))
    }

    /// Whether `after` is this menu with the first link that the selector
    /// picks, depth first, made active: that link's flag is set, the
    /// collapsible entry that holds it, if one does, is unfolded, and nothing
    /// else differs. Where the selector picks no link, nothing differs at all.
    pub open spec fn marked(self, after: Self, selector: Selector) -> bool {
        &&& after.name == self.name
        &&& after.logo == self.logo
        &&& marks_first(
            self.groups@,
            after.groups@,
            |group: Group| group.hit(selector),
            |group: Group, marked: Group| group.marked(marked, selector),
        )
    }

    /// Whether a link of this menu is active.
    pub open spec fn some_active(self) -> bool {
        exists|i: int| 0 <= i < self.groups@.len() && (#[trigger] self.groups@[i]).some_active()
    }

    /// A menu marked with a selector that picks one of its links has an
    /// active link.
    pub proof fn marking_activates(self, after: Self, selector: Selector)
        requires
            self.hit(selector),
            self.marked(after, selector),
        ensures
            after.some_active(),
    {
        let at = marking_marks_the_first_hit(
            self.groups@,
            after.groups@,
            |group: Group| group.hit(selector),
            |group: Group, marked: Group| group.marked(marked, selector),
        );
        self.groups@[at].marking_activates(after.groups@[at], selector);
    }

    /// A menu marked with a selector that picks none of its links is the
    /// menu as it was, group by group.
    pub proof fn marking_without_hit(self, after: Self, selector: Selector)
        requires
            !self.hit(selector),
            self.marked(after, selector),
        ensures
            after.name == self.name,
            after.logo == self.logo,
            after.groups@ == self.groups@,
    {
        marking_without_hit_changes_nothing(
            self.groups@,
            after.groups@,
            |group: Group| group.hit(selector),
            |group: Group, marked: Group| group.marked(marked, selector),
        );
    }

    /// A menu without groups.
    pub fn new(name: &str, logo: Icon) -> (r: Self)
        ensures
            r.name@ == name@,
            r.logo == logo,
            r.groups@ == Seq::<Group>::empty(),
    {
        Sidebar { name: name.to_owned(), logo, groups: Vec::new() }
    }

    /// Adds a group behind those that are there.
    pub fn with_group(self, group: Group) -> (r: Self)
        ensures
            r.name == self.name,
            r.logo == self.logo,
            r.groups@ == self.groups@.push(group),
    {
        let mut r = self;
        r.groups.push(group);
        r
    }

    /// Marks the first link whose label is `active_label`.
    pub fn with_active_label(self, active_label: &str) -> (r: Self)
        ensures
            self.marked(r, Selector::Label(active_label)),
            self.hit(Selector::Label(active_label)) ==> r.some_active(),
            !self.hit(Selector::Label(active_label)) ==> r == self,
    {
        self.with_active(&Selector::Label(active_label))
    }

    /// Marks the first link to a path that `current_path` ends with: the link
    /// of the page that is shown.
    pub fn with_active_from_path(self, current_path: &str) -> (r: Self)
        ensures
            self.marked(r, Selector::Path(current_path)),
            self.hit(Selector::Path(current_path)) ==> r.some_active(),
            !self.hit(Selector::Path(current_path)) ==> r == self,
    {
        self.with_active(&Selector::Path(current_path))
    }

    /// Marks the first link that the selector picks.
    pub fn with_active(self, selector: &Selector) -> (r: Self)
        ensures
            self.marked(r, *selector),
            self.hit(*selector) ==> r.some_active(),
            !self.hit(*selector) ==> r == self,
    {
        let mut r = self;
        let mut i: usize = 0;
        while i < r.groups.len()
            invariant
                i <= r.groups.len(),
                r == self,
                forall|j: int| 0 <= j < i ==> !(#[trigger] r.groups@[j]).hit(*selector),
            decreases r.groups.len() - i,
        {
            if r.groups[i].hits(selector) {
                r.groups[i].activate(selector);
                proof {
                    self.marking_activates(r, *selector);
                }
                return r;
            }
            i += 1;
        }
        r
    }
}

} // verus!
