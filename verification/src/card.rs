//! Cards: framed content with a header, buttons and a context menu.
use vstd::prelude::*;
use crate::color::Color;
use crate::links::{LinkAction, PlainLink};

verus! {

/// Framed content with an optional header, buttons and a context menu.
pub struct Card<Content = &'static str> {
    pub header: Option<String>,
    pub buttons: Vec<CardButton>,
    pub context_links: Vec<ContextGroup>,
    pub content: Content,
}

/// A group of a card's context menu: links under an optional label. Two
/// groups are set apart by a divider.
pub struct ContextGroup {
    /// The group's label, if it has one.
    pub label: Option<String>,
    /// The group's links.
    pub items: Vec<PlainLink>,
    /// The colour of the text, if one is set.
    pub color: Option<Color>,
}

impl Default for ContextGroup {
    /// An empty group without label or colour.
    fn default() -> (r: Self)
        ensures
            r.label is None,
            r.items@ == Seq::<PlainLink>::empty(),
            r.color is None,
    {
        ContextGroup { label: None, items: Vec::new(), color: None }
    }
}

impl ContextGroup {
    /// An empty group under `label`, without a colour.
    pub fn new(label: &str) -> (r: Self)
        ensures
            r.label is Some,
            r.label.unwrap()@ == label@,
            r.items@ == Seq::<PlainLink>::empty(),
            r.color is None,
    {
        ContextGroup { label: Some(label.to_owned()), items: Vec::new(), color: None }
    }

    /// Sets the colour.
    pub fn with_color(self, color: Color) -> (r: Self)
        ensures
            r == (ContextGroup { color: Some(color), ..self }),
    {
        let mut r = self;
        r.color = Some(color);
        r
    }

    /// Adds an inactive link behind those that are there.
    pub fn with_link(self, label: &str, action: LinkAction) -> (r: Self)
        ensures
            r.label == self.label,
            r.color == self.color,
            r.items@.len() == self.items@.len() + 1,
            r.items@.drop_last() == self.items@,
            r.items@.last().label@ == label@,
            r.items@.last().action == action,
            !r.items@.last().active,
    {
        let mut r = self;
        r.items.push(PlainLink::new(label, action));
        assert(r.items@.drop_last() =~= self.items@);
        r
    }
}

impl<Content> Card<Content> {
    /// A card with nothing but its content.
    pub fn new(content: Content) -> (r: Self)
        ensures
            r.header is None,
            r.buttons@ == Seq::<CardButton>::empty(),
            r.context_links@ == Seq::<ContextGroup>::empty(),
            r.content == content,
    {
        Card { header: None, buttons: Vec::new(), context_links: Vec::new(), content }
    }

    /// Sets the header, in place of an earlier one.
    pub fn with_header(self, header: &str) -> (r: Self)
        ensures
            r.header is Some,
            r.header.unwrap()@ == header@,
            r.buttons == self.buttons,
            r.context_links == self.context_links,
            r.content == self.content,
    {
        let mut r = self;
        r.header = Some(header.to_owned());
        r
    }

    /// Adds a group to the context menu, behind those that are there.
    pub fn with_context_group(self, group: ContextGroup) -> (r: Self)
        ensures
            r.header == self.header,
            r.buttons == self.buttons,
            r.context_links@ == self.context_links@.push(group),
            r.content == self.content,
    {
        let mut r = self;
        r.context_links.push(group);
        r
    }

    /// Adds a button behind those that are there.
    pub fn with_button(self, button: CardButton) -> (r: Self)
        ensures
            r.header == self.header,
            r.buttons@ == self.buttons@.push(button),
            r.context_links == self.context_links,
            r.content == self.content,
    {
        let mut r = self;
        r.buttons.push(button);
        r
    }
}

/// A button in a card's header.
pub struct CardButton {
    pub label: String,
    pub color: Color,
    pub outline: bool,
    pub action: Option<LinkAction>,
}

impl CardButton {
    /// A filled button in the primary colour that does nothing yet.
    pub fn new(label: &str) -> (r: Self)
        ensures
            r.label@ == label@,
            r.color == Color::Primary,
            !r.outline,
            r.action is None,
    {
        CardButton { label: label.to_owned(), color: Color::Primary, outline: false, action: None }
    }

    /// Sets what a press on the button does.
    pub fn with_action(self, action: LinkAction) -> (r: Self)
        ensures
            r == (CardButton { action: Some(action), ..self }),
    {
        let mut r = self;
        r.action = Some(action);
        r
    }

    /// Draws the button as an outline.
    pub fn with_outline(self) -> (r: Self)
        ensures
            r == (CardButton { outline: true, ..self }),
    {
        let mut r = self;
        r.outline = true;
        r
    }

    /// Sets the colour.
    pub fn with_color(self, color: Color) -> (r: Self)
        ensures
            r == (CardButton { color, ..self }),
    {
        let mut r = self;
        r.color = color;
        r
    }
}

} // verus!
