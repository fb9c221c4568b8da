//! Attributes that ask the page for a partial refresh: which request to make,
//! on which events, into which element, and how the answer is swapped in.
//!
//! Every type here has a `text` in the mathematical sense, a sequence of
//! characters that says what is written into the markup, and a `to_string`
//! that is proved to produce exactly that text.
use std::time::Duration;
use vstd::prelude::*;
use vstd::string::StringExecFns;
use crate::text::{bool_text, bool_word, joined};

verus! {

/// The text that the debug form of a duration is, such as `1.5s` or `250ms`.
pub uninterp spec fn duration_debug(timing: Duration) -> Seq<char>;

/// Formats a duration with `std::fmt::Debug`, the form in which timings are
/// written into attributes. The contract names the text and claims no more
/// than that it depends on the duration alone.
#[verifier::external_body]
fn duration_text(timing: &Duration) -> (r: String)
    ensures
        r@ == duration_debug(*timing),
{
    format!("{:?}", timing)
}

/// A clone of a duration, `Clone::clone` of std on a `Copy` type, is the
/// duration itself.
pub assume_specification[ <std::time::Duration as std::clone::Clone>::clone ](
    timing: &std::time::Duration,
) -> (r: std::time::Duration)
    ensures
        r == *timing,
;

/// The conversion of a value into its own type, `From<T> for T` of std, hands
/// the value back unchanged.
pub assume_specification<X>[ <X as std::convert::From<X>>::from ](value: X) -> (r: X)
    ensures
        r == value,
;

/// The edge of an element that a swap scrolls to or shows.
#[derive(Debug, Clone, Copy, PartialEq, Eq, Structural)]
pub enum ScrollDirection {
    Top,
    Bottom,
}

impl ScrollDirection {
    /// What is written for this value.
    pub open spec fn text(self) -> Seq<char> {
        match self {
            ScrollDirection::Top => "top"@,
            ScrollDirection::Bottom => "bottom"@,
        }
    }

    /// What is written for this value, as a string slice.
    pub fn as_ref(&self) -> (r: &'static str)
        ensures
            r@ == self.text(),
    {
        match self {
            ScrollDirection::Top => "top",
            ScrollDirection::Bottom => "bottom",
        }
    }

    /// Writes the value out.
    pub fn to_string(&self) -> (r: String)
        ensures
            r@ == self.text(),
    {
        self.as_ref().to_owned()
    }
}

/// Which of the events that arrive during a request are kept.
#[derive(Debug, Clone, Copy, PartialEq, Eq, Structural)]
pub enum QueueOption {
    First,
    Last,
    All,
    Nothing,
}

impl QueueOption {
    /// What is written for this value.
    pub open spec fn text(self) -> Seq<char> {
        match self {
            QueueOption::First => "first"@,
            QueueOption::Last => "last"@,
            QueueOption::All => "all"@,
            QueueOption::Nothing => "none"@,
        }
    }

    /// What is written for this value, as a string slice.
    pub fn as_ref(&self) -> (r: &'static str)
        ensures
            r@ == self.text(),
    {
        match self {
            QueueOption::First => "first",
            QueueOption::Last => "last",
            QueueOption::All => "all",
            QueueOption::Nothing => "none",
        }
    }

    /// Writes the value out.
    pub fn to_string(&self) -> (r: String)
        ensures
            r@ == self.text(),
    {
        self.as_ref().to_owned()
    }
}

/// Where the answer is placed relative to the target element.
#[derive(Debug, Clone, PartialEq, Eq, PartialOrd, Ord)]
pub enum SwapTarget {
    InnerHtml,
    OuterHtml,
    BeforeBegin,
    AfterBegin,
    BeforeEnd,
    AfterEnd,
    Delete,
    Nothing,
}

impl Default for SwapTarget {
    /// The value that stands where none is given.
    fn default() -> (r: Self)
        ensures
            r == SwapTarget::InnerHtml,
    {
        SwapTarget::InnerHtml
    }
}

impl SwapTarget {
    /// What is written for this value.
    pub open spec fn text(self) -> Seq<char> {
        match self {
            SwapTarget::InnerHtml => "innerHTML"@,
            SwapTarget::OuterHtml => "outerHTML"@,
            SwapTarget::BeforeBegin => "beforebegin"@,
            SwapTarget::AfterBegin => "afterbegin"@,
            SwapTarget::BeforeEnd => "beforeend"@,
            SwapTarget::AfterEnd => "afterend"@,
            SwapTarget::Delete => "delete"@,
            SwapTarget::Nothing => "none"@,
        }
    }

    /// What is written for this value, as a string slice.
    pub fn as_ref(&self) -> (r: &'static str)
        ensures
            r@ == self.text(),
    {
        match self {
            SwapTarget::InnerHtml => "innerHTML",
            SwapTarget::OuterHtml => "outerHTML",
            SwapTarget::BeforeBegin => "beforebegin",
            SwapTarget::AfterBegin => "afterbegin",
            SwapTarget::BeforeEnd => "beforeend",
            SwapTarget::AfterEnd => "afterend",
            SwapTarget::Delete => "delete",
            SwapTarget::Nothing => "none",
        }
    }

    /// Writes the value out.
    pub fn to_string(&self) -> (r: String)
        ensures
            r@ == self.text(),
    {
        self.as_ref().to_owned()
    }
}

/// The element that receives the answer.
#[derive(Debug, Clone)]
pub enum Target {
    This,
    Closest(String),
    Find(String),
    Next(String),
    Previous(String),
    Specific(String),
}

impl Target {
    /// What is written for this value: `this`, a bare selector, or a keyword,
    /// one space and the selector that the keyword starts from.
    pub open spec fn text(self) -> Seq<char> {
        match self {
            Target::This => "this"@,
            Target::Closest(value) => "closest "@ + value@,
            Target::Find(value) => "find "@ + value@,
            Target::Next(value) => "next "@ + value@,
            Target::Previous(value) => "previous "@ + value@,
            Target::Specific(value) => value@,
        }
    }

    /// Writes the value out.
    pub fn to_string(&self) -> (r: String)
        ensures
            r@ == self.text(),
    {
        match self {
            Target::This => "this".to_owned(),
            Target::Closest(value) => joined("closest ", value.as_str()),
            Target::Find(value) => joined("find ", value.as_str()),
            Target::Next(value) => joined("next ", value.as_str()),
            Target::Previous(value) => joined("previous ", value.as_str()),
            Target::Specific(value) => value.clone(),
        }
    }
}

impl From<&'static str> for Target {
    /// A bare selector names a specific element.
    fn from(value: &'static str) -> (r: Self)
        ensures
            r is Specific,
            r->Specific_0@ == value@,
    {
        Target::Specific(value.to_owned())
    }
}

// The conversion makes a new string or vector, which ghost code cannot
// build: what it returns is stated by the `ensures` of `from`.
impl vstd::std_specs::convert::FromSpecImpl<&'static str> for Target {
    open spec fn obeys_from_spec() -> bool {
        false
    }

    open spec fn from_spec(value: &'static str) -> Self {
        arbitrary()
    }
}

impl From<String> for Target {
    /// A bare selector names a specific element.
    fn from(value: String) -> (r: Self)
        ensures
            r == Target::Specific(value),
    {
        Target::Specific(value)
    }
}

impl vstd::std_specs::convert::FromSpecImpl<String> for Target {
    open spec fn obeys_from_spec() -> bool {
        true
    }

    open spec fn from_spec(value: String) -> Self {
        Target::Specific(value)
    }
}

/// The event that starts a request.
#[derive(Debug, Clone, Copy)]
pub enum TriggerEvent {
    Load,
    Click,
    MouseEnter,
    KeyUp,
    Revealed,
    Every(Duration),
}

impl TriggerEvent {
    /// What is written for this value.
    pub open spec fn text(self) -> Seq<char> {
        match self {
            TriggerEvent::Load => "load"@,
            TriggerEvent::Click => "click"@,
            TriggerEvent::MouseEnter => "mouseenter"@,
            TriggerEvent::KeyUp => "keyup"@,
            TriggerEvent::Revealed => "revealed"@,
            TriggerEvent::Every(timing) => "every "@ + duration_debug(timing),
        }
    }

    /// Writes the value out.
    pub fn to_string(&self) -> (r: String)
        ensures
            r@ == self.text(),
    {
        match self {
            TriggerEvent::Load => "load".to_owned(),
            TriggerEvent::Click => "click".to_owned(),
            TriggerEvent::MouseEnter => "mouseenter".to_owned(),
            TriggerEvent::KeyUp => "keyup".to_owned(),
            TriggerEvent::Revealed => "revealed".to_owned(),
            TriggerEvent::Every(timing) => {
                let timing = duration_text(timing);
                joined("every ", timing.as_str())
            },
        }
    }

    /// A trigger on this event that fires only while `conditional` holds.
    pub fn with_conditional(self, conditional: &str) -> (r: Trigger)
        ensures
            r.event == self,
            r.conditional is Some,
            r.conditional.unwrap()@ == conditional@,
            r.modifiers@ == Seq::<EventModifier>::empty(),
    {
        Trigger::from(self).with_conditional(conditional)
    }

    /// A trigger on this event with one modifier.
    pub fn with_modifier(self, modifier: EventModifier) -> (r: Trigger)
        ensures
            r.event == self,
            r.conditional is None,
            r.modifiers@ == seq![modifier],
    {
        let r = Trigger::from(self).with_modifier(modifier);
        assert(r.modifiers@ =~= seq![modifier]);
        r
    }
}

/// What changes the way an event fires.
#[derive(Debug, Clone)]
pub enum EventModifier {
    Once,
    Changed,
    Delay(Duration),
    Throttle(Duration),
    From(String),
    Target(String),
    Consume,
    Queue(QueueOption),
}

impl EventModifier {
    /// What is written for this value.
    pub open spec fn text(self) -> Seq<char> {
        match self {
            EventModifier::Once => "once"@,
            EventModifier::Changed => "changed"@,
            EventModifier::Delay(timing) => "delay:"@ + duration_debug(timing),
            EventModifier::Throttle(timing) => "throttle:"@ + duration_debug(timing),
            EventModifier::From(from) => "from:"@ + from@,
            EventModifier::Target(target) => "target:"@ + target@,
            EventModifier::Consume => "consume"@,
            EventModifier::Queue(option) => "queue:"@ + option.text(),
        }
    }

    /// Writes the value out.
    pub fn to_string(&self) -> (r: String)
        ensures
            r@ == self.text(),
    {
        match self {
            EventModifier::Once => "once".to_owned(),
            EventModifier::Changed => "changed".to_owned(),
            EventModifier::Delay(timing) => {
                let timing = duration_text(timing);
                joined("delay:", timing.as_str())
            },
            EventModifier::Throttle(timing) => {
                let timing = duration_text(timing);
                joined("throttle:", timing.as_str())
            },
            EventModifier::From(from) => joined("from:", from.as_str()),
            EventModifier::Target(target) => joined("target:", target.as_str()),
            EventModifier::Consume => "consume".to_owned(),
            EventModifier::Queue(option) => joined("queue:", option.as_ref()),
        }
    }
}

/// The text of a trigger's modifiers: each one behind a space, in order.
pub open spec fn modifiers_text(modifiers: Seq<EventModifier>) -> Seq<char>
    decreases modifiers.len(),
{
    if modifiers.len() == 0 {
        Seq::empty()
    } else {
        modifiers_text(modifiers.drop_last()) + " "@ + modifiers.last().text()
    }
}

/// A modifier added behind the others is written behind their text, after a
/// space.
pub proof fn modifiers_text_of_push(modifiers: Seq<EventModifier>, modifier: EventModifier)
    ensures
        modifiers_text(modifiers.push(modifier)) == modifiers_text(modifiers) + " "@
            + modifier.text(),
{
    assert(modifiers.push(modifier).drop_last() =~= modifiers);
}

/// The text of a trigger's condition: in square brackets behind a space, or
/// nothing where there is none.
pub open spec fn conditional_text(conditional: Option<String>) -> Seq<char> {
    match conditional {
        Some(expression) => " ["@ + expression@ + "]"@,
        None => Seq::empty(),
    }
}

/// An event with its modifiers and an optional condition.
#[derive(Debug, Clone)]
pub struct Trigger {
    pub event: TriggerEvent,
    pub conditional: Option<String>,
    pub modifiers: Vec<EventModifier>,
}

impl Trigger {
    /// The event, then the modifiers, then the condition.
    pub open spec fn text(self) -> Seq<char> {
        self.event.text() + modifiers_text(self.modifiers@) + conditional_text(self.conditional)
    }

    /// Sets the condition, in place of an earlier one.
    pub fn with_conditional(self, conditional: &str) -> (r: Self)
        ensures
            r.event == self.event,
            r.modifiers == self.modifiers,
            r.conditional is Some,
            r.conditional.unwrap()@ == conditional@,
    {
        let mut r = self;
        r.conditional = Some(conditional.to_owned());
        r
    }

    /// Adds a modifier behind those that are there.
    pub fn with_modifier(self, modifier: EventModifier) -> (r: Self)
        ensures
            r.event == self.event,
            r.conditional == self.conditional,
            r.modifiers@ == self.modifiers@.push(modifier),
    {
        let mut r = self;
        r.modifiers.push(modifier);
        r
    }

    /// Writes the value out.
    pub fn to_string(&self) -> (r: String)
        ensures
            r@ == self.text(),
    {
        let mut out = self.event.to_string();
        let mut i: usize = 0;
        while i < self.modifiers.len()
            invariant
                i <= self.modifiers.len(),
                out@ == self.event.text() + modifiers_text(self.modifiers@.subrange(0, i as int)),
            decreases self.modifiers.len() - i,
        {
            let modifier = self.modifiers[i].to_string();
            out.append(" ");
            out.append(modifier.as_str());
            proof {
                let before = self.modifiers@.subrange(0, i as int);
                let after = self.modifiers@.subrange(0, i + 1);
                assert(after.drop_last() =~= before);
                assert(after.last() == self.modifiers@[i as int]);
                assert(out@ =~= self.event.text() + modifiers_text(after));
            }
            i += 1;
        }
        assert(self.modifiers@.subrange(0, i as int) =~= self.modifiers@);
        match &self.conditional {
            Some(expression) => {
                out.append(" [");
                out.append(expression.as_str());
                out.append("]");
                assert(out@ =~= self.text());
            },
            None => {
                assert(out@ =~= self.text());
            },
        }
        out
    }
}

impl From<TriggerEvent> for Trigger {
    /// The bare event: no modifier and no condition.
    fn from(value: TriggerEvent) -> (r: Self)
        ensures
            r.event == value,
            r.conditional is None,
            r.modifiers@ == Seq::<EventModifier>::empty(),
    {
        Trigger { event: value, conditional: None, modifiers: Vec::new() }
    }
}

// The conversion makes a new string or vector, which ghost code cannot
// build: what it returns is stated by the `ensures` of `from`.
impl vstd::std_specs::convert::FromSpecImpl<TriggerEvent> for Trigger {
    open spec fn obeys_from_spec() -> bool {
        false
    }

    open spec fn from_spec(value: TriggerEvent) -> Self {
        arbitrary()
    }
}

/// Options of a swap: each is written only where it is set.
#[derive(Debug, Clone)]
pub struct SwapModifiers {
    pub transition: Option<bool>,
    pub swap_delay: Option<Duration>,
    pub settle_delay: Option<Duration>,
    pub ignore_title: Option<bool>,
    pub scroll: Option<ScrollDirection>,
    pub show: Option<ScrollDirection>,
}

/// A boolean option of a swap: its key and the word, or nothing.
pub open spec fn flag_text(key: Seq<char>, flag: Option<bool>) -> Seq<char> {
    match flag {
        Some(value) => key + bool_word(value),
        None => Seq::empty(),
    }
}

/// A timing option of a swap: its key and the duration, or nothing.
pub open spec fn delay_text(key: Seq<char>, delay: Option<Duration>) -> Seq<char> {
    match delay {
        Some(timing) => key + duration_debug(timing),
        None => Seq::empty(),
    }
}

/// A scrolling option of a swap: its key and the edge, or nothing.
pub open spec fn direction_text(key: Seq<char>, direction: Option<ScrollDirection>) -> Seq<char> {
    match direction {
        Some(edge) => key + edge.text(),
        None => Seq::empty(),
    }
}

impl SwapModifiers {
    /// The options that are set, each behind a space, in a fixed order:
    /// transition, swap delay, settle delay, title, scroll, show.
    pub open spec fn text(self) -> Seq<char> {
        flag_text(" transition:"@, self.transition) + delay_text(" swap:"@, self.swap_delay)
            + delay_text(" settle:"@, self.settle_delay) + flag_text(
            " ignoreTitle:"@,
            self.ignore_title,
        ) + direction_text(" scroll:"@, self.scroll) + direction_text(" show:"@, self.show)
    }

    /// Writes the value out.
    pub fn to_string(&self) -> (r: String)
        ensures
            r@ == self.text(),
    {
        let mut out = flag_string(" transition:", &self.transition);
        let swap_delay = delay_string(" swap:", &self.swap_delay);
        out.append(swap_delay.as_str());
        let settle_delay = delay_string(" settle:", &self.settle_delay);
        out.append(settle_delay.as_str());
        let ignore_title = flag_string(" ignoreTitle:", &self.ignore_title);
        out.append(ignore_title.as_str());
        let scroll = direction_string(" scroll:", &self.scroll);
        out.append(scroll.as_str());
        let show = direction_string(" show:", &self.show);
        out.append(show.as_str());
        out
    }
}

/// Writes a boolean option of a swap.
fn flag_string(key: &str, flag: &Option<bool>) -> (r: String)
    ensures
        r@ == flag_text(key@, *flag),
{
    match flag {
        Some(value) => joined(key, bool_text(*value)),
        None => String::new(),
    }
}

/// Writes a timing option of a swap.
fn delay_string(key: &str, delay: &Option<Duration>) -> (r: String)
    ensures
        r@ == delay_text(key@, *delay),
{
    match delay {
        Some(timing) => {
            let timing = duration_text(timing);
            joined(key, timing.as_str())
        },
        None => String::new(),
    }
}

/// Writes a scrolling option of a swap.
fn direction_string(key: &str, direction: &Option<ScrollDirection>) -> (r: String)
    ensures
        r@ == direction_text(key@, *direction),
{
    match direction {
        Some(edge) => joined(key, edge.as_ref()),
        None => String::new(),
    }
}

/// How the answer is swapped in.
#[derive(Debug, Clone)]
pub struct Swap {
    pub target: SwapTarget,
    pub modifiers: Option<SwapModifiers>,
}

impl Swap {
    /// The text of the options, or nothing where there are none.
    pub open spec fn modifiers_text(self) -> Seq<char> {
        match self.modifiers {
            Some(modifiers) => modifiers.text(),
            None => Seq::empty(),
        }
    }

    /// The swap attribute: the placement, then the options, in quotes.
    pub open spec fn text(self) -> Seq<char> {
        "hx-swap=\""@ + self.target.text() + self.modifiers_text() + "\""@
    }

    /// Writes the value out.
    pub fn to_string(&self) -> (r: String)
        ensures
            r@ == self.text(),
    {
        let mut out = joined("hx-swap=\"", self.target.as_ref());
        if let Some(modifiers) = &self.modifiers {
            let options = modifiers.to_string();
            out.append(options.as_str());
        }
        assert(out@ =~= "hx-swap=\""@ + self.target.text() + self.modifiers_text());
        out.append("\"");
        out
    }
}

impl From<SwapTarget> for Swap {
    /// The bare placement, without options.
    fn from(value: SwapTarget) -> (r: Self)
        ensures
            r.target == value,
            r.modifiers is None,
    {
        Swap { target: value, modifiers: None }
    }
}

impl vstd::std_specs::convert::FromSpecImpl<SwapTarget> for Swap {
    open spec fn obeys_from_spec() -> bool {
        true
    }

    open spec fn from_spec(value: SwapTarget) -> Self {
        Swap { target: value, modifiers: None }
    }
}

/// The request that is made: its method and the path.
#[derive(Debug, Clone)]
pub enum Request {
    Get(String),
    Post(String),
}

impl Request {
    /// The request attribute: the method's attribute name and the path in
    /// quotes.
    pub open spec fn text(self) -> Seq<char> {
        match self {
            Request::Get(path) => "hx-get=\""@ + path@ + "\""@,
            Request::Post(path) => "hx-post=\""@ + path@ + "\""@,
        }
    }

    /// Writes the value out.
    pub fn to_string(&self) -> (r: String)
        ensures
            r@ == self.text(),
    {
        match self {
            Request::Get(path) => {
                let mut out = joined("hx-get=\"", path.as_str());
                out.append("\"");
                out
            },
            Request::Post(path) => {
                let mut out = joined("hx-post=\"", path.as_str());
                out.append("\"");
                out
            },
        }
    }
}

/// The target attribute, behind a space, or nothing where no target is set.
pub open spec fn target_attribute(target: Option<Target>) -> Seq<char> {
    match target {
        Some(target) => " hx-target=\""@ + target.text() + "\""@,
        None => Seq::empty(),
    }
}

/// The triggers in order, with a comma and a space between two of them.
pub open spec fn triggers_text(triggers: Seq<Trigger>) -> Seq<char>
    decreases triggers.len(),
{
    if triggers.len() == 0 {
        Seq::empty()
    } else if triggers.len() == 1 {
        triggers[0].text()
    } else {
        triggers_text(triggers.drop_last()) + ", "@ + triggers.last().text()
    }
}

/// A trigger added behind the others is written behind their text, after a
/// comma and a space; the first trigger is written alone.
pub proof fn triggers_text_of_push(triggers: Seq<Trigger>, trigger: Trigger)
    ensures
        triggers_text(triggers.push(trigger)) == if triggers.len() == 0 {
            trigger.text()
        } else {
            triggers_text(triggers) + ", "@ + trigger.text()
        },
{
    assert(triggers.push(trigger).drop_last() =~= triggers);
}

/// The trigger attribute, behind a space, or nothing where there is no trigger.
pub open spec fn trigger_attribute(triggers: Seq<Trigger>) -> Seq<char> {
    if triggers.len() == 0 {
        Seq::empty()
    } else {
        " hx-trigger=\""@ + triggers_text(triggers) + "\""@
    }
}

/// The swap attribute, behind a space, or nothing where no swap is set.
pub open spec fn swap_attribute(swap: Option<Swap>) -> Seq<char> {
    match swap {
        Some(swap) => " "@ + swap.text(),
        None => Seq::empty(),
    }
}

/// A request and what is done with its answer.
#[derive(Debug, Clone)]
pub struct HxSwap {
    pub url: Request,
    pub target: Option<Target>,
    pub triggers: Vec<Trigger>,
    pub swap: Option<Swap>,
}

impl HxSwap {
    /// The attributes in order: request, target, triggers, swap.
    pub open spec fn text(self) -> Seq<char> {
        self.url.text() + target_attribute(self.target) + trigger_attribute(self.triggers@)
            + swap_attribute(self.swap)
    }

    /// A request without target, trigger and swap is written as the request
    /// attribute alone.
    pub proof fn text_of_bare_request(self)
        requires
            self.target is None,
            self.triggers@.len() == 0,
            self.swap is None,
        ensures
            self.text() == self.url.text(),
    {
        assert(self.text() =~= self.url.text());
    }

    /// A GET of `path`, with no target, trigger or swap.
    pub fn get(path: &str) -> (r: Self)
        ensures
            r.url is Get,
            r.url->Get_0@ == path@,
            r.target is None,
            r.triggers@ == Seq::<Trigger>::empty(),
            r.swap is None,
    {
        HxSwap { url: Request::Get(path.to_owned()), target: None, triggers: Vec::new(), swap: None }
    }

    /// A POST to `path`, with no target, trigger or swap.
    pub fn post(path: &str) -> (r: Self)
        ensures
            r.url is Post,
            r.url->Post_0@ == path@,
            r.target is None,
            r.triggers@ == Seq::<Trigger>::empty(),
            r.swap is None,
    {
        HxSwap {
            url: Request::Post(path.to_owned()),
            target: None,
            triggers: Vec::new(),
            swap: None,
        }
    }

    /// Sets the target, in place of an earlier one, to what `target` converts
    /// into.
    pub fn with_target<T: Into<Target>>(self, target: T) -> (r: Self)
        ensures
            r.url == self.url,
            r.target is Some,
            call_ensures(<T as Into<Target>>::into, (target,), r.target.unwrap()),
            r.triggers == self.triggers,
            r.swap == self.swap,
    {
        let mut r = self;
        r.target = Some(target.into());
        r
    }

    /// Adds what `trigger` converts into behind the triggers that are there.
    pub fn with_trigger<T: Into<Trigger>>(self, trigger: T) -> (r: Self)
        ensures
            r.url == self.url,
            r.target == self.target,
            r.triggers@.len() == self.triggers@.len() + 1,
            r.triggers@.drop_last() == self.triggers@,
            call_ensures(<T as Into<Trigger>>::into, (trigger,), r.triggers@.last()),
            r.swap == self.swap,
    {
        let mut r = self;
        r.triggers.push(trigger.into());
        assert(r.triggers@.drop_last() =~= self.triggers@);
        r
    }

    /// Sets the swap, in place of an earlier one, to what `swap` converts into.
    pub fn with_swap<T: Into<Swap>>(self, swap: T) -> (r: Self)
        ensures
            r.url == self.url,
            r.target == self.target,
            r.triggers == self.triggers,
            r.swap is Some,
            call_ensures(<T as Into<Swap>>::into, (swap,), r.swap.unwrap()),
    {
        let mut r = self;
        r.swap = Some(swap.into());
        r
    }

    /// Writes the triggers with their separators.
    fn triggers_string(&self) -> (r: String)
        ensures
            r@ == triggers_text(self.triggers@),
    {
        let mut out = String::new();
        let mut i: usize = 0;
        while i < self.triggers.len()
            invariant
                i <= self.triggers.len(),
                out@ == triggers_text(self.triggers@.subrange(0, i as int)),
            decreases self.triggers.len() - i,
        {
            let trigger = self.triggers[i].to_string();
            if i > 0 {
                out.append(", ");
            }
            out.append(trigger.as_str());
            proof {
                let before = self.triggers@.subrange(0, i as int);
                let after = self.triggers@.subrange(0, i + 1);
                assert(after.drop_last() =~= before);
                assert(after.last() == self.triggers@[i as int]);
                assert(after[0] == self.triggers@[0]);
                assert(out@ =~= triggers_text(after));
            }
            i += 1;
        }
        assert(self.triggers@.subrange(0, i as int) =~= self.triggers@);
        out
    }

    /// Writes the value out.
    pub fn to_string(&self) -> (r: String)
        ensures
            r@ == self.text(),
    {
        let mut out = self.url.to_string();
        if let Some(target) = &self.target {
            let target = target.to_string();
            out.append(" hx-target=\"");
            out.append(target.as_str());
            out.append("\"");
        }
        assert(out@ =~= self.url.text() + target_attribute(self.target));
        let ghost first = out@;
        if self.triggers.len() > 0 {
            let triggers = self.triggers_string();
            out.append(" hx-trigger=\"");
            out.append(triggers.as_str());
            out.append("\"");
        }
        assert(out@ =~= first + trigger_attribute(self.triggers@));
        let ghost second = out@;
        if let Some(swap) = &self.swap {
            let swap = swap.to_string();
            out.append(" ");
            out.append(swap.as_str());
        }
        assert(out@ =~= second + swap_attribute(self.swap));
        out
    }
}

/// A value that the page refreshes by itself where a request is attached.
#[derive(Debug, Clone)]
pub struct Dynamic<T> {
    pub content: T,
    pub hx: Option<HxSwap>,
}

impl<T> Dynamic<T> {
    /// `value`, refreshed by `hx`.
    pub fn new(value: T, hx: HxSwap) -> (r: Self)
        ensures
            r.content == value,
            r.hx == Some(hx),
    {
        Dynamic { content: value, hx: Some(hx) }
    }

    /// The same content, refreshed by `hx` in place of an earlier request.
    pub fn with_hx(self, hx: HxSwap) -> (r: Self)
        ensures
            r.content == self.content,
            r.hx == Some(hx),
    {
        Dynamic { content: self.content, hx: Some(hx) }
    }

    /// The attributes of the attached request, if there is one.
    pub fn attributes(&self) -> (r: Option<String>)
        ensures
            r is Some == self.hx is Some,
            r is Some ==> r.unwrap()@ == self.hx.unwrap().text(),
    {
        match &self.hx {
            Some(hx) => Some(hx.to_string()),
            None => None,
        }
    }
}

impl<T> From<T> for Dynamic<T> {
    /// `value` as it is, with no request attached.
    fn from(value: T) -> (r: Self)
        ensures
            r.content == value,
            r.hx is None,
    {
        Dynamic { content: value, hx: None }
    }
}

impl<T> vstd::std_specs::convert::FromSpecImpl<T> for Dynamic<T> {
    open spec fn obeys_from_spec() -> bool {
        true
    }

    open spec fn from_spec(value: T) -> Self {
        Dynamic { content: value, hx: None }
    }
}

/// Attaches a request to any value.
pub trait IntoDynamic: Sized {
    /// The value, refreshed by `hx`.
    fn with_hx(self, hx: HxSwap) -> (r: Dynamic<Self>)
        ensures
            r.content == self,
            r.hx == Some(hx),
    ;
}

impl<T> IntoDynamic for T {
    fn with_hx(self, hx: HxSwap) -> (r: Dynamic<Self>) {
        Dynamic::new(self, hx)
    }
}

} // verus!
