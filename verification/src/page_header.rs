//! The heading above a page's content.
use vstd::prelude::*;

verus! {

/// The heading above a page's content.
pub struct PageHeader {
    pub label: String,
}

impl PageHeader {
    /// A value with this label.
    pub fn new(label: &str) -> (r: Self)
        ensures
            r.label@ == label@,
    {
        PageHeader { label: label.to_owned() }
    }
}

impl From<&'static str> for PageHeader {
    /// A header with this label.
    fn from(value: &'static str) -> (r: Self)
        ensures
            r.label@ == value@,
    {
        PageHeader::new(value)
    }
}

// The conversion makes a new string or vector, which ghost code cannot
// build: what it returns is stated by the `ensures` of `from`.
impl vstd::std_specs::convert::FromSpecImpl<&'static str> for PageHeader {
    open spec fn obeys_from_spec() -> bool {
        false
    }

    open spec fn from_spec(value: &'static str) -> Self {
        arbitrary()
    }
}

impl From<String> for PageHeader {
    /// A header with this label.
    fn from(value: String) -> (r: Self)
        ensures
            r.label == value,
    {
        PageHeader { label: value }
    }
}

impl vstd::std_specs::convert::FromSpecImpl<String> for PageHeader {
    open spec fn obeys_from_spec() -> bool {
        true
    }

    open spec fn from_spec(value: String) -> Self {
        PageHeader { label: value }
    }
}

} // verus!
