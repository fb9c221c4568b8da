//! Font Awesome icons, each known by the class that draws it.
use vstd::prelude::*;

pub mod fa;

verus! {

/// An icon: the class name that the icon font knows it by.
pub type Icon = &'static str;

} // verus!
