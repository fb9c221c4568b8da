//! The widget of the user who is logged in.
use vstd::prelude::*;
use crate::links::IconLink;

verus! {

/// The user who is logged in, shown in the top right corner of the dashboard
/// with a menu.
pub struct UserInfo {
    /// The name that is shown.
    pub username: String,
    /// The address of the user's picture.
    pub image: String,
    /// The menu: lists of links, with a divider between two lists.
    pub groups: Vec<Vec<IconLink>>,
}

} // verus!
