//! The forms for logging in and signing up, and the navigation above them.
use vstd::prelude::*;
use crate::links::{NavLink, PlainLink};

verus! {

/// The form for logging in.
pub struct LoginForm {
    pub unauthenticated_nav: Option<UnauthenticatedNav>,
    pub submit_target: String,
    pub email: Option<String>,
    pub email_feedback: Option<String>,
    pub password_feedback: Option<String>,
}

/// The navigation that a visitor sees who is not logged in.
pub struct UnauthenticatedNav {
    pub header_link: PlainLink,
    pub login_link: Option<NavLink>,
    pub signup_link: Option<NavLink>,
}

/// The form for signing up.
pub struct SignupForm {
    pub unauthenticated_nav: Option<UnauthenticatedNav>,
    pub submit_target: String,
    pub email: Option<String>,
    pub email_feedback: Option<String>,
    pub password_feedback: Option<String>,
}

} // verus!
