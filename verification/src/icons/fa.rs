//! The solid Font Awesome icons that dashboards commonly use.
use vstd::prelude::*;
use crate::icons::Icon;

verus! {

pub const BELL: Icon = "fa-bell";

pub const COGS: Icon = "fa-cogs";

pub const DOOR_CLOSED: Icon = "fa-door-closed";

pub const EXCLAMATION_CIRCLE: Icon = "fa-exclamation-circle";

pub const LAUGH_SQUINT: Icon = "fa-laugh-squint";

pub const LAUGH_WINK: Icon = "fa-laugh-wink";

pub const LIST: Icon = "fa-list";

pub const SIGN_OUT_ALT: Icon = "fa-sign-out-alt";

pub const TACHOMETER_ALT: Icon = "fa-tachometer-alt";

pub const TICKET_ALT: Icon = "fa-ticket-alt";

pub const USER: Icon = "fa-user";

} // verus!
