//! A dialog that a link can toggle.
use vstd::prelude::*;

verus! {

/// A dialog with a header, a body and one confirming action.
pub struct Modal {
    pub id: String,
    pub header: String,
    pub content: String,
    pub action: ModalAction,
    pub confirm: String,
}

/// The request that confirming a dialog makes.
#[derive(Debug, Clone)]
pub enum ModalAction {
    Post(String),
    Get(String),
}

} // verus!
