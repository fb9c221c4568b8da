//! The page that reports an error.
use vstd::prelude::*;

verus! {

/// An error page: a title and a message of any kind.
pub struct Error<T> {
    pub title: String,
    pub message: T,
}

impl<T> Error<T> {
    /// An error page with this title and message.
    pub fn new(title: &str, message: T) -> (r: Self)
        ensures
            r.title@ == title@,
            r.message == message,
    {
        Self { title: title.to_owned(), message }
    }
}

} // verus!
