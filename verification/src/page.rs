//! The shared page context the excluded web layer renders around every
//! view.

use vstd::prelude::*;

verus! {

/// The base context of every rendered page.
pub struct BaseTemplate {
    pub title: String,
    pub enabled_login: bool,
}

impl BaseTemplate {
    /// A context with the given title and the login affordance enabled.
    pub fn new(title: &str) -> (r: BaseTemplate)
        ensures
            r.title@ == title@,
            r.enabled_login,
    {
        BaseTemplate { title: title.to_owned(), enabled_login: true }
    }
}

} // verus!
