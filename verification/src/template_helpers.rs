//! What the page templates are given besides the data of a page.

use vstd::prelude::*;

verus! {

/// The name under which the application presents itself: the configured one,
/// or `MiniPress` where none is configured.
pub fn app_name(configured: Option<String>) -> (name: String)
    ensures
        name@ == (match configured {
            Some(v) => v@,
            None => "MiniPress"@,
        }),
{
    match configured {
        Some(v) => v,
        None => "MiniPress".to_owned(),
    }
}

} // verus!
