//! Building the request URL for the provider's REST API.

use vstd::prelude::*;

verus! {

/// The URL of a user's resource: the user's own record when `resource` is
/// `None`, or the named sub-resource (such as the events feed) under it.
pub fn api_url(user_name: &str, resource: &Option<String>) -> (r: String)
    ensures
        resource matches Some(res) ==> r@ == "https://api.github.com/users/"@ + user_name@ + "/"@
            + res@,
        resource is None ==> r@ == "https://api.github.com/users/"@ + user_name@,
{
    let base = String::from_str("https://api.github.com/users/").concat(user_name);
    match resource {
        Some(res) => base.concat("/").concat(res.as_str()),
        None => base,
    }
}

} // verus!
