//! Which access key owns the buckets a request works on.

use vstd::prelude::*;

verus! {

/// The access key that owns the buckets when none is configured.
pub open spec fn default_owner_access_key() -> Seq<char> {
    "local-dev"@
}

/// The owner of the buckets: the configured access key when there is one
/// (even an empty one), else `local-dev`.
pub fn owner_or_default(configured: Option<String>) -> (owner: String)
    ensures
        owner@ == match configured {
            Some(key) => key@,
            None => default_owner_access_key(),
        },
{
    match configured {
        Some(key) => key,
        None => String::from_str("local-dev"),
    }
}

} // verus!
