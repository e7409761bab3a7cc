//! Cache keys of the user recap entries.
use vstd::prelude::*;
use vstd::string::*;
use crate::decimal::{decimal_text, i64_text};

verus! {

pub open spec fn cache_key_spec(user_id: i64) -> Seq<char> {
    "user:recap:"@ + decimal_text(user_id as int)
}

/// The cache key of a user's entry: `user:recap:` and the decimal id.
pub fn cache_key(user_id: i64) -> (r: String)
    ensures
        r@ == cache_key_spec(user_id),
{
    let mut key = "user:recap:".to_owned();
    let id = i64_text(user_id);
    key.append(id.as_str());
    key
}

} // verus!
