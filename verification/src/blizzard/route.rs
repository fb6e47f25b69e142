//! Endpoints whose answers need nothing from the database yet.

use vstd::prelude::*;
use std::collections::HashSet;
use crate::blizzard::user::Model;

verus! {

/// Lists the users; the listing answers an empty list for now.
pub fn get_users() -> (r: Vec<Model>)
    ensures
        r@.len() == 0,
{
    Vec::new()
}

/// Deletes a user (for administrators); answers the id it was given.
pub fn delete_user(id: String) -> (r: String)
    ensures
        r@ == id@,
{
    id
}

/// The permissions granted to a request; none are granted for now.
pub fn extract() -> (r: HashSet<String>)
    ensures
        r@.len() == 0,
{
    HashSet::new()
}

} // verus!
