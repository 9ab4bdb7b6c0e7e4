//! Creator profile data returned by the kemono API.

use vstd::prelude::*;

verus! {

/// The profile of the creator a post belongs to.
#[derive(Debug, Clone)]
pub struct CreatorProfile {
    pub id: String,
    pub name: String,
    pub public_id: String,
}

} // verus!
