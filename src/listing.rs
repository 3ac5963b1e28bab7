//! A party-finder listing.

use vstd::prelude::*;

use crate::slot::Slot;

verus! {

/// A recruitment post: its text, its slots in display order, and the
/// metadata shown beside them.
#[derive(Debug, Clone)]
pub struct PFListing {
    pub title: String,
    pub author: String,
    pub flags: String,
    pub description: String,
    pub slots: Vec<Slot>,
    pub last_updated: String,
    pub expires_in: String,
    pub min_ilvl: String,
    pub data_center: String,
    pub pf_category: String,
}

} // verus!
