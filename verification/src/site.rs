//! Sites and their pages: what is monitored.

use vstd::prelude::*;
use crate::create_checkin::spec_target_url;
use crate::create_checkin::target_url;

verus! {

/// A site that a user has registered. Identifiers are the 128 bits of a
/// UUID.
#[derive(Debug)]
pub struct Site {
    pub site_id: u128,
    pub user_id: u128,
    pub name: String,
    pub domain: String,
    pub description: Option<String>,
}

/// A page of a site: what a probe requests.
#[derive(Debug)]
pub struct Page {
    pub page_id: u128,
    pub site_id: u128,
    pub path: String,
    pub name: String,
}

impl Page {
    /// The address at which the page of `site` is probed.
    pub fn url(&self, site: &Site) -> (url: String)
        ensures
            url@ == spec_target_url(site.domain@, self.path@),
    {
        target_url(site.domain.as_str(), self.path.as_str())
    }
}

} // verus!
