//! Template filters backed by the icon pipeline: hashing a string to its
//! identity and deriving site-icon CSS classes.  The templating engine
//! itself stays outside the library and reaches these through thin adapters.

use vstd::prelude::*;

verus! {

use vstd::string::*;

use crate::site_icons::{site_icon_class, spec_site_icon_class};
use crate::util::{identity_chars, sha1_base32};

/// Filter that derives the favicon CSS class of a website URL.
#[derive(Debug, Clone, Copy)]
pub struct Favicon;

/// Filter that hashes a string to its icon identity.
#[derive(Debug, Clone, Copy)]
pub struct Hash;

/// Filter that derives the site-icon CSS class of a website URL.
#[derive(Debug, Clone, Copy)]
pub struct SiteIcon;

impl Hash {
    /// Hashes the filtered string to its 8-character identity.
    pub fn filter(&self, value: &str) -> (r: String)
        ensures
            r@ == identity_chars(value.spec_bytes()),
    {
        sha1_base32(value.as_bytes())
    }
}

impl SiteIcon {
    /// Derives the site-icon class of the filtered URL.
    pub fn filter(&self, url: &str) -> (r: String)
        ensures
            r@ == spec_site_icon_class(url.spec_bytes()),
    {
        site_icon_class(url)
    }
}

impl Favicon {
    /// Derives the icon class of the filtered URL.
    pub fn filter(&self, url: &str) -> (r: String)
        ensures
            r@ == spec_site_icon_class(url.spec_bytes()),
    {
        site_icon_class(url)
    }
}

} // verus!
