//! The resources a build consumes: the configuration, the SCSS template and
//! the HTML template, each either built in or overridden by a file.
//!
//! Reading override files is I/O and stays outside the library; it hands the
//! raw bytes in through [`utf8`].

use vstd::prelude::*;

verus! {

use vstd::utf8::{decode_utf8, valid_utf8};

/// Errors that may occur when loading resources.
#[derive(Debug, Clone)]
pub enum ResourceError {
    /// Loading an override file failed; holds the resource name.
    Override(String),
    /// Parsing a resource failed; holds the resource name.
    Resource(String),
    /// A resource is not valid UTF-8; holds the resource name.
    Utf8(String),
}

/// Options handed to the SCSS compilation of a single build target.
#[derive(Debug, Clone, Copy)]
pub struct ScssOptions<'a> {
    /// Whether the mobile layout is compiled.
    pub mobile: bool,
    /// Whether the dark theme is compiled.
    pub dark: bool,
    /// Accent colour.
    pub accent: &'a str,
    /// Font family, passed through to `font-family`.
    pub font_family: &'a str,
    /// Font size, in pixels.
    pub font_size: u16,
}

/// Where each resource comes from: the built-in default when `None`, or an
/// override file at the given path.
#[derive(Debug, Clone)]
pub struct Resources {
    /// Path of the configuration override, if any.
    pub config: Option<String>,
    /// Path of the SCSS override, if any.
    pub css: Option<String>,
    /// Path of the HTML override, if any.
    pub html: Option<String>,
}

/// Decodes resource bytes as UTF-8, reporting the resource's name on
/// failure.
pub fn utf8(v: Vec<u8>, resource_name: String) -> (r: Result<String, ResourceError>)
    ensures
        r matches Ok(s) ==> valid_utf8(v@) && s@ == decode_utf8(v@),
        r matches Err(e) ==> !valid_utf8(v@) && (e matches ResourceError::Utf8(n) && n@
            == resource_name@),
{
    match crate::util::string_from_utf8(v) {
        Some(s) => Ok(s),
        None => Err(ResourceError::Utf8(resource_name)),
    }
}

} // verus!
