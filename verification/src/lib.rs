//! Verified core of a static new-tab-page generator.
//!
//! The crate turns a declarative configuration (a title, a theme, and a tree
//! of pages, sections and links) into the two embeddable fragments that a
//! templating layer consumes: a CSS block of site-icon classes and an inline
//! SVG sprite sheet of symbol definitions.  The icon pipeline — deterministic
//! identifiers, a TTL-expiring icon cache, icon selection and image
//! normalisation, and the mirror-synchronisation state machine for the icon
//! asset repository — is specified and verified here; the surrounding I/O
//! (network fetches, disk access, git transport) lives outside the library
//! and hands plain values in and out.

pub mod args;
pub mod builder;
pub mod cache;
pub mod config;
pub mod gen_config;
pub mod resources;
pub mod site_icons;
pub mod svg_icons;
pub mod sync;
pub mod tera_filters;
pub mod tera_functions;
pub mod util;
