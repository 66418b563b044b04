//! Symbol-sprite engine: loads icon files from the mirrored asset repository
//! and rewrites them into reusable inline symbol definitions keyed by a
//! deterministic identifier.
//!
//! Reading the icon files and keeping the mirror in sync are I/O and stay
//! outside the library; the mirror synchronisation decisions live in the
//! sync state machine.

use vstd::prelude::*;

verus! {

use vstd::string::*;

use crate::util::identity_chars;
use crate::util::sha1_base32;

/// Errors that may occur when synchronising the asset repository or building
/// symbol definitions.
#[derive(Debug, Clone)]
pub enum SvgIconError {
    /// No usable cache directory could be located.
    CacheDir,
    /// Creating the repository directory failed; holds a description.
    MakeDir(String),
    /// The repository synchronisation failed; holds a description.
    Repo(String),
    /// Loading an icon file failed; holds the icon name, style and path.
    IconLoad(String, String, String),
    /// The requested icon is missing; holds the icon name, style and path.
    IconNotFound(String, String, String),
}

/// The id of an icon symbol: `svg-` followed by the identity of the bytes of
/// `<name> <style>`.
pub open spec fn spec_svg_icon_id(name: Seq<u8>, style: Seq<u8>) -> Seq<char> {
    "svg-"@ + identity_chars(name + seq![32u8] + style)
}

/// Generates the unique id for an icon, based on the icon name and style.
pub fn svg_icon_id(icon_name: &str, icon_style: &str) -> (r: String)
    ensures
        r@ == spec_svg_icon_id(icon_name.spec_bytes(), icon_style.spec_bytes()),
{
    let mut bytes = icon_name.as_bytes_vec();
    bytes.push(32);
    let mut style_bytes = icon_style.as_bytes_vec();
    bytes.append(&mut style_bytes);
    assert(bytes@ =~= icon_name.spec_bytes() + seq![32u8] + icon_style.spec_bytes());
    let id = sha1_base32(bytes.as_slice());
    let mut s = String::from_str("svg-");
    s.append(id.as_str());
    s
}

/// The repository-relative path of an icon file: `svg/<style>/<name>.svg`.
pub open spec fn spec_icon_rel_path(name: Seq<char>, style: Seq<char>) -> Seq<char> {
    "svg/"@ + style + "/"@ + name + ".svg"@
}

/// Builds the repository-relative path of an icon file.
pub fn icon_rel_path(name: &str, style: &str) -> (r: String)
    ensures
        r@ == spec_icon_rel_path(name@, style@),
{
    let mut s = String::from_str("svg/");
    s.append(style);
    s.append("/");
    s.append(name);
    s.append(".svg");
    s
}

/// The fixed opening tag of every icon in the asset repository; 62
/// characters long.
pub open spec fn spec_svg_prefix() -> Seq<char> {
    "<svg xmlns=\"http://www.w3.org/2000/svg\" width=\"24\" height=\"24\""@
}

/// The fixed opening tag is the 62 characters that [`spec_symbol_def`]
/// strips from the front of an icon source.
pub proof fn lemma_svg_prefix_len()
    ensures
        spec_svg_prefix().len() == 62,
{
    reveal_strlit("<svg xmlns=\"http://www.w3.org/2000/svg\" width=\"24\" height=\"24\"");
}

/// An icon source rewritten into a symbol definition: the fixed opening tag
/// and the `</svg>` closing tag are stripped and the inner markup is wrapped
/// in a `<symbol>` element carrying the icon's id.
pub open spec fn spec_symbol_def(src: Seq<char>, name: Seq<u8>, style: Seq<u8>) -> Seq<char> {
    "<symbol id=\""@ + spec_svg_icon_id(name, style) + "\""@ + src.subrange(
        62,
        src.len() - 6,
    ) + "</symbol>"@
}

/// Converts a loaded icon SVG into a symbol definition whose id is derived
/// from the icon name and style.
///
/// The source is assumed to start with the fixed opening tag shared by all
/// icons in the asset repository and to end with `</svg>`; a source that
/// deviates produces malformed output, which is an invariant of the upstream
/// asset set, not validated here.  The source must at least be as long as
/// the two fixed tags together.
pub fn to_symbol_def(src: &str, name: &str, style: &str) -> (r: String)
    requires
        src@.len() >= 68,
    ensures
        r@ == spec_symbol_def(src@, name.spec_bytes(), style.spec_bytes()),
{
    let id = svg_icon_id(name, style);
    let mut s = String::from_str("<symbol id=\"");
    s.append(id.as_str());
    s.append("\"");
    let len = src.unicode_len();
    let middle = src.substring_char(62, len - 6);
    s.append(middle);
    s.append("</symbol>");
    s
}

} // verus!
