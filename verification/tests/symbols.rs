//! Tests for the symbol extractor and the sprite sheet.

use newtabgen::builder::sprite_sheet;
use newtabgen::svg_icons::{icon_rel_path, to_symbol_def};

#[test]
fn icon_rel_path_layout() {
    assert_eq!(icon_rel_path("home", "outlined"), "svg/outlined/home.svg");
    assert_eq!(icon_rel_path("image_not_supported", "round"), "svg/round/image_not_supported.svg");
}

#[test]
fn symbol_def_strips_wrapper_and_sets_id() {
    // The repository icon for (name = "home", style = "outlined").
    let src = "<svg xmlns=\"http://www.w3.org/2000/svg\" width=\"24\" height=\"24\" \
               viewBox=\"0 0 24 24\"><path d=\"M10 20v-6h4v6\"/></svg>";
    let def = to_symbol_def(src, "home", "outlined");
    assert_eq!(
        def,
        "<symbol id=\"svg-fqfucs4g\" viewBox=\"0 0 24 24\"><path d=\"M10 20v-6h4v6\"/></symbol>"
    );
}

#[test]
fn symbol_def_keeps_inner_markup() {
    let src = "<svg xmlns=\"http://www.w3.org/2000/svg\" width=\"24\" height=\"24\"><g/></svg>";
    let def = to_symbol_def(src, "home", "round");
    assert!(def.starts_with("<symbol id=\"svg-"));
    assert!(def.ends_with("\"><g/></symbol>"));
}

#[test]
fn sprite_sheet_wraps_defs() {
    let defs = vec![String::from("<symbol id=\"a\"/>"), String::from("<symbol id=\"b\"/>")];
    assert_eq!(
        sprite_sheet(&defs),
        "<svg style=\"display:none\"><defs><symbol id=\"a\"/><symbol id=\"b\"/></defs></svg>"
    );
}

#[test]
fn sprite_sheet_of_nothing_is_empty_container() {
    assert_eq!(sprite_sheet(&Vec::new()), "<svg style=\"display:none\"><defs></defs></svg>");
}
