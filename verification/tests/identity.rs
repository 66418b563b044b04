//! Tests for the deterministic icon identities.

use newtabgen::site_icons::site_icon_class;
use newtabgen::svg_icons::svg_icon_id;
use newtabgen::tera_filters::{Favicon, SiteIcon};
use newtabgen::tera_functions::SvgIconHref;
use newtabgen::util::sha1_base32;

#[test]
fn identity_known_values() {
    assert_eq!(sha1_base32(b"https://example.com"), "69u3vmk7");
    assert_eq!(sha1_base32(b"https://crates.io/"), "n0pa5g17");
    assert_eq!(sha1_base32(b"hello"), "lbqcc7es");
    assert_eq!(sha1_base32(b""), "r8sq7riu");
    assert_eq!(sha1_base32(b"a"), "grru8dvq");
}

#[test]
fn identity_is_eight_lowercase_base32hex_chars() {
    for input in ["", "a", "hello", "https://example.com", "\u{00e9}\u{6f22}"] {
        let id = sha1_base32(input.as_bytes());
        assert_eq!(id.len(), 8);
        assert!(id
            .chars()
            .all(|c| c.is_ascii_digit() || ('a'..='v').contains(&c)));
    }
}

#[test]
fn identity_stable_across_calls() {
    let a = sha1_base32(b"https://example.com");
    let b = sha1_base32(b"https://example.com");
    assert_eq!(a, b);
}

#[test]
fn identity_collision_free_over_corpus() {
    // A synthetic corpus: distinct inputs must keep distinct identities.
    let mut seen = Vec::new();
    for i in 0..2000u32 {
        let input = format!("https://host{i}.example/path/{i}");
        let id = sha1_base32(input.as_bytes());
        assert!(!seen.contains(&id), "collision for input {input}");
        seen.push(id);
    }
}

#[test]
fn site_icon_class_prefixes_identity() {
    assert_eq!(site_icon_class("https://example.com"), "ico-69u3vmk7");
    assert_eq!(site_icon_class("https://crates.io/"), "ico-n0pa5g17");
}

#[test]
fn svg_icon_id_hashes_name_and_style() {
    // The identity input is "<name> <style>".
    assert_eq!(svg_icon_id("home", "outlined"), "svg-fqfucs4g");
    assert_eq!(sha1_base32(b"home outlined"), "fqfucs4g");
    assert_ne!(svg_icon_id("home", "outlined"), svg_icon_id("home", "round"));
}

#[test]
fn default_page_icon_reference_identity() {
    assert_eq!(svg_icon_id("image_not_supported", "outlined"), "svg-4res43h1");
}

#[test]
fn hash_filter_matches_identity() {
    assert_eq!(newtabgen::tera_filters::Hash.filter("hello"), "lbqcc7es");
}

#[test]
fn site_icon_filter_matches_class() {
    assert_eq!(SiteIcon.filter("https://example.com"), "ico-69u3vmk7");
    assert_eq!(Favicon.filter("https://example.com"), "ico-69u3vmk7");
}

#[test]
fn svg_icon_href_prefixes_hash_mark() {
    assert_eq!(SvgIconHref.call("home", "outlined"), "#svg-fqfucs4g");
}
