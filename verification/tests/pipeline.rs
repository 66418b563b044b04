//! Tests for icon selection and the end-to-end site-icon pipeline.

use newtabgen::cache::SiteIconCache;
use newtabgen::site_icons::{
    cached_icon_css, process_site_icon, render_icon_css, select_icon, IconCandidate, IconFormat,
};

const WEEK: u64 = 604800;

fn candidate(url: &str, path: &str, format: IconFormat) -> IconCandidate {
    IconCandidate { url: String::from(url), path: String::from(path), format }
}

fn white_png_2x2() -> Vec<u8> {
    let img = image::RgbaImage::from_pixel(2, 2, image::Rgba([255u8, 255, 255, 255]));
    let mut cursor = std::io::Cursor::new(Vec::new());
    image::DynamicImage::ImageRgba8(img)
        .write_to(&mut cursor, image::ImageOutputFormat::Png)
        .unwrap();
    cursor.into_inner()
}

#[test]
fn favicon_path_is_preferred() {
    let entries = vec![
        candidate("https://a/logo.png", "/logo.png", IconFormat::Png),
        candidate("https://a/favicon.ico", "/favicon.ico", IconFormat::Ico),
    ];
    assert_eq!(select_icon(&entries), Some(1));
}

#[test]
fn favicon_rule_ignores_declared_format() {
    // Rule one looks only at the URL path, not at the declared format.
    let entries = vec![
        candidate("https://a/favicon.ico", "/favicon.ico", IconFormat::Svg),
        candidate("https://a/logo.png", "/logo.png", IconFormat::Png),
    ];
    assert_eq!(select_icon(&entries), Some(0));
}

#[test]
fn favicon_rule_matches_inside_path() {
    let entries = vec![
        candidate("https://a/logo.png", "/logo.png", IconFormat::Png),
        candidate(
            "https://a/assets/favicon.ico?v=1",
            "/assets/favicon.ico.png",
            IconFormat::Png,
        ),
    ];
    assert_eq!(select_icon(&entries), Some(1));
}

#[test]
fn first_non_svg_without_favicon() {
    let entries = vec![
        candidate("https://a/logo.svg", "/logo.svg", IconFormat::Svg),
        candidate("https://a/logo.jpg", "/logo.jpg", IconFormat::Jpeg),
        candidate("https://a/logo.png", "/logo.png", IconFormat::Png),
    ];
    assert_eq!(select_icon(&entries), Some(1));
}

#[test]
fn all_svg_page_selects_nothing() {
    let entries = vec![
        candidate("https://a/logo.svg", "/logo.svg", IconFormat::Svg),
        candidate("https://a/icon.svg", "/icon.svg", IconFormat::Svg),
    ];
    assert_eq!(select_icon(&entries), None);
}

#[test]
fn empty_candidate_list_selects_nothing() {
    assert_eq!(select_icon(&Vec::new()), None);
}

#[test]
fn render_emits_icon_class_rule() {
    let pixels = vec![128u8; 2 * 2 * 4];
    let (css, png) =
        render_icon_css("https://example.com", 2, 2, pixels, true, false).unwrap();
    assert!(css.starts_with(".ico-69u3vmk7{background-image:url(data:image/png;base64,"));
    assert!(css.ends_with(")}"));
    // The embedded data is the base64 of the returned PNG bytes.
    let encoded = data_encoding::BASE64.encode(&png);
    assert_eq!(
        css,
        format!(".ico-69u3vmk7{{background-image:url(data:image/png;base64,{encoded})}}")
    );
    // The PNG decodes back to the pixels that went in.
    let img = image::load_from_memory_with_format(&png, image::ImageFormat::Png).unwrap();
    assert_eq!(img.into_rgba8().into_raw(), vec![128u8; 16]);
}

#[test]
fn render_inverts_bright_icon_on_light_theme() {
    // A pure white image has brightness 1 > 0.75: inverted when the theme is
    // light and inversion is enabled.
    let pixels = vec![255u8; 16];
    let (_, png) = render_icon_css("https://example.com", 2, 2, pixels, false, true).unwrap();
    let img = image::load_from_memory_with_format(&png, image::ImageFormat::Png).unwrap();
    let raw = img.into_rgba8().into_raw();
    assert_eq!(raw, vec![0u8, 0, 0, 255].repeat(4));
}

#[test]
fn render_keeps_bright_icon_on_dark_theme() {
    let pixels = vec![255u8; 16];
    let (_, png) = render_icon_css("https://example.com", 2, 2, pixels, true, true).unwrap();
    let img = image::load_from_memory_with_format(&png, image::ImageFormat::Png).unwrap();
    assert_eq!(img.into_rgba8().into_raw(), vec![255u8; 16]);
}

#[test]
fn first_build_misses_then_caches() {
    // Scenario: a reachable favicon is fetched once; the second build within
    // seven days is served from the cache without the network.
    let url = "https://example.com";
    let mut cache = SiteIconCache::new();
    let t0 = 1000;

    // First build: cache miss.
    assert_eq!(cached_icon_css(&mut cache, url, t0), None);

    // The fetched bytes are processed, resized to 24x24, and cached.
    let bytes = white_png_2x2();
    let css =
        process_site_icon(&mut cache, url, &bytes, IconFormat::Png, 24, true, true, t0).unwrap();
    assert!(css.starts_with(".ico-69u3vmk7{background-image:url(data:image/png;base64,"));

    // Second build within seven days: cache hit with the same rule.
    let css2 = cached_icon_css(&mut cache, url, t0 + WEEK - 1).unwrap();
    assert_eq!(css, css2);

    // The cached icon was resized to fit 24x24.
    let png = {
        let prefix = ".ico-69u3vmk7{background-image:url(data:image/png;base64,";
        let b64 = &css[prefix.len()..css.len() - 2];
        data_encoding::BASE64.decode(b64.as_bytes()).unwrap()
    };
    let img = image::load_from_memory_with_format(&png, image::ImageFormat::Png).unwrap();
    assert_eq!(img.width(), 24);
    assert_eq!(img.height(), 24);
}

#[test]
fn resize_preserves_aspect_ratio() {
    // A 4x2 source resized into the 24x24 box becomes 24x12: the limiting
    // dimension reaches the bound, the other keeps the ratio.
    let img = image::RgbaImage::from_pixel(4, 2, image::Rgba([0u8, 0, 0, 255]));
    let mut cursor = std::io::Cursor::new(Vec::new());
    image::DynamicImage::ImageRgba8(img)
        .write_to(&mut cursor, image::ImageOutputFormat::Png)
        .unwrap();
    let bytes = cursor.into_inner();
    let mut cache = SiteIconCache::new();
    let css =
        process_site_icon(&mut cache, "https://example.com", &bytes, IconFormat::Png, 24, true, false, 0)
            .unwrap();
    let prefix = ".ico-69u3vmk7{background-image:url(data:image/png;base64,";
    let b64 = &css[prefix.len()..css.len() - 2];
    let png = data_encoding::BASE64.decode(b64.as_bytes()).unwrap();
    let out = image::load_from_memory_with_format(&png, image::ImageFormat::Png).unwrap();
    assert_eq!((out.width(), out.height()), (24, 12));
}

#[test]
fn stale_cache_entry_forces_refetch() {
    let url = "https://example.com";
    let mut cache = SiteIconCache::new();
    let bytes = white_png_2x2();
    let t0 = 500;
    process_site_icon(&mut cache, url, &bytes, IconFormat::Png, 24, true, false, t0).unwrap();
    // Eight days later the entry has expired: miss, and the entry is gone.
    let eight_days = t0 + 8 * 86400;
    assert_eq!(cached_icon_css(&mut cache, url, eight_days), None);
    assert_eq!(cached_icon_css(&mut cache, url, t0 + 1), None);
}

#[test]
fn resolver_reports_not_found_for_all_svg_page() {
    let entries = vec![candidate("https://a/logo.svg", "/logo.svg", IconFormat::Svg)];
    let r = newtabgen::site_icons::resolve_icon("https://a", &entries);
    assert!(matches!(
        r,
        Err(newtabgen::site_icons::SiteIconError::IconNotFound(u)) if u == "https://a"
    ));
}

#[test]
fn empty_image_fails_encode() {
    // PNG has no zero-by-zero images: re-encoding fails, reported against
    // the URL.
    let r = render_icon_css("https://example.com", 0, 0, Vec::new(), true, false);
    assert!(matches!(
        r,
        Err(newtabgen::site_icons::SiteIconError::IconEncode(u)) if u == "https://example.com"
    ));
}

#[test]
fn corrupt_bytes_fail_decode() {
    let mut cache = SiteIconCache::new();
    let r = process_site_icon(
        &mut cache,
        "https://example.com",
        &vec![1u8, 2, 3],
        IconFormat::Png,
        24,
        true,
        false,
        0,
    );
    assert!(matches!(
        r,
        Err(newtabgen::site_icons::SiteIconError::IconDecode(u)) if u == "https://example.com"
    ));
    // A failed build leaves the cache unchanged.
    assert_eq!(cached_icon_css(&mut cache, "https://example.com", 0), None);
}
