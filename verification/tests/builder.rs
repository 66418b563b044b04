//! Tests for the configuration model and the orchestrator's collection and
//! assembly helpers.

use newtabgen::builder::{collect_icon_refs, collect_site_urls, sprite_sheet, style_block};
use newtabgen::config::{Build, Config, Link, Page, Section, Theme};
use newtabgen::gen_config::gen_links;
use newtabgen::resources::{utf8, ResourceError};
use newtabgen::tera_functions::{CountLinksInPage, Len};

fn link(name: &str, url: &str) -> Link {
    Link { name: String::from(name), url: String::from(url) }
}

fn sample_config() -> Config {
    Config {
        title: String::from("New Tab"),
        theme: Theme::default(),
        build: Build::default(),
        pages: vec![
            Page {
                name: String::from("first"),
                icon: String::from("home"),
                icon_style: String::from("outlined"),
                sections: vec![
                    Section {
                        name: String::from("s1"),
                        links: vec![
                            link("a", "https://a.example/"),
                            link("b", "https://b.example/"),
                        ],
                    },
                    Section {
                        name: String::from("s2"),
                        links: vec![link("a again", "https://a.example/")],
                    },
                ],
            },
            Page {
                name: String::from("second"),
                icon: String::from("home"),
                icon_style: String::from("outlined"),
                sections: vec![Section {
                    name: String::from("s3"),
                    links: vec![link("c", "https://c.example/")],
                }],
            },
            Page {
                name: String::from("third"),
                icon: String::from("work"),
                icon_style: String::from("round"),
                sections: Vec::new(),
            },
        ],
    }
}

#[test]
fn urls_are_deduplicated_in_first_occurrence_order() {
    let urls = collect_site_urls(&sample_config());
    assert_eq!(urls, vec!["https://a.example/", "https://b.example/", "https://c.example/"]);
}

#[test]
fn icon_refs_are_deduplicated_per_pair() {
    let refs = collect_icon_refs(&sample_config());
    assert_eq!(refs.len(), 2);
    assert_eq!(refs[0].name, "home");
    assert_eq!(refs[0].style, "outlined");
    assert_eq!(refs[1].name, "work");
    assert_eq!(refs[1].style, "round");
}

#[test]
fn style_block_wraps_rules() {
    let rules = vec![String::from(".a{}"), String::from(".b{}")];
    assert_eq!(style_block(&rules), "<style>.a{}.b{}</style>");
    assert_eq!(style_block(&Vec::new()), "<style></style>");
}

#[test]
fn sprite_sheet_and_style_block_are_independent() {
    let parts = vec![String::from("x")];
    assert_eq!(style_block(&parts), "<style>x</style>");
    assert_eq!(sprite_sheet(&parts), "<svg style=\"display:none\"><defs>x</defs></svg>");
}

#[test]
fn count_links_finds_first_matching_page() {
    let f = CountLinksInPage(sample_config());
    assert_eq!(f.call(&String::from("first")), Some(3));
    assert_eq!(f.call(&String::from("second")), Some(1));
    assert_eq!(f.call(&String::from("third")), Some(0));
    assert_eq!(f.call(&String::from("missing")), None);
}

#[test]
fn len_counts_elements() {
    assert_eq!(Len.call(&vec![1, 2, 3]), 3);
    assert_eq!(Len.call::<u8>(&Vec::new()), 0);
}

#[test]
fn theme_defaults() {
    let t = Theme::default();
    assert!(t.dark);
    assert!(t.invert_low_contrast_icons);
    assert_eq!(t.font_family, "sans-serif");
    assert_eq!(t.font_size, 14);
}

#[test]
fn config_defaults() {
    let c = Config::default();
    assert_eq!(c.title, "New Tab");
    assert!(c.pages.is_empty());
    assert!(c.build.desktop);
    assert!(!c.build.mobile);
}

#[test]
fn page_icon_defaults() {
    assert_eq!(Page::default_icon(), "image_not_supported");
    assert_eq!(Page::default_icon_style(), "outlined");
}

#[test]
fn utf8_accepts_valid_bytes() {
    let r = utf8(vec![104, 105, 32, 0xc3, 0xa9], String::from("config"));
    assert_eq!(r.unwrap(), "hi \u{00e9}");
}

#[test]
fn utf8_reports_resource_name_on_invalid_bytes() {
    let r = utf8(vec![0xff, 0xfe], String::from("config"));
    assert!(matches!(r, Err(ResourceError::Utf8(n)) if n == "config"));
}

#[test]
fn gen_links_pairs_names_with_picked_urls() {
    let names = vec![String::from("one"), String::from("two")];
    let picks = vec![0usize, 9];
    let links = gen_links(names, &picks);
    assert_eq!(links.len(), 2);
    assert_eq!(links[0].name, "one");
    assert_eq!(links[0].url, "https://crates.io/");
    assert_eq!(links[1].name, "two");
    assert_eq!(links[1].url, "https://developer.mozilla.org/");
}
