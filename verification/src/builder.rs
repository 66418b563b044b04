//! Orchestration of a build: collects the unique icon references of a
//! configuration and assembles the two aggregate output strings — the style
//! block of site-icon CSS rules and the hidden sprite sheet of symbol
//! definitions — that the templating layer consumes.

use vstd::prelude::*;

verus! {

use vstd::string::*;

use crate::config::{Config, Link, Page, Section};
use crate::resources::ResourceError;
use crate::site_icons::SiteIconError;
use crate::svg_icons::SvgIconError;

/// Errors that may occur when building a new tab page.
#[derive(Debug, Clone)]
pub enum BuildError {
    /// Writing the built output failed; holds a description.
    Output(String),
    /// Encoding the compiled CSS as UTF-8 failed.
    EncodeUtf8,
    /// The resource loader reported an error.
    Resource(ResourceError),
    /// The template renderer reported an error; holds its message.
    Template(String),
    /// The SCSS compiler reported an error; holds its message.
    ScssCompile(String),
    /// Building the site icons failed.
    SiteIcon(SiteIconError),
    /// Building the svg icons failed.
    SvgIcon(SvgIconError),
}

/// The views of a sequence of strings.
pub open spec fn string_views(v: Seq<String>) -> Seq<Seq<char>> {
    v.map(|i: int, s: String| s@)
}

/// The concatenation of a sequence of strings.
pub open spec fn spec_concat(parts: Seq<Seq<char>>) -> Seq<char>
    decreases parts.len(),
{
    if parts.len() == 0 {
        Seq::empty()
    } else {
        spec_concat(parts.drop_last()) + parts.last()
    }
}

/// First-occurrence deduplication: keeps each element's first occurrence, in
/// order.
pub open spec fn spec_dedup<T>(s: Seq<T>) -> Seq<T>
    decreases s.len(),
{
    if s.len() == 0 {
        s
    } else {
        let d = spec_dedup(s.drop_last());
        if d.contains(s.last()) {
            d
        } else {
            d.push(s.last())
        }
    }
}

/// The URLs of a section's links, in order.
pub open spec fn spec_section_urls(s: Section) -> Seq<Seq<char>> {
    s.links@.map(|i: int, l: Link| l.url@)
}

/// The URLs of all links in a sequence of sections, in order.
pub open spec fn spec_sections_urls(sections: Seq<Section>) -> Seq<Seq<char>>
    decreases sections.len(),
{
    if sections.len() == 0 {
        Seq::empty()
    } else {
        spec_sections_urls(sections.drop_last()) + spec_section_urls(sections.last())
    }
}

/// The URLs of all links in a sequence of pages, in order.
pub open spec fn spec_pages_urls(pages: Seq<Page>) -> Seq<Seq<char>>
    decreases pages.len(),
{
    if pages.len() == 0 {
        Seq::empty()
    } else {
        spec_pages_urls(pages.drop_last()) + spec_sections_urls(pages.last().sections@)
    }
}

/// All link URLs of a configuration, in document order.
pub open spec fn spec_config_urls(c: Config) -> Seq<Seq<char>> {
    spec_pages_urls(c.pages@)
}

/// Whether a string with the given characters is among the strings.
fn contains_string(v: &Vec<String>, s: &String) -> (r: bool)
    ensures
        r == string_views(v@).contains(s@),
{
    let n = v.len();
    for i in 0..n
        invariant
            n == v@.len(),
            forall|j: int| 0 <= j < i ==> string_views(v@)[j] != s@,
    {
        if v[i] == *s {
            assert(string_views(v@)[i as int] == s@);
            return true;
        }
    }
    false
}

/// Keeps the first occurrence of each string, in order.
fn dedup_strings(v: &Vec<String>) -> (r: Vec<String>)
    ensures
        string_views(r@) == spec_dedup(string_views(v@)),
{
    let n = v.len();
    let mut out: Vec<String> = Vec::new();
    assert(string_views(v@).take(0) =~= Seq::<Seq<char>>::empty());
    for i in 0..n
        invariant
            n == v@.len(),
            string_views(out@) =~= spec_dedup(string_views(v@).take(i as int)),
    {
        let present = contains_string(&out, &v[i]);
        if !present {
            out.push(v[i].clone());
        }
        proof {
            let prefix = string_views(v@).take(i as int);
            let next = string_views(v@).take(i + 1);
            assert(next.drop_last() =~= prefix);
            assert(next.last() == v@[i as int]@);
            if !present {
                assert(string_views(out@) =~= spec_dedup(prefix).push(v@[i as int]@));
            }
        }
    }
    assert(string_views(v@).take(n as int) =~= string_views(v@));
    out
}

/// Mapping to views commutes with appending one string.
proof fn lemma_views_push(v: Seq<String>, x: String)
    ensures
        string_views(v.push(x)) =~= string_views(v).push(x@),
{
}

/// Appends the URLs of a section's links.
fn push_section_urls(out: &mut Vec<String>, s: &Section)
    ensures
        string_views(final(out)@) == string_views(old(out)@) + spec_section_urls(*s),
{
    let n = s.links.len();
    for i in 0..n
        invariant
            n == s.links@.len(),
            string_views(out@) =~= string_views(old(out)@) + spec_section_urls(*s).take(i as int),
    {
        let url = s.links[i].url.clone();
        assert(url@ == s.links@[i as int].url@);
        let ghost prev = out@;
        out.push(url);
        proof {
            let urls = spec_section_urls(*s);
            lemma_views_push(prev, out@.last());
            assert(urls[i as int] == s.links@[i as int].url@);
            assert(urls.take(i + 1) =~= urls.take(i as int).push(urls[i as int]));
            assert(string_views(out@) =~= string_views(old(out)@) + urls.take(i + 1));
        }
    }
    assert(string_views(out@) =~= string_views(old(out)@) + spec_section_urls(*s));
}

/// Collects every link URL of the configuration, in document order, keeping
/// only the first occurrence of each.
pub fn collect_site_urls(config: &Config) -> (r: Vec<String>)
    ensures
        string_views(r@) == spec_dedup(spec_config_urls(*config)),
{
    let mut flat: Vec<String> = Vec::new();
    let np = config.pages.len();
    for p in 0..np
        invariant
            np == config.pages@.len(),
            string_views(flat@) =~= spec_pages_urls(config.pages@.take(p as int)),
    {
        let ns = config.pages[p].sections.len();
        for s in 0..ns
            invariant
                np == config.pages@.len(),
                p < np,
                ns == config.pages@[p as int].sections@.len(),
                string_views(flat@) =~= spec_pages_urls(config.pages@.take(p as int))
                    + spec_sections_urls(config.pages@[p as int].sections@.take(s as int)),
        {
            push_section_urls(&mut flat, &config.pages[p].sections[s]);
            proof {
                let sections = config.pages@[p as int].sections@;
                assert(sections.take(s + 1).drop_last() =~= sections.take(s as int));
                assert(sections.take(s + 1).last() == sections[s as int]);
            }
        }
        proof {
            let sections = config.pages@[p as int].sections@;
            assert(sections.take(ns as int) =~= sections);
            assert(config.pages@.take(p + 1).drop_last() =~= config.pages@.take(p as int));
            assert(config.pages@.take(p + 1).last() == config.pages@[p as int]);
        }
    }
    assert(config.pages@.take(np as int) =~= config.pages@);
    dedup_strings(&flat)
}

/// A reference to an icon in the asset repository: an icon name and a style.
#[derive(Debug, Clone)]
pub struct IconRef {
    /// Icon name.
    pub name: String,
    /// Icon style.
    pub style: String,
}

/// The views of a sequence of icon references.
pub open spec fn ref_views(v: Seq<IconRef>) -> Seq<(Seq<char>, Seq<char>)> {
    v.map(|i: int, r: IconRef| (r.name@, r.style@))
}

/// The icon references of a sequence of pages, in order.
pub open spec fn spec_page_refs(pages: Seq<Page>) -> Seq<(Seq<char>, Seq<char>)> {
    pages.map(|i: int, p: Page| (p.icon@, p.icon_style@))
}

/// Whether a reference with the given name and style is among the
/// references.
fn contains_ref(v: &Vec<IconRef>, name: &String, style: &String) -> (r: bool)
    ensures
        r == ref_views(v@).contains((name@, style@)),
{
    let n = v.len();
    for i in 0..n
        invariant
            n == v@.len(),
            forall|j: int| 0 <= j < i ==> ref_views(v@)[j] != (name@, style@),
    {
        if v[i].name == *name && v[i].style == *style {
            assert(ref_views(v@)[i as int] == (name@, style@));
            return true;
        }
        assert(ref_views(v@)[i as int] != (name@, style@));
    }
    false
}

/// Collects the icon references of all pages, in order, keeping only the
/// first occurrence of each (name, style) pair.
pub fn collect_icon_refs(config: &Config) -> (r: Vec<IconRef>)
    ensures
        ref_views(r@) == spec_dedup(spec_page_refs(config.pages@)),
{
    let n = config.pages.len();
    let mut out: Vec<IconRef> = Vec::new();
    for i in 0..n
        invariant
            n == config.pages@.len(),
            ref_views(out@) =~= spec_dedup(spec_page_refs(config.pages@).take(i as int)),
    {
        let page = &config.pages[i];
        let present = contains_ref(&out, &page.icon, &page.icon_style);
        if !present {
            out.push(IconRef { name: page.icon.clone(), style: page.icon_style.clone() });
        }
        proof {
            let refs = spec_page_refs(config.pages@);
            assert(refs.take(i + 1).drop_last() =~= refs.take(i as int));
            assert(refs.take(i + 1).last() == refs[i as int]);
            assert(refs[i as int] == (config.pages@[i as int].icon@,
            config.pages@[i as int].icon_style@));
            if !present {
                assert(ref_views(out@) =~= spec_dedup(refs.take(i as int)).push(refs[i as int]));
            }
        }
    }
    assert(spec_page_refs(config.pages@).take(n as int) =~= spec_page_refs(config.pages@));
    out
}

/// The aggregate style block: every site-icon CSS rule, concatenated and
/// wrapped in a single `<style>` element.
pub open spec fn spec_style_block(rules: Seq<Seq<char>>) -> Seq<char> {
    "<style>"@ + spec_concat(rules) + "</style>"@
}

/// The aggregate sprite sheet: every symbol definition, concatenated inside
/// one hidden SVG `<defs>` container.
pub open spec fn spec_sprite_sheet(defs: Seq<Seq<char>>) -> Seq<char> {
    "<svg style=\"display:none\"><defs>"@ + spec_concat(defs) + "</defs></svg>"@
}

/// Appends every string of `parts` to `out`.
fn append_all(out: &mut String, parts: &Vec<String>)
    ensures
        final(out)@ == old(out)@ + spec_concat(string_views(parts@)),
{
    let n = parts.len();
    for i in 0..n
        invariant
            n == parts@.len(),
            out@ =~= old(out)@ + spec_concat(string_views(parts@).take(i as int)),
    {
        out.append(parts[i].as_str());
        proof {
            let views = string_views(parts@);
            assert(views.take(i + 1).drop_last() =~= views.take(i as int));
            assert(views.take(i + 1).last() == parts@[i as int]@);
        }
    }
    assert(string_views(parts@).take(n as int) =~= string_views(parts@));
}

/// Wraps the site-icon CSS rules in the aggregate style block.
pub fn style_block(rules: &Vec<String>) -> (r: String)
    ensures
        r@ == spec_style_block(string_views(rules@)),
{
    let mut s = String::from_str("<style>");
    append_all(&mut s, rules);
    s.append("</style>");
    s
}

/// Wraps the symbol definitions in the aggregate hidden sprite sheet.
pub fn sprite_sheet(defs: &Vec<String>) -> (r: String)
    ensures
        r@ == spec_sprite_sheet(string_views(defs@)),
{
    let mut s = String::from_str("<svg style=\"display:none\"><defs>");
    append_all(&mut s, defs);
    s.append("</defs></svg>");
    s
}

} // verus!
