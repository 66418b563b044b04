//! The declarative configuration that drives a build: a title, theming
//! preferences, and a tree of pages, sections and links.

use vstd::prelude::*;

verus! {

use vstd::string::*;

/// The root of the configuration.
#[derive(Debug, Clone)]
pub struct Config {
    /// Title of the new tab page.
    pub title: String,
    /// Theming preferences.
    pub theme: Theme,
    /// Build targets.
    pub build: Build,
    /// New tab page content.
    pub pages: Vec<Page>,
}

/// Theming preferences.
#[derive(Debug, Clone)]
pub struct Theme {
    /// Whether the template's dark theme should be used.
    pub dark: bool,
    /// Whether icons with low contrast against the background should be
    /// inverted preemptively.
    pub invert_low_contrast_icons: bool,
    /// Font family, passed through to the CSS property `font-family`.
    pub font_family: String,
    /// Font size, in pixels.
    pub font_size: u16,
}

/// Build targets.
#[derive(Debug, Clone)]
pub struct Build {
    /// Whether the desktop layout is built.
    pub desktop: bool,
    /// Whether the mobile layout is built.
    pub mobile: bool,
}

/// A page of the new tab page, with an icon reference and sections of links.
#[derive(Debug, Clone)]
pub struct Page {
    /// Page name.
    pub name: String,
    /// Name of the icon to use for the page.
    pub icon: String,
    /// Style of the icon to use for the page.
    pub icon_style: String,
    /// Sections of the page, containing links.
    pub sections: Vec<Section>,
}

/// A named group of links within a page.
#[derive(Debug, Clone)]
pub struct Section {
    /// Section name.
    pub name: String,
    /// Links in the section.
    pub links: Vec<Link>,
}

/// A link to a website.
#[derive(Debug, Clone)]
pub struct Link {
    /// Display name.
    pub name: String,
    /// Website URL.
    pub url: String,
}

impl Default for Theme {
    /// The default theme: dark, with low-contrast icon inversion enabled.
    fn default() -> (t: Theme)
        ensures
            t.dark == true,
            t.invert_low_contrast_icons == true,
            t.font_family@ == "sans-serif"@,
            t.font_size == 14,
    {
        Theme {
            dark: true,
            invert_low_contrast_icons: true,
            font_family: String::from_str("sans-serif"),
            font_size: 14,
        }
    }
}

impl Default for Build {
    /// The default build targets: desktop only.
    fn default() -> (b: Build)
        ensures
            b.desktop == true,
            b.mobile == false,
    {
        Build { desktop: true, mobile: false }
    }
}

impl Default for Config {
    /// The default configuration: a page titled "New Tab" with no content.
    fn default() -> (c: Config)
        ensures
            c.title@ == "New Tab"@,
            c.theme.dark == true,
            c.theme.invert_low_contrast_icons == true,
            c.theme.font_family@ == "sans-serif"@,
            c.theme.font_size == 14,
            c.build.desktop == true,
            c.build.mobile == false,
            c.pages@.len() == 0,
    {
        Config {
            title: String::from_str("New Tab"),
            theme: Theme::default(),
            build: Build::default(),
            pages: Vec::new(),
        }
    }
}

impl Page {
    /// Default value for `Page.icon`.
    pub fn default_icon() -> (r: String)
        ensures
            r@ == "image_not_supported"@,
    {
        String::from_str("image_not_supported")
    }

    /// Default value for `Page.icon_style`.
    pub fn default_icon_style() -> (r: String)
        ensures
            r@ == "outlined"@,
    {
        String::from_str("outlined")
    }
}

/// The total number of links in a prefix of a page's sections.
pub open spec fn sections_link_count(sections: Seq<Section>) -> int
    decreases sections.len(),
{
    if sections.len() == 0 {
        0
    } else {
        sections_link_count(sections.drop_last()) + sections.last().links@.len()
    }
}

/// The total number of links in all sections of a page.
pub open spec fn page_link_count(page: Page) -> int {
    sections_link_count(page.sections@)
}

proof fn lemma_sections_link_count_nonneg(sections: Seq<Section>)
    ensures
        sections_link_count(sections) >= 0,
    decreases sections.len(),
{
    if sections.len() != 0 {
        lemma_sections_link_count_nonneg(sections.drop_last());
    }
}

impl Page {
    /// Counts the links in all sections of this page.
    pub fn link_count(&self) -> (n: usize)
        requires
            page_link_count(*self) <= usize::MAX,
        ensures
            n == page_link_count(*self),
    {
        let mut n: usize = 0;
        let end = self.sections.len();
        for i in 0..end
            invariant
                end == self.sections@.len(),
                n == sections_link_count(self.sections@.take(i as int)),
                page_link_count(*self) <= usize::MAX,
        {
            proof {
                lemma_sections_link_count_prefix(self.sections@, i as int);
                lemma_sections_link_count_nonneg(self.sections@.take(i as int));
            }
            assert(self.sections@.take(i + 1).drop_last() =~= self.sections@.take(i as int));
            n = n + self.sections[i].links.len();
        }
        assert(self.sections@.take(end as int) =~= self.sections@);
        n
    }
}

/// The link count of a prefix of the sections never exceeds the count of the
/// whole sequence.
proof fn lemma_sections_link_count_prefix(sections: Seq<Section>, i: int)
    requires
        0 <= i < sections.len(),
    ensures
        sections_link_count(sections.take(i)) + sections[i].links@.len() <= sections_link_count(
            sections,
        ),
    decreases sections.len(),
{
    if i == sections.len() - 1 {
        assert(sections.take(i) =~= sections.drop_last());
        lemma_sections_link_count_nonneg(sections.drop_last());
    } else {
        lemma_sections_link_count_prefix(sections.drop_last(), i);
        assert(sections.drop_last().take(i) =~= sections.take(i));
        assert(sections.drop_last()[i] == sections[i]);
    }
}

} // verus!
