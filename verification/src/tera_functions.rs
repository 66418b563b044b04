//! Template functions backed by the configuration and the icon pipeline.
//! The templating engine itself stays outside the library and reaches these
//! through thin adapters.

use vstd::prelude::*;

verus! {

use vstd::string::*;

use crate::config::{Config, page_link_count};
use crate::svg_icons::{spec_svg_icon_id, svg_icon_id};

/// Function that returns the number of elements of an array value.
#[derive(Debug, Clone, Copy)]
pub struct Len;

impl Len {
    /// The number of elements of the provided array.
    pub fn call<T>(&self, arr: &Vec<T>) -> (n: usize)
        ensures
            n == arr@.len(),
    {
        arr.len()
    }
}

/// Function that builds the fragment reference of an icon symbol from its
/// name and style.
#[derive(Debug, Clone, Copy)]
pub struct SvgIconHref;

impl SvgIconHref {
    /// The fragment reference of the symbol for the given icon and style:
    /// `#` followed by the symbol id.
    pub fn call(&self, icon: &str, style: &str) -> (r: String)
        ensures
            r@ == "#"@ + spec_svg_icon_id(icon.spec_bytes(), style.spec_bytes()),
    {
        let id = svg_icon_id(icon, style);
        let mut s = String::from_str("#");
        s.append(id.as_str());
        s
    }
}

/// Function that counts the links in a named page of the configuration it
/// carries.
#[derive(Debug, Clone)]
pub struct CountLinksInPage(pub Config);

impl CountLinksInPage {
    /// Counts the links in all sections of the first page named
    /// `page_name`; when no page has that name, no count is returned.
    pub fn call(&self, page_name: &String) -> (r: Option<usize>)
        requires
            forall|i: int|
                0 <= i < self.0.pages@.len() ==> page_link_count(#[trigger] self.0.pages@[i])
                    <= usize::MAX,
        ensures
            r matches Some(n) ==> exists|i: int|
                0 <= i < self.0.pages@.len() && (#[trigger] self.0.pages@[i].name@) == page_name@
                    && n == page_link_count(self.0.pages@[i]) && (forall|j: int|
                    0 <= j < i ==> (#[trigger] self.0.pages@[j].name@) != page_name@),
            r is None ==> forall|i: int|
                0 <= i < self.0.pages@.len() ==> (#[trigger] self.0.pages@[i].name@) != page_name@,
    {
        let n = self.0.pages.len();
        for i in 0..n
            invariant
                n == self.0.pages@.len(),
                forall|j: int| 0 <= j < i ==> (#[trigger] self.0.pages@[j].name@) != page_name@,
                forall|i2: int|
                    0 <= i2 < n ==> page_link_count(#[trigger] self.0.pages@[i2]) <= usize::MAX,
        {
            let page = &self.0.pages[i];
            if page.name == *page_name {
                return Some(page.link_count());
            }
        }
        None
    }
}

} // verus!
