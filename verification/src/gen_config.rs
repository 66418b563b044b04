//! Assembly of sample configurations from pre-drawn values.
//!
//! The sample generator draws its randomness and placeholder text outside
//! the library and hands the drawn values in; the assembly of links from
//! those values is specified here.

use vstd::prelude::*;

verus! {

use vstd::string::*;

use crate::config::Link;

/// The sample URL table: the URL at index `k`.
pub open spec fn spec_sample_url(k: int) -> Seq<char> {
    if k == 0 {
        "https://crates.io/"@
    } else if k == 1 {
        "https://www.rust-lang.org/"@
    } else if k == 2 {
        "https://docs.rs/"@
    } else if k == 3 {
        "https://stackoverflow.com/"@
    } else if k == 4 {
        "https://duckduckgo.com/"@
    } else if k == 5 {
        "https://fsf.org/"@
    } else if k == 6 {
        "https://eff.org/"@
    } else if k == 7 {
        "https://codeberg.org/"@
    } else if k == 8 {
        "https://css-tricks.com/"@
    } else {
        "https://developer.mozilla.org/"@
    }
}

/// Returns the sample URL at index `k` of the table of ten.
pub fn sample_url(k: usize) -> (r: String)
    requires
        k < 10,
    ensures
        r@ == spec_sample_url(k as int),
{
    if k == 0 {
        String::from_str("https://crates.io/")
    } else if k == 1 {
        String::from_str("https://www.rust-lang.org/")
    } else if k == 2 {
        String::from_str("https://docs.rs/")
    } else if k == 3 {
        String::from_str("https://stackoverflow.com/")
    } else if k == 4 {
        String::from_str("https://duckduckgo.com/")
    } else if k == 5 {
        String::from_str("https://fsf.org/")
    } else if k == 6 {
        String::from_str("https://eff.org/")
    } else if k == 7 {
        String::from_str("https://codeberg.org/")
    } else if k == 8 {
        String::from_str("https://css-tricks.com/")
    } else {
        String::from_str("https://developer.mozilla.org/")
    }
}

/// Builds the links of one generated section from pre-drawn display names
/// and URL picks: link `i` is named `names[i]` and points at the sample URL
/// table entry `picks[i]`.
pub fn gen_links(names: Vec<String>, picks: &Vec<usize>) -> (r: Vec<Link>)
    requires
        names@.len() == picks@.len(),
        forall|i: int| 0 <= i < picks@.len() ==> picks@[i] < 10,
    ensures
        r@.len() == names@.len(),
        forall|i: int|
            0 <= i < r@.len() ==> (#[trigger] r@[i]).name@ == names@[i]@ && r@[i].url@
                == spec_sample_url(picks@[i] as int),
{
    let n = names.len();
    let mut out: Vec<Link> = Vec::new();
    for i in 0..n
        invariant
            n == names@.len(),
            n == picks@.len(),
            forall|j: int| 0 <= j < picks@.len() ==> picks@[j] < 10,
            out@.len() == i,
            forall|j: int|
                0 <= j < i ==> (#[trigger] out@[j]).name@ == names@[j]@ && out@[j].url@
                    == spec_sample_url(picks@[j] as int),
    {
        let url = sample_url(picks[i]);
        out.push(Link { name: names[i].clone(), url });
    }
    out
}

} // verus!
