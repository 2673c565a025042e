//! The placeholder page for features that are not there yet.
use vstd::prelude::*;
use crate::page::PageContent;

verus! {

/// The "Coming Soon" page.
pub struct ComingSoonHtml {}

impl PageContent for ComingSoonHtml {
    open spec fn title_text(&self) -> Seq<char> {
        "Coming Soon"@
    }

    open spec fn oembed_text(&self) -> Option<Seq<char>> {
        None
    }

    open spec fn body_text(&self) -> Seq<char> {
        "<h1>Coming Soon.</h1>\n"@
    }

    fn title(&self) -> (t: String) {
        String::from_str("Coming Soon")
    }

    fn oembed_url(&self) -> (u: Option<String>) {
        None
    }

    fn body(&self) -> (b: String) {
        String::from_str("<h1>Coming Soon.</h1>\n")
    }
}

} // verus!
