//! The page of a gallery inscription: its items as thumbnails, one page at
//! a time.
use vstd::prelude::*;
use crate::iframe::{item_text, Iframe};
use crate::ids::InscriptionId;
use crate::media::Media;
use crate::page::PageContent;
use crate::text::{decimal, escape, push_decimal, push_escaped, signed_decimal, push_signed_decimal};

verus! {

/// One page of a gallery.
pub struct GalleryHtml {
    pub id: InscriptionId,
    pub number: i32,
    pub title: Option<String>,
    /// Index within the gallery, inscription id and media kind of each item
    /// on the page.
    pub items: Vec<(usize, InscriptionId, Option<Media>)>,
    pub prev_page: Option<usize>,
    pub next_page: Option<usize>,
}

/// The name of a gallery: its title, or `Inscription` and its number.
pub open spec fn gallery_name(number: i32, title: Option<Seq<char>>) -> Seq<char> {
    match title {
        Some(t) => t,
        None => "Inscription "@ + signed_decimal(number as int),
    }
}

/// The items of a gallery page, one indented line each.
pub open spec fn gallery_items_text(gallery: InscriptionId, items: Seq<(usize, InscriptionId, Option<Media>)>) -> Seq<char>
    decreases items.len(),
{
    if items.len() == 0 {
        Seq::empty()
    } else {
        gallery_items_text(gallery, items.drop_last()) + "  "@ + item_text(
            gallery,
            items.last().0 as nat,
            items.last().1,
            items.last().2,
        ) + "\n"@
    }
}

/// A link to gallery page `n` in the given direction, or the bare word when
/// there is no such page.
pub open spec fn gallery_page_link_text(gallery: InscriptionId, dir: Seq<char>, n: Option<usize>) -> Seq<char> {
    match n {
        Some(n) => "  <a class="@ + dir + " href=/gallery/"@ + gallery.text() + "/page/"@ + decimal(n as nat)
            + ">"@ + dir + "</a>\n"@,
        None => dir + "\n"@,
    }
}

impl GalleryHtml {
    /// The title of the gallery, if it has one.
    pub open spec fn title_view(&self) -> Option<Seq<char>> {
        match self.title {
            Some(t) => Some(t@),
            None => None,
        }
    }
}

fn push_gallery_page_link(s: &mut String, gallery: InscriptionId, dir: &str, n: Option<usize>)
    ensures
        final(s)@ == old(s)@ + gallery_page_link_text(gallery, dir@, n),
{
    match n {
        Some(n) => {
            s.append("  <a class=");
            s.append(dir);
            s.append(" href=/gallery/");
            gallery.push_to(s);
            s.append("/page/");
            push_decimal(s, n as u64);
            s.append(">");
            s.append(dir);
            s.append("</a>\n");
        },
        None => {
            s.append(dir);
            s.append("\n");
        },
    }
}

impl PageContent for GalleryHtml {
    /// The gallery's title and `Gallery`, or `Inscription`, the number and
    /// `Gallery`.
    open spec fn title_text(&self) -> Seq<char> {
        gallery_name(self.number, self.title_view()) + " Gallery"@
    }

    open spec fn oembed_text(&self) -> Option<Seq<char>> {
        None
    }

    /// The heading linking to the gallery inscription, the item thumbnails,
    /// and the links to the neighbouring pages.
    open spec fn body_text(&self) -> Seq<char> {
        "<h1><a href=/inscription/"@ + self.id.text() + ">"@ + escape(gallery_name(self.number, self.title_view()))
            + "</a> / Gallery</h1>\n<div class=thumbnails>\n"@ + gallery_items_text(self.id, self.items@)
            + "</div>\n<div class=center>\n"@ + gallery_page_link_text(self.id, "prev"@, self.prev_page)
            + gallery_page_link_text(self.id, "next"@, self.next_page) + "</div>\n"@
    }

    fn title(&self) -> (t: String) {
        let mut t = match &self.title {
            Some(title) => title.clone(),
            None => {
                let mut t = String::from_str("Inscription ");
                push_signed_decimal(&mut t, self.number as i64);
                t
            },
        };
        t.append(" Gallery");
        t
    }

    fn oembed_url(&self) -> (u: Option<String>) {
        None
    }

    fn body(&self) -> (b: String) {
        let mut b = String::from_str("<h1><a href=/inscription/");
        self.id.push_to(&mut b);
        b.append(">");
        match &self.title {
            Some(title) => push_escaped(&mut b, title.as_str()),
            None => {
                let mut name = String::from_str("Inscription ");
                push_signed_decimal(&mut name, self.number as i64);
                push_escaped(&mut b, name.as_str());
            },
        }
        b.append("</a> / Gallery</h1>\n<div class=thumbnails>\n");
        let ghost start = b@;
        let mut i: usize = 0;
        while i < self.items.len()
            invariant
                i <= self.items.len(),
                b@ == start + gallery_items_text(self.id, self.items@.take(i as int)),
            decreases self.items.len() - i,
        {
            let (index, id, media) = self.items[i];
            b.append("  ");
            Iframe::item(self.id, index, id, media).push_to(&mut b);
            b.append("\n");
            assert(self.items@.take(i + 1).drop_last() =~= self.items@.take(i as int));
            i = i + 1;
        }
        assert(self.items@.take(self.items.len() as int) =~= self.items@);
        b.append("</div>\n<div class=center>\n");
        push_gallery_page_link(&mut b, self.id, "prev", self.prev_page);
        push_gallery_page_link(&mut b, self.id, "next", self.next_page);
        b.append("</div>\n");
        b
    }
}

} // verus!
