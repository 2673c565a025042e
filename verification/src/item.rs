//! The page of one item of a gallery.
use vstd::prelude::*;
use crate::iframe::{main_text, Iframe};
use crate::ids::InscriptionId;
use crate::page::PageContent;
use crate::text::{decimal, escape, push_decimal, push_escaped, push_signed_decimal, signed_decimal};

verus! {

/// A named trait of a gallery item.
pub struct Trait {
    pub name: String,
    pub value: String,
}

/// The traits of a gallery item, in order.
pub struct Traits {
    pub items: Vec<Trait>,
}

impl Default for Traits {
    fn default() -> (t: Traits)
        ensures
            t.items@.len() == 0,
    {
        Traits { items: Vec::new() }
    }
}

/// The attributes that a gallery gives an item.
pub struct Attributes {
    pub title: Option<String>,
    pub traits: Traits,
}

impl Default for Attributes {
    fn default() -> (a: Attributes)
        ensures
            a.title is None,
            a.traits.items@.len() == 0,
    {
        Attributes { title: None, traits: Traits::default() }
    }
}

/// An item of a gallery: the inscription it shows, if any, its attributes
/// and its index.
pub struct Item {
    pub id: Option<InscriptionId>,
    pub attributes: Attributes,
    pub index: Option<u64>,
}

/// The page of item `i` of a gallery with `total` items.
pub struct ItemHtml {
    pub gallery_id: InscriptionId,
    pub gallery_number: i32,
    pub gallery_title: Option<String>,
    pub i: usize,
    pub item: Item,
    pub total: usize,
}

/// An optional string as an optional view.
pub open spec fn opt_view(s: Option<String>) -> Option<Seq<char>> {
    match s {
        Some(t) => Some(t@),
        None => None,
    }
}

/// The name of the gallery in an item's title: its title, or `Gallery` and
/// its number.
pub open spec fn gallery_part(number: i32, title: Option<Seq<char>>) -> Seq<char> {
    match title {
        Some(t) => t,
        None => "Gallery "@ + signed_decimal(number as int),
    }
}

/// The name of the item in its title: its own title, or `Item` and its index.
pub open spec fn item_part(i: usize, title: Option<Seq<char>>) -> Seq<char> {
    match title {
        Some(t) => t,
        None => "Item "@ + decimal(i as nat),
    }
}

/// The rows of the traits, in order.
pub open spec fn traits_text(items: Seq<Trait>) -> Seq<char>
    decreases items.len(),
{
    if items.len() == 0 {
        Seq::empty()
    } else {
        traits_text(items.drop_last()) + "  <dt>"@ + escape(items.last().name@) + "</dt>\n  <dd>"@
            + escape(items.last().value@) + "</dd>\n"@
    }
}

impl ItemHtml {
    /// The heading: the item's title, or the gallery's number and the
    /// item's index.
    pub open spec fn heading_text(&self) -> Seq<char> {
        match opt_view(self.item.attributes.title) {
            Some(t) => escape(t),
            None => "Gallery "@ + signed_decimal(self.gallery_number as int) + " Item "@ + decimal(self.i as nat),
        }
    }

    /// The line that links to the gallery, shown when the item has its own
    /// title.
    pub open spec fn gallery_line_text(&self) -> Seq<char> {
        if self.item.attributes.title is Some {
            "  <p class=subtitle><a href=/inscription/"@ + self.gallery_id.text() + ">"@ + escape(
                gallery_part(self.gallery_number, opt_view(self.gallery_title)),
            ) + "</a> / Item "@ + decimal(self.i as nat) + "</p>\n"@
        } else {
            Seq::empty()
        }
    }

    /// The holder of the title links, naming the item's inscription.
    pub open spec fn title_links_text(&self) -> Seq<char> {
        match self.item.id {
            Some(id) => "  <div class=title-links data-ord-path=/inscription/"@ + id.text() + "></div>\n"@,
            None => "  <div class=title-links></div>\n"@,
        }
    }

    /// The subtitle row.
    pub open spec fn subtitle_text(&self) -> Seq<char> {
        "<div class=subtitle-row>\n"@ + self.gallery_line_text() + self.title_links_text() + "</div>\n"@
    }

    /// The link to the previous item, or a placeholder for the first.
    pub open spec fn prev_text(&self) -> Seq<char> {
        if self.i > 0 {
            "<a class=prev href=/gallery/"@ + self.gallery_id.text() + "/"@ + decimal((self.i - 1) as nat)
                + ">\u{276e}</a>\n"@
        } else {
            "<div>\u{276e}</div>\n"@
        }
    }

    /// The link to the next item, or a placeholder for the last.
    pub open spec fn next_text(&self) -> Seq<char> {
        if self.i + 1 < self.total {
            "<a class=next href=/gallery/"@ + self.gallery_id.text() + "/"@ + decimal((self.i + 1) as nat)
                + ">\u{276f}</a>\n"@
        } else {
            "<div>\u{276f}</div>\n"@
        }
    }

    /// The preview of the item's inscription.
    pub open spec fn preview_text(&self) -> Seq<char> {
        match self.item.id {
            Some(id) => main_text(id) + "\n"@,
            None => Seq::empty(),
        }
    }

    /// The preview between the links to the neighbouring items.
    pub open spec fn navigation_text(&self) -> Seq<char> {
        "<div class=\"inscription gallery-item-nav\">\n"@ + self.prev_text() + self.preview_text()
            + self.next_text() + "</div>\n"@
    }

    /// The row that links to the item's inscription.
    pub open spec fn inscription_row_text(&self) -> Seq<char> {
        match self.item.id {
            Some(id) => "  <dt>inscription</dt>\n  <dd><a class=collapse href=/inscription/"@ + id.text() + ">"@
                + id.text() + "</a></dd>\n"@,
            None => Seq::empty(),
        }
    }

    /// The row that links to the gallery.
    pub open spec fn gallery_row_text(&self) -> Seq<char> {
        "  <dt>gallery</dt>\n  <dd><a class=collapse href=/inscription/"@ + self.gallery_id.text() + ">"@
            + self.gallery_id.text() + "</a></dd>\n"@
    }

    /// The row with the item's title.
    pub open spec fn title_row_text(&self) -> Seq<char> {
        match opt_view(self.item.attributes.title) {
            Some(t) => "  <dt>title</dt>\n<dd>"@ + escape(t) + "</dd>\n"@,
            None => Seq::empty(),
        }
    }

    /// The list of the item's facts: its inscription, its gallery, its
    /// title and traits.
    pub open spec fn facts_text(&self) -> Seq<char> {
        "<dl>\n"@ + self.inscription_row_text() + self.gallery_row_text() + self.title_row_text()
            + traits_text(self.item.attributes.traits.items@) + "\n</dl>\n"@
    }

    fn push_heading(&self, s: &mut String)
        ensures
            final(s)@ == old(s)@ + self.heading_text(),
    {
        match &self.item.attributes.title {
            Some(t) => push_escaped(s, t.as_str()),
            None => {
                s.append("Gallery ");
                push_signed_decimal(s, self.gallery_number as i64);
                s.append(" Item ");
                push_decimal(s, self.i as u64);
            },
        }
    }

    fn gallery_line(&self) -> (r: String)
        ensures
            r@ == self.gallery_line_text(),
    {
        let mut s = String::new();
        if self.item.attributes.title.is_some() {
            s.append("  <p class=subtitle><a href=/inscription/");
            self.gallery_id.push_to(&mut s);
            s.append(">");
            let name = match &self.gallery_title {
                Some(t) => t.clone(),
                None => {
                    let mut name = String::from_str("Gallery ");
                    push_signed_decimal(&mut name, self.gallery_number as i64);
                    name
                },
            };
            push_escaped(&mut s, name.as_str());
            s.append("</a> / Item ");
            push_decimal(&mut s, self.i as u64);
            s.append("</p>\n");
        }
        s
    }

    fn title_links(&self) -> (r: String)
        ensures
            r@ == self.title_links_text(),
    {
        match self.item.id {
            Some(id) => {
                let mut s = String::from_str("  <div class=title-links data-ord-path=/inscription/");
                id.push_to(&mut s);
                s.append("></div>\n");
                s
            },
            None => String::from_str("  <div class=title-links></div>\n"),
        }
    }

    fn prev_link(&self) -> (r: String)
        ensures
            r@ == self.prev_text(),
    {
        if self.i > 0 {
            let mut s = String::from_str("<a class=prev href=/gallery/");
            self.gallery_id.push_to(&mut s);
            s.append("/");
            push_decimal(&mut s, (self.i - 1) as u64);
            s.append(">\u{276e}</a>\n");
            s
        } else {
            String::from_str("<div>\u{276e}</div>\n")
        }
    }

    fn next_link(&self) -> (r: String)
        ensures
            r@ == self.next_text(),
    {
        if self.i < self.total && self.total - self.i > 1 {
            let mut s = String::from_str("<a class=next href=/gallery/");
            self.gallery_id.push_to(&mut s);
            s.append("/");
            push_decimal(&mut s, (self.i + 1) as u64);
            s.append(">\u{276f}</a>\n");
            s
        } else {
            String::from_str("<div>\u{276f}</div>\n")
        }
    }

    fn preview(&self) -> (r: String)
        ensures
            r@ == self.preview_text(),
    {
        match self.item.id {
            Some(id) => {
                let mut s = Iframe::main(id).to_string();
                s.append("\n");
                s
            },
            None => String::new(),
        }
    }

    fn inscription_row(&self) -> (r: String)
        ensures
            r@ == self.inscription_row_text(),
    {
        match self.item.id {
            Some(id) => {
                let mut s = String::from_str("  <dt>inscription</dt>\n  <dd><a class=collapse href=/inscription/");
                id.push_to(&mut s);
                s.append(">");
                id.push_to(&mut s);
                s.append("</a></dd>\n");
                s
            },
            None => String::new(),
        }
    }

    fn gallery_row(&self) -> (r: String)
        ensures
            r@ == self.gallery_row_text(),
    {
        let mut s = String::from_str("  <dt>gallery</dt>\n  <dd><a class=collapse href=/inscription/");
        self.gallery_id.push_to(&mut s);
        s.append(">");
        self.gallery_id.push_to(&mut s);
        s.append("</a></dd>\n");
        s
    }

    fn title_row(&self) -> (r: String)
        ensures
            r@ == self.title_row_text(),
    {
        match &self.item.attributes.title {
            Some(t) => {
                let mut s = String::from_str("  <dt>title</dt>\n<dd>");
                push_escaped(&mut s, t.as_str());
                s.append("</dd>\n");
                s
            },
            None => String::new(),
        }
    }

    fn subtitle(&self) -> (r: String)
        ensures
            r@ == self.subtitle_text(),
    {
        let mut r = String::from_str("<div class=subtitle-row>\n");
        r.append(self.gallery_line().as_str());
        r.append(self.title_links().as_str());
        r.append("</div>\n");
        r
    }

    fn navigation(&self) -> (r: String)
        ensures
            r@ == self.navigation_text(),
    {
        let mut r = String::from_str("<div class=\"inscription gallery-item-nav\">\n");
        r.append(self.prev_link().as_str());
        r.append(self.preview().as_str());
        r.append(self.next_link().as_str());
        r.append("</div>\n");
        r
    }

    fn facts(&self) -> (r: String)
        ensures
            r@ == self.facts_text(),
    {
        let mut r = String::from_str("<dl>\n");
        r.append(self.inscription_row().as_str());
        r.append(self.gallery_row().as_str());
        r.append(self.title_row().as_str());
        r.append(self.trait_rows().as_str());
        r.append("\n</dl>\n");
        r
    }

    fn trait_rows(&self) -> (r: String)
        ensures
            r@ == traits_text(self.item.attributes.traits.items@),
    {
        let items = &self.item.attributes.traits.items;
        let mut s = String::new();
        let mut k: usize = 0;
        while k < items.len()
            invariant
                k <= items.len(),
                s@ == traits_text(items@.take(k as int)),
            decreases items.len() - k,
        {
            s.append("  <dt>");
            push_escaped(&mut s, items[k].name.as_str());
            s.append("</dt>\n  <dd>");
            push_escaped(&mut s, items[k].value.as_str());
            s.append("</dd>\n");
            assert(items@.take(k + 1).drop_last() =~= items@.take(k as int));
            k = k + 1;
        }
        assert(items@.take(items.len() as int) =~= items@);
        s
    }
}

/// Neighbouring items of a gallery link to each other: while the next item
/// exists, an item's next link leads to it, and that item's previous link
/// leads back.
pub proof fn lemma_neighbours_link_each_other(x: ItemHtml, y: ItemHtml)
    requires
        y.gallery_id == x.gallery_id,
        y.total == x.total,
        y.i == x.i + 1,
        y.i < y.total,
    ensures
        x.next_text() == "<a class=next href=/gallery/"@ + x.gallery_id.text() + "/"@ + decimal(y.i as nat)
            + ">\u{276f}</a>\n"@,
        y.prev_text() == "<a class=prev href=/gallery/"@ + y.gallery_id.text() + "/"@ + decimal(x.i as nat)
            + ">\u{276e}</a>\n"@,
{
}

/// Only the last item of a gallery, or one past the end, shows the
/// placeholder in place of a next link.
pub proof fn lemma_next_placeholder_only_at_end(x: ItemHtml)
    ensures
        (x.next_text() == "<div>\u{276f}</div>\n"@) <==> x.i + 1 >= x.total,
{
    reveal_strlit("<div>\u{276f}</div>\n");
    reveal_strlit("<a class=next href=/gallery/");
    if x.i + 1 < x.total {
        let t = x.next_text();
        assert(t[1] == 'a');
        assert("<div>\u{276f}</div>\n"@[1] == 'd');
    }
}

impl PageContent for ItemHtml {
    /// The gallery's name, ` / `, and the item's name.
    open spec fn title_text(&self) -> Seq<char> {
        gallery_part(self.gallery_number, opt_view(self.gallery_title)) + " / "@ + item_part(
            self.i,
            opt_view(self.item.attributes.title),
        )
    }

    open spec fn oembed_text(&self) -> Option<Seq<char>> {
        None
    }

    /// The heading, the subtitle row, the preview between the neighbouring
    /// items, and the item's facts.
    open spec fn body_text(&self) -> Seq<char> {
        "<h1>"@ + self.heading_text() + "</h1>\n"@ + self.subtitle_text() + self.navigation_text()
            + self.facts_text()
    }

    fn title(&self) -> (t: String) {
        let mut t = match &self.gallery_title {
            Some(title) => title.clone(),
            None => {
                let mut t = String::from_str("Gallery ");
                push_signed_decimal(&mut t, self.gallery_number as i64);
                t
            },
        };
        t.append(" / ");
        match &self.item.attributes.title {
            Some(title) => t.append(title.as_str()),
            None => {
                t.append("Item ");
                push_decimal(&mut t, self.i as u64);
            },
        }
        t
    }

    fn oembed_url(&self) -> (u: Option<String>) {
        None
    }

    fn body(&self) -> (b: String) {
        let mut b = String::from_str("<h1>");
        self.push_heading(&mut b);
        b.append("</h1>\n");
        b.append(self.subtitle().as_str());
        b.append(self.navigation().as_str());
        b.append(self.facts().as_str());
        b
    }
}

} // verus!
