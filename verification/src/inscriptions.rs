//! The page that lists all inscriptions, newest or oldest first, cursed or
//! blessed.
use vstd::prelude::*;
use crate::iframe::{occurs_in, thumbnail_text, Iframe};
use crate::ids::InscriptionId;
use crate::media::Media;
use crate::page::PageContent;
use crate::text::{decimal, push_decimal};

verus! {

/// The order of the inscription list.
#[derive(Debug, Clone, Copy, PartialEq, Eq, Structural)]
pub enum Sort {
    Newest,
    Oldest,
}

impl Sort {
    /// The lowercase name of the order.
    pub open spec fn name(self) -> Seq<char> {
        match self {
            Sort::Newest => "newest"@,
            Sort::Oldest => "oldest"@,
        }
    }

    /// The lowercase name of the order.
    pub fn to_string(&self) -> (s: String)
        ensures
            s@ == self.name(),
    {
        match self {
            Sort::Newest => String::from_str("newest"),
            Sort::Oldest => String::from_str("oldest"),
        }
    }
}

impl Default for Sort {
    fn default() -> (s: Sort)
        ensures
            s == Sort::Newest,
    {
        Sort::Newest
    }
}

/// One page of the inscription list.
pub struct InscriptionsHtml {
    pub inscriptions: Vec<(InscriptionId, Option<Media>)>,
    pub prev: Option<u32>,
    pub next: Option<u32>,
    pub sort: Sort,
    pub cursed: bool,
}

/// The query string that keeps the order and the cursed filter across
/// pages; empty for the default, newest blessed inscriptions.
pub open spec fn query_text(sort: Sort, cursed: bool) -> Seq<char> {
    match (sort, cursed) {
        (Sort::Newest, false) => ""@,
        (Sort::Oldest, false) => "?sort=oldest"@,
        (Sort::Newest, true) => "?cursed=1"@,
        (Sort::Oldest, true) => "?sort=oldest&cursed=1"@,
    }
}

/// The thumbnails of a list of inscriptions, one indented line each.
pub open spec fn thumbnails_text(items: Seq<(InscriptionId, Option<Media>)>) -> Seq<char>
    decreases items.len(),
{
    if items.len() == 0 {
        Seq::empty()
    } else {
        thumbnails_text(items.drop_last()) + "  "@ + thumbnail_text(items.last().0, items.last().1)
            + "\n"@
    }
}

/// A link to page `n` of the list in the given direction (`prev` or
/// `next`), or the bare word when there is no such page.
pub open spec fn page_link_text(dir: Seq<char>, n: Option<u32>, query: Seq<char>) -> Seq<char> {
    match n {
        Some(n) => "<a class="@ + dir + " href=/inscriptions/"@ + decimal(n as nat) + query + ">"@ + dir
            + "</a>\n"@,
        None => dir + "\n"@,
    }
}

impl InscriptionsHtml {
    /// The query string that keeps the order and the cursed filter.
    pub fn query_string(&self) -> (q: &'static str)
        ensures
            q@ == query_text(self.sort, self.cursed),
    {
        match (self.sort, self.cursed) {
            (Sort::Newest, false) => "",
            (Sort::Oldest, false) => "?sort=oldest",
            (Sort::Newest, true) => "?cursed=1",
            (Sort::Oldest, true) => "?sort=oldest&cursed=1",
        }
    }

    /// The attribute that checks the cursed box when the list is cursed.
    pub fn cursed_checked(&self) -> (a: &'static str)
        ensures
            a@ == (if self.cursed { " checked"@ } else { ""@ }),
    {
        if self.cursed {
            " checked"
        } else {
            ""
        }
    }

    /// The attribute that selects the option for `sort` when the list is in
    /// that order.
    pub fn selected_if(&self, sort: Sort) -> (a: &'static str)
        ensures
            a@ == (if self.sort == sort { " selected"@ } else { ""@ }),
    {
        if self.sort == sort {
            " selected"
        } else {
            ""
        }
    }
}

fn push_page_link(s: &mut String, dir: &str, n: Option<u32>, query: &str)
    ensures
        final(s)@ == old(s)@ + page_link_text(dir@, n, query@),
{
    match n {
        Some(n) => {
            s.append("<a class=");
            s.append(dir);
            s.append(" href=/inscriptions/");
            push_decimal(s, n as u64);
            s.append(query);
            s.append(">");
            s.append(dir);
            s.append("</a>\n");
        },
        None => {
            s.append(dir);
            s.append("\n");
        },
    }
}

/// Appends one indented thumbnail line per inscription to `s`.
pub fn push_thumbnails(s: &mut String, items: &Vec<(InscriptionId, Option<Media>)>)
    ensures
        final(s)@ == old(s)@ + thumbnails_text(items@),
{
    let ghost start = s@;
    let mut i: usize = 0;
    while i < items.len()
        invariant
            i <= items.len(),
            s@ == start + thumbnails_text(items@.take(i as int)),
        decreases items.len() - i,
    {
        let (id, media) = items[i];
        s.append("  ");
        Iframe::thumbnail(id, media).push_to(s);
        s.append("\n");
        assert(items@.take(i + 1).drop_last() =~= items@.take(i as int));
        i = i + 1;
    }
    assert(items@.take(items.len() as int) =~= items@);
}

impl PageContent for InscriptionsHtml {
    open spec fn title_text(&self) -> Seq<char> {
        "Inscriptions"@
    }

    open spec fn oembed_text(&self) -> Option<Seq<char>> {
        None
    }

    /// The heading, the order and cursed filter, the thumbnails, and the
    /// links to the neighbouring pages.
    open spec fn body_text(&self) -> Seq<char> {
        "<h1>All Inscriptions</h1>\n<form class=inscriptions-filter action=/inscriptions method=get>\n  <select name=sort>\n    <option value=newest"@
            + (if self.sort == Sort::Newest { " selected"@ } else { ""@ })
            + ">newest</option>\n    <option value=oldest"@
            + (if self.sort == Sort::Oldest { " selected"@ } else { ""@ })
            + ">oldest</option>\n  </select>\n  <label><input type=checkbox name=cursed value=1"@
            + (if self.cursed { " checked"@ } else { ""@ })
            + ">cursed</label>\n</form>\n<div class=thumbnails>\n"@
            + thumbnails_text(self.inscriptions@)
            + "</div>\n<div class=center>\n"@
            + page_link_text("prev"@, self.prev, query_text(self.sort, self.cursed))
            + page_link_text("next"@, self.next, query_text(self.sort, self.cursed))
            + "</div>\n"@
    }

    fn title(&self) -> (t: String) {
        String::from_str("Inscriptions")
    }

    fn oembed_url(&self) -> (u: Option<String>) {
        None
    }

    fn body(&self) -> (b: String) {
        let mut b = String::from_str(
            "<h1>All Inscriptions</h1>\n<form class=inscriptions-filter action=/inscriptions method=get>\n  <select name=sort>\n    <option value=newest",
        );
        b.append(self.selected_if(Sort::Newest));
        b.append(">newest</option>\n    <option value=oldest");
        b.append(self.selected_if(Sort::Oldest));
        b.append(">oldest</option>\n  </select>\n  <label><input type=checkbox name=cursed value=1");
        b.append(self.cursed_checked());
        b.append(">cursed</label>\n</form>\n<div class=thumbnails>\n");
        push_thumbnails(&mut b, &self.inscriptions);
        b.append("</div>\n<div class=center>\n");
        let query = self.query_string();
        push_page_link(&mut b, "prev", self.prev, query);
        push_page_link(&mut b, "next", self.next, query);
        b.append("</div>\n");
        b
    }
}

/// `p` occurs in any text that holds it between two others.
proof fn lemma_occurs_between(a: Seq<char>, p: Seq<char>, b: Seq<char>)
    ensures
        occurs_in(a + p + b, p),
{
    assert((a + p + b).subrange(a.len() as int, (a.len() + p.len()) as int) =~= p);
}

/// Paging keeps the list's order and cursed filter: each link to the
/// previous or next page is `/inscriptions/` and the page number followed
/// by the query that names the order when it is oldest first and
/// `cursed=1` when the list is cursed.
pub proof fn lemma_pagination_keeps_filter(x: InscriptionsHtml)
    ensures
        ({
            let q = match (x.sort, x.cursed) {
                (Sort::Newest, false) => ""@,
                (Sort::Oldest, false) => "?sort=oldest"@,
                (Sort::Newest, true) => "?cursed=1"@,
                (Sort::Oldest, true) => "?sort=oldest&cursed=1"@,
            };
            &&& x.prev matches Some(n) ==> occurs_in(
                x.body_text(),
                "<a class=prev href=/inscriptions/"@ + decimal(n as nat) + q + ">prev</a>"@,
            )
            &&& x.next matches Some(n) ==> occurs_in(
                x.body_text(),
                "<a class=next href=/inscriptions/"@ + decimal(n as nat) + q + ">next</a>"@,
            )
        }),
{
    let q = query_text(x.sort, x.cursed);
    let prev = page_link_text("prev"@, x.prev, q);
    let next = page_link_text("next"@, x.next, q);
    let head = "<h1>All Inscriptions</h1>\n<form class=inscriptions-filter action=/inscriptions method=get>\n  <select name=sort>\n    <option value=newest"@
        + (if x.sort == Sort::Newest { " selected"@ } else { ""@ })
        + ">newest</option>\n    <option value=oldest"@
        + (if x.sort == Sort::Oldest { " selected"@ } else { ""@ })
        + ">oldest</option>\n  </select>\n  <label><input type=checkbox name=cursed value=1"@
        + (if x.cursed { " checked"@ } else { ""@ })
        + ">cursed</label>\n</form>\n<div class=thumbnails>\n"@
        + thumbnails_text(x.inscriptions@)
        + "</div>\n<div class=center>\n"@;
    assert(x.body_text() == head + prev + next + "</div>\n"@);
    reveal_strlit("<a class=");
    reveal_strlit(" href=/inscriptions/");
    reveal_strlit(">");
    reveal_strlit("</a>\n");
    reveal_strlit("prev");
    reveal_strlit("next");
    reveal_strlit("<a class=prev href=/inscriptions/");
    reveal_strlit("<a class=next href=/inscriptions/");
    reveal_strlit(">prev</a>");
    reveal_strlit(">next</a>");
    reveal_strlit("\n");
    if let Some(n) = x.prev {
        let p = "<a class=prev href=/inscriptions/"@ + decimal(n as nat) + q + ">prev</a>"@;
        assert(prev =~= p + "\n"@);
        assert(x.body_text() =~= head + p + ("\n"@ + next + "</div>\n"@));
        lemma_occurs_between(head, p, "\n"@ + next + "</div>\n"@);
    }
    if let Some(n) = x.next {
        let p = "<a class=next href=/inscriptions/"@ + decimal(n as nat) + q + ">next</a>"@;
        assert(next =~= p + "\n"@);
        assert(x.body_text() =~= (head + prev) + p + ("\n"@ + "</div>\n"@));
        lemma_occurs_between(head + prev, p, "\n"@ + "</div>\n"@);
    }
}

} // verus!
