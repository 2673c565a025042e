//! The markup of collapsed breadcrumb trails: a line of crumbs, a fork of
//! rows where the trails diverge, and the current inscription last.
use vstd::prelude::*;
use crate::breadcrumbs::{
    sats_view, trail_view, trails_view, BreadcrumbLayout, Crumb, CrumbView, LayoutView, SatInscription,
    SatInscriptionView,
};
use crate::text::{escape, push_escaped};

verus! {

/// One link per sat inscription, each on its own line.
pub open spec fn sat_links_text(items: Seq<SatInscriptionView>) -> Seq<char>
    decreases items.len(),
{
    if items.len() == 0 {
        Seq::empty()
    } else {
        sat_links_text(items.drop_last()) + "<a href=/inscription/"@ + items.last().0.text() + ">"@
            + escape(items.last().1) + "</a>\n"@
    }
}

/// Whether a crumb has a menu: it has reinscriptions, children, or more
/// children than listed.
pub open spec fn has_menu(c: CrumbView) -> bool {
    c.2.len() > 0 || c.3.len() > 0 || c.4
}

/// The divider between reinscriptions and children, shown when both
/// sections of the menu have something.
pub open spec fn divider_text(c: CrumbView) -> Seq<char> {
    if c.2.len() > 0 && (c.3.len() > 0 || c.4) {
        "<div class=crumb-menu-divider></div>\n"@
    } else {
        Seq::empty()
    }
}

/// The link to all children, shown when the crumb has more than listed.
pub open spec fn all_children_text(c: CrumbView) -> Seq<char> {
    if c.4 {
        "<a href=/children/"@ + c.0.text() + ">all children</a>\n"@
    } else {
        Seq::empty()
    }
}

/// A crumb's drop-down menu: its toggle, the reinscriptions, a divider, the
/// children and the link to all of them; nothing when there is no menu.
pub open spec fn menu_text(c: CrumbView) -> Seq<char> {
    if has_menu(c) {
        "<button class=crumb-toggle type=button aria-label=reinscriptions>\u{25be}</button>\n<span class=crumb-menu>\n"@
            + sat_links_text(c.2) + divider_text(c) + sat_links_text(c.3) + all_children_text(c)
            + "</span>\n"@
    } else {
        Seq::empty()
    }
}

/// A crumb that links to its inscription, with its menu.
pub open spec fn crumb_text(c: CrumbView) -> Seq<char> {
    "<span class=crumb>\n<a href=/inscription/"@ + c.0.text() + ">"@ + escape(c.1) + "</a>\n"@ + menu_text(c)
        + "</span>\n"@
}

/// The separator between crumbs.
pub open spec fn separator_text() -> Seq<char> {
    "<span class=crumb-separator>/</span>\n"@
}

/// The crumbs, each followed by a separator.
pub open spec fn crumbs_before_text(cs: Seq<CrumbView>) -> Seq<char>
    decreases cs.len(),
{
    if cs.len() == 0 {
        Seq::empty()
    } else {
        crumbs_before_text(cs.drop_last()) + crumb_text(cs.last()) + separator_text()
    }
}

/// The crumbs with separators between them.
pub open spec fn crumbs_joined_text(cs: Seq<CrumbView>) -> Seq<char> {
    if cs.len() == 0 {
        Seq::empty()
    } else {
        crumbs_before_text(cs.drop_last()) + crumb_text(cs.last())
    }
}

/// One row of the fork per middle, an empty middle giving an empty row.
pub open spec fn fork_rows_text(middles: Seq<Seq<CrumbView>>) -> Seq<char>
    decreases middles.len(),
{
    if middles.len() == 0 {
        Seq::empty()
    } else {
        fork_rows_text(middles.drop_last()) + "<div class=breadcrumb-fork-row>\n"@ + crumbs_joined_text(
            middles.last(),
        ) + "</div>\n"@
    }
}

/// The fork where the trails diverge; nothing for a single trail.
pub open spec fn fork_text(middles: Seq<Seq<CrumbView>>) -> Seq<char> {
    if middles.len() == 0 {
        Seq::empty()
    } else {
        "<div class=breadcrumb-fork>\n"@ + fork_rows_text(middles) + "</div>\n"@
    }
}

/// The separator between the fork and the common suffix, when both exist.
pub open spec fn fork_separator_text(layout: LayoutView) -> Seq<char> {
    if layout.1.len() > 0 && layout.2.len() > 0 {
        separator_text()
    } else {
        Seq::empty()
    }
}

/// The common suffix: linked crumbs, then the current inscription's title.
pub open spec fn suffix_text(cs: Seq<CrumbView>) -> Seq<char> {
    if cs.len() == 0 {
        Seq::empty()
    } else {
        crumbs_before_text(cs.drop_last()) + "<span class=current>"@ + escape(cs.last().1) + "</span>\n"@
    }
}

/// The breadcrumbs block of a collapsed layout: the common prefix, the
/// fork, and the common suffix; nothing when there are no crumbs.
pub open spec fn breadcrumbs_text(layout: LayoutView) -> Seq<char> {
    if layout.0.len() == 0 && layout.1.len() == 0 && layout.2.len() == 0 {
        Seq::empty()
    } else {
        "<div class=breadcrumbs>\n"@ + crumbs_before_text(layout.0) + fork_text(layout.1)
            + fork_separator_text(layout) + suffix_text(layout.2) + "</div>\n"@
    }
}

/// Appends one link per sat inscription.
fn push_sat_links(s: &mut String, items: &Vec<SatInscription>)
    ensures
        final(s)@ == old(s)@ + sat_links_text(sats_view(items@)),
{
    let ghost start = s@;
    let mut i: usize = 0;
    while i < items.len()
        invariant
            i <= items.len(),
            s@ == start + sat_links_text(sats_view(items@).take(i as int)),
        decreases items.len() - i,
    {
        s.append("<a href=/inscription/");
        items[i].id.push_to(s);
        s.append(">");
        push_escaped(s, items[i].label.as_str());
        s.append("</a>\n");
        assert(sats_view(items@).take(i + 1).drop_last() =~= sats_view(items@).take(i as int));
        i = i + 1;
    }
    assert(sats_view(items@).take(items.len() as int) =~= sats_view(items@));
}

/// Appends a crumb's menu, if it has one.
fn push_menu(s: &mut String, c: &Crumb)
    ensures
        final(s)@ == old(s)@ + menu_text(c@),
{
    if c.reinscriptions.len() > 0 || c.children.len() > 0 || c.more_children {
        s.append(
            "<button class=crumb-toggle type=button aria-label=reinscriptions>\u{25be}</button>\n<span class=crumb-menu>\n",
        );
        push_sat_links(s, &c.reinscriptions);
        if c.reinscriptions.len() > 0 && (c.children.len() > 0 || c.more_children) {
            s.append("<div class=crumb-menu-divider></div>\n");
        }
        push_sat_links(s, &c.children);
        if c.more_children {
            s.append("<a href=/children/");
            c.id.push_to(s);
            s.append(">all children</a>\n");
        }
        s.append("</span>\n");
    }
}

/// Appends a crumb.
fn push_crumb(s: &mut String, c: &Crumb)
    ensures
        final(s)@ == old(s)@ + crumb_text(c@),
{
    s.append("<span class=crumb>\n<a href=/inscription/");
    c.id.push_to(s);
    s.append(">");
    push_escaped(s, c.title.as_str());
    s.append("</a>\n");
    push_menu(s, c);
    s.append("</span>\n");
}

/// Appends the first `n` crumbs, each followed by a separator.
fn push_crumbs_before(s: &mut String, cs: &Vec<Crumb>, n: usize)
    requires
        n <= cs@.len(),
    ensures
        final(s)@ == old(s)@ + crumbs_before_text(trail_view(cs@).take(n as int)),
{
    let ghost start = s@;
    let mut i: usize = 0;
    while i < n
        invariant
            i <= n <= cs@.len(),
            s@ == start + crumbs_before_text(trail_view(cs@).take(i as int)),
        decreases n - i,
    {
        push_crumb(s, &cs[i]);
        s.append("<span class=crumb-separator>/</span>\n");
        assert(trail_view(cs@).take(i + 1).drop_last() =~= trail_view(cs@).take(i as int));
        i = i + 1;
    }
}

/// Appends the crumbs with separators between them.
fn push_crumbs_joined(s: &mut String, cs: &Vec<Crumb>)
    ensures
        final(s)@ == old(s)@ + crumbs_joined_text(trail_view(cs@)),
{
    if cs.len() > 0 {
        let last = cs.len() - 1;
        push_crumbs_before(s, cs, last);
        push_crumb(s, &cs[last]);
        assert(trail_view(cs@).take(last as int) =~= trail_view(cs@).drop_last());
    }
}

/// Appends one row of the fork.
fn push_fork_row(s: &mut String, middle: &Vec<Crumb>)
    ensures
        final(s)@ == old(s)@ + "<div class=breadcrumb-fork-row>\n"@ + crumbs_joined_text(trail_view(middle@))
            + "</div>\n"@,
{
    s.append("<div class=breadcrumb-fork-row>\n");
    push_crumbs_joined(s, middle);
    s.append("</div>\n");
}

/// One more middle adds its row to the fork.
proof fn lemma_fork_rows_step(rows: Seq<Seq<CrumbView>>, i: int)
    requires
        0 <= i < rows.len(),
    ensures
        fork_rows_text(rows.take(i + 1)) == fork_rows_text(rows.take(i)) + "<div class=breadcrumb-fork-row>\n"@
            + crumbs_joined_text(rows[i]) + "</div>\n"@,
{
    assert(rows.take(i + 1).drop_last() =~= rows.take(i));
}

/// Appends the fork, if there are middles.
fn push_fork(s: &mut String, middles: &Vec<Vec<Crumb>>)
    ensures
        final(s)@ == old(s)@ + fork_text(trails_view(middles@)),
{
    if middles.len() > 0 {
        s.append("<div class=breadcrumb-fork>\n");
        let ghost start = s@;
        let ghost rows = trails_view(middles@);
        let mut i: usize = 0;
        while i < middles.len()
            invariant
                i <= middles.len(),
                rows == trails_view(middles@),
                s@ == start + fork_rows_text(rows.take(i as int)),
            decreases middles.len() - i,
        {
            let ghost before = s@;
            push_fork_row(s, &middles[i]);
            proof {
                lemma_fork_rows_step(rows, i as int);
                assert(rows[i as int] == trail_view(middles@[i as int]@));
            }
            i = i + 1;
        }
        assert(rows.take(middles.len() as int) =~= rows);
        s.append("</div>\n");
    }
}

/// Appends the common suffix.
fn push_suffix(s: &mut String, cs: &Vec<Crumb>)
    ensures
        final(s)@ == old(s)@ + suffix_text(trail_view(cs@)),
{
    if cs.len() > 0 {
        let last = cs.len() - 1;
        push_crumbs_before(s, cs, last);
        s.append("<span class=current>");
        push_escaped(s, cs[last].title.as_str());
        s.append("</span>\n");
        assert(trail_view(cs@).take(last as int) =~= trail_view(cs@).drop_last());
    }
}

/// The breadcrumbs block of a collapsed layout.
pub fn breadcrumbs_html(layout: &BreadcrumbLayout) -> (r: String)
    ensures
        r@ == breadcrumbs_text(layout@),
{
    let mut r = String::new();
    if layout.prefix.len() == 0 && layout.middles.len() == 0 && layout.suffix.len() == 0 {
        return r;
    }
    r.append("<div class=breadcrumbs>\n");
    push_crumbs_before(&mut r, &layout.prefix, layout.prefix.len());
    assert(trail_view(layout.prefix@).take(layout.prefix.len() as int) =~= trail_view(layout.prefix@));
    push_fork(&mut r, &layout.middles);
    if layout.middles.len() > 0 && layout.suffix.len() > 0 {
        r.append("<span class=crumb-separator>/</span>\n");
    }
    push_suffix(&mut r, &layout.suffix);
    r.append("</div>\n");
    r
}

} // verus!
