//! Breadcrumb trails: the parent paths that lead to an inscription, and
//! their collapse into one line with a fork where the paths diverge.
use vstd::prelude::*;
use crate::ids::InscriptionId;

verus! {

/// Another inscription on the same sat, or a child, as a crumb's menu
/// lists it.
pub struct SatInscription {
    pub id: InscriptionId,
    pub label: String,
}

/// A sat inscription as plain values: its id and its label.
pub type SatInscriptionView = (InscriptionId, Seq<char>);

impl View for SatInscription {
    type V = SatInscriptionView;

    open spec fn view(&self) -> SatInscriptionView {
        (self.id, self.label@)
    }
}

impl Clone for SatInscription {
    fn clone(&self) -> (r: Self)
        ensures
            r@ == self@,
    {
        SatInscription { id: self.id, label: self.label.clone() }
    }
}

/// The views of a sequence of sat inscriptions.
pub open spec fn sats_view(v: Seq<SatInscription>) -> Seq<SatInscriptionView> {
    v.map_values(|s: SatInscription| s@)
}

/// Copies a list of sat inscriptions.
pub fn copy_sats(v: &Vec<SatInscription>) -> (r: Vec<SatInscription>)
    ensures
        sats_view(r@) == sats_view(v@),
{
    let mut r: Vec<SatInscription> = Vec::new();
    let mut i: usize = 0;
    while i < v.len()
        invariant
            i <= v.len(),
            sats_view(r@) == sats_view(v@.take(i as int)),
        decreases v.len() - i,
    {
        let ghost before = r@;
        r.push(v[i].clone());
        assert(sats_view(r@) =~= sats_view(before).push(v@[i as int]@));
        assert(sats_view(v@.take(i + 1)) =~= sats_view(v@.take(i as int)).push(v@[i as int]@));
        i = i + 1;
    }
    assert(v@.take(v.len() as int) =~= v@);
    r
}

/// One step of a breadcrumb trail: an inscription, its title, the other
/// inscriptions on its sat, its children, and whether it has more children
/// than those listed.
pub struct Crumb {
    pub id: InscriptionId,
    pub title: String,
    pub reinscriptions: Vec<SatInscription>,
    pub children: Vec<SatInscription>,
    pub more_children: bool,
}

/// A crumb as plain values, in field order.
pub type CrumbView = (InscriptionId, Seq<char>, Seq<SatInscriptionView>, Seq<SatInscriptionView>, bool);

impl View for Crumb {
    type V = CrumbView;

    open spec fn view(&self) -> CrumbView {
        (
            self.id,
            self.title@,
            sats_view(self.reinscriptions@),
            sats_view(self.children@),
            self.more_children,
        )
    }
}

impl Clone for Crumb {
    fn clone(&self) -> (r: Self)
        ensures
            r@ == self@,
    {
        Crumb {
            id: self.id,
            title: self.title.clone(),
            reinscriptions: copy_sats(&self.reinscriptions),
            children: copy_sats(&self.children),
            more_children: self.more_children,
        }
    }
}

/// The views of a trail of crumbs.
pub open spec fn trail_view(v: Seq<Crumb>) -> Seq<CrumbView> {
    v.map_values(|c: Crumb| c@)
}

/// The views of a list of trails.
pub open spec fn trails_view(v: Seq<Vec<Crumb>>) -> Seq<Seq<CrumbView>> {
    v.map_values(|t: Vec<Crumb>| trail_view(t@))
}

/// The ids along a trail.
pub open spec fn trail_ids(t: Seq<CrumbView>) -> Seq<InscriptionId> {
    t.map_values(|c: CrumbView| c.0)
}

/// The trails without those whose id sequence an earlier trail already has;
/// the first of equal trails stays, in input order.
pub open spec fn dedupe(trails: Seq<Seq<CrumbView>>) -> Seq<Seq<CrumbView>>
    decreases trails.len(),
{
    if trails.len() == 0 {
        Seq::empty()
    } else {
        let kept = dedupe(trails.drop_last());
        if exists|k: int| 0 <= k < kept.len() && #[trigger] trail_ids(kept[k]) == trail_ids(trails.last()) {
            kept
        } else {
            kept.push(trails.last())
        }
    }
}

/// The length of the shortest trail; 0 for no trails.
pub open spec fn min_len(trails: Seq<Seq<CrumbView>>) -> nat
    decreases trails.len(),
{
    if trails.len() == 0 {
        0
    } else if trails.len() == 1 {
        trails[0].len()
    } else {
        let rest = min_len(trails.drop_last());
        if trails.last().len() < rest {
            trails.last().len()
        } else {
            rest
        }
    }
}

/// Whether every trail has, at position `j` from its start, the id that the
/// first trail has there.
pub open spec fn agree_at(trails: Seq<Seq<CrumbView>>, j: int) -> bool {
    forall|t: int| 0 <= t < trails.len() ==> (#[trigger] trails[t])[j].0 == trails[0][j].0
}

/// Whether every trail has, at position `j` from its end, the id that the
/// first trail has there.
pub open spec fn agree_at_end(trails: Seq<Seq<CrumbView>>, j: int) -> bool {
    forall|t: int|
        0 <= t < trails.len() ==> (#[trigger] trails[t])[trails[t].len() - 1 - j].0
            == trails[0][trails[0].len() - 1 - j].0
}

/// The length of the common prefix of the trails' ids, counted from `p`
/// and capped at `max`.
pub open spec fn common_prefix_len(trails: Seq<Seq<CrumbView>>, max: int, p: int) -> int
    decreases max - p,
{
    if p < max && agree_at(trails, p) {
        common_prefix_len(trails, max, p + 1)
    } else {
        p
    }
}

/// The length of the common suffix of the trails' ids, counted from `s`
/// and capped at `max`.
pub open spec fn common_suffix_len(trails: Seq<Seq<CrumbView>>, max: int, s: int) -> int
    decreases max - s,
{
    if s < max && agree_at_end(trails, s) {
        common_suffix_len(trails, max, s + 1)
    } else {
        s
    }
}

/// The layout of a set of trails, as plain values: the common prefix, the
/// divergent middles, and the common suffix.
pub type LayoutView = (Seq<CrumbView>, Seq<Seq<CrumbView>>, Seq<CrumbView>);

/// The layout of distinct trails. No trail gives an empty layout. One trail
/// gives all but its last crumb as the prefix, no middles, and its last
/// crumb as the suffix. Several trails give the longest common prefix of
/// ids, capped one short of the shortest trail so that the current crumb
/// stays in the suffix; the longest common suffix of ids, capped so that no
/// middle is negative; and each trail's middle between them, in order.
/// Prefix and suffix are the first trail's crumbs.
pub open spec fn layout_of_distinct(trails: Seq<Seq<CrumbView>>) -> LayoutView {
    if trails.len() == 0 {
        (Seq::empty(), Seq::empty(), Seq::empty())
    } else if trails.len() == 1 {
        let t = trails[0];
        if t.len() == 0 {
            (Seq::empty(), Seq::empty(), Seq::empty())
        } else {
            (t.drop_last(), Seq::empty(), seq![t.last()])
        }
    } else {
        let max_prefix = if min_len(trails) >= 1 { min_len(trails) - 1 } else { 0 };
        let p = common_prefix_len(trails, max_prefix, 0);
        let s = common_suffix_len(trails, min_len(trails) - p, 0);
        (
            trails[0].take(p),
            Seq::new(trails.len(), |i: int| trails[i].subrange(p, trails[i].len() - s)),
            trails[0].skip(trails[0].len() - s),
        )
    }
}

/// The layout of a page's breadcrumb trails: that of the trails left after
/// removing repeated id sequences.
pub open spec fn layout_of(trails: Seq<Seq<CrumbView>>) -> LayoutView {
    layout_of_distinct(dedupe(trails))
}

/// The breadcrumb trails collapsed into one line, with a fork only where
/// the trails diverge.
///
/// * `prefix`: crumbs shared by every trail at the start.
/// * `middles`: one divergent middle per trail, in input order, when there
///   are several distinct trails; none otherwise. A middle may be empty.
/// * `suffix`: crumbs shared by every trail at the end.
pub struct BreadcrumbLayout {
    pub prefix: Vec<Crumb>,
    pub middles: Vec<Vec<Crumb>>,
    pub suffix: Vec<Crumb>,
}

impl View for BreadcrumbLayout {
    type V = LayoutView;

    open spec fn view(&self) -> LayoutView {
        (trail_view(self.prefix@), trails_view(self.middles@), trail_view(self.suffix@))
    }
}

/// The shortest trail is no longer than any trail.
proof fn lemma_min_len(trails: Seq<Seq<CrumbView>>)
    ensures
        forall|t: int| 0 <= t < trails.len() ==> min_len(trails) <= (#[trigger] trails[t]).len(),
    decreases trails.len(),
{
    if trails.len() > 1 {
        lemma_min_len(trails.drop_last());
        assert forall|t: int| 0 <= t < trails.len() implies min_len(trails) <= (#[trigger] trails[t]).len() by {
            if t < trails.len() - 1 {
                assert(trails[t] == trails.drop_last()[t]);
            }
        }
    }
}

/// Whether two trails have the same id sequence.
pub fn same_ids(a: &Vec<Crumb>, b: &Vec<Crumb>) -> (r: bool)
    ensures
        r == (trail_ids(trail_view(a@)) == trail_ids(trail_view(b@))),
{
    if a.len() != b.len() {
        assert(trail_ids(trail_view(a@)).len() != trail_ids(trail_view(b@)).len());
        return false;
    }
    let mut i: usize = 0;
    while i < a.len()
        invariant
            a.len() == b.len(),
            i <= a.len(),
            forall|k: int| 0 <= k < i ==> a@[k].id == b@[k].id,
        decreases a.len() - i,
    {
        if a[i].id != b[i].id {
            assert(trail_ids(trail_view(a@))[i as int] != trail_ids(trail_view(b@))[i as int]);
            return false;
        }
        i = i + 1;
    }
    assert(trail_ids(trail_view(a@)) =~= trail_ids(trail_view(b@)));
    true
}

/// Copies the crumbs of `t` from `from` up to `to`.
pub fn copy_range(t: &Vec<Crumb>, from: usize, to: usize) -> (r: Vec<Crumb>)
    requires
        from <= to <= t.len(),
    ensures
        trail_view(r@) == trail_view(t@).subrange(from as int, to as int),
{
    let mut r: Vec<Crumb> = Vec::new();
    let mut i: usize = from;
    while i < to
        invariant
            from <= i <= to <= t.len(),
            trail_view(r@) == trail_view(t@).subrange(from as int, i as int),
        decreases to - i,
    {
        let ghost before = r@;
        r.push(t[i].clone());
        assert(trail_view(r@) =~= trail_view(before).push(t@[i as int]@));
        assert(trail_view(t@).subrange(from as int, i + 1) =~= trail_view(t@).subrange(
            from as int,
            i as int,
        ).push(t@[i as int]@));
        i = i + 1;
    }
    r
}

/// The trails picked by `kept`, as views.
pub open spec fn picked(all: Seq<Seq<CrumbView>>, kept: Seq<usize>) -> Seq<Seq<CrumbView>> {
    kept.map_values(|k: usize| all[k as int])
}

/// Indices of the trails that `dedupe` keeps.
fn distinct_trails(trails: &Vec<Vec<Crumb>>) -> (kept: Vec<usize>)
    ensures
        forall|k: int| 0 <= k < kept@.len() ==> kept@[k] < trails@.len(),
        picked(trails_view(trails@), kept@) == dedupe(trails_view(trails@)),
{
    let ghost all = trails_view(trails@);
    let mut kept: Vec<usize> = Vec::new();
    let mut i: usize = 0;
    while i < trails.len()
        invariant
            all == trails_view(trails@),
            i <= trails.len(),
            forall|k: int| 0 <= k < kept@.len() ==> kept@[k] < i,
            picked(all, kept@) == dedupe(all.take(i as int)),
        decreases trails.len() - i,
    {
        let mut found = false;
        let mut j: usize = 0;
        while j < kept.len()
            invariant
                all == trails_view(trails@),
                i < trails.len(),
                j <= kept.len(),
                forall|k: int| 0 <= k < kept@.len() ==> kept@[k] < i,
                !found ==> forall|k: int|
                    0 <= k < j ==> trail_ids(#[trigger] picked(all, kept@)[k]) != trail_ids(all[i as int]),
                found ==> exists|k: int|
                    0 <= k < kept@.len() && trail_ids(#[trigger] picked(all, kept@)[k]) == trail_ids(all[i as int]),
            decreases kept.len() - j,
        {
            if !found && same_ids(&trails[kept[j]], &trails[i]) {
                found = true;
                assert(picked(all, kept@)[j as int] == all[kept@[j as int] as int]);
            }
            j = j + 1;
        }
        let ghost prev = all.take(i as int);
        let ghost next = all.take(i + 1);
        assert(next.drop_last() =~= prev);
        assert(next.last() == all[i as int]);
        if !found {
            let ghost before = kept@;
            kept.push(i);
            assert(picked(all, kept@) =~= picked(all, before).push(all[i as int]));
        }
        i = i + 1;
    }
    assert(all.take(trails.len() as int) =~= all);
    kept
}

/// Whether `kept` picks at least one trail and only trails that exist.
pub open spec fn valid_pick(trails: Seq<Vec<Crumb>>, kept: Seq<usize>) -> bool {
    &&& kept.len() >= 1
    &&& forall|k: int| 0 <= k < kept.len() ==> kept[k] < trails.len()
}

/// The length of the shortest picked trail.
fn shortest(trails: &Vec<Vec<Crumb>>, kept: &Vec<usize>) -> (m: usize)
    requires
        valid_pick(trails@, kept@),
    ensures
        m == min_len(picked(trails_view(trails@), kept@)),
{
    let ghost d = picked(trails_view(trails@), kept@);
    let mut m: usize = trails[kept[0]].len();
    let mut k: usize = 1;
    assert(d.take(1).drop_last() =~= Seq::<Seq<CrumbView>>::empty());
    while k < kept.len()
        invariant
            valid_pick(trails@, kept@),
            d == picked(trails_view(trails@), kept@),
            1 <= k <= kept@.len(),
            m == min_len(d.take(k as int)),
        decreases kept.len() - k,
    {
        let len = trails[kept[k]].len();
        assert(d.take(k + 1).drop_last() =~= d.take(k as int));
        assert(d.take(k + 1).last() == d[k as int]);
        if len < m {
            m = len;
        }
        k = k + 1;
    }
    assert(d.take(kept.len() as int) =~= d);
    m
}

/// Whether every picked trail has the first one's id at position `j`.
fn ids_agree_at(trails: &Vec<Vec<Crumb>>, kept: &Vec<usize>, j: usize) -> (r: bool)
    requires
        valid_pick(trails@, kept@),
        j < min_len(picked(trails_view(trails@), kept@)),
    ensures
        r == agree_at(picked(trails_view(trails@), kept@), j as int),
{
    let ghost d = picked(trails_view(trails@), kept@);
    proof {
        lemma_min_len(d);
    }
    let first = &trails[kept[0]];
    assert(d[0].len() > j);
    let mut t: usize = 0;
    while t < kept.len()
        invariant
            valid_pick(trails@, kept@),
            d == picked(trails_view(trails@), kept@),
            forall|x: int| 0 <= x < d.len() ==> min_len(d) <= (#[trigger] d[x]).len(),
            j < min_len(d),
            first == trails@[kept@[0] as int],
            first.len() > j,
            t <= kept.len(),
            forall|x: int| 0 <= x < t ==> (#[trigger] d[x])[j as int].0 == d[0][j as int].0,
        decreases kept.len() - t,
    {
        assert(d[t as int].len() > j);
        if trails[kept[t]][j].id != first[j].id {
            assert(d[t as int][j as int].0 != d[0][j as int].0);
            return false;
        }
        t = t + 1;
    }
    true
}

/// Whether every picked trail has the first one's id at position `j` from
/// its end.
fn ids_agree_at_end(trails: &Vec<Vec<Crumb>>, kept: &Vec<usize>, j: usize) -> (r: bool)
    requires
        valid_pick(trails@, kept@),
        j < min_len(picked(trails_view(trails@), kept@)),
    ensures
        r == agree_at_end(picked(trails_view(trails@), kept@), j as int),
{
    let ghost d = picked(trails_view(trails@), kept@);
    proof {
        lemma_min_len(d);
    }
    let first = &trails[kept[0]];
    assert(d[0].len() > j);
    let mut t: usize = 0;
    while t < kept.len()
        invariant
            valid_pick(trails@, kept@),
            d == picked(trails_view(trails@), kept@),
            forall|x: int| 0 <= x < d.len() ==> min_len(d) <= (#[trigger] d[x]).len(),
            j < min_len(d),
            first == trails@[kept@[0] as int],
            first.len() > j,
            t <= kept.len(),
            forall|x: int|
                0 <= x < t ==> (#[trigger] d[x])[d[x].len() - 1 - j].0 == d[0][d[0].len() - 1 - j].0,
        decreases kept.len() - t,
    {
        let tr = &trails[kept[t]];
        assert(d[t as int].len() > j);
        if tr[tr.len() - 1 - j].id != first[first.len() - 1 - j].id {
            assert(d[t as int][d[t as int].len() - 1 - j].0 != d[0][d[0].len() - 1 - j].0);
            return false;
        }
        t = t + 1;
    }
    true
}

/// The length of the common prefix of the picked trails' ids, capped at `max`.
fn prefix_length(trails: &Vec<Vec<Crumb>>, kept: &Vec<usize>, max: usize) -> (p: usize)
    requires
        valid_pick(trails@, kept@),
        max <= min_len(picked(trails_view(trails@), kept@)),
    ensures
        p == common_prefix_len(picked(trails_view(trails@), kept@), max as int, 0),
        p <= max,
{
    let ghost d = picked(trails_view(trails@), kept@);
    let mut p: usize = 0;
    while p < max && ids_agree_at(trails, kept, p)
        invariant
            valid_pick(trails@, kept@),
            d == picked(trails_view(trails@), kept@),
            max <= min_len(d),
            p <= max,
            common_prefix_len(d, max as int, 0) == common_prefix_len(d, max as int, p as int),
        decreases max - p,
    {
        p = p + 1;
    }
    p
}

/// The length of the common suffix of the picked trails' ids, capped at `max`.
fn suffix_length(trails: &Vec<Vec<Crumb>>, kept: &Vec<usize>, max: usize) -> (s: usize)
    requires
        valid_pick(trails@, kept@),
        max <= min_len(picked(trails_view(trails@), kept@)),
    ensures
        s == common_suffix_len(picked(trails_view(trails@), kept@), max as int, 0),
        s <= max,
{
    let ghost d = picked(trails_view(trails@), kept@);
    let mut s: usize = 0;
    while s < max && ids_agree_at_end(trails, kept, s)
        invariant
            valid_pick(trails@, kept@),
            d == picked(trails_view(trails@), kept@),
            max <= min_len(d),
            s <= max,
            common_suffix_len(d, max as int, 0) == common_suffix_len(d, max as int, s as int),
        decreases max - s,
    {
        s = s + 1;
    }
    s
}

/// The middle of every picked trail, between its first `p` and last `s`
/// crumbs.
fn middles_of(trails: &Vec<Vec<Crumb>>, kept: &Vec<usize>, p: usize, s: usize) -> (r: Vec<Vec<Crumb>>)
    requires
        valid_pick(trails@, kept@),
        p + s <= min_len(picked(trails_view(trails@), kept@)),
    ensures
        trails_view(r@) == ({
            let d = picked(trails_view(trails@), kept@);
            Seq::new(d.len(), |i: int| d[i].subrange(p as int, d[i].len() - s))
        }),
{
    let ghost d = picked(trails_view(trails@), kept@);
    proof {
        lemma_min_len(d);
    }
    let mut middles: Vec<Vec<Crumb>> = Vec::new();
    let mut t: usize = 0;
    while t < kept.len()
        invariant
            valid_pick(trails@, kept@),
            d == picked(trails_view(trails@), kept@),
            forall|x: int| 0 <= x < d.len() ==> min_len(d) <= (#[trigger] d[x]).len(),
            p + s <= min_len(d),
            t <= kept.len(),
            middles@.len() == t,
            forall|x: int|
                0 <= x < t ==> trail_view(#[trigger] middles@[x]@) == d[x].subrange(p as int, d[x].len() - s),
        decreases kept.len() - t,
    {
        let tr = &trails[kept[t]];
        assert(d[t as int].len() >= p + s);
        middles.push(copy_range(tr, p, tr.len() - s));
        t = t + 1;
    }
    assert(trails_view(middles@) =~= Seq::new(d.len(), |i: int| d[i].subrange(p as int, d[i].len() - s)));
    middles
}

/// The breadcrumb trails collapsed into a common prefix, divergent middles
/// and a common suffix, after dropping trails whose id sequence an earlier
/// trail already has.
pub fn collapse_trails(trails: &Vec<Vec<Crumb>>) -> (r: BreadcrumbLayout)
    ensures
        r@ == layout_of(trails_view(trails@)),
{
    let kept = distinct_trails(trails);
    let ghost d = picked(trails_view(trails@), kept@);
    if kept.len() == 0 {
        let r = BreadcrumbLayout { prefix: Vec::new(), middles: Vec::new(), suffix: Vec::new() };
        assert(r@.0 =~= Seq::<CrumbView>::empty());
        assert(r@.1 =~= Seq::<Seq<CrumbView>>::empty());
        return r;
    }
    if kept.len() == 1 {
        let t = &trails[kept[0]];
        assert(d[0] == trail_view(t@));
        if t.len() == 0 {
            let r = BreadcrumbLayout { prefix: Vec::new(), middles: Vec::new(), suffix: Vec::new() };
            assert(r@.0 =~= Seq::<CrumbView>::empty());
            assert(r@.1 =~= Seq::<Seq<CrumbView>>::empty());
            return r;
        }
        let prefix = copy_range(t, 0, t.len() - 1);
        let suffix = copy_range(t, t.len() - 1, t.len());
        let r = BreadcrumbLayout { prefix, middles: Vec::new(), suffix };
        assert(trail_view(t@).subrange(0, t.len() - 1) =~= trail_view(t@).drop_last());
        assert(trail_view(t@).subrange(t.len() - 1, t.len() as int) =~= seq![trail_view(t@).last()]);
        assert(r@.1 =~= Seq::<Seq<CrumbView>>::empty());
        return r;
    }
    proof {
        lemma_min_len(d);
    }
    let m = shortest(trails, &kept);
    let max_prefix: usize = if m >= 1 { m - 1 } else { 0 };
    let p = prefix_length(trails, &kept, max_prefix);
    let s = suffix_length(trails, &kept, m - p);
    let first = &trails[kept[0]];
    assert(d[0] == trail_view(first@));
    assert(d[0].len() >= m);
    let prefix = copy_range(first, 0, p);
    let suffix = copy_range(first, first.len() - s, first.len());
    let middles = middles_of(trails, &kept, p, s);
    let r = BreadcrumbLayout { prefix, middles, suffix };
    assert(r@.0 =~= d[0].take(p as int));
    assert(r@.2 =~= d[0].skip(d[0].len() - s));
    r
}

proof fn lemma_common_prefix_len(trails: Seq<Seq<CrumbView>>, max: int, q: int)
    requires
        q <= max,
    ensures
        q <= common_prefix_len(trails, max, q) <= max,
        forall|j: int| q <= j < common_prefix_len(trails, max, q) ==> agree_at(trails, j),
        common_prefix_len(trails, max, q) < max ==> !agree_at(trails, common_prefix_len(trails, max, q)),
    decreases max - q,
{
    if q < max && agree_at(trails, q) {
        lemma_common_prefix_len(trails, max, q + 1);
    }
}

proof fn lemma_common_suffix_len(trails: Seq<Seq<CrumbView>>, max: int, q: int)
    requires
        q <= max,
    ensures
        q <= common_suffix_len(trails, max, q) <= max,
        forall|j: int| q <= j < common_suffix_len(trails, max, q) ==> agree_at_end(trails, j),
        common_suffix_len(trails, max, q) < max ==> !agree_at_end(trails, common_suffix_len(trails, max, q)),
    decreases max - q,
{
    if q < max && agree_at_end(trails, q) {
        lemma_common_suffix_len(trails, max, q + 1);
    }
}

/// Collapsing loses no step of any trail: for several distinct trails,
/// the prefix, a trail's middle and the suffix have exactly that trail's
/// ids; for a single trail, prefix and suffix are the trail itself. There
/// is one middle per distinct trail when there are several, and none
/// otherwise.
pub proof fn lemma_layout_reassembles(trails: Seq<Seq<CrumbView>>)
    ensures
        ({
            let d = dedupe(trails);
            let l = layout_of(trails);
            &&& d.len() <= 1 ==> l.1.len() == 0
            &&& d.len() == 1 ==> l.0 + l.2 == d[0]
            &&& d.len() >= 2 ==> l.1.len() == d.len()
            &&& d.len() >= 2 ==> forall|i: int|
                0 <= i < d.len() ==> trail_ids(l.0 + #[trigger] l.1[i] + l.2) == trail_ids(d[i])
        }),
{
    let d = dedupe(trails);
    let l = layout_of(trails);
    if d.len() == 1 {
        if d[0].len() > 0 {
            assert(d[0].drop_last() + seq![d[0].last()] =~= d[0]);
        } else {
            assert(l.0 + l.2 =~= d[0]);
        }
    }
    if d.len() >= 2 {
        lemma_min_len(d);
        let m = min_len(d);
        let max_prefix = if m >= 1 { m - 1 } else { 0 };
        lemma_common_prefix_len(d, max_prefix as int, 0);
        let p = common_prefix_len(d, max_prefix as int, 0);
        lemma_common_suffix_len(d, m - p, 0);
        let s = common_suffix_len(d, m - p, 0);
        assert forall|i: int| 0 <= i < d.len() implies trail_ids(l.0 + #[trigger] l.1[i] + l.2) == trail_ids(
            d[i],
        ) by {
            let whole = l.0 + l.1[i] + l.2;
            assert(d[0].len() >= m && d[i].len() >= m);
            assert(whole.len() == d[i].len());
            assert forall|k: int| 0 <= k < d[i].len() implies #[trigger] whole[k].0 == d[i][k].0 by {
                if k < p {
                    assert(agree_at(d, k));
                    assert(d[i][k].0 == d[0][k].0);
                } else if k < d[i].len() - s {
                } else {
                    let j = d[i].len() - 1 - k;
                    assert(0 <= j < s);
                    assert(agree_at_end(d, j));
                    assert(d[i][d[i].len() - 1 - j].0 == d[0][d[0].len() - 1 - j].0);
                }
            }
            assert(trail_ids(whole) =~= trail_ids(d[i]));
        }
    }
}

/// For several distinct trails the common prefix and suffix are as long
/// as they can be: every trail agrees on the ids of the prefix and of the
/// suffix, and the prefix stops either one short of the shortest trail or
/// where the trails' ids first differ, the suffix either where it would
/// meet the prefix in the shortest trail or where the ids, counted from the
/// end, first differ. Neither goes further: the prefix is at most one short
/// of the shortest trail (empty when a trail is empty), and prefix and
/// suffix together are at most as long as the shortest trail.
pub proof fn lemma_layout_maximal(trails: Seq<Seq<CrumbView>>)
    requires
        dedupe(trails).len() >= 2,
    ensures
        ({
            let d = dedupe(trails);
            let l = layout_of(trails);
            let m = min_len(d);
            &&& forall|j: int| 0 <= j < l.0.len() ==> agree_at(d, j)
            &&& forall|j: int| 0 <= j < l.2.len() ==> agree_at_end(d, j)
            &&& l.0.len() + 1 < m ==> !agree_at(d, l.0.len() as int)
            &&& l.0.len() + l.2.len() < m ==> !agree_at_end(d, l.2.len() as int)
            &&& l.0.len() <= (if m >= 1 { m - 1 } else { 0 })
            &&& l.0.len() + l.2.len() <= m
        }),
{
    let d = dedupe(trails);
    lemma_min_len(d);
    let m = min_len(d);
    let max_prefix = if m >= 1 { m - 1 } else { 0 };
    lemma_common_prefix_len(d, max_prefix as int, 0);
    let p = common_prefix_len(d, max_prefix as int, 0);
    lemma_common_suffix_len(d, m - p, 0);
    let s = common_suffix_len(d, m - p, 0);
    assert(d[0].len() >= m);
    assert(layout_of(trails).0.len() == p);
    assert(layout_of(trails).2.len() == s);
}

/// When every distinct trail is non-empty and they all end at the same
/// inscription, the suffix holds at least that last crumb: the current
/// inscription always stays out of the fork.
pub proof fn lemma_layout_keeps_current(trails: Seq<Seq<CrumbView>>)
    requires
        dedupe(trails).len() >= 1,
        forall|i: int| 0 <= i < dedupe(trails).len() ==> (#[trigger] dedupe(trails)[i]).len() >= 1,
        forall|i: int|
            0 <= i < dedupe(trails).len() ==> (#[trigger] dedupe(trails)[i]).last().0 == dedupe(
                trails,
            )[0].last().0,
    ensures
        layout_of(trails).2.len() >= 1,
        layout_of(trails).2.last() == dedupe(trails)[0].last(),
{
    let d = dedupe(trails);
    if d.len() >= 2 {
        lemma_min_len(d);
        let m = min_len(d);
        assert(m >= 1) by {
            lemma_min_len_attained(d);
        }
        let max_prefix = m - 1;
        lemma_common_prefix_len(d, max_prefix as int, 0);
        let p = common_prefix_len(d, max_prefix as int, 0);
        assert(agree_at_end(d, 0));
        lemma_common_suffix_len(d, m - p, 0);
        let s = common_suffix_len(d, m - p, 0);
        assert(s == common_suffix_len(d, m - p, 1));
        lemma_common_suffix_len(d, m - p, 1);
    }
}

proof fn lemma_min_len_attained(trails: Seq<Seq<CrumbView>>)
    requires
        trails.len() >= 1,
    ensures
        exists|t: int| 0 <= t < trails.len() && min_len(trails) == (#[trigger] trails[t]).len(),
    decreases trails.len(),
{
    if trails.len() == 1 {
        assert(min_len(trails) == trails[0].len());
    } else {
        lemma_min_len_attained(trails.drop_last());
        let t = choose|t: int| 0 <= t < trails.drop_last().len() && min_len(trails.drop_last()) == (
        #[trigger] trails.drop_last()[t]).len();
        if trails.last().len() < min_len(trails.drop_last()) {
            assert(min_len(trails) == trails[trails.len() - 1].len());
        } else {
            assert(trails[t] == trails.drop_last()[t]);
        }
    }
}

/// No two trails left by `dedupe` have the same ids, and every input
/// trail's ids are among them: a fork never shows two identical rows.
pub proof fn lemma_dedupe_distinct(trails: Seq<Seq<CrumbView>>)
    ensures
        forall|a: int, b: int|
            0 <= a < b < dedupe(trails).len() ==> trail_ids(#[trigger] dedupe(trails)[a]) != trail_ids(
                #[trigger] dedupe(trails)[b],
            ),
        forall|i: int|
            0 <= i < trails.len() ==> exists|k: int|
                0 <= k < dedupe(trails).len() && trail_ids(#[trigger] dedupe(trails)[k]) == trail_ids(
                    #[trigger] trails[i],
                ),
    decreases trails.len(),
{
    if trails.len() > 0 {
        let rest = trails.drop_last();
        lemma_dedupe_distinct(rest);
        let kept = dedupe(rest);
        let d = dedupe(trails);
        assert forall|i: int| 0 <= i < trails.len() implies exists|k: int|
            0 <= k < d.len() && trail_ids(#[trigger] d[k]) == trail_ids(#[trigger] trails[i]) by {
            if i < trails.len() - 1 {
                assert(trails[i] == rest[i]);
                let k = choose|k: int| 0 <= k < kept.len() && trail_ids(#[trigger] kept[k]) == trail_ids(rest[i]);
                assert(d[k] == kept[k]);
            } else {
                if exists|k: int| 0 <= k < kept.len() && #[trigger] trail_ids(kept[k]) == trail_ids(trails.last()) {
                    let k = choose|k: int| 0 <= k < kept.len() && #[trigger] trail_ids(kept[k]) == trail_ids(trails.last());
                    assert(d[k] == kept[k]);
                } else {
                    assert(d[kept.len() as int] == trails.last());
                }
            }
        }
    }
}

} // verus!
