//! Links that show an inscription as a gallery item, a main preview, or a
//! thumbnail.
use vstd::prelude::*;
use crate::ids::InscriptionId;
use crate::media::Media;
use crate::text::{decimal, hex_fixed, push_decimal};

verus! {

/// Which of the three forms an `Iframe` renders.
#[derive(Debug, Clone, Copy, PartialEq, Eq, Structural)]
enum IframeKind {
    Item { i: usize, id: InscriptionId },
    Main,
    Thumbnail,
}

/// A rendered preview of an inscription.
pub struct Iframe {
    inscription_id: InscriptionId,
    kind: IframeKind,
    media: Option<Media>,
}

/// The body of a thumbnail of `content_id`: images are plain `<img>` tags
/// pointing at the content; arbitrary HTML gets a sandbox without scripts,
/// marked scriptable; everything else a sandbox that allows scripts.
pub open spec fn thumbnail_body_text(media: Option<Media>, content_id: InscriptionId) -> Seq<char> {
    match media {
        Some(Media::Image(rendering)) => "<img loading=lazy decoding=async class=rendering-"@
            + rendering.name() + " src=/content/"@ + content_id.text() + ">"@,
        Some(Media::Iframe) => "<iframe data-scriptable sandbox scrolling=no loading=lazy src=/preview/"@
            + content_id.text() + "?thumb=1></iframe>"@,
        _ => "<iframe sandbox=allow-scripts scrolling=no loading=lazy src=/preview/"@
            + content_id.text() + "?thumb=1></iframe>"@,
    }
}

/// Item `i` of the gallery `gallery`, showing inscription `id`.
pub open spec fn item_text(gallery: InscriptionId, i: nat, id: InscriptionId, media: Option<Media>) -> Seq<char> {
    "<a href=/gallery/"@ + gallery.text() + "/"@ + decimal(i) + ">"@ + thumbnail_body_text(media, id)
        + "</a>"@
}

/// The main preview of an inscription.
pub open spec fn main_text(id: InscriptionId) -> Seq<char> {
    "<iframe sandbox=allow-scripts loading=lazy src=/preview/"@ + id.text() + "></iframe>"@
}

/// The thumbnail of an inscription, linking to its page.
pub open spec fn thumbnail_text(id: InscriptionId, media: Option<Media>) -> Seq<char> {
    "<a href=/inscription/"@ + id.text() + ">"@ + thumbnail_body_text(media, id) + "</a>"@
}

impl Iframe {
    /// The markup of the preview.
    pub closed spec fn text(&self) -> Seq<char> {
        match self.kind {
            IframeKind::Item { i, id } => item_text(self.inscription_id, i as nat, id, self.media),
            IframeKind::Main => main_text(self.inscription_id),
            IframeKind::Thumbnail => thumbnail_text(self.inscription_id, self.media),
        }
    }

    /// Item `i` of gallery `inscription_id`, showing inscription `id`.
    pub fn item(inscription_id: InscriptionId, i: usize, id: InscriptionId, media: Option<Media>) -> (r: Iframe)
        ensures
            r.text() == item_text(inscription_id, i as nat, id, media),
    {
        Iframe { inscription_id, kind: IframeKind::Item { i, id }, media }
    }

    /// The main preview of `inscription_id`.
    pub fn main(inscription_id: InscriptionId) -> (r: Iframe)
        ensures
            r.text() == main_text(inscription_id),
    {
        Iframe { inscription_id, kind: IframeKind::Main, media: None }
    }

    /// The thumbnail of `inscription_id`.
    pub fn thumbnail(inscription_id: InscriptionId, media: Option<Media>) -> (r: Iframe)
        ensures
            r.text() == thumbnail_text(inscription_id, media),
    {
        Iframe { inscription_id, kind: IframeKind::Thumbnail, media }
    }

    /// Appends the thumbnail body of `content_id`, in the form that this
    /// preview's media kind calls for, to `s`.
    fn thumbnail_body(&self, content_id: InscriptionId, s: &mut String)
        ensures
            final(s)@ == old(s)@ + thumbnail_body_text(self.media, content_id),
    {
        match self.media {
            Some(Media::Image(rendering)) => {
                s.append("<img loading=lazy decoding=async class=rendering-");
                s.append(rendering.to_string().as_str());
                s.append(" src=/content/");
                content_id.push_to(s);
                s.append(">");
            },
            Some(Media::Iframe) => {
                s.append("<iframe data-scriptable sandbox scrolling=no loading=lazy src=/preview/");
                content_id.push_to(s);
                s.append("?thumb=1></iframe>");
            },
            _ => {
                s.append("<iframe sandbox=allow-scripts scrolling=no loading=lazy src=/preview/");
                content_id.push_to(s);
                s.append("?thumb=1></iframe>");
            },
        }
    }

    /// Appends the markup of the preview to `s`.
    pub fn push_to(&self, s: &mut String)
        ensures
            final(s)@ == old(s)@ + self.text(),
    {
        match self.kind {
            IframeKind::Item { i, id } => {
                s.append("<a href=/gallery/");
                self.inscription_id.push_to(s);
                s.append("/");
                push_decimal(s, i as u64);
                s.append(">");
                self.thumbnail_body(id, s);
                s.append("</a>");
            },
            IframeKind::Main => {
                s.append("<iframe sandbox=allow-scripts loading=lazy src=/preview/");
                self.inscription_id.push_to(s);
                s.append("></iframe>");
            },
            IframeKind::Thumbnail => {
                s.append("<a href=/inscription/");
                self.inscription_id.push_to(s);
                s.append(">");
                self.thumbnail_body(self.inscription_id, s);
                s.append("</a>");
            },
        }
    }

    /// The markup of the preview.
    pub fn to_string(&self) -> (r: String)
        ensures
            r@ == self.text(),
    {
        let mut r = String::new();
        self.push_to(&mut r);
        r
    }
}

/// Whether `p` occurs in `s`.
pub open spec fn occurs_in(s: Seq<char>, p: Seq<char>) -> bool {
    exists|i: int| 0 <= i && i + p.len() <= s.len() && #[trigger] s.subrange(i, i + p.len()) == p
}

/// Whether `s` has no `-`.
pub open spec fn dash_free(s: Seq<char>) -> bool {
    forall|k: int| 0 <= k < s.len() ==> s[k] != '-'
}

proof fn lemma_decimal_dash_free(n: nat)
    ensures
        dash_free(decimal(n)),
    decreases n,
{
    if n >= 10 {
        lemma_decimal_dash_free(n / 10);
        assert(dash_free(decimal(n))) by {
            let d = decimal(n);
            assert forall|k: int| 0 <= k < d.len() implies d[k] != '-' by {
                if k < d.len() - 1 {
                    assert(d[k] == decimal(n / 10)[k]);
                }
            }
        }
    }
}

proof fn lemma_hex_dash_free(n: nat, k: nat)
    ensures
        dash_free(hex_fixed(n, k)),
    decreases k,
{
    if k > 0 {
        lemma_hex_dash_free(n / 16, (k - 1) as nat);
        let h = hex_fixed(n, k);
        assert forall|j: int| 0 <= j < h.len() implies h[j] != '-' by {
            if j < h.len() - 1 {
                assert(h[j] == hex_fixed(n / 16, (k - 1) as nat)[j]);
            }
        }
    }
}

/// An inscription id is written without a `-`.
proof fn lemma_id_dash_free(id: InscriptionId)
    ensures
        dash_free(id.text()),
{
    lemma_hex_dash_free(id.txid.0 as nat, 16);
    lemma_hex_dash_free(id.txid.1 as nat, 16);
    lemma_hex_dash_free(id.txid.2 as nat, 16);
    lemma_hex_dash_free(id.txid.3 as nat, 16);
    lemma_decimal_dash_free(id.index as nat);
    let t = id.text();
    let a = hex_fixed(id.txid.0 as nat, 16);
    let b = hex_fixed(id.txid.1 as nat, 16);
    let c = hex_fixed(id.txid.2 as nat, 16);
    let d = hex_fixed(id.txid.3 as nat, 16);
    let e = decimal(id.index as nat);
    assert(t =~= a + b + c + d + seq!['i'] + e);
    assert forall|k: int| 0 <= k < t.len() implies t[k] != '-' by {
        if k < a.len() {
            assert(t[k] == a[k]);
        } else if k < a.len() + b.len() {
            assert(t[k] == b[k - a.len()]);
        } else if k < a.len() + b.len() + c.len() {
            assert(t[k] == c[k - a.len() - b.len()]);
        } else if k < a.len() + b.len() + c.len() + d.len() {
            assert(t[k] == d[k - a.len() - b.len() - c.len()]);
        } else if k == a.len() + b.len() + c.len() + d.len() {
        } else {
            assert(t[k] == e[k - a.len() - b.len() - c.len() - d.len() - 1]);
        }
    }
}

/// Markup whose only `-` is the one in the script-less iframe's
/// `data-scriptable` has no `allow-scripts` in it.
proof fn lemma_no_allow_scripts(x: Seq<char>, y: Seq<char>)
    requires
        dash_free(x),
        dash_free(y),
    ensures
        !occurs_in(
            x + "<iframe data-scriptable sandbox scrolling=no loading=lazy src=/preview/"@ + y,
            "allow-scripts"@,
        ),
{
    reveal_strlit("<iframe data-scriptable sandbox scrolling=no loading=lazy src=/preview/");
    reveal_strlit("allow-scripts");
    let l = "<iframe data-scriptable sandbox scrolling=no loading=lazy src=/preview/"@;
    let p = "allow-scripts"@;
    let s = x + l + y;
    if occurs_in(s, p) {
        let i = choose|i: int| 0 <= i && i + p.len() <= s.len() && #[trigger] s.subrange(i, i + p.len()) == p;
        assert(s.subrange(i, i + p.len())[5] == p[5]);
        assert(s.subrange(i, i + p.len())[4] == p[4]);
        assert(s[i + 5] == '-');
        assert(s[i + 4] == 'w');
        if i + 5 < x.len() {
            assert(s[i + 5] == x[i + 5]);
        } else if i + 5 >= x.len() + l.len() {
            assert(s[i + 5] == y[i + 5 - x.len() - l.len()]);
        } else {
            assert(s[i + 5] == l[i + 5 - x.len()]);
            assert(i + 5 - x.len() == 12);
            assert(s[i + 4] == l[11]);
        }
    }
}

/// Thumbnails of HTML and SVG inscriptions get a sandbox that allows no
/// scripts: their markup holds `sandbox` and, alone, as a link to the
/// inscription or as a gallery item, has no `allow-scripts` in it.
pub proof fn lemma_html_thumbnails_run_no_scripts(gallery: InscriptionId, i: nat, id: InscriptionId)
    ensures
        occurs_in(thumbnail_body_text(Some(Media::Iframe), id), "sandbox"@),
        !occurs_in(thumbnail_body_text(Some(Media::Iframe), id), "allow-scripts"@),
        !occurs_in(thumbnail_text(id, Some(Media::Iframe)), "allow-scripts"@),
        !occurs_in(item_text(gallery, i, id, Some(Media::Iframe)), "allow-scripts"@),
{
    reveal_strlit("<a href=/inscription/");
    reveal_strlit(">");
    reveal_strlit("?thumb=1></iframe>");
    reveal_strlit("</a>");
    reveal_strlit("<a href=/gallery/");
    reveal_strlit("/");
    lemma_id_dash_free(id);
    lemma_id_dash_free(gallery);
    lemma_decimal_dash_free(i);
    let l = "<iframe data-scriptable sandbox scrolling=no loading=lazy src=/preview/"@;
    let t = id.text();
    let tail = t + "?thumb=1></iframe>"@;
    assert(dash_free(tail));
    assert(thumbnail_body_text(Some(Media::Iframe), id) =~= Seq::<char>::empty() + l + tail);
    lemma_no_allow_scripts(Seq::<char>::empty(), tail);
    reveal_strlit("<iframe data-scriptable sandbox scrolling=no loading=lazy src=/preview/");
    reveal_strlit("sandbox");
    assert(thumbnail_body_text(Some(Media::Iframe), id).subrange(24, 24 + "sandbox"@.len() as int)
        =~= "sandbox"@);
    let head = "<a href=/inscription/"@ + t + ">"@;
    assert(dash_free(head));
    let tail2 = tail + "</a>"@;
    assert(dash_free(tail2));
    assert(thumbnail_text(id, Some(Media::Iframe)) =~= head + l + tail2);
    lemma_no_allow_scripts(head, tail2);
    let head3 = "<a href=/gallery/"@ + gallery.text() + "/"@ + decimal(i) + ">"@;
    assert(dash_free(head3));
    assert(item_text(gallery, i, id, Some(Media::Iframe)) =~= head3 + l + tail2);
    lemma_no_allow_scripts(head3, tail2);
}

/// Thumbnails of everything else that is not an image keep a sandbox that
/// allows scripts, so that their own preview pages render.
pub proof fn lemma_other_thumbnails_run_scripts(id: InscriptionId, media: Option<Media>)
    requires
        !(media matches Some(Media::Image(_))),
        media != Some(Media::Iframe),
    ensures
        occurs_in(thumbnail_body_text(media, id), "allow-scripts"@),
{
    reveal_strlit("<iframe sandbox=allow-scripts scrolling=no loading=lazy src=/preview/");
    reveal_strlit("allow-scripts");
    let l = "<iframe sandbox=allow-scripts scrolling=no loading=lazy src=/preview/"@;
    let s = thumbnail_body_text(media, id);
    assert(s == l + id.text() + "?thumb=1></iframe>"@);
    assert(s.subrange(16, 16 + "allow-scripts"@.len() as int) =~= "allow-scripts"@);
}

} // verus!
