//! Magic-byte sniffing of inscription bodies whose stored content type is
//! wrong: the first matcher, in table order, that accepts the head of the
//! body decides the media kind.
use vstd::prelude::*;
use crate::media::{ImageRendering, Media};

verus! {

/// Whether `p` occurs in `s` at `offset`.
pub open spec fn bytes_at(s: Seq<u8>, offset: int, p: Seq<u8>) -> bool {
    0 <= offset && offset + p.len() <= s.len() && s.subrange(offset, offset + p.len()) == p
}

/// Whether `s` begins with `p`.
pub open spec fn starts_with(s: Seq<u8>, p: Seq<u8>) -> bool {
    bytes_at(s, 0, p)
}

/// Whether `p` occurs anywhere in `s`.
pub open spec fn contains_bytes(s: Seq<u8>, p: Seq<u8>) -> bool {
    exists|i: int| #[trigger] bytes_at(s, i, p)
}

/// ASCII whitespace as `u8::is_ascii_whitespace` has it: space, tab, line
/// feed, form feed and carriage return.
pub open spec fn is_ascii_whitespace(b: u8) -> bool {
    b == 0x20 || b == 0x09 || b == 0x0a || b == 0x0c || b == 0x0d
}

/// Number of ASCII whitespace bytes at the start of `s`.
pub open spec fn leading_whitespace(s: Seq<u8>) -> nat
    decreases s.len(),
{
    if s.len() > 0 && is_ascii_whitespace(s[0]) {
        1 + leading_whitespace(s.drop_first())
    } else {
        0
    }
}

/// The bytes of `glTF`.
pub open spec fn sig_glb() -> Seq<u8> {
    seq![0x67u8, 0x6c, 0x54, 0x46]
}

/// The bytes of `glTF`.
fn sig_glb_bytes() -> (b: &'static [u8])
    ensures
        b@ == sig_glb(),
{
    let b: &'static [u8] = &[0x67, 0x6c, 0x54, 0x46];
    assert(b@ =~= sig_glb());
    b
}

/// The bytes of `\x89PNG\r\n\x1a\n`.
pub open spec fn sig_png() -> Seq<u8> {
    seq![0x89u8, 0x50, 0x4e, 0x47, 0x0d, 0x0a, 0x1a, 0x0a]
}

/// The bytes of `\x89PNG\r\n\x1a\n`.
fn sig_png_bytes() -> (b: &'static [u8])
    ensures
        b@ == sig_png(),
{
    let b: &'static [u8] = &[0x89, 0x50, 0x4e, 0x47, 0x0d, 0x0a, 0x1a, 0x0a];
    assert(b@ =~= sig_png());
    b
}

/// The bytes of `\xff\xd8\xff`.
pub open spec fn sig_jpeg() -> Seq<u8> {
    seq![0xffu8, 0xd8, 0xff]
}

/// The bytes of `\xff\xd8\xff`.
fn sig_jpeg_bytes() -> (b: &'static [u8])
    ensures
        b@ == sig_jpeg(),
{
    let b: &'static [u8] = &[0xff, 0xd8, 0xff];
    assert(b@ =~= sig_jpeg());
    b
}

/// The bytes of `GIF87a`.
pub open spec fn sig_gif87a() -> Seq<u8> {
    seq![0x47u8, 0x49, 0x46, 0x38, 0x37, 0x61]
}

/// The bytes of `GIF87a`.
fn sig_gif87a_bytes() -> (b: &'static [u8])
    ensures
        b@ == sig_gif87a(),
{
    let b: &'static [u8] = &[0x47, 0x49, 0x46, 0x38, 0x37, 0x61];
    assert(b@ =~= sig_gif87a());
    b
}

/// The bytes of `GIF89a`.
pub open spec fn sig_gif89a() -> Seq<u8> {
    seq![0x47u8, 0x49, 0x46, 0x38, 0x39, 0x61]
}

/// The bytes of `GIF89a`.
fn sig_gif89a_bytes() -> (b: &'static [u8])
    ensures
        b@ == sig_gif89a(),
{
    let b: &'static [u8] = &[0x47, 0x49, 0x46, 0x38, 0x39, 0x61];
    assert(b@ =~= sig_gif89a());
    b
}

/// The bytes of `RIFF`.
pub open spec fn sig_riff() -> Seq<u8> {
    seq![0x52u8, 0x49, 0x46, 0x46]
}

/// The bytes of `RIFF`.
fn sig_riff_bytes() -> (b: &'static [u8])
    ensures
        b@ == sig_riff(),
{
    let b: &'static [u8] = &[0x52, 0x49, 0x46, 0x46];
    assert(b@ =~= sig_riff());
    b
}

/// The bytes of `WEBP`.
pub open spec fn sig_webp() -> Seq<u8> {
    seq![0x57u8, 0x45, 0x42, 0x50]
}

/// The bytes of `WEBP`.
fn sig_webp_bytes() -> (b: &'static [u8])
    ensures
        b@ == sig_webp(),
{
    let b: &'static [u8] = &[0x57, 0x45, 0x42, 0x50];
    assert(b@ =~= sig_webp());
    b
}

/// The bytes of `WAVE`.
pub open spec fn sig_wave() -> Seq<u8> {
    seq![0x57u8, 0x41, 0x56, 0x45]
}

/// The bytes of `WAVE`.
fn sig_wave_bytes() -> (b: &'static [u8])
    ensures
        b@ == sig_wave(),
{
    let b: &'static [u8] = &[0x57, 0x41, 0x56, 0x45];
    assert(b@ =~= sig_wave());
    b
}

/// The bytes of `ftyp`.
pub open spec fn sig_ftyp() -> Seq<u8> {
    seq![0x66u8, 0x74, 0x79, 0x70]
}

/// The bytes of `ftyp`.
fn sig_ftyp_bytes() -> (b: &'static [u8])
    ensures
        b@ == sig_ftyp(),
{
    let b: &'static [u8] = &[0x66, 0x74, 0x79, 0x70];
    assert(b@ =~= sig_ftyp());
    b
}

/// The bytes of `mp4`.
pub open spec fn sig_brand_mp4() -> Seq<u8> {
    seq![0x6du8, 0x70, 0x34]
}

/// The bytes of `mp4`.
fn sig_brand_mp4_bytes() -> (b: &'static [u8])
    ensures
        b@ == sig_brand_mp4(),
{
    let b: &'static [u8] = &[0x6d, 0x70, 0x34];
    assert(b@ =~= sig_brand_mp4());
    b
}

/// The bytes of `iso`.
pub open spec fn sig_brand_iso() -> Seq<u8> {
    seq![0x69u8, 0x73, 0x6f]
}

/// The bytes of `iso`.
fn sig_brand_iso_bytes() -> (b: &'static [u8])
    ensures
        b@ == sig_brand_iso(),
{
    let b: &'static [u8] = &[0x69, 0x73, 0x6f];
    assert(b@ =~= sig_brand_iso());
    b
}

/// The bytes of `avc1`.
pub open spec fn sig_brand_avc1() -> Seq<u8> {
    seq![0x61u8, 0x76, 0x63, 0x31]
}

/// The bytes of `avc1`.
fn sig_brand_avc1_bytes() -> (b: &'static [u8])
    ensures
        b@ == sig_brand_avc1(),
{
    let b: &'static [u8] = &[0x61, 0x76, 0x63, 0x31];
    assert(b@ =~= sig_brand_avc1());
    b
}

/// The bytes of `M4V `.
pub open spec fn sig_brand_m4v() -> Seq<u8> {
    seq![0x4du8, 0x34, 0x56, 0x20]
}

/// The bytes of `M4V `.
fn sig_brand_m4v_bytes() -> (b: &'static [u8])
    ensures
        b@ == sig_brand_m4v(),
{
    let b: &'static [u8] = &[0x4d, 0x34, 0x56, 0x20];
    assert(b@ =~= sig_brand_m4v());
    b
}

/// The bytes of `dash`.
pub open spec fn sig_brand_dash() -> Seq<u8> {
    seq![0x64u8, 0x61, 0x73, 0x68]
}

/// The bytes of `dash`.
fn sig_brand_dash_bytes() -> (b: &'static [u8])
    ensures
        b@ == sig_brand_dash(),
{
    let b: &'static [u8] = &[0x64, 0x61, 0x73, 0x68];
    assert(b@ =~= sig_brand_dash());
    b
}

/// The bytes of `OggS`.
pub open spec fn sig_ogg() -> Seq<u8> {
    seq![0x4fu8, 0x67, 0x67, 0x53]
}

/// The bytes of `OggS`.
fn sig_ogg_bytes() -> (b: &'static [u8])
    ensures
        b@ == sig_ogg(),
{
    let b: &'static [u8] = &[0x4f, 0x67, 0x67, 0x53];
    assert(b@ =~= sig_ogg());
    b
}

/// The bytes of `fLaC`.
pub open spec fn sig_flac() -> Seq<u8> {
    seq![0x66u8, 0x4c, 0x61, 0x43]
}

/// The bytes of `fLaC`.
fn sig_flac_bytes() -> (b: &'static [u8])
    ensures
        b@ == sig_flac(),
{
    let b: &'static [u8] = &[0x66, 0x4c, 0x61, 0x43];
    assert(b@ =~= sig_flac());
    b
}

/// The bytes of `%PDF-`.
pub open spec fn sig_pdf() -> Seq<u8> {
    seq![0x25u8, 0x50, 0x44, 0x46, 0x2d]
}

/// The bytes of `%PDF-`.
fn sig_pdf_bytes() -> (b: &'static [u8])
    ensures
        b@ == sig_pdf(),
{
    let b: &'static [u8] = &[0x25, 0x50, 0x44, 0x46, 0x2d];
    assert(b@ =~= sig_pdf());
    b
}

/// The bytes of `"asset"`.
pub open spec fn sig_asset() -> Seq<u8> {
    seq![0x22u8, 0x61, 0x73, 0x73, 0x65, 0x74, 0x22]
}

/// The bytes of `"asset"`.
fn sig_asset_bytes() -> (b: &'static [u8])
    ensures
        b@ == sig_asset(),
{
    let b: &'static [u8] = &[0x22, 0x61, 0x73, 0x73, 0x65, 0x74, 0x22];
    assert(b@ =~= sig_asset());
    b
}

/// The bytes of `"version"`.
pub open spec fn sig_version() -> Seq<u8> {
    seq![0x22u8, 0x76, 0x65, 0x72, 0x73, 0x69, 0x6f, 0x6e, 0x22]
}

/// The bytes of `"version"`.
fn sig_version_bytes() -> (b: &'static [u8])
    ensures
        b@ == sig_version(),
{
    let b: &'static [u8] = &[0x22, 0x76, 0x65, 0x72, 0x73, 0x69, 0x6f, 0x6e, 0x22];
    assert(b@ =~= sig_version());
    b
}

/// Whether `p` occurs in `s` at `offset`.
pub fn has_bytes_at(s: &[u8], offset: usize, p: &[u8]) -> (b: bool)
    ensures
        b == bytes_at(s@, offset as int, p@),
{
    if offset > s.len() || p.len() > s.len() - offset {
        return false;
    }
    let mut i: usize = 0;
    while i < p.len()
        invariant
            offset + p.len() <= s.len(),
            i <= p.len(),
            forall|k: int| 0 <= k < i ==> s@[offset + k] == p@[k],
        decreases p.len() - i,
    {
        if s[offset + i] != p[i] {
            assert(s@.subrange(offset as int, offset + p.len())[i as int] != p@[i as int]);
            return false;
        }
        i = i + 1;
    }
    assert(s@.subrange(offset as int, offset + p.len()) =~= p@);
    true
}

/// Whether `p` occurs anywhere in `s`.
pub fn has_bytes(s: &[u8], p: &[u8]) -> (b: bool)
    ensures
        b == contains_bytes(s@, p@),
{
    if p.len() == 0 {
        assert(s@.subrange(0, 0) =~= p@);
        assert(bytes_at(s@, 0, p@));
        return true;
    }
    if p.len() > s.len() {
        assert forall|k: int| !bytes_at(s@, k, p@) by {}
        return false;
    }
    let last: usize = s.len() - p.len();
    let mut i: usize = 0;
    while i <= last
        invariant
            last == s.len() - p.len(),
            last < usize::MAX,
            i <= last + 1,
            forall|k: int| 0 <= k < i ==> !bytes_at(s@, k, p@),
        decreases last + 1 - i,
    {
        if has_bytes_at(s, i, p) {
            return true;
        }
        i = i + 1;
    }
    assert forall|k: int| !bytes_at(s@, k, p@) by {
        if 0 <= k < i {
        }
    }
    false
}

impl Media {
    /// glTF binary: `glTF` at offset 0.
    pub open spec fn spec_matches_glb(h: Seq<u8>) -> bool {
        starts_with(h, sig_glb())
    }

    /// glTF JSON: the first byte after leading ASCII whitespace is `{`, and
    /// `"asset"` and `"version"` both occur somewhere in the head.
    pub open spec fn spec_matches_gltf_json(h: Seq<u8>) -> bool {
        &&& leading_whitespace(h) < h.len()
        &&& h[leading_whitespace(h) as int] == 0x7b
        &&& contains_bytes(h, sig_asset())
        &&& contains_bytes(h, sig_version())
    }

    /// PNG: the eight-byte signature `\x89PNG\r\n\x1a\n` at offset 0.
    pub open spec fn spec_matches_png(h: Seq<u8>) -> bool {
        starts_with(h, sig_png())
    }

    /// JPEG: the SOI marker and the start of a segment, `\xff\xd8\xff`.
    pub open spec fn spec_matches_jpeg(h: Seq<u8>) -> bool {
        starts_with(h, sig_jpeg())
    }

    /// GIF: `GIF87a` or `GIF89a` at offset 0.
    pub open spec fn spec_matches_gif(h: Seq<u8>) -> bool {
        starts_with(h, sig_gif87a()) || starts_with(h, sig_gif89a())
    }

    /// WebP: at least 12 bytes, `RIFF` at offset 0 and `WEBP` at offset 8.
    pub open spec fn spec_matches_webp(h: Seq<u8>) -> bool {
        h.len() >= 12 && bytes_at(h, 0, sig_riff()) && bytes_at(h, 8, sig_webp())
    }

    /// MP4 brands that are rendered as video: `mp4*`, `iso*`, `avc1`,
    /// `M4V ` and `dash`.
    pub open spec fn spec_mp4_brand(b: Seq<u8>) -> bool {
        ||| starts_with(b, sig_brand_mp4())
        ||| starts_with(b, sig_brand_iso())
        ||| b == sig_brand_avc1()
        ||| b == sig_brand_m4v()
        ||| b == sig_brand_dash()
    }

    /// MP4: at least 12 bytes, `ftyp` at offset 4 and a video brand at
    /// offsets 8 to 12.
    pub open spec fn spec_matches_mp4(h: Seq<u8>) -> bool {
        h.len() >= 12 && bytes_at(h, 4, sig_ftyp()) && Media::spec_mp4_brand(h.subrange(8, 12))
    }

    /// Ogg: `OggS` at offset 0.
    pub open spec fn spec_matches_ogg(h: Seq<u8>) -> bool {
        starts_with(h, sig_ogg())
    }

    /// WAV: at least 12 bytes, `RIFF` at offset 0 and `WAVE` at offset 8.
    pub open spec fn spec_matches_wav(h: Seq<u8>) -> bool {
        h.len() >= 12 && bytes_at(h, 0, sig_riff()) && bytes_at(h, 8, sig_wave())
    }

    /// FLAC: `fLaC` at offset 0.
    pub open spec fn spec_matches_flac(h: Seq<u8>) -> bool {
        starts_with(h, sig_flac())
    }

    /// PDF: `%PDF-` at offset 0.
    pub open spec fn spec_matches_pdf(h: Seq<u8>) -> bool {
        starts_with(h, sig_pdf())
    }

    /// The media kind that sniffing assigns to a body head: that of the first
    /// matcher, in this order, that accepts it.
    pub open spec fn sniff(h: Seq<u8>) -> Option<Media> {
        if Media::spec_matches_glb(h) {
            Some(Media::Model)
        } else if Media::spec_matches_gltf_json(h) {
            Some(Media::Model)
        } else if Media::spec_matches_png(h) {
            Some(Media::Image(ImageRendering::Pixelated))
        } else if Media::spec_matches_jpeg(h) {
            Some(Media::Image(ImageRendering::Pixelated))
        } else if Media::spec_matches_gif(h) {
            Some(Media::Image(ImageRendering::Pixelated))
        } else if Media::spec_matches_webp(h) {
            Some(Media::Image(ImageRendering::Pixelated))
        } else if Media::spec_matches_mp4(h) {
            Some(Media::Video)
        } else if Media::spec_matches_ogg(h) {
            Some(Media::Audio)
        } else if Media::spec_matches_wav(h) {
            Some(Media::Audio)
        } else if Media::spec_matches_flac(h) {
            Some(Media::Audio)
        } else if Media::spec_matches_pdf(h) {
            Some(Media::Pdf)
        } else {
            None
        }
    }

    /// Sniffs the first bytes of an already decompressed inscription body and
    /// returns the media kind of the first magic-byte matcher that accepts
    /// them, or `None` when none does.
    pub fn from_body_head(head: &[u8]) -> (r: Option<Media>)
        ensures
            r == Media::sniff(head@),
    {
        if Media::matches_glb(head) {
            Some(Media::Model)
        } else if Media::matches_gltf_json(head) {
            Some(Media::Model)
        } else if Media::matches_png(head) {
            Some(Media::Image(ImageRendering::Pixelated))
        } else if Media::matches_jpeg(head) {
            Some(Media::Image(ImageRendering::Pixelated))
        } else if Media::matches_gif(head) {
            Some(Media::Image(ImageRendering::Pixelated))
        } else if Media::matches_webp(head) {
            Some(Media::Image(ImageRendering::Pixelated))
        } else if Media::matches_mp4(head) {
            Some(Media::Video)
        } else if Media::matches_ogg(head) {
            Some(Media::Audio)
        } else if Media::matches_wav(head) {
            Some(Media::Audio)
        } else if Media::matches_flac(head) {
            Some(Media::Audio)
        } else if Media::matches_pdf(head) {
            Some(Media::Pdf)
        } else {
            None
        }
    }

    /// glTF binary (GLB): the magic `glTF` at offset 0.
    pub fn matches_glb(head: &[u8]) -> (b: bool)
        ensures
            b == Media::spec_matches_glb(head@),
    {
        has_bytes_at(head, 0, sig_glb_bytes())
    }

    /// glTF 2.0 JSON: a leading `{` after optional ASCII whitespace, and
    /// `"asset"` and `"version"` somewhere in the head.
    pub fn matches_gltf_json(head: &[u8]) -> (b: bool)
        ensures
            b == Media::spec_matches_gltf_json(head@),
    {
        let mut i: usize = 0;
        assert(head@.skip(0) =~= head@);
        while i < head.len() && (head[i] == 0x20 || head[i] == 0x09 || head[i] == 0x0a
            || head[i] == 0x0c || head[i] == 0x0d)
            invariant
                i <= head.len(),
                leading_whitespace(head@) == i + leading_whitespace(head@.skip(i as int)),
            decreases head.len() - i,
        {
            assert(head@.skip(i as int).drop_first() =~= head@.skip(i + 1));
            i = i + 1;
        }
        if i >= head.len() || head[i] != 0x7b {
            return false;
        }
        has_bytes(head, sig_asset_bytes()) && has_bytes(head, sig_version_bytes())
    }

    /// PNG: the eight-byte signature at offset 0. APNG shares it.
    pub fn matches_png(head: &[u8]) -> (b: bool)
        ensures
            b == Media::spec_matches_png(head@),
    {
        has_bytes_at(head, 0, sig_png_bytes())
    }

    /// JPEG: the SOI marker `\xff\xd8\xff` at offset 0.
    pub fn matches_jpeg(head: &[u8]) -> (b: bool)
        ensures
            b == Media::spec_matches_jpeg(head@),
    {
        has_bytes_at(head, 0, sig_jpeg_bytes())
    }

    /// GIF, either GIF87a or GIF89a.
    pub fn matches_gif(head: &[u8]) -> (b: bool)
        ensures
            b == Media::spec_matches_gif(head@),
    {
        has_bytes_at(head, 0, sig_gif87a_bytes()) || has_bytes_at(head, 0, sig_gif89a_bytes())
    }

    /// WebP: `RIFF` at offset 0 and `WEBP` at offset 8.
    pub fn matches_webp(head: &[u8]) -> (b: bool)
        ensures
            b == Media::spec_matches_webp(head@),
    {
        head.len() >= 12 && has_bytes_at(head, 0, sig_riff_bytes()) && has_bytes_at(
            head,
            8,
            sig_webp_bytes(),
        )
    }

    /// MP4 constrained to the brands rendered as video: `ftyp` at offset 4
    /// and a brand in `{mp4*, iso*, avc1, M4V , dash}`.
    pub fn matches_mp4(head: &[u8]) -> (b: bool)
        ensures
            b == Media::spec_matches_mp4(head@),
    {
        if head.len() < 12 || !has_bytes_at(head, 4, sig_ftyp_bytes()) {
            return false;
        }
        let brand: &[u8] = vstd::slice::slice_subrange(head, 8, 12);
        assert(brand@.subrange(0, 4) =~= brand@);
        has_bytes_at(brand, 0, sig_brand_mp4_bytes()) || has_bytes_at(brand, 0, sig_brand_iso_bytes())
            || (has_bytes_at(brand, 0, sig_brand_avc1_bytes()) && brand.len() == 4)
            || (has_bytes_at(brand, 0, sig_brand_m4v_bytes()) && brand.len() == 4)
            || (has_bytes_at(brand, 0, sig_brand_dash_bytes()) && brand.len() == 4)
    }

    /// Ogg container: `OggS` at offset 0.
    pub fn matches_ogg(head: &[u8]) -> (b: bool)
        ensures
            b == Media::spec_matches_ogg(head@),
    {
        has_bytes_at(head, 0, sig_ogg_bytes())
    }

    /// WAV: `RIFF` at offset 0 and `WAVE` at offset 8.
    pub fn matches_wav(head: &[u8]) -> (b: bool)
        ensures
            b == Media::spec_matches_wav(head@),
    {
        head.len() >= 12 && has_bytes_at(head, 0, sig_riff_bytes()) && has_bytes_at(
            head,
            8,
            sig_wave_bytes(),
        )
    }

    /// FLAC: `fLaC` at offset 0.
    pub fn matches_flac(head: &[u8]) -> (b: bool)
        ensures
            b == Media::spec_matches_flac(head@),
    {
        has_bytes_at(head, 0, sig_flac_bytes())
    }

    /// PDF: `%PDF-` at offset 0.
    pub fn matches_pdf(head: &[u8]) -> (b: bool)
        ensures
            b == Media::spec_matches_pdf(head@),
    {
        has_bytes_at(head, 0, sig_pdf_bytes())
    }
}

/// Sniffing never promotes a body to `Media::Iframe`: the kinds it gives
/// are models, pixelated images, video, audio and PDF.
pub proof fn lemma_sniff_never_iframe(h: Seq<u8>)
    ensures
        Media::sniff(h) != Some(Media::Iframe),
        Media::sniff(h) matches Some(m) ==> (m == Media::Model || m == Media::Image(
            ImageRendering::Pixelated,
        ) || m == Media::Video || m == Media::Audio || m == Media::Pdf),
{
}

/// A body head is sniffed as a glTF JSON model only when, after its
/// leading ASCII whitespace, it opens a JSON object and holds both the key
/// `"asset"` and the key `"version"`; any such head that is not a glTF
/// binary is sniffed as a model. A JSON object with only one of the two
/// keys, and no other signature, is left unknown.
pub proof fn lemma_gltf_json_needs_asset_and_version(h: Seq<u8>)
    ensures
        ({
            let asset = seq![0x22u8, 0x61, 0x73, 0x73, 0x65, 0x74, 0x22];
            let version = seq![0x22u8, 0x76, 0x65, 0x72, 0x73, 0x69, 0x6f, 0x6e, 0x22];
            let glb = seq![0x67u8, 0x6c, 0x54, 0x46];
            let object = leading_whitespace(h) < h.len() && h[leading_whitespace(h) as int] == 0x7b;
            &&& (Media::sniff(h) == Some(Media::Model) && !starts_with(h, glb)) ==> (object
                && contains_bytes(h, asset) && contains_bytes(h, version))
            &&& (object && contains_bytes(h, asset) && contains_bytes(h, version)) ==> Media::sniff(h)
                == Some(Media::Model)
            &&& (object && !starts_with(h, glb) && !(contains_bytes(h, asset) && contains_bytes(h, version)))
                ==> Media::sniff(h) != Some(Media::Model)
        }),
{
    assert(sig_asset() =~= seq![0x22u8, 0x61, 0x73, 0x73, 0x65, 0x74, 0x22]);
    assert(sig_version() =~= seq![0x22u8, 0x76, 0x65, 0x72, 0x73, 0x69, 0x6f, 0x6e, 0x22]);
    assert(sig_glb() =~= seq![0x67u8, 0x6c, 0x54, 0x46]);
}

} // verus!
