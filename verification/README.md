# ord_render

The rendering core of an Ordinals inscription explorer, written in Verus:
the media table and the content-type lookups, the magic-byte sniffer for
mislabelled bodies, the MP4 codec check, and the HTML of the explorer's
pages, each with a contract that Verus proves.

## Layout

- `src/media.rs`: media kinds and the table that ties content types,
  brotli modes and file extensions; lookups by extension and content type.
- `src/table_laws.rs`: laws of that table (no extension listed twice, a
  file gets the row that lists its extension, smooth upscaling only for
  AVIF and JPEG XL).
- `src/sniff.rs`: the ordered magic-byte matchers; sniffing never yields an
  iframe.
- `src/codec.rs`: the MP4 check, independent of the order in which the MP4
  reader hands out tracks.
- `src/mp4_boxes.rs`: a walk over an MP4 file's boxes as the `mp4` reader
  walks them, which finds the box sizes on which the reader would panic or
  loop, so that such a file is refused before the reader is given it.
- `src/breadcrumbs.rs`, `src/crumb_markup.rs`: collapsing parent trails into
  a common prefix, per-trail middles and a common suffix, and their markup.
- `src/inscription.rs`, `src/inscription_page.rs`: the inscription page,
  its heading rules, burn metadata and list of facts.
- `src/names.rs`, `src/teleburn.rs`: sat and rune names, and the EIP-55
  teleburn address.
- `src/page.rs`, `src/gallery.rs`, `src/inscriptions.rs`, `src/item.rs`,
  `src/iframe.rs`, `src/coming_soon.rs`: the page frame and the other pages.
- `src/text.rs`, `src/ids.rs`: text, number and identifier formatting.
- `app/lib.rs`: reading files for the MP4 check and mapping compression
  modes to brotli's encoder modes.

Calls into `bitcoin`, `ciborium`, `mp4`, `chrono` and `sha3` stand behind
`#[verifier::external_body]` wrappers whose doc comments say what their
contracts claim.
