//! Laws of the content-type table: no file extension is listed twice, so
//! each listed extension finds its own row, and a file whose extension a
//! row lists gets that row's content type; and images are upscaled
//! pixelated, except AVIF and JPEG XL.
use vstd::prelude::*;
use crate::media::{
    first_row_with_extension, lemma_first_row_with_extension, row_has_extension, table_len, table_row,
    CompressionMode, ImageRendering, Media, MediaError,
};
use crate::text::{lowercase, path_extension};

verus! {

/// The extensions of the rows before `n`, in table order.
pub open spec fn extensions_upto(n: int) -> Seq<Seq<char>>
    decreases n,
{
    if n <= 0 {
        Seq::empty()
    } else {
        extensions_upto(n - 1) + table_row(n - 1).3
    }
}

/// The extensions of the table, in table order, written out.
spec fn listed_extensions() -> Seq<Seq<char>> {
    seq![
        "cbor"@, "json"@, "bin"@, "pdf"@, "asc"@, "binpb"@, "torrent"@, "yaml"@,
        "yml"@, "flac"@, "mp3"@, "opus"@, "wav"@, "otf"@, "ttf"@, "woff"@,
        "woff2"@, "apng"@, "avif"@, "gif"@, "jpg"@, "jpeg"@, "jxl"@, "png"@,
        "svg"@, "webp"@, "gltf"@, "glb"@, "stl"@, "css"@, "html"@, "js"@,
        "mjs"@, "md"@, "txt"@, "py"@, "mp4"@, "webm"@,
    ]
}

/// Flattening the table gives the written-out list.
proof fn lemma_extensions_as_listed()
    ensures
        extensions_upto(table_len()) == listed_extensions(),
{
    reveal_with_fuel(extensions_upto, 41);
    assert(extensions_upto(table_len()) =~= listed_extensions());
}

/// The written-out extensions are pairwise distinct.
#[verifier::rlimit(50)]
proof fn lemma_listed_distinct()
    ensures
        listed_extensions().no_duplicates(),
{
    reveal_strlit("cbor");
    assert("cbor"@ =~= seq!['c', 'b', 'o', 'r']);
    reveal_strlit("json");
    assert("json"@ =~= seq!['j', 's', 'o', 'n']);
    reveal_strlit("bin");
    assert("bin"@ =~= seq!['b', 'i', 'n']);
    reveal_strlit("pdf");
    assert("pdf"@ =~= seq!['p', 'd', 'f']);
    reveal_strlit("asc");
    assert("asc"@ =~= seq!['a', 's', 'c']);
    reveal_strlit("binpb");
    assert("binpb"@ =~= seq!['b', 'i', 'n', 'p', 'b']);
    reveal_strlit("torrent");
    assert("torrent"@ =~= seq!['t', 'o', 'r', 'r', 'e', 'n', 't']);
    reveal_strlit("yaml");
    assert("yaml"@ =~= seq!['y', 'a', 'm', 'l']);
    reveal_strlit("yml");
    assert("yml"@ =~= seq!['y', 'm', 'l']);
    reveal_strlit("flac");
    assert("flac"@ =~= seq!['f', 'l', 'a', 'c']);
    reveal_strlit("mp3");
    assert("mp3"@ =~= seq!['m', 'p', '3']);
    reveal_strlit("opus");
    assert("opus"@ =~= seq!['o', 'p', 'u', 's']);
    reveal_strlit("wav");
    assert("wav"@ =~= seq!['w', 'a', 'v']);
    reveal_strlit("otf");
    assert("otf"@ =~= seq!['o', 't', 'f']);
    reveal_strlit("ttf");
    assert("ttf"@ =~= seq!['t', 't', 'f']);
    reveal_strlit("woff");
    assert("woff"@ =~= seq!['w', 'o', 'f', 'f']);
    reveal_strlit("woff2");
    assert("woff2"@ =~= seq!['w', 'o', 'f', 'f', '2']);
    reveal_strlit("apng");
    assert("apng"@ =~= seq!['a', 'p', 'n', 'g']);
    reveal_strlit("avif");
    assert("avif"@ =~= seq!['a', 'v', 'i', 'f']);
    reveal_strlit("gif");
    assert("gif"@ =~= seq!['g', 'i', 'f']);
    reveal_strlit("jpg");
    assert("jpg"@ =~= seq!['j', 'p', 'g']);
    reveal_strlit("jpeg");
    assert("jpeg"@ =~= seq!['j', 'p', 'e', 'g']);
    reveal_strlit("jxl");
    assert("jxl"@ =~= seq!['j', 'x', 'l']);
    reveal_strlit("png");
    assert("png"@ =~= seq!['p', 'n', 'g']);
    reveal_strlit("svg");
    assert("svg"@ =~= seq!['s', 'v', 'g']);
    reveal_strlit("webp");
    assert("webp"@ =~= seq!['w', 'e', 'b', 'p']);
    reveal_strlit("gltf");
    assert("gltf"@ =~= seq!['g', 'l', 't', 'f']);
    reveal_strlit("glb");
    assert("glb"@ =~= seq!['g', 'l', 'b']);
    reveal_strlit("stl");
    assert("stl"@ =~= seq!['s', 't', 'l']);
    reveal_strlit("css");
    assert("css"@ =~= seq!['c', 's', 's']);
    reveal_strlit("html");
    assert("html"@ =~= seq!['h', 't', 'm', 'l']);
    reveal_strlit("js");
    assert("js"@ =~= seq!['j', 's']);
    reveal_strlit("mjs");
    assert("mjs"@ =~= seq!['m', 'j', 's']);
    reveal_strlit("md");
    assert("md"@ =~= seq!['m', 'd']);
    reveal_strlit("txt");
    assert("txt"@ =~= seq!['t', 'x', 't']);
    reveal_strlit("py");
    assert("py"@ =~= seq!['p', 'y']);
    reveal_strlit("mp4");
    assert("mp4"@ =~= seq!['m', 'p', '4']);
    reveal_strlit("webm");
    assert("webm"@ =~= seq!['w', 'e', 'b', 'm']);
}

/// Extension `a` of row `i` stands in the flattened list of the rows before
/// `n` at the row's offset plus `a`.
proof fn lemma_slot(n: int, i: int, a: int)
    requires
        0 <= i < n <= table_len(),
        0 <= a < table_row(i).3.len(),
    ensures
        extensions_upto(i).len() + a < extensions_upto(n).len(),
        extensions_upto(n)[extensions_upto(i).len() + a] == table_row(i).3[a],
    decreases n,
{
    if n > i + 1 {
        lemma_slot(n - 1, i, a);
    }
}

/// Later rows start no earlier.
proof fn lemma_offsets_grow(i: int, j: int)
    requires
        0 <= i <= j,
    ensures
        extensions_upto(i).len() <= extensions_upto(j).len(),
    decreases j,
{
    if j > i {
        lemma_offsets_grow(i, j - 1);
    }
}

/// No file extension is listed twice in the content-type table: any two
/// places in the extension lists, in one row or in two, hold different
/// extensions.
pub proof fn lemma_extensions_unique(i: int, a: int, j: int, b: int)
    requires
        0 <= i < table_len(),
        0 <= j < table_len(),
        0 <= a < table_row(i).3.len(),
        0 <= b < table_row(j).3.len(),
        i != j || a != b,
    ensures
        table_row(i).3[a] != table_row(j).3[b],
{
    lemma_slot(table_len(), i, a);
    lemma_slot(table_len(), j, b);
    if i < j {
        lemma_offsets_grow(i + 1, j);
    } else if j < i {
        lemma_offsets_grow(j + 1, i);
    }
    lemma_extensions_as_listed();
    lemma_listed_distinct();
    let all = extensions_upto(table_len());
    assert(all[extensions_upto(i).len() + a] != all[extensions_upto(j).len() + b]);
}

/// Every extension that the table lists leads to its own row: the lookup
/// by extension finds the row that lists it.
pub proof fn lemma_listed_extension_row(i: int, a: int)
    requires
        0 <= i < table_len(),
        0 <= a < table_row(i).3.len(),
    ensures
        first_row_with_extension(table_row(i).3[a], 0) == Some(i),
{
    let e = table_row(i).3[a];
    assert(row_has_extension(i, e));
    lemma_first_row_with_extension(e, 0);
    match first_row_with_extension(e, 0) {
        Some(k) => {
            if k != i {
                let b = choose|b: int| 0 <= b < table_row(k).3.len() && table_row(k).3[b] == e;
                lemma_extensions_unique(i, a, k, b);
            }
        },
        None => {},
    }
}

/// A file whose extension, lowercased, a row of the table lists gets that
/// row's content type and compression mode from the lookup by extension,
/// which `content_type_for_file` consults whenever no failed MP4 codec
/// check decides.
pub proof fn lemma_file_takes_listing_row(
    path: Seq<char>,
    r: Result<(&'static str, CompressionMode), MediaError>,
    i: int,
    a: int,
)
    requires
        0 <= i < table_len(),
        0 <= a < table_row(i).3.len(),
        path_extension(path) matches Some(e) && lowercase(e) == table_row(i).3[a],
        Media::path_lookup(path, r),
    ensures
        r matches Ok((c, m)) && c@ == table_row(i).0 && m == table_row(i).1,
{
    lemma_listed_extension_row(i, a);
}

/// Of the files whose extension, lowercased, the table lists, only those
/// of the `video/mp4` row need the MP4 codec check; every other listed
/// extension, `mp3` among them, goes straight to the lookup.
pub proof fn lemma_codec_check_only_for_mp4(path: Seq<char>, i: int, a: int)
    requires
        0 <= i < table_len(),
        0 <= a < table_row(i).3.len(),
        path_extension(path) matches Some(e) && lowercase(e) == table_row(i).3[a],
    ensures
        Media::path_needs_codec_check(path) <==> table_row(i).0 == "video/mp4"@,
{
    reveal_strlit("video/mp4");
    reveal_strlit("mp4");
    let e = path_extension(path)->Some_0;
    assert(table_row(38).3[0] == "mp4"@);
    if i != 38 {
        lemma_extensions_unique(i, a, 38, 0);
        reveal_strlit("application/cbor");
        reveal_strlit("application/json");
        reveal_strlit("application/octet-stream");
        reveal_strlit("application/pdf");
        reveal_strlit("application/pgp-signature");
        reveal_strlit("application/protobuf");
        reveal_strlit("application/x-bittorrent");
        reveal_strlit("application/x-javascript");
        reveal_strlit("application/yaml");
        reveal_strlit("audio/flac");
        reveal_strlit("audio/mpeg");
        reveal_strlit("audio/ogg");
        reveal_strlit("audio/ogg;codecs=opus");
        reveal_strlit("audio/wav");
        reveal_strlit("font/otf");
        reveal_strlit("font/ttf");
        reveal_strlit("font/woff");
        reveal_strlit("font/woff2");
        reveal_strlit("image/apng");
        reveal_strlit("image/avif");
        reveal_strlit("image/gif");
        reveal_strlit("image/jpeg");
        reveal_strlit("image/jxl");
        reveal_strlit("image/png");
        reveal_strlit("image/svg+xml");
        reveal_strlit("image/webp");
        reveal_strlit("model/gltf+json");
        reveal_strlit("model/gltf-binary");
        reveal_strlit("model/stl");
        reveal_strlit("text/css");
        reveal_strlit("text/html");
        reveal_strlit("text/html;charset=utf-8");
        reveal_strlit("text/javascript");
        reveal_strlit("text/markdown");
        reveal_strlit("text/markdown;charset=utf-8");
        reveal_strlit("text/plain");
        reveal_strlit("text/plain;charset=utf-8");
        reveal_strlit("text/x-python");
        reveal_strlit("video/webm");
        if table_row(i).0 == "video/mp4"@ {
            assert(table_row(i).0[0] == 'v');
            assert(table_row(i).0[6] == 'm');
            assert(false);
        }
    }
}

/// Images are upscaled pixelated, except AVIF and JPEG XL, which are
/// upscaled smoothly.
pub proof fn lemma_image_rendering(i: int)
    requires
        0 <= i < table_len(),
        table_row(i).2 is Image,
    ensures
        table_row(i).2 == Media::Image(ImageRendering::Auto) <==> (table_row(i).0 == "image/avif"@
            || table_row(i).0 == "image/jxl"@),
{
    reveal_strlit("image/apng");
    reveal_strlit("image/avif");
    reveal_strlit("image/gif");
    reveal_strlit("image/jpeg");
    reveal_strlit("image/jxl");
    reveal_strlit("image/png");
    reveal_strlit("image/webp");
    assert("image/apng"@[7] == 'p' && "image/avif"@[7] == 'v' && "image/gif"@[7] == 'i');
    assert("image/jpeg"@[7] == 'p' && "image/jxl"@[7] == 'x' && "image/png"@[7] == 'n');
    assert("image/webp"@[7] == 'e' && "image/avif"@[6] == 'a' && "image/jxl"@[6] == 'j');
    assert("image/apng"@[6] == 'a' && "image/jpeg"@[6] == 'j');
}

} // verus!
