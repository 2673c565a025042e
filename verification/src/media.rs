//! Media kinds, the table that ties content types, compression modes and
//! file extensions together, and the lookups over that table.
use vstd::prelude::*;
use crate::text::{
    extension_of, join, lex_order, lowercase, path_extension, push_joined, sort_strs, str_eq,
    strs_view, to_lowercase,
};

verus! {

/// How an inscription's content is previewed.
#[derive(Debug, PartialEq, Eq, Structural, Clone, Copy)]
pub enum Media {
    Audio,
    Code(Language),
    Font,
    Iframe,
    Image(ImageRendering),
    Markdown,
    Model,
    Pdf,
    Text,
    Unknown,
    Video,
}

/// Languages that code previews highlight.
#[derive(Debug, PartialEq, Eq, Structural, Clone, Copy)]
pub enum Language {
    Css,
    JavaScript,
    Json,
    Python,
    Yaml,
}

impl Language {
    /// The lowercase name of the language.
    pub open spec fn name(self) -> Seq<char> {
        match self {
            Language::Css => "css"@,
            Language::JavaScript => "javascript"@,
            Language::Json => "json"@,
            Language::Python => "python"@,
            Language::Yaml => "yaml"@,
        }
    }

    /// The lowercase name of the language, as shown in pages.
    pub fn to_string(&self) -> (s: String)
        ensures
            s@ == self.name(),
    {
        let name: &str = match self {
            Language::Css => "css",
            Language::JavaScript => "javascript",
            Language::Json => "json",
            Language::Python => "python",
            Language::Yaml => "yaml",
        };
        String::from_str(name)
    }
}

/// The CSS `image-rendering` value used to scale an image.
#[derive(Debug, PartialEq, Eq, Structural, Clone, Copy)]
pub enum ImageRendering {
    Auto,
    Pixelated,
}

impl ImageRendering {
    /// The CSS keyword of the rendering.
    pub open spec fn name(self) -> Seq<char> {
        match self {
            ImageRendering::Auto => "auto"@,
            ImageRendering::Pixelated => "pixelated"@,
        }
    }

    /// The CSS keyword of the rendering, as shown in pages.
    pub fn to_string(&self) -> (s: String)
        ensures
            s@ == self.name(),
    {
        let name: &str = match self {
            ImageRendering::Auto => "auto",
            ImageRendering::Pixelated => "pixelated",
        };
        String::from_str(name)
    }
}

/// The brotli encoder mode suited to a content type.
#[derive(Debug, PartialEq, Eq, Structural, Clone, Copy)]
pub enum CompressionMode {
    Generic,
    Text,
    Font,
}

/// Number of rows of the content-type table.
pub open spec fn table_len() -> int {
    40
}

/// Row `i` of the content-type table: the content type, the compression
/// mode, the media kind, and the file extensions that map to the row.
pub open spec fn table_row(i: int) -> (Seq<char>, CompressionMode, Media, Seq<Seq<char>>) {
    if i == 0 {
        ("application/cbor"@, CompressionMode::Generic, Media::Unknown, seq!["cbor"@])
    } else if i == 1 {
        ("application/json"@, CompressionMode::Text, Media::Code(Language::Json), seq!["json"@])
    } else if i == 2 {
        ("application/octet-stream"@, CompressionMode::Generic, Media::Unknown, seq!["bin"@])
    } else if i == 3 {
        ("application/pdf"@, CompressionMode::Generic, Media::Pdf, seq!["pdf"@])
    } else if i == 4 {
        ("application/pgp-signature"@, CompressionMode::Text, Media::Text, seq!["asc"@])
    } else if i == 5 {
        ("application/protobuf"@, CompressionMode::Generic, Media::Unknown, seq!["binpb"@])
    } else if i == 6 {
        ("application/x-bittorrent"@, CompressionMode::Generic, Media::Unknown, seq!["torrent"@])
    } else if i == 7 {
        ("application/x-javascript"@, CompressionMode::Text, Media::Code(Language::JavaScript), seq![])
    } else if i == 8 {
        ("application/yaml"@, CompressionMode::Text, Media::Code(Language::Yaml), seq!["yaml"@, "yml"@])
    } else if i == 9 {
        ("audio/flac"@, CompressionMode::Generic, Media::Audio, seq!["flac"@])
    } else if i == 10 {
        ("audio/mpeg"@, CompressionMode::Generic, Media::Audio, seq!["mp3"@])
    } else if i == 11 {
        ("audio/ogg"@, CompressionMode::Generic, Media::Audio, seq![])
    } else if i == 12 {
        ("audio/ogg;codecs=opus"@, CompressionMode::Generic, Media::Audio, seq!["opus"@])
    } else if i == 13 {
        ("audio/wav"@, CompressionMode::Generic, Media::Audio, seq!["wav"@])
    } else if i == 14 {
        ("font/otf"@, CompressionMode::Generic, Media::Font, seq!["otf"@])
    } else if i == 15 {
        ("font/ttf"@, CompressionMode::Generic, Media::Font, seq!["ttf"@])
    } else if i == 16 {
        ("font/woff"@, CompressionMode::Generic, Media::Font, seq!["woff"@])
    } else if i == 17 {
        ("font/woff2"@, CompressionMode::Font, Media::Font, seq!["woff2"@])
    } else if i == 18 {
        ("image/apng"@, CompressionMode::Generic, Media::Image(ImageRendering::Pixelated), seq!["apng"@])
    } else if i == 19 {
        ("image/avif"@, CompressionMode::Generic, Media::Image(ImageRendering::Auto), seq!["avif"@])
    } else if i == 20 {
        ("image/gif"@, CompressionMode::Generic, Media::Image(ImageRendering::Pixelated), seq!["gif"@])
    } else if i == 21 {
        ("image/jpeg"@, CompressionMode::Generic, Media::Image(ImageRendering::Pixelated), seq!["jpg"@, "jpeg"@])
    } else if i == 22 {
        ("image/jxl"@, CompressionMode::Generic, Media::Image(ImageRendering::Auto), seq!["jxl"@])
    } else if i == 23 {
        ("image/png"@, CompressionMode::Generic, Media::Image(ImageRendering::Pixelated), seq!["png"@])
    } else if i == 24 {
        ("image/svg+xml"@, CompressionMode::Text, Media::Iframe, seq!["svg"@])
    } else if i == 25 {
        ("image/webp"@, CompressionMode::Generic, Media::Image(ImageRendering::Pixelated), seq!["webp"@])
    } else if i == 26 {
        ("model/gltf+json"@, CompressionMode::Text, Media::Model, seq!["gltf"@])
    } else if i == 27 {
        ("model/gltf-binary"@, CompressionMode::Generic, Media::Model, seq!["glb"@])
    } else if i == 28 {
        ("model/stl"@, CompressionMode::Generic, Media::Unknown, seq!["stl"@])
    } else if i == 29 {
        ("text/css"@, CompressionMode::Text, Media::Code(Language::Css), seq!["css"@])
    } else if i == 30 {
        ("text/html"@, CompressionMode::Text, Media::Iframe, seq![])
    } else if i == 31 {
        ("text/html;charset=utf-8"@, CompressionMode::Text, Media::Iframe, seq!["html"@])
    } else if i == 32 {
        ("text/javascript"@, CompressionMode::Text, Media::Code(Language::JavaScript), seq!["js"@, "mjs"@])
    } else if i == 33 {
        ("text/markdown"@, CompressionMode::Text, Media::Markdown, seq![])
    } else if i == 34 {
        ("text/markdown;charset=utf-8"@, CompressionMode::Text, Media::Markdown, seq!["md"@])
    } else if i == 35 {
        ("text/plain"@, CompressionMode::Text, Media::Text, seq![])
    } else if i == 36 {
        ("text/plain;charset=utf-8"@, CompressionMode::Text, Media::Text, seq!["txt"@])
    } else if i == 37 {
        ("text/x-python"@, CompressionMode::Text, Media::Code(Language::Python), seq!["py"@])
    } else if i == 38 {
        ("video/mp4"@, CompressionMode::Generic, Media::Video, seq!["mp4"@])
    } else {
        ("video/webm"@, CompressionMode::Generic, Media::Video, seq!["webm"@])
    }
}

/// Whether row `i` lists extension `e`.
pub open spec fn row_has_extension(i: int, e: Seq<char>) -> bool {
    table_row(i).3.contains(e)
}

/// The first row at or after `from` that lists extension `e`.
pub open spec fn first_row_with_extension(e: Seq<char>, from: int) -> Option<int>
    decreases table_len() - from,
{
    if from < 0 || from >= table_len() {
        None
    } else if row_has_extension(from, e) {
        Some(from)
    } else {
        first_row_with_extension(e, from + 1)
    }
}

/// The first row at or after `from` whose content type is `c`.
pub open spec fn first_row_with_content_type(c: Seq<char>, from: int) -> Option<int>
    decreases table_len() - from,
{
    if from < 0 || from >= table_len() {
        None
    } else if table_row(from).0 == c {
        Some(from)
    } else {
        first_row_with_content_type(c, from + 1)
    }
}

/// The row that `first_row_with_extension` finds lies in the table, lists
/// the extension, and no earlier row from `from` on does.
pub proof fn lemma_first_row_with_extension(e: Seq<char>, from: int)
    ensures
        match first_row_with_extension(e, from) {
            Some(i) => 0 <= from <= i < table_len() && row_has_extension(i, e)
                && forall|k: int| from <= k < i ==> !row_has_extension(k, e),
            None => forall|k: int| 0 <= from <= k < table_len() ==> !row_has_extension(k, e),
        },
    decreases table_len() - from,
{
    if 0 <= from < table_len() && !row_has_extension(from, e) {
        lemma_first_row_with_extension(e, from + 1);
    }
}

/// The row that `first_row_with_content_type` finds lies in the table and
/// has the content type, and no earlier row from `from` on does.
pub proof fn lemma_first_row_with_content_type(c: Seq<char>, from: int)
    ensures
        match first_row_with_content_type(c, from) {
            Some(i) => 0 <= from <= i < table_len() && table_row(i).0 == c
                && forall|k: int| from <= k < i ==> table_row(k).0 != c,
            None => forall|k: int| 0 <= from <= k < table_len() ==> table_row(k).0 != c,
        },
    decreases table_len() - from,
{
    if 0 <= from < table_len() && table_row(from).0 != c {
        lemma_first_row_with_content_type(c, from + 1);
    }
}

/// Row `i` of the content-type table.
pub fn table_entry(i: usize) -> (r: (&'static str, CompressionMode, Media, &'static [&'static str]))
    requires
        i < table_len(),
    ensures
        r.0@ == table_row(i as int).0,
        r.1 == table_row(i as int).1,
        r.2 == table_row(i as int).2,
        strs_view(r.3@) == table_row(i as int).3,
{
    if i == 0 {
        let extensions: &'static [&'static str] = &["cbor"];
        assert(strs_view(extensions@) =~= table_row(0).3);
        ("application/cbor", CompressionMode::Generic, Media::Unknown, extensions)
    } else if i == 1 {
        let extensions: &'static [&'static str] = &["json"];
        assert(strs_view(extensions@) =~= table_row(1).3);
        ("application/json", CompressionMode::Text, Media::Code(Language::Json), extensions)
    } else if i == 2 {
        let extensions: &'static [&'static str] = &["bin"];
        assert(strs_view(extensions@) =~= table_row(2).3);
        ("application/octet-stream", CompressionMode::Generic, Media::Unknown, extensions)
    } else if i == 3 {
        let extensions: &'static [&'static str] = &["pdf"];
        assert(strs_view(extensions@) =~= table_row(3).3);
        ("application/pdf", CompressionMode::Generic, Media::Pdf, extensions)
    } else if i == 4 {
        let extensions: &'static [&'static str] = &["asc"];
        assert(strs_view(extensions@) =~= table_row(4).3);
        ("application/pgp-signature", CompressionMode::Text, Media::Text, extensions)
    } else if i == 5 {
        let extensions: &'static [&'static str] = &["binpb"];
        assert(strs_view(extensions@) =~= table_row(5).3);
        ("application/protobuf", CompressionMode::Generic, Media::Unknown, extensions)
    } else if i == 6 {
        let extensions: &'static [&'static str] = &["torrent"];
        assert(strs_view(extensions@) =~= table_row(6).3);
        ("application/x-bittorrent", CompressionMode::Generic, Media::Unknown, extensions)
    } else if i == 7 {
        let extensions: &'static [&'static str] = &[];
        assert(strs_view(extensions@) =~= table_row(7).3);
        ("application/x-javascript", CompressionMode::Text, Media::Code(Language::JavaScript), extensions)
    } else if i == 8 {
        let extensions: &'static [&'static str] = &["yaml", "yml"];
        assert(strs_view(extensions@) =~= table_row(8).3);
        ("application/yaml", CompressionMode::Text, Media::Code(Language::Yaml), extensions)
    } else if i == 9 {
        let extensions: &'static [&'static str] = &["flac"];
        assert(strs_view(extensions@) =~= table_row(9).3);
        ("audio/flac", CompressionMode::Generic, Media::Audio, extensions)
    } else if i == 10 {
        let extensions: &'static [&'static str] = &["mp3"];
        assert(strs_view(extensions@) =~= table_row(10).3);
        ("audio/mpeg", CompressionMode::Generic, Media::Audio, extensions)
    } else if i == 11 {
        let extensions: &'static [&'static str] = &[];
        assert(strs_view(extensions@) =~= table_row(11).3);
        ("audio/ogg", CompressionMode::Generic, Media::Audio, extensions)
    } else if i == 12 {
        let extensions: &'static [&'static str] = &["opus"];
        assert(strs_view(extensions@) =~= table_row(12).3);
        ("audio/ogg;codecs=opus", CompressionMode::Generic, Media::Audio, extensions)
    } else if i == 13 {
        let extensions: &'static [&'static str] = &["wav"];
        assert(strs_view(extensions@) =~= table_row(13).3);
        ("audio/wav", CompressionMode::Generic, Media::Audio, extensions)
    } else if i == 14 {
        let extensions: &'static [&'static str] = &["otf"];
        assert(strs_view(extensions@) =~= table_row(14).3);
        ("font/otf", CompressionMode::Generic, Media::Font, extensions)
    } else if i == 15 {
        let extensions: &'static [&'static str] = &["ttf"];
        assert(strs_view(extensions@) =~= table_row(15).3);
        ("font/ttf", CompressionMode::Generic, Media::Font, extensions)
    } else if i == 16 {
        let extensions: &'static [&'static str] = &["woff"];
        assert(strs_view(extensions@) =~= table_row(16).3);
        ("font/woff", CompressionMode::Generic, Media::Font, extensions)
    } else if i == 17 {
        let extensions: &'static [&'static str] = &["woff2"];
        assert(strs_view(extensions@) =~= table_row(17).3);
        ("font/woff2", CompressionMode::Font, Media::Font, extensions)
    } else if i == 18 {
        let extensions: &'static [&'static str] = &["apng"];
        assert(strs_view(extensions@) =~= table_row(18).3);
        ("image/apng", CompressionMode::Generic, Media::Image(ImageRendering::Pixelated), extensions)
    } else if i == 19 {
        let extensions: &'static [&'static str] = &["avif"];
        assert(strs_view(extensions@) =~= table_row(19).3);
        ("image/avif", CompressionMode::Generic, Media::Image(ImageRendering::Auto), extensions)
    } else if i == 20 {
        let extensions: &'static [&'static str] = &["gif"];
        assert(strs_view(extensions@) =~= table_row(20).3);
        ("image/gif", CompressionMode::Generic, Media::Image(ImageRendering::Pixelated), extensions)
    } else if i == 21 {
        let extensions: &'static [&'static str] = &["jpg", "jpeg"];
        assert(strs_view(extensions@) =~= table_row(21).3);
        ("image/jpeg", CompressionMode::Generic, Media::Image(ImageRendering::Pixelated), extensions)
    } else if i == 22 {
        let extensions: &'static [&'static str] = &["jxl"];
        assert(strs_view(extensions@) =~= table_row(22).3);
        ("image/jxl", CompressionMode::Generic, Media::Image(ImageRendering::Auto), extensions)
    } else if i == 23 {
        let extensions: &'static [&'static str] = &["png"];
        assert(strs_view(extensions@) =~= table_row(23).3);
        ("image/png", CompressionMode::Generic, Media::Image(ImageRendering::Pixelated), extensions)
    } else if i == 24 {
        let extensions: &'static [&'static str] = &["svg"];
        assert(strs_view(extensions@) =~= table_row(24).3);
        ("image/svg+xml", CompressionMode::Text, Media::Iframe, extensions)
    } else if i == 25 {
        let extensions: &'static [&'static str] = &["webp"];
        assert(strs_view(extensions@) =~= table_row(25).3);
        ("image/webp", CompressionMode::Generic, Media::Image(ImageRendering::Pixelated), extensions)
    } else if i == 26 {
        let extensions: &'static [&'static str] = &["gltf"];
        assert(strs_view(extensions@) =~= table_row(26).3);
        ("model/gltf+json", CompressionMode::Text, Media::Model, extensions)
    } else if i == 27 {
        let extensions: &'static [&'static str] = &["glb"];
        assert(strs_view(extensions@) =~= table_row(27).3);
        ("model/gltf-binary", CompressionMode::Generic, Media::Model, extensions)
    } else if i == 28 {
        let extensions: &'static [&'static str] = &["stl"];
        assert(strs_view(extensions@) =~= table_row(28).3);
        ("model/stl", CompressionMode::Generic, Media::Unknown, extensions)
    } else if i == 29 {
        let extensions: &'static [&'static str] = &["css"];
        assert(strs_view(extensions@) =~= table_row(29).3);
        ("text/css", CompressionMode::Text, Media::Code(Language::Css), extensions)
    } else if i == 30 {
        let extensions: &'static [&'static str] = &[];
        assert(strs_view(extensions@) =~= table_row(30).3);
        ("text/html", CompressionMode::Text, Media::Iframe, extensions)
    } else if i == 31 {
        let extensions: &'static [&'static str] = &["html"];
        assert(strs_view(extensions@) =~= table_row(31).3);
        ("text/html;charset=utf-8", CompressionMode::Text, Media::Iframe, extensions)
    } else if i == 32 {
        let extensions: &'static [&'static str] = &["js", "mjs"];
        assert(strs_view(extensions@) =~= table_row(32).3);
        ("text/javascript", CompressionMode::Text, Media::Code(Language::JavaScript), extensions)
    } else if i == 33 {
        let extensions: &'static [&'static str] = &[];
        assert(strs_view(extensions@) =~= table_row(33).3);
        ("text/markdown", CompressionMode::Text, Media::Markdown, extensions)
    } else if i == 34 {
        let extensions: &'static [&'static str] = &["md"];
        assert(strs_view(extensions@) =~= table_row(34).3);
        ("text/markdown;charset=utf-8", CompressionMode::Text, Media::Markdown, extensions)
    } else if i == 35 {
        let extensions: &'static [&'static str] = &[];
        assert(strs_view(extensions@) =~= table_row(35).3);
        ("text/plain", CompressionMode::Text, Media::Text, extensions)
    } else if i == 36 {
        let extensions: &'static [&'static str] = &["txt"];
        assert(strs_view(extensions@) =~= table_row(36).3);
        ("text/plain;charset=utf-8", CompressionMode::Text, Media::Text, extensions)
    } else if i == 37 {
        let extensions: &'static [&'static str] = &["py"];
        assert(strs_view(extensions@) =~= table_row(37).3);
        ("text/x-python", CompressionMode::Text, Media::Code(Language::Python), extensions)
    } else if i == 38 {
        let extensions: &'static [&'static str] = &["mp4"];
        assert(strs_view(extensions@) =~= table_row(38).3);
        ("video/mp4", CompressionMode::Generic, Media::Video, extensions)
    } else {
        let extensions: &'static [&'static str] = &["webm"];
        assert(strs_view(extensions@) =~= table_row(39).3);
        ("video/webm", CompressionMode::Generic, Media::Video, extensions)
    }
}

/// The number of rows of the content-type table.
pub fn table_size() -> (n: usize)
    ensures
        n == table_len(),
{
    40
}

/// Whether `list` holds a string equal to `s`.
pub fn strs_contain(list: &[&str], s: &str) -> (found: bool)
    ensures
        found == strs_view(list@).contains(s@),
{
    let mut j: usize = 0;
    while j < list.len()
        invariant
            j <= list.len(),
            forall|k: int| 0 <= k < j ==> list@[k]@ != s@,
        decreases list.len() - j,
    {
        if str_eq(list[j], s) {
            assert(strs_view(list@)[j as int] == s@);
            return true;
        }
        j = j + 1;
    }
    assert forall|k: int| 0 <= k < strs_view(list@).len() implies strs_view(list@)[k] != s@ by {
        assert(list@[k]@ != s@);
    }
    false
}

/// Index of the first row that lists `extension`, if any.
pub fn row_for_extension(extension: &str) -> (r: Option<usize>)
    ensures
        r matches Some(i) ==> first_row_with_extension(extension@, 0) == Some(i as int)
            && i < table_len(),
        r is None ==> first_row_with_extension(extension@, 0) is None,
{
    proof {
        lemma_first_row_with_extension(extension@, 0);
    }
    let n = table_size();
    let mut i: usize = 0;
    while i < n
        invariant
            n == table_len(),
            i <= n,
            first_row_with_extension(extension@, 0) == first_row_with_extension(extension@, i as int),
        decreases n - i,
    {
        let row = table_entry(i);
        if strs_contain(row.3, extension) {
            return Some(i);
        }
        i = i + 1;
    }
    None
}

/// Index of the first row whose content type is `content_type`, if any.
pub fn row_for_content_type(content_type: &str) -> (r: Option<usize>)
    ensures
        r matches Some(i) ==> first_row_with_content_type(content_type@, 0) == Some(i as int)
            && i < table_len(),
        r is None ==> first_row_with_content_type(content_type@, 0) is None,
{
    proof {
        lemma_first_row_with_content_type(content_type@, 0);
    }
    let n = table_size();
    let mut i: usize = 0;
    while i < n
        invariant
            n == table_len(),
            i <= n,
            first_row_with_content_type(content_type@, 0) == first_row_with_content_type(content_type@, i as int),
        decreases n - i,
    {
        let row = table_entry(i);
        if str_eq(row.0, content_type) {
            return Some(i);
        }
        i = i + 1;
    }
    None
}

/// The first extension of every row that lists one, rows before `n` only,
/// in table order.
pub open spec fn first_extensions_upto(n: int) -> Seq<Seq<char>>
    decreases n,
{
    if n <= 0 {
        Seq::empty()
    } else if table_row(n - 1).3.len() > 0 {
        first_extensions_upto(n - 1).push(table_row(n - 1).3[0])
    } else {
        first_extensions_upto(n - 1)
    }
}

/// The extensions named when an extension is refused: the first extension
/// of every row, in lexicographic order.
pub open spec fn supported_extensions() -> Seq<Seq<char>> {
    first_extensions_upto(table_len()).sort_by(lex_order())
}

/// Errors of the content-type lookups.
#[derive(Debug)]
pub enum MediaError {
    /// The path has no extension.
    NoExtension,
    /// No row lists the extension; `supported` holds the extensions that
    /// the message names.
    UnsupportedExtension { extension: String, supported: Vec<&'static str> },
    /// No row has the content type.
    UnknownContentType(String),
    /// The MP4 reader refused the file.
    Mp4(String),
    /// A video track of an MP4 file is coded with something other than H.264.
    UnsupportedVideoCodec(String),
}

impl MediaError {
    /// The message of the error.
    pub open spec fn text(&self) -> Seq<char> {
        match self {
            MediaError::NoExtension => "file must have extension"@,
            MediaError::UnsupportedExtension { extension, supported } =>
                "unsupported file extension `."@ + extension@ + "`, supported extensions: "@
                    + join(strs_view(supported@), " "@),
            MediaError::UnknownContentType(content_type) => "unknown content type: "@ + content_type@,
            MediaError::Mp4(message) => message@,
            MediaError::UnsupportedVideoCodec(codec) =>
                "Unsupported video codec, only H.264 is supported in MP4: "@ + codec@,
        }
    }

    /// The message of the error.
    pub fn message(&self) -> (m: String)
        ensures
            m@ == self.text(),
    {
        match self {
            MediaError::NoExtension => String::from_str("file must have extension"),
            MediaError::UnsupportedExtension { extension, supported } => {
                let mut m = String::from_str("unsupported file extension `.");
                m.append(extension.as_str());
                m.append("`, supported extensions: ");
                push_joined(&mut m, supported, " ");
                m
            },
            MediaError::UnknownContentType(content_type) => {
                let mut m = String::from_str("unknown content type: ");
                m.append(content_type.as_str());
                m
            },
            MediaError::Mp4(message) => message.clone(),
            MediaError::UnsupportedVideoCodec(codec) => {
                let mut m = String::from_str(
                    "Unsupported video codec, only H.264 is supported in MP4: ",
                );
                m.append(codec.as_str());
                m
            },
        }
    }
}

/// The supported extensions, in lexicographic order.
pub fn supported_extension_list() -> (r: Vec<&'static str>)
    ensures
        strs_view(r@) == supported_extensions(),
{
    let mut firsts: Vec<&'static str> = Vec::new();
    let n = table_size();
    let mut i: usize = 0;
    while i < n
        invariant
            n == table_len(),
            i <= n,
            strs_view(firsts@) == first_extensions_upto(i as int),
        decreases n - i,
    {
        let row = table_entry(i);
        if row.3.len() > 0 {
            let ghost before = firsts@;
            firsts.push(row.3[0]);
            assert(strs_view(firsts@) =~= strs_view(before).push(row.3@[0]@));
        }
        i = i + 1;
    }
    sort_strs(&firsts)
}

impl Media {
    /// The media kind of a content type.
    pub open spec fn for_content_type(content_type: Seq<char>) -> Option<Media> {
        match first_row_with_content_type(content_type, 0) {
            Some(i) => Some(table_row(i).2),
            None => None,
        }
    }

    /// The media kind of the content type `s`: that of the first row with
    /// this content type.
    pub fn from_str(s: &str) -> (r: Result<Media, MediaError>)
        ensures
            match Media::for_content_type(s@) {
                Some(media) => r == Ok::<Media, MediaError>(media),
                None => r matches Err(MediaError::UnknownContentType(c)) && c@ == s@,
            },
    {
        match row_for_content_type(s) {
            Some(i) => Ok(table_entry(i).2),
            None => Err(MediaError::UnknownContentType(String::from_str(s))),
        }
    }

    /// Whether a path's extension, lowercased, is `mp4`: such a file's video
    /// tracks are checked before its content type is given.
    pub open spec fn path_needs_codec_check(path: Seq<char>) -> bool {
        match path_extension(path) {
            Some(e) => lowercase(e) == "mp4"@,
            None => false,
        }
    }

    /// Whether the file at `path` has to pass `check_mp4_codec` before
    /// `content_type_for_path` is consulted.
    pub fn needs_codec_check(path: &str) -> (b: bool)
        ensures
            b == Media::path_needs_codec_check(path@),
    {
        match extension_of(path) {
            Some(e) => {
                let lower = to_lowercase(e.as_str());
                str_eq(lower.as_str(), "mp4")
            },
            None => false,
        }
    }

    /// What the lookup by extension gives for `path`: no extension is an
    /// error; otherwise the content type and compression mode of the first
    /// row that lists the lowercased extension, or an error that names it
    /// and the supported extensions.
    pub open spec fn path_lookup(path: Seq<char>, r: Result<(&'static str, CompressionMode), MediaError>) -> bool {
        match path_extension(path) {
            None => r matches Err(MediaError::NoExtension),
            Some(e) => match first_row_with_extension(lowercase(e), 0) {
                Some(i) => r matches Ok((c, m)) && c@ == table_row(i).0 && m == table_row(i).1,
                None => r matches Err(MediaError::UnsupportedExtension { extension, supported })
                    && extension@ == lowercase(e)
                    && strs_view(supported@) == supported_extensions(),
            },
        }
    }

    /// The content type and compression mode for a file, chosen by its
    /// extension, lowercased: those of the first row that lists it. This is
    /// the lookup alone: it does not check the codec of an `.mp4` file,
    /// which needs the file's bytes. `content_type_for_file` takes the
    /// result of `check_mp4_codec` on them and lets a failed check decide.
    pub fn content_type_for_path(path: &str) -> (r: Result<(&'static str, CompressionMode), MediaError>)
        ensures
            Media::path_lookup(path@, r),
    {
        let extension = match extension_of(path) {
            Some(e) => e,
            None => {
                return Err(MediaError::NoExtension);
            },
        };
        let extension = to_lowercase(extension.as_str());
        match row_for_extension(extension.as_str()) {
            Some(i) => {
                let row = table_entry(i);
                Ok((row.0, row.1))
            },
            None => Err(
                MediaError::UnsupportedExtension { extension, supported: supported_extension_list() },
            ),
        }
    }

    /// The content type and compression mode for a file whose MP4 codec
    /// check, when its path calls for one, gave `mp4_check`: a failed check
    /// decides the result; otherwise the lookup by extension does.
    pub fn content_type_for_file(
        path: &str,
        mp4_check: Option<Result<(), MediaError>>,
    ) -> (r: Result<(&'static str, CompressionMode), MediaError>)
        ensures
            (Media::path_needs_codec_check(path@) && mp4_check matches Some(Err(e))) ==> r == Err::<
                (&'static str, CompressionMode),
                MediaError,
            >(mp4_check->Some_0->Err_0),
            !(Media::path_needs_codec_check(path@) && mp4_check matches Some(Err(_))) ==> Media::path_lookup(
                path@,
                r,
            ),
    {
        if Media::needs_codec_check(path) {
            if let Some(Err(e)) = mp4_check {
                return Err(e);
            }
        }
        Media::content_type_for_path(path)
    }
}

} // verus!
