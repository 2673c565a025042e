//! The page of one inscription: its heading, breadcrumb trails, preview
//! and facts, and the metadata read from its fields and its output.
use vstd::prelude::*;
use crate::breadcrumbs::{collapse_trails, layout_of, trails_view, BreadcrumbLayout, Crumb};
use crate::ids::{InscriptionId, OutPoint, SatPoint, Txid};
use crate::item::Attributes;
use crate::media::Media;
use crate::names::{Sat, SpacedRune};
use crate::page::Chain;
use crate::text::{chars_of, string_from_chars, trim, trim_chars, utf8_str};

verus! {

/// A CBOR value as `ciborium` decodes it.
#[verifier::external_type_specification]
#[verifier::external_body]
pub struct ExValue(ciborium::Value);

/// What `ciborium::from_reader` decodes from `bytes` as a CBOR value:
/// nothing when the bytes are not one.
pub uninterp spec fn cbor_decode(bytes: Seq<u8>) -> Option<ciborium::Value>;

/// Calls `ciborium::from_reader` on the bytes, keeping the value on success
/// and dropping the error; the result is tied to the bytes by the name
/// `cbor_decode`.
#[verifier::external_body]
fn decode_cbor(bytes: &[u8]) -> (r: Option<ciborium::Value>)
    ensures
        r == cbor_decode(bytes@),
{
    ciborium::from_reader(std::io::Cursor::new(bytes)).ok()
}

/// Calls `bitcoin::Script::is_op_return`, which holds exactly when the
/// script's first byte is `OP_RETURN` (0x6a).
#[verifier::external_body]
fn script_is_op_return(script: &[u8]) -> (r: bool)
    ensures
        r == (script@.len() > 0 && script@[0] == 0x6a),
{
    bitcoin::Script::from_bytes(script).is_op_return()
}

/// The little-endian number in the `k` bytes of `s` from `i`.
pub open spec fn le_number(s: Seq<u8>, i: int, k: nat) -> nat
    decreases k,
{
    if k == 0 {
        0
    } else {
        s[i] as nat + 256 * le_number(s, i + 1, (k - 1) as nat)
    }
}

/// The `n` bytes of `s` from `p`, if the script has them.
pub open spec fn pushed(s: Seq<u8>, p: int, n: int) -> Option<Seq<u8>> {
    if p + n <= s.len() {
        Some(s.subrange(p, p + n))
    } else {
        None
    }
}

/// The data that the script instruction at byte `i` pushes, as
/// `bitcoin::Script::instructions` reads it: an opcode from 0x00 to 0x4b
/// pushes that many following bytes; `OP_PUSHDATA1`, `OP_PUSHDATA2` and
/// `OP_PUSHDATA4` push as many bytes as the 1, 2 or 4 little-endian length
/// bytes after them say. Any other opcode, a missing instruction, and a
/// push whose length or data runs past the end of the script give nothing.
pub open spec fn push_at(s: Seq<u8>, i: int) -> Option<Seq<u8>> {
    if i < 0 || i >= s.len() {
        None
    } else if s[i] <= 0x4b {
        pushed(s, i + 1, s[i] as int)
    } else if s[i] <= 0x4e {
        let width: nat = if s[i] == 0x4c {
            1
        } else if s[i] == 0x4d {
            2
        } else {
            4
        };
        if i + 1 + width > s.len() {
            None
        } else {
            pushed(s, i + 1 + width, le_number(s, i + 1, width) as int)
        }
    } else {
        None
    }
}

/// Calls `bitcoin::Script::instructions` on an `OP_RETURN` script and
/// takes its second instruction: the data it pushes when it is a complete
/// push, as `push_at` states from byte 1, the first instruction being the
/// one byte of `OP_RETURN`; nothing for an opcode that pushes nothing, a
/// push that runs past the end of the script, or no second instruction.
#[verifier::external_body]
fn second_push(script: &[u8]) -> (r: Option<Vec<u8>>)
    requires
        script@.len() > 0,
        script@[0] == 0x6a,
    ensures
        match r {
            Some(d) => push_at(script@, 1) == Some(d@),
            None => push_at(script@, 1) is None,
        },
{
    match bitcoin::Script::from_bytes(script).instructions().nth(1) {
        Some(Ok(bitcoin::script::Instruction::PushBytes(data))) => Some(data.as_bytes().to_vec()),
        Some(Ok(bitcoin::script::Instruction::Op(_))) => None,
        Some(Err(_)) => None,
        None => None,
    }
}

/// The fields of an inscription that the pages read.
pub struct Inscription {
    pub body: Option<Vec<u8>>,
    pub content_encoding: Option<Vec<u8>>,
    pub content_type: Option<Vec<u8>>,
    pub metadata: Option<Vec<u8>>,
}

impl Default for Inscription {
    fn default() -> (i: Inscription)
        ensures
            i.body is None,
            i.content_encoding is None,
            i.content_type is None,
            i.metadata is None,
    {
        Inscription { body: None, content_encoding: None, content_type: None, metadata: None }
    }
}

/// An optional byte vector as optional bytes.
pub open spec fn opt_bytes(v: Option<Vec<u8>>) -> Option<Seq<u8>> {
    match v {
        Some(b) => Some(b@),
        None => None,
    }
}

/// The content type of an inscription as text: present when the field is
/// present and valid UTF-8.
pub open spec fn content_type_text(content_type: Option<Seq<u8>>) -> Option<Seq<char>> {
    match content_type {
        Some(b) => if vstd::utf8::valid_utf8(b) {
            Some(vstd::utf8::decode_utf8(b))
        } else {
            None
        },
        None => None,
    }
}

/// Whether a byte may stand in an HTTP header value: a tab, or any byte
/// from the space up but DEL.
pub open spec fn header_byte(b: u8) -> bool {
    b == 9 || (b >= 32 && b != 127)
}

/// Whether every byte may stand in an HTTP header value.
pub open spec fn header_bytes(bytes: Seq<u8>) -> bool {
    forall|k: int| 0 <= k < bytes.len() ==> header_byte(#[trigger] bytes[k])
}

/// The content encoding as a header value: present when the field is
/// present and every byte of it may stand in a header value.
pub open spec fn content_encoding_of(inscription: Inscription) -> Option<Seq<u8>> {
    match opt_bytes(inscription.content_encoding) {
        Some(b) => if header_bytes(b) {
            Some(b)
        } else {
            None
        },
        None => None,
    }
}

impl Inscription {
    /// The content encoding, when every byte of it may stand in an HTTP
    /// header value.
    pub fn content_encoding(&self) -> (e: Option<&[u8]>)
        ensures
            match e {
                Some(b) => content_encoding_of(*self) == Some(b@),
                None => content_encoding_of(*self) is None,
            },
    {
        let bytes = match &self.content_encoding {
            Some(b) => b.as_slice(),
            None => {
                return None;
            },
        };
        let mut i: usize = 0;
        while i < bytes.len()
            invariant
                i <= bytes@.len(),
                opt_bytes(self.content_encoding) == Some(bytes@),
                forall|k: int| 0 <= k < i ==> header_byte(#[trigger] bytes@[k]),
            decreases bytes.len() - i,
        {
            let b = bytes[i];
            if !(b == 9 || (b >= 32 && b != 127)) {
                assert(!header_byte(bytes@[i as int]));
                return None;
            }
            i = i + 1;
        }
        Some(bytes)
    }

    /// The body, if any.
    pub fn body(&self) -> (b: Option<&[u8]>)
        ensures
            match b {
                Some(x) => opt_bytes(self.body) == Some(x@),
                None => self.body is None,
            },
    {
        match &self.body {
            Some(b) => Some(b.as_slice()),
            None => None,
        }
    }

    /// The content type, if present and valid UTF-8.
    pub fn content_type(&self) -> (c: Option<&str>)
        ensures
            match c {
                Some(x) => content_type_text(opt_bytes(self.content_type)) == Some(x@),
                None => content_type_text(opt_bytes(self.content_type)) is None,
            },
    {
        match &self.content_type {
            Some(b) => utf8_str(b.as_slice()),
            None => None,
        }
    }

    /// The metadata, decoded from CBOR, if present and well formed.
    pub fn metadata(&self) -> (m: Option<ciborium::Value>)
        ensures
            m == match self.metadata {
                Some(b) => cbor_decode(b@),
                None => None,
            },
    {
        match &self.metadata {
            Some(b) => decode_cbor(b.as_slice()),
            None => None,
        }
    }
}

/// The longest text that may serve as a heading, in characters.
pub open spec fn max_title_len() -> nat {
    64
}

/// Whether a text that starts with `text/plain` is the content type.
pub open spec fn is_plain_text(content_type: Seq<char>) -> bool {
    content_type.len() >= 10 && content_type.subrange(0, 10) == "text/plain"@
}

/// The title that a short plain-text inscription gives itself: its body,
/// trimmed, when the inscription has no valid content encoding, its content type
/// starts with `text/plain`, its body is valid UTF-8, and the trimmed text
/// is non-empty, on one line, and at most 64 characters long.
pub open spec fn text_title_of(inscription: Inscription) -> Option<Seq<char>> {
    if content_encoding_of(inscription) is Some {
        None
    } else {
        match content_type_text(opt_bytes(inscription.content_type)) {
            None => None,
            Some(content_type) => if !is_plain_text(content_type) {
                None
            } else {
                match opt_bytes(inscription.body) {
                    None => None,
                    Some(body) => if !vstd::utf8::valid_utf8(body) {
                        None
                    } else {
                        let text = trim(vstd::utf8::decode_utf8(body));
                        if text.len() == 0 || text.contains('\n') || text.contains('\r') || text.len()
                            > max_title_len() {
                            None
                        } else {
                            Some(text)
                        }
                    },
                }
            },
        }
    }
}

/// Whether `s` starts with `text/plain`.
fn starts_with_text_plain(s: &str) -> (b: bool)
    ensures
        b == is_plain_text(s@),
{
    let prefix = "text/plain";
    proof {
        reveal_strlit("text/plain");
    }
    let n = s.unicode_len();
    if n < 10 {
        return false;
    }
    let mut i: usize = 0;
    while i < 10
        invariant
            n == s@.len(),
            n >= 10,
            i <= 10,
            prefix@ == "text/plain"@,
            prefix@.len() == 10,
            forall|k: int| 0 <= k < i ==> s@[k] == prefix@[k],
        decreases 10 - i,
    {
        if s.get_char(i) != prefix.get_char(i) {
            assert(s@.subrange(0, 10)[i as int] != "text/plain"@[i as int]);
            return false;
        }
        i = i + 1;
    }
    assert(s@.subrange(0, 10) =~= "text/plain"@);
    true
}

/// The title that a short plain-text inscription gives itself, if any.
pub fn text_title(inscription: &Inscription) -> (r: Option<String>)
    ensures
        match r {
            Some(t) => text_title_of(*inscription) == Some(t@),
            None => text_title_of(*inscription) is None,
        },
{
    if inscription.content_encoding().is_some() {
        return None;
    }
    let content_type = match inscription.content_type() {
        Some(c) => c,
        None => {
            return None;
        },
    };
    if !starts_with_text_plain(content_type) {
        return None;
    }
    let body = match inscription.body() {
        Some(b) => b,
        None => {
            return None;
        },
    };
    let text = match utf8_str(body) {
        Some(t) => t,
        None => {
            return None;
        },
    };
    let chars = chars_of(text);
    let (start, end) = trim_chars(&chars);
    let ghost trimmed = chars@.subrange(start as int, end as int);
    assert(trimmed == trim(vstd::utf8::decode_utf8(body@)));
    assert(trimmed.len() == end - start);
    assert(content_type_text(opt_bytes(inscription.content_type)) == Some(content_type@));
    assert(opt_bytes(inscription.body) == Some(body@));
    if start == end || end - start > 64 {
        return None;
    }
    let mut i: usize = start;
    while i < end
        invariant
            start <= i <= end <= chars@.len(),
            trimmed == chars@.subrange(start as int, end as int),
            trimmed == trim(vstd::utf8::decode_utf8(body@)),
            0 < end - start <= 64,
            content_encoding_of(*inscription) is None,
            content_type_text(opt_bytes(inscription.content_type)) == Some(content_type@),
            is_plain_text(content_type@),
            opt_bytes(inscription.body) == Some(body@),
            vstd::utf8::valid_utf8(body@),
            forall|k: int| start <= k < i ==> chars@[k] != '\n' && chars@[k] != '\r',
        decreases end - i,
    {
        if chars[i] == '\n' || chars[i] == '\r' {
            assert(trimmed[i - start] == chars@[i as int]);
            assert(trimmed.contains(chars@[i as int]));
            assert(text_title_of(*inscription) is None);
            return None;
        }
        i = i + 1;
    }
    assert(!trimmed.contains('\n') && !trimmed.contains('\r')) by {
        assert forall|k: int| 0 <= k < trimmed.len() implies trimmed[k] != '\n' && trimmed[k] != '\r' by {
            assert(trimmed[k] == chars@[start + k]);
        }
    }
    let slice = vstd::slice::slice_subrange(chars.as_slice(), start, end);
    Some(string_from_chars(slice))
}

/// A transaction output: its value in sats and its script.
pub struct TxOut {
    pub value: u64,
    pub script_pubkey: Vec<u8>,
}

/// The metadata an output carries when it burns: the CBOR value that the
/// second instruction of an `OP_RETURN` script pushes. `OP_RETURN` is one
/// byte, so the second instruction starts at byte 1.
pub open spec fn burn_metadata_of(output: Option<TxOut>) -> Option<ciborium::Value> {
    match output {
        None => None,
        Some(o) => if !(o.script_pubkey@.len() > 0 && o.script_pubkey@[0] == 0x6a) {
            None
        } else {
            match push_at(o.script_pubkey@, 1) {
                None => None,
                Some(data) => cbor_decode(data),
            }
        },
    }
}

/// What the inscription's properties give the page: its attributes.
pub struct Properties {
    pub attributes: Attributes,
}

impl Default for Properties {
    fn default() -> (p: Properties)
        ensures
            p.attributes.title is None,
            p.attributes.traits.items@.len() == 0,
    {
        Properties { attributes: Attributes::default() }
    }
}

/// The page of one inscription.
pub struct InscriptionHtml {
    pub breadcrumbs: Vec<Vec<Crumb>>,
    pub chain: Chain,
    /// The inscription's charms as a bit set; the page does not list them.
    pub charms: u16,
    pub child_count: u64,
    pub children: Vec<(InscriptionId, Option<Media>)>,
    pub fee: u64,
    /// The media kinds of a gallery's items; the page does not show them.
    pub gallery_media: Vec<Option<Media>>,
    pub height: u32,
    pub id: InscriptionId,
    pub inscription: Inscription,
    pub next: Option<InscriptionId>,
    pub number: i32,
    pub output: Option<TxOut>,
    pub parents: Vec<(InscriptionId, Option<Media>)>,
    pub previous: Option<InscriptionId>,
    pub properties: Properties,
    pub rune: Option<SpacedRune>,
    /// The inscription's sat, when the index tracks sats.
    pub sat: Option<Sat>,
    pub satpoint: SatPoint,
    /// Seconds since the Unix epoch.
    pub timestamp: i64,
}

impl Default for InscriptionHtml {
    /// The page of an inscription of which nothing is known: every list
    /// empty, every option absent, every number zero, default ids.
    fn default() -> (h: InscriptionHtml)
        ensures
            h.breadcrumbs@.len() == 0,
            h.chain == Chain::Mainnet,
            h.charms == 0,
            h.child_count == 0,
            h.children@.len() == 0,
            h.fee == 0,
            h.gallery_media@.len() == 0,
            h.height == 0,
            h.id == (InscriptionId { txid: Txid(0, 0, 0, 0), index: 0 }),
            h.inscription.body is None,
            h.inscription.content_encoding is None,
            h.inscription.content_type is None,
            h.inscription.metadata is None,
            h.next is None,
            h.number == 0,
            h.output is None,
            h.parents@.len() == 0,
            h.previous is None,
            h.properties.attributes.title is None,
            h.properties.attributes.traits.items@.len() == 0,
            h.rune is None,
            h.sat is None,
            h.satpoint == (SatPoint { outpoint: OutPoint { txid: Txid(0, 0, 0, 0), vout: u32::MAX }, offset: 0 }),
            h.timestamp == 0,
    {
        InscriptionHtml {
            breadcrumbs: Vec::new(),
            chain: Chain::Mainnet,
            charms: 0,
            child_count: 0,
            children: Vec::new(),
            fee: 0,
            gallery_media: Vec::new(),
            height: 0,
            id: InscriptionId::default(),
            inscription: Inscription::default(),
            next: None,
            number: 0,
            output: None,
            parents: Vec::new(),
            previous: None,
            properties: Properties::default(),
            rune: None,
            sat: None,
            satpoint: SatPoint::default(),
            timestamp: 0,
        }
    }
}

/// Labelled metadata sections, in display order: the Opus tags first, then
/// the inscription's own metadata, each only when present.
pub open spec fn sections_ok(
    opus_metadata: Option<ciborium::Value>,
    metadata: Option<ciborium::Value>,
    r: Seq<(&str, ciborium::Value)>,
) -> bool {
    match (opus_metadata, metadata) {
        (Some(o), Some(m)) => r.len() == 2 && r[0].0@ == "opus metadata"@ && r[0].1 == o && r[1].0@
            == "metadata"@ && r[1].1 == m,
        (Some(o), None) => r.len() == 1 && r[0].0@ == "opus metadata"@ && r[0].1 == o,
        (None, Some(m)) => r.len() == 1 && r[0].0@ == "metadata"@ && r[0].1 == m,
        (None, None) => r.len() == 0,
    }
}

impl InscriptionHtml {
    /// The breadcrumb trails collapsed into a common prefix, the divergent
    /// middles and a common suffix.
    pub fn breadcrumb_layout(&self) -> (r: BreadcrumbLayout)
        ensures
            r@ == layout_of(trails_view(self.breadcrumbs@)),
    {
        collapse_trails(&self.breadcrumbs)
    }

    /// The metadata sections to show, Opus tags before metadata.
    pub fn metadata_sections_from_values(
        opus_metadata: Option<ciborium::Value>,
        metadata: Option<ciborium::Value>,
    ) -> (r: Vec<(&'static str, ciborium::Value)>)
        ensures
            sections_ok(opus_metadata, metadata, r@),
    {
        let ghost o = opus_metadata;
        let ghost m = metadata;
        let mut sections: Vec<(&'static str, ciborium::Value)> = Vec::new();
        if let Some(opus_metadata) = opus_metadata {
            sections.push(("opus metadata", opus_metadata));
        }
        if let Some(metadata) = metadata {
            sections.push(("metadata", metadata));
        }
        sections
    }

    /// The metadata that the inscription's output carries when it is an
    /// `OP_RETURN` burn.
    pub fn burn_metadata(&self) -> (r: Option<ciborium::Value>)
        ensures
            r == burn_metadata_of(self.output),
    {
        let output = match &self.output {
            Some(o) => o,
            None => {
                return None;
            },
        };
        if !script_is_op_return(output.script_pubkey.as_slice()) {
            return None;
        }
        let data = match second_push(output.script_pubkey.as_slice()) {
            Some(d) => d,
            None => {
                return None;
            },
        };
        decode_cbor(data.as_slice())
    }
}

} // verus!
