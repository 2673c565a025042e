//! The markup of an inscription's page: heading, breadcrumbs, preview
//! between its neighbours, and the list of its facts.
use vstd::prelude::*;
use crate::breadcrumbs::{layout_of, trails_view};
use crate::crumb_markup::{breadcrumbs_html, breadcrumbs_text};
use crate::iframe::{main_text, thumbnail_text, Iframe};
use crate::ids::InscriptionId;
use crate::inscription::{
    content_encoding_of, content_type_text, opt_bytes, text_title, text_title_of, InscriptionHtml, TxOut,
};
use crate::item::opt_view;
use crate::media::Media;
use crate::page::{Chain, PageContent};
use crate::teleburn::{teleburn_address, teleburn_text};
use crate::text::{decimal, escape, push_char, push_decimal, push_escaped, push_signed_decimal, signed_decimal};

verus! {

/// The time `secs` seconds after the Unix epoch as `chrono` shows a UTC
/// time, such as `1970-01-01 00:00:00 UTC`; nothing when `chrono` cannot
/// represent it.
pub uninterp spec fn utc_time_text(secs: i64) -> Option<Seq<char>>;

/// Calls `chrono::DateTime::from_timestamp` with no nanoseconds and shows
/// the result with its `Display`; the text is named `utc_time_text`.
#[verifier::external_body]
fn utc_time(secs: i64) -> (r: Option<String>)
    ensures
        match r {
            Some(t) => utc_time_text(secs) == Some(t@),
            None => utc_time_text(secs) is None,
        },
{
    Some(chrono::DateTime::from_timestamp(secs, 0)?.to_string())
}

/// The address that `script` pays to on `chain`, as
/// `bitcoin::Address::from_script` finds it and shows it; nothing for a
/// script that no standard address pays to.
pub uninterp spec fn script_address(script: Seq<u8>, chain: Chain) -> Option<Seq<char>>;

/// Calls `bitcoin::Address::from_script` with the chain's network and shows
/// the address; the text is named `script_address`.
#[verifier::external_body]
fn address_of(script: &[u8], chain: Chain) -> (r: Option<String>)
    ensures
        match r {
            Some(a) => script_address(script@, chain) == Some(a@),
            None => script_address(script@, chain) is None,
        },
{
    let network = match chain {
        Chain::Mainnet => bitcoin::Network::Bitcoin,
        Chain::Regtest => bitcoin::Network::Regtest,
        Chain::Signet => bitcoin::Network::Signet,
        Chain::Testnet => bitcoin::Network::Testnet,
        Chain::Testnet4 => bitcoin::Network::Testnet4,
    };
    let address = bitcoin::Address::from_script(bitcoin::Script::from_bytes(script), network).ok()?;
    Some(address.to_string())
}

/// Whether a byte is visible ASCII or a tab, as a header value's text must be.
pub open spec fn visible_byte(b: u8) -> bool {
    b == 9 || (32 <= b && b < 127)
}

/// A header value as text: its bytes as characters when every one is
/// visible ASCII or a tab, else nothing.
pub open spec fn header_text(bytes: Seq<u8>) -> Seq<char> {
    if forall|k: int| 0 <= k < bytes.len() ==> visible_byte(#[trigger] bytes[k]) {
        Seq::new(bytes.len(), |k: int| bytes[k] as char)
    } else {
        Seq::empty()
    }
}

/// A header value as text.
fn header_str(bytes: &[u8]) -> (r: String)
    ensures
        r@ == header_text(bytes@),
{
    let mut r = String::new();
    let mut i: usize = 0;
    while i < bytes.len()
        invariant
            i <= bytes@.len(),
            forall|k: int| 0 <= k < i ==> visible_byte(#[trigger] bytes@[k]),
            r@ =~= Seq::new(i as nat, |k: int| bytes@[k] as char),
        decreases bytes.len() - i,
    {
        let b = bytes[i];
        if !(b == 9 || (32 <= b && b < 127)) {
            assert(!visible_byte(bytes@[i as int]));
            return String::new();
        }
        push_char(&mut r, b as char);
        i = i + 1;
    }
    r
}

/// One thumbnail per inscription, each on its own line after `indent`.
pub open spec fn thumbnails_text(items: Seq<(InscriptionId, Option<Media>)>, indent: Seq<char>) -> Seq<char>
    decreases items.len(),
{
    if items.len() == 0 {
        Seq::empty()
    } else {
        thumbnails_text(items.drop_last(), indent) + indent + thumbnail_text(items.last().0, items.last().1)
            + "\n"@
    }
}

/// Appends one thumbnail per inscription, each on its own line after
/// `indent`.
fn push_thumbnails(s: &mut String, items: &Vec<(InscriptionId, Option<Media>)>, indent: &str)
    ensures
        final(s)@ == old(s)@ + thumbnails_text(items@, indent@),
{
    let ghost start = s@;
    let mut i: usize = 0;
    while i < items.len()
        invariant
            i <= items.len(),
            s@ == start + thumbnails_text(items@.take(i as int), indent@),
        decreases items.len() - i,
    {
        s.append(indent);
        let (id, media) = items[i];
        Iframe::thumbnail(id, media).push_to(s);
        s.append("\n");
        assert(items@.take(i + 1).drop_last() =~= items@.take(i as int));
        i = i + 1;
    }
    assert(items@.take(items.len() as int) =~= items@);
}

impl InscriptionHtml {
    /// The heading: the title from the inscription's properties, else the
    /// title its short plain text gives, else its number.
    pub open spec fn heading_text(&self) -> Seq<char> {
        match opt_view(self.properties.attributes.title) {
            Some(t) => escape(t),
            None => match text_title_of(self.inscription) {
                Some(t) => escape(t),
                None => "Inscription "@ + signed_decimal(self.number as int),
            },
        }
    }

    /// The subtitle row with the inscription's number.
    pub open spec fn subtitle_text(&self) -> Seq<char> {
        "<div class=subtitle-row>\n  <p class=subtitle>Inscription "@ + signed_decimal(self.number as int)
            + "</p>\n  <div class=title-links></div>\n</div>\n"@
    }

    /// The link to the previous inscription, or a placeholder.
    pub open spec fn prev_text(&self) -> Seq<char> {
        match self.previous {
            Some(p) => "<a class=prev href=/inscription/"@ + p.text() + ">\u{276e}</a>\n"@,
            None => "<div>\u{276e}</div>\n"@,
        }
    }

    /// The link to the next inscription, or a placeholder.
    pub open spec fn next_text(&self) -> Seq<char> {
        match self.next {
            Some(n) => "<a class=next href=/inscription/"@ + n.text() + ">\u{276f}</a>\n"@,
            None => "<div>\u{276f}</div>\n"@,
        }
    }

    /// The preview between the links to the neighbouring inscriptions.
    pub open spec fn navigation_text(&self) -> Seq<char> {
        "<div class=inscription>\n"@ + self.prev_text() + main_text(self.id) + "\n"@ + self.next_text()
            + "</div>\n"@
    }

    /// The parents' thumbnails and the link to all of them; nothing without
    /// parents.
    pub open spec fn parents_text(&self) -> Seq<char> {
        if self.parents@.len() == 0 {
            Seq::empty()
        } else {
            "  <dt>parents</dt>\n  <dd>\n    <div class=thumbnails>\n"@ + thumbnails_text(
                self.parents@,
                "      "@,
            ) + "    </div>\n    <div class=center>\n      <a href=/parents/"@ + self.id.text()
                + ">all</a>\n    </div>\n  </dd>\n"@
        }
    }

    /// The head of the children's row, with the buttons that switch between
    /// a strip and a grid.
    pub open spec fn children_head_text(&self) -> Seq<char> {
        "  <dt class=with-toolbar>children\n    <div class=gallery-toolbar>\n      <button class=\"gallery-view-btn active\" type=button data-mode=scroll aria-label=\"strip view\"><img class=icon src=/static/view-strip.svg></button>\n      <button class=gallery-view-btn type=button data-mode=all aria-label=\"grid view\"><img class=icon src=/static/view-grid.svg></button>\n    </div>\n  </dt>\n"@
    }

    /// The strip of the children's thumbnails, which loads more of them,
    /// and the link to all of them with their count; nothing without
    /// children.
    pub open spec fn children_text(&self) -> Seq<char> {
        if self.children@.len() == 0 {
            Seq::empty()
        } else {
            self.children_head_text()
                + "  <dd>\n    <div class=\"gallery-row gallery-mode-scroll\" data-gallery-total=\""@
                + decimal(self.child_count as nat) + "\" data-load-more-url=\"/r/children/"@ + self.id.text()
                + "\">\n      <button class=gallery-prev type=button aria-label=\"previous\">\u{276e}</button>\n      <div class=thumbnails>\n"@
                + thumbnails_text(self.children@, "        "@)
                + "      </div>\n      <button class=gallery-next type=button aria-label=\"next\">\u{276f}</button>\n    </div>\n    <div class=center>\n      <a href=/children/"@
                + self.id.text() + ">all ("@ + decimal(self.child_count as nat)
                + ")</a>\n    </div>\n  </dd>\n"@
        }
    }

    /// The rune etched with the inscription, if any.
    pub open spec fn rune_row_text(&self) -> Seq<char> {
        match self.rune {
            Some(r) => "  <dt>rune</dt>\n  <dd><a href=/rune/"@ + escape(r.text()) + ">"@ + escape(r.text())
                + "</a></dd>\n"@,
            None => Seq::empty(),
        }
    }

    /// The inscription's id.
    pub open spec fn id_row_text(&self) -> Seq<char> {
        "  <dt>id</dt>\n  <dd class=collapse>"@ + self.id.text() + "</dd>\n"@
    }

    /// The address that the output pays to, when it has one.
    pub open spec fn address_row_text(&self, output: TxOut) -> Seq<char> {
        match script_address(output.script_pubkey@, self.chain) {
            Some(a) => "  <dt>address</dt>\n  <dd><a class=collapse href=/address/"@ + escape(a) + ">"@
                + escape(a) + "</a></dd>\n"@,
            None => Seq::empty(),
        }
    }

    /// The output's address and value, when the output is known.
    pub open spec fn output_rows_text(&self) -> Seq<char> {
        match self.output {
            Some(o) => self.address_row_text(o) + "  <dt>value</dt>\n  <dd>"@ + decimal(o.value as nat)
                + "</dd>\n"@,
            None => Seq::empty(),
        }
    }

    /// The inscription's sat and its name, when the index tracks sats.
    pub open spec fn sat_rows_text(&self) -> Seq<char> {
        match self.sat {
            Some(s) => "  <dt>sat</dt>\n  <dd><a href=/sat/"@ + decimal(s@) + ">"@ + decimal(s@)
                + "</a></dd>\n  <dt>sat name</dt>\n  <dd><a href=/sat/"@ + s.name_text() + ">"@ + s.name_text()
                + "</a></dd>\n"@,
            None => Seq::empty(),
        }
    }

    /// The links to the inscription's preview, embedding and content.
    pub open spec fn links_text(&self) -> Seq<char> {
        "  <dt>preview</dt>\n  <dd><a href=/preview/"@ + self.id.text()
            + ">link</a></dd>\n  <dt>embed</dt>\n  <dd>\n    <a href=/embed/"@ + self.id.text()
            + ">link</a>\n    <button type=button data-embed-copy data-inscription-id="@ + self.id.text()
            + ">copy embed code</button>\n  </dd>\n  <dt>content</dt>\n  <dd><a href=/content/"@
            + self.id.text() + ">link</a></dd>\n"@
    }

    /// The length of the body in bytes, when there is a body.
    pub open spec fn content_length_text(&self) -> Seq<char> {
        match opt_bytes(self.inscription.body) {
            Some(b) => "  <dt>content length</dt>\n  <dd>"@ + decimal(b.len()) + " bytes</dd>\n"@,
            None => Seq::empty(),
        }
    }

    /// The content type, when it is present and valid UTF-8.
    pub open spec fn content_type_row_text(&self) -> Seq<char> {
        match content_type_text(opt_bytes(self.inscription.content_type)) {
            Some(t) => "  <dt>content type</dt>\n  <dd>"@ + escape(t) + "</dd>\n"@,
            None => Seq::empty(),
        }
    }

    /// The content encoding, when it is a valid header value.
    pub open spec fn content_encoding_row_text(&self) -> Seq<char> {
        match content_encoding_of(self.inscription) {
            Some(b) => "  <dt>content encoding</dt>\n  <dd>"@ + escape(header_text(b)) + "</dd>\n"@,
            None => Seq::empty(),
        }
    }

    /// The time of the block that revealed the inscription.
    pub open spec fn timestamp_text(&self) -> Seq<char> {
        "  <dt>timestamp</dt>\n  <dd><time>"@ + match utc_time_text(self.timestamp) {
            Some(t) => t,
            None => Seq::empty(),
        } + "</time></dd>\n"@
    }

    /// The block height, the fee, and the reveal transaction.
    pub open spec fn reveal_text(&self) -> Seq<char> {
        "  <dt>height</dt>\n  <dd><a href=/block/"@ + decimal(self.height as nat) + ">"@ + decimal(
            self.height as nat,
        ) + "</a></dd>\n  <dt>fee</dt>\n  <dd>"@ + decimal(self.fee as nat)
            + "</dd>\n  <dt>reveal transaction</dt>\n  <dd><a class=collapse href=/tx/"@ + self.id.txid.text()
            + ">"@ + self.id.txid.text() + "</a></dd>\n"@
    }

    /// Where the inscription's sat is: the satpoint, its output and offset.
    pub open spec fn location_text(&self) -> Seq<char> {
        "  <dt>location</dt>\n  <dd><a class=collapse href=/satpoint/"@ + self.satpoint.text() + ">"@
            + self.satpoint.text() + "</a></dd>\n  <dt>output</dt>\n  <dd><a class=collapse href=/output/"@
            + self.satpoint.outpoint.text() + ">"@ + self.satpoint.outpoint.text()
            + "</a></dd>\n  <dt>offset</dt>\n  <dd>"@ + decimal(self.satpoint.offset as nat) + "</dd>\n"@
    }

    /// The Ethereum address to which the inscription can be teleburned.
    pub open spec fn teleburn_row_text(&self) -> Seq<char> {
        "  <dt>ethereum teleburn address</dt>\n  <dd class=collapse>"@ + teleburn_text(self.id) + "</dd>\n"@
    }

    /// The rows about the inscription's relatives and identity.
    pub open spec fn identity_text(&self) -> Seq<char> {
        self.parents_text() + self.children_text() + self.rune_row_text() + self.id_row_text()
            + self.output_rows_text() + self.sat_rows_text()
    }

    /// The rows about the inscription's content.
    pub open spec fn content_text(&self) -> Seq<char> {
        self.links_text() + self.content_length_text() + self.content_type_row_text()
            + self.content_encoding_row_text()
    }

    /// The rows about where and when the inscription was revealed.
    pub open spec fn chain_text(&self) -> Seq<char> {
        self.timestamp_text() + self.reveal_text() + self.location_text() + self.teleburn_row_text()
    }

    /// The list of the inscription's facts.
    pub open spec fn facts_text(&self) -> Seq<char> {
        "<dl>\n"@ + self.identity_text() + self.content_text() + self.chain_text() + "</dl>\n"@
    }

    /// The top of the page: heading, subtitle row, breadcrumbs and preview.
    pub open spec fn top_text(&self) -> Seq<char> {
        "<h1>"@ + self.heading_text() + "</h1>\n"@ + self.subtitle_text() + breadcrumbs_text(
            layout_of(trails_view(self.breadcrumbs@)),
        ) + self.navigation_text()
    }

    fn push_heading(&self, s: &mut String)
        ensures
            final(s)@ == old(s)@ + self.heading_text(),
    {
        match &self.properties.attributes.title {
            Some(t) => push_escaped(s, t.as_str()),
            None => match text_title(&self.inscription) {
                Some(t) => push_escaped(s, t.as_str()),
                None => {
                    s.append("Inscription ");
                    push_signed_decimal(s, self.number as i64);
                },
            },
        }
    }

    fn push_subtitle(&self, s: &mut String)
        ensures
            final(s)@ == old(s)@ + self.subtitle_text(),
    {
        s.append("<div class=subtitle-row>\n  <p class=subtitle>Inscription ");
        push_signed_decimal(s, self.number as i64);
        s.append("</p>\n  <div class=title-links></div>\n</div>\n");
    }

    fn push_navigation(&self, s: &mut String)
        ensures
            final(s)@ == old(s)@ + self.navigation_text(),
    {
        s.append("<div class=inscription>\n");
        match self.previous {
            Some(p) => {
                s.append("<a class=prev href=/inscription/");
                p.push_to(s);
                s.append(">\u{276e}</a>\n");
            },
            None => s.append("<div>\u{276e}</div>\n"),
        }
        Iframe::main(self.id).push_to(s);
        s.append("\n");
        match self.next {
            Some(n) => {
                s.append("<a class=next href=/inscription/");
                n.push_to(s);
                s.append(">\u{276f}</a>\n");
            },
            None => s.append("<div>\u{276f}</div>\n"),
        }
        s.append("</div>\n");
    }

    fn push_parents(&self, s: &mut String)
        ensures
            final(s)@ == old(s)@ + self.parents_text(),
    {
        if self.parents.len() > 0 {
            s.append("  <dt>parents</dt>\n  <dd>\n    <div class=thumbnails>\n");
            push_thumbnails(s, &self.parents, "      ");
            s.append("    </div>\n    <div class=center>\n      <a href=/parents/");
            self.id.push_to(s);
            s.append(">all</a>\n    </div>\n  </dd>\n");
        }
    }

    fn push_children(&self, s: &mut String)
        ensures
            final(s)@ == old(s)@ + self.children_text(),
    {
        if self.children.len() > 0 {
            s.append(
                "  <dt class=with-toolbar>children\n    <div class=gallery-toolbar>\n      <button class=\"gallery-view-btn active\" type=button data-mode=scroll aria-label=\"strip view\"><img class=icon src=/static/view-strip.svg></button>\n      <button class=gallery-view-btn type=button data-mode=all aria-label=\"grid view\"><img class=icon src=/static/view-grid.svg></button>\n    </div>\n  </dt>\n",
            );
            s.append("  <dd>\n    <div class=\"gallery-row gallery-mode-scroll\" data-gallery-total=\"");
            push_decimal(s, self.child_count);
            s.append("\" data-load-more-url=\"/r/children/");
            self.id.push_to(s);
            s.append(
                "\">\n      <button class=gallery-prev type=button aria-label=\"previous\">\u{276e}</button>\n      <div class=thumbnails>\n",
            );
            push_thumbnails(s, &self.children, "        ");
            s.append(
                "      </div>\n      <button class=gallery-next type=button aria-label=\"next\">\u{276f}</button>\n    </div>\n    <div class=center>\n      <a href=/children/",
            );
            self.id.push_to(s);
            s.append(">all (");
            push_decimal(s, self.child_count);
            s.append(")</a>\n    </div>\n  </dd>\n");
        }
    }

    fn push_rune(&self, s: &mut String)
        ensures
            final(s)@ == old(s)@ + self.rune_row_text(),
    {
        if let Some(r) = &self.rune {
            let name = r.to_string();
            s.append("  <dt>rune</dt>\n  <dd><a href=/rune/");
            push_escaped(s, name.as_str());
            s.append(">");
            push_escaped(s, name.as_str());
            s.append("</a></dd>\n");
        }
    }

    fn push_output_rows(&self, s: &mut String)
        ensures
            final(s)@ == old(s)@ + self.output_rows_text(),
    {
        if let Some(o) = &self.output {
            if let Some(a) = address_of(o.script_pubkey.as_slice(), self.chain) {
                s.append("  <dt>address</dt>\n  <dd><a class=collapse href=/address/");
                push_escaped(s, a.as_str());
                s.append(">");
                push_escaped(s, a.as_str());
                s.append("</a></dd>\n");
            }
            s.append("  <dt>value</dt>\n  <dd>");
            push_decimal(s, o.value);
            s.append("</dd>\n");
        }
    }

    fn push_sat_rows(&self, s: &mut String)
        ensures
            final(s)@ == old(s)@ + self.sat_rows_text(),
    {
        if let Some(sat) = &self.sat {
            let n = sat.n();
            let name = sat.name();
            s.append("  <dt>sat</dt>\n  <dd><a href=/sat/");
            push_decimal(s, n);
            s.append(">");
            push_decimal(s, n);
            s.append("</a></dd>\n  <dt>sat name</dt>\n  <dd><a href=/sat/");
            s.append(name.as_str());
            s.append(">");
            s.append(name.as_str());
            s.append("</a></dd>\n");
        }
    }

    fn push_identity(&self, s: &mut String)
        ensures
            final(s)@ == old(s)@ + self.identity_text(),
    {
        self.push_parents(s);
        self.push_children(s);
        self.push_rune(s);
        s.append("  <dt>id</dt>\n  <dd class=collapse>");
        self.id.push_to(s);
        s.append("</dd>\n");
        self.push_output_rows(s);
        self.push_sat_rows(s);
    }

    fn push_links(&self, s: &mut String)
        ensures
            final(s)@ == old(s)@ + self.links_text(),
    {
        s.append("  <dt>preview</dt>\n  <dd><a href=/preview/");
        self.id.push_to(s);
        s.append(">link</a></dd>\n  <dt>embed</dt>\n  <dd>\n    <a href=/embed/");
        self.id.push_to(s);
        s.append(">link</a>\n    <button type=button data-embed-copy data-inscription-id=");
        self.id.push_to(s);
        s.append(">copy embed code</button>\n  </dd>\n  <dt>content</dt>\n  <dd><a href=/content/");
        self.id.push_to(s);
        s.append(">link</a></dd>\n");
    }

    fn push_content_length(&self, s: &mut String)
        ensures
            final(s)@ == old(s)@ + self.content_length_text(),
    {
        if let Some(b) = self.inscription.body() {
            s.append("  <dt>content length</dt>\n  <dd>");
            push_decimal(s, b.len() as u64);
            s.append(" bytes</dd>\n");
        }
    }

    fn push_content_type(&self, s: &mut String)
        ensures
            final(s)@ == old(s)@ + self.content_type_row_text(),
    {
        if let Some(t) = self.inscription.content_type() {
            s.append("  <dt>content type</dt>\n  <dd>");
            push_escaped(s, t);
            s.append("</dd>\n");
        }
    }

    fn push_content_encoding(&self, s: &mut String)
        ensures
            final(s)@ == old(s)@ + self.content_encoding_row_text(),
    {
        if let Some(e) = self.inscription.content_encoding() {
            s.append("  <dt>content encoding</dt>\n  <dd>");
            push_escaped(s, header_str(e).as_str());
            s.append("</dd>\n");
        }
    }

    fn push_content(&self, s: &mut String)
        ensures
            final(s)@ == old(s)@ + self.content_text(),
    {
        self.push_links(s);
        self.push_content_length(s);
        self.push_content_type(s);
        self.push_content_encoding(s);
    }

    fn push_timestamp(&self, s: &mut String)
        ensures
            final(s)@ == old(s)@ + self.timestamp_text(),
    {
        s.append("  <dt>timestamp</dt>\n  <dd><time>");
        if let Some(t) = utc_time(self.timestamp) {
            s.append(t.as_str());
        }
        s.append("</time></dd>\n");
    }

    fn push_reveal(&self, s: &mut String)
        ensures
            final(s)@ == old(s)@ + self.reveal_text(),
    {
        s.append("  <dt>height</dt>\n  <dd><a href=/block/");
        push_decimal(s, self.height as u64);
        s.append(">");
        push_decimal(s, self.height as u64);
        s.append("</a></dd>\n  <dt>fee</dt>\n  <dd>");
        push_decimal(s, self.fee);
        s.append("</dd>\n  <dt>reveal transaction</dt>\n  <dd><a class=collapse href=/tx/");
        self.id.txid.push_to(s);
        s.append(">");
        self.id.txid.push_to(s);
        s.append("</a></dd>\n");
    }

    fn push_location(&self, s: &mut String)
        ensures
            final(s)@ == old(s)@ + self.location_text(),
    {
        s.append("  <dt>location</dt>\n  <dd><a class=collapse href=/satpoint/");
        self.satpoint.push_to(s);
        s.append(">");
        self.satpoint.push_to(s);
        s.append("</a></dd>\n  <dt>output</dt>\n  <dd><a class=collapse href=/output/");
        self.satpoint.outpoint.push_to(s);
        s.append(">");
        self.satpoint.outpoint.push_to(s);
        s.append("</a></dd>\n  <dt>offset</dt>\n  <dd>");
        push_decimal(s, self.satpoint.offset);
        s.append("</dd>\n");
    }

    fn push_chain(&self, s: &mut String)
        ensures
            final(s)@ == old(s)@ + self.chain_text(),
    {
        self.push_timestamp(s);
        self.push_reveal(s);
        self.push_location(s);
        s.append("  <dt>ethereum teleburn address</dt>\n  <dd class=collapse>");
        s.append(teleburn_address(&self.id).as_str());
        s.append("</dd>\n");
    }

    fn push_top(&self, s: &mut String)
        ensures
            final(s)@ == old(s)@ + self.top_text(),
    {
        s.append("<h1>");
        self.push_heading(s);
        s.append("</h1>\n");
        self.push_subtitle(s);
        let layout = self.breadcrumb_layout();
        s.append(breadcrumbs_html(&layout).as_str());
        self.push_navigation(s);
    }

    fn push_facts(&self, s: &mut String)
        ensures
            final(s)@ == old(s)@ + self.facts_text(),
    {
        s.append("<dl>\n");
        self.push_identity(s);
        self.push_content(s);
        self.push_chain(s);
        s.append("</dl>\n");
    }
}

impl PageContent for InscriptionHtml {
    /// `Inscription` and the inscription's number.
    open spec fn title_text(&self) -> Seq<char> {
        "Inscription "@ + signed_decimal(self.number as int)
    }

    /// The inscription's page.
    open spec fn oembed_text(&self) -> Option<Seq<char>> {
        Some("/inscription/"@ + self.id.text())
    }

    /// The top of the page and the list of the inscription's facts.
    open spec fn body_text(&self) -> Seq<char> {
        self.top_text() + self.facts_text()
    }

    fn title(&self) -> (t: String) {
        let mut t = String::from_str("Inscription ");
        push_signed_decimal(&mut t, self.number as i64);
        t
    }

    fn oembed_url(&self) -> (u: Option<String>) {
        let mut u = String::from_str("/inscription/");
        self.id.push_to(&mut u);
        Some(u)
    }

    fn body(&self) -> (b: String) {
        let mut b = String::new();
        self.push_top(&mut b);
        self.push_facts(&mut b);
        b
    }
}

} // verus!
