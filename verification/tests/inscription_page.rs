use std::str::FromStr;

use ciborium::Value;
use ord_render::breadcrumbs::{Crumb, SatInscription};
use ord_render::ids::{InscriptionId, OutPoint, SatPoint, Txid};
use ord_render::inscription::{text_title, Inscription, InscriptionHtml, Properties, TxOut};
use ord_render::item::Attributes;
use ord_render::names::{Sat, SpacedRune};
use ord_render::page::PageContent;
use regex::Regex;
use unindent::Unindent;

fn assert_regex_match(value: &str, pattern: &str) {
    let re = Regex::new(&format!("^(?s){}$", pattern)).unwrap();
    assert!(re.is_match(value), "{value:?} does not match {pattern:?}");
}

fn txid(n: u32) -> Txid {
    let word = u64::from(n) * 0x1111_1111_1111_1111;
    Txid(word, word, word, word)
}

fn inscription_id(n: u32) -> InscriptionId {
    InscriptionId { txid: txid(n), index: n }
}

fn satpoint(n: u32, offset: u64) -> SatPoint {
    SatPoint { outpoint: OutPoint { txid: txid(n), vout: n }, offset }
}

fn inscription(content_type: &str, body: &str) -> Inscription {
    Inscription {
        content_type: Some(content_type.as_bytes().to_vec()),
        body: Some(body.as_bytes().to_vec()),
        ..Inscription::default()
    }
}

fn address_script(address: &str) -> Vec<u8> {
    bitcoin::Address::from_str(address)
        .unwrap()
        .assume_checked()
        .script_pubkey()
        .to_bytes()
}

fn tx_out(value: u64) -> TxOut {
    TxOut {
        value,
        script_pubkey: address_script("bc1qw508d6qejxtdg4y5r3zarvary0c5xw7kv8f3t4"),
    }
}

fn crumb(n: u32, title: &str) -> Crumb {
    Crumb {
        id: inscription_id(n),
        title: title.into(),
        reinscriptions: Vec::new(),
        children: Vec::new(),
        more_children: false,
    }
}

fn page(breadcrumbs: Vec<Vec<Crumb>>) -> InscriptionHtml {
    InscriptionHtml {
        breadcrumbs,
        fee: 1,
        inscription: inscription("text/plain;charset=utf-8", "HELLOWORLD"),
        id: inscription_id(1),
        number: 1,
        satpoint: satpoint(1, 0),
        ..InscriptionHtml::default()
    }
}

#[test]
fn without_sat_nav_links_or_output() {
    assert_regex_match(
        &page(Vec::new()).body(),
        &"
        <h1>HELLOWORLD</h1>
        <div class=subtitle-row>
          <p class=subtitle>Inscription 1</p>
          <div class=title-links></div>
        </div>
        <div class=inscription>
        <div>❮</div>
        <iframe .* src=/preview/1{64}i1></iframe>
        <div>❯</div>
        </div>
        <dl>
          <dt>id</dt>
          <dd class=collapse>1{64}i1</dd>
          <dt>preview</dt>
          <dd><a href=/preview/1{64}i1>link</a></dd>
          <dt>embed</dt>
          <dd>
            <a href=/embed/1{64}i1>link</a>
            <button type=button data-embed-copy data-inscription-id=1{64}i1>copy embed code</button>
          </dd>
          <dt>content</dt>
          <dd><a href=/content/1{64}i1>link</a></dd>
          <dt>content length</dt>
          <dd>10 bytes</dd>
          <dt>content type</dt>
          <dd>text/plain;charset=utf-8</dd>
          <dt>timestamp</dt>
          <dd><time>1970-01-01 00:00:00 UTC</time></dd>
          <dt>height</dt>
          <dd><a href=/block/0>0</a></dd>
          <dt>fee</dt>
          <dd>1</dd>
          <dt>reveal transaction</dt>
          <dd><a class=collapse href=/tx/1{64}>1{64}</a></dd>
          <dt>location</dt>
          <dd><a class=collapse href=/satpoint/1{64}:1:0>1{64}:1:0</a></dd>
          <dt>output</dt>
          <dd><a class=collapse href=/output/1{64}:1>1{64}:1</a></dd>
          <dt>offset</dt>
          <dd>0</dd>
          <dt>ethereum teleburn address</dt>
          <dd class=collapse>0xa1DfBd1C519B9323FD7Fd8e498Ac16c2E502F059</dd>
        </dl>
      "
        .unindent(),
    );
}

#[test]
fn inscription_with_title() {
    assert_regex_match(
        &InscriptionHtml {
            properties: Properties {
                attributes: Attributes { title: Some("Bitcoin Shrooms".into()), ..Attributes::default() },
            },
            ..page(Vec::new())
        }
        .body(),
        &"
        <h1>Bitcoin Shrooms</h1>
        <div class=subtitle-row>
          <p class=subtitle>Inscription 1</p>
          <div class=title-links></div>
        </div>
        .*
      "
        .unindent(),
    );
}

#[test]
fn bitmap_text_used_as_heading() {
    assert_regex_match(
        &InscriptionHtml {
            inscription: inscription("text/plain;charset=utf-8", "12345.bitmap"),
            ..page(Vec::new())
        }
        .body(),
        &"
        <h1>12345.bitmap</h1>
        <div class=subtitle-row>
          <p class=subtitle>Inscription 1</p>
          <div class=title-links></div>
        </div>
        .*
      "
        .unindent(),
    );
}

#[test]
fn long_text_keeps_number_heading() {
    assert_regex_match(
        &InscriptionHtml {
            inscription: inscription(
                "text/plain;charset=utf-8",
                "this text is far too long to be used as an inscription heading so it is ignored",
            ),
            ..page(Vec::new())
        }
        .body(),
        &"
        <h1>Inscription 1</h1>
        .*
      "
        .unindent(),
    );
}

#[test]
fn with_breadcrumbs() {
    assert_regex_match(
        &page(vec![vec![crumb(2, "MoBA"), crumb(1, "Bitcoin Shrooms")]]).body(),
        &"
        .*
        <div class=breadcrumbs>
        .*
        <a href=/inscription/2{64}i2>MoBA</a>
        .*
        <span class=current>Bitcoin Shrooms</span>
        .*
      "
        .unindent(),
    );
}

#[test]
fn breadcrumb_reinscriptions_render_dropdown() {
    let mut moba = crumb(2, "MoBA");
    moba.reinscriptions = vec![
        SatInscription { id: inscription_id(2), label: "#1".into() },
        SatInscription { id: inscription_id(3), label: "12345.bitmap".into() },
    ];
    assert_regex_match(
        &page(vec![vec![moba, crumb(1, "Bitcoin Shrooms")]]).body(),
        &"
        .*
        <a href=/inscription/2{64}i2>MoBA</a>
        <button class=crumb-toggle type=button aria-label=reinscriptions>.*</button>
        <span class=crumb-menu>
        <a href=/inscription/2{64}i2>#1</a>
        <a href=/inscription/3{64}i3>12345.bitmap</a>
        </span>
        .*
      "
        .unindent(),
    );
}

#[test]
fn breadcrumb_children_render_dropdown() {
    let mut moba = crumb(2, "MoBA");
    moba.children = vec![
        SatInscription { id: inscription_id(4), label: "Sound Gallery".into() },
        SatInscription { id: inscription_id(5), label: "Image Gallery".into() },
    ];
    assert_regex_match(
        &page(vec![vec![moba, crumb(1, "Bitcoin Shrooms")]]).body(),
        &"
        .*
        <a href=/inscription/2{64}i2>MoBA</a>
        <button class=crumb-toggle type=button aria-label=reinscriptions>.*</button>
        <span class=crumb-menu>
        <a href=/inscription/4{64}i4>Sound Gallery</a>
        <a href=/inscription/5{64}i5>Image Gallery</a>
        </span>
        .*
      "
        .unindent(),
    );
}

#[test]
fn breadcrumb_fork_collapses_common_prefix_and_suffix() {
    assert_regex_match(
        &page(vec![
            vec![crumb(2, "MoBA"), crumb(3, "Inscription Clubs"), crumb(1, "Ordinal Archaeology")],
            vec![crumb(2, "MoBA"), crumb(4, "Library"), crumb(1, "Ordinal Archaeology")],
        ])
        .body(),
        &"
        .*
        <a href=/inscription/2{64}i2>MoBA</a>
        .*
        <div class=breadcrumb-fork>
        <div class=breadcrumb-fork-row>
        .*<a href=/inscription/3{64}i3>Inscription Clubs</a>.*
        </div>
        <div class=breadcrumb-fork-row>
        .*<a href=/inscription/4{64}i4>Library</a>.*
        </div>
        </div>
        .*
        <span class=current>Ordinal Archaeology</span>
        .*
      "
        .unindent(),
    );
}

#[test]
fn breadcrumb_fork_blank_row_when_trail_has_no_divergent_middle() {
    // Trail A: [X, Y, Z, current]. Trail B: [X, Z, current]. After
    // collapsing the shared prefix [X] and the shared suffix [Z, current],
    // A's middle is [Y] and B's middle is empty: B's row is blank.
    assert_regex_match(
        &page(vec![
            vec![crumb(2, "X"), crumb(3, "Y"), crumb(4, "Z"), crumb(1, "Current")],
            vec![crumb(2, "X"), crumb(4, "Z"), crumb(1, "Current")],
        ])
        .body(),
        &"
        .*
        <a href=/inscription/2{64}i2>X</a>
        .*
        <div class=breadcrumb-fork>
        <div class=breadcrumb-fork-row>
        .*<a href=/inscription/3{64}i3>Y</a>.*
        </div>
        <div class=breadcrumb-fork-row>
        </div>
        </div>
        .*
        <a href=/inscription/4{64}i4>Z</a>
        .*
        <span class=current>Current</span>
        .*
      "
        .unindent(),
    );
}

#[test]
fn breadcrumb_combines_reinscriptions_and_children_with_more() {
    let mut moba = crumb(2, "MoBA");
    moba.reinscriptions = vec![SatInscription { id: inscription_id(3), label: "12345.bitmap".into() }];
    moba.children = vec![SatInscription { id: inscription_id(4), label: "Sound Gallery".into() }];
    moba.more_children = true;
    assert_regex_match(
        &page(vec![vec![moba, crumb(1, "Bitcoin Shrooms")]]).body(),
        &"
        .*
        <a href=/inscription/2{64}i2>MoBA</a>
        <button class=crumb-toggle type=button aria-label=reinscriptions>.*</button>
        <span class=crumb-menu>
        <a href=/inscription/3{64}i3>12345.bitmap</a>
        <div class=crumb-menu-divider></div>
        <a href=/inscription/4{64}i4>Sound Gallery</a>
        <a href=/children/2{64}i2>all children</a>
        </span>
        .*
      "
        .unindent(),
    );
}

#[test]
fn with_output() {
    assert_regex_match(
        &InscriptionHtml { output: Some(tx_out(1)), ..page(Vec::new()) }.body(),
        &"
        .*<h1>HELLOWORLD</h1>
        <div class=subtitle-row>
          <p class=subtitle>Inscription 1</p>
          <div class=title-links></div>
        </div>
        <div class=inscription>
        <div>❮</div>
        <iframe .* src=/preview/1{64}i1></iframe>
        <div>❯</div>
        </div>
        <dl>
          .*
          <dt>address</dt>
          <dd><a class=collapse href=/address/bc1qw508d6qejxtdg4y5r3zarvary0c5xw7kv8f3t4>bc1qw508d6qejxtdg4y5r3zarvary0c5xw7kv8f3t4</a></dd>
          <dt>value</dt>
          <dd>1</dd>
          .*
        </dl>
      "
        .unindent(),
    );
}

#[test]
fn with_sat() {
    assert_regex_match(
        &InscriptionHtml {
            output: Some(tx_out(1)),
            sat: Some(Sat::new(1).unwrap()),
            ..page(Vec::new())
        }
        .body(),
        &"
        <h1>HELLOWORLD</h1>
        .*
        <dl>
          .*
          <dt>sat</dt>
          <dd><a href=/sat/1>1</a></dd>
          <dt>sat name</dt>
          <dd><a href=/sat/nvtdijuwxlo>nvtdijuwxlo</a></dd>
          <dt>preview</dt>
          .*
        </dl>
      "
        .unindent(),
    );
}

#[test]
fn inscription_with_prev_and_next() {
    assert_regex_match(
        &InscriptionHtml {
            id: inscription_id(2),
            next: Some(inscription_id(3)),
            output: Some(tx_out(1)),
            previous: Some(inscription_id(1)),
            ..page(Vec::new())
        }
        .body(),
        &"
        <h1>HELLOWORLD</h1>
        <div class=subtitle-row>
          <p class=subtitle>Inscription 1</p>
          <div class=title-links></div>
        </div>
        <div class=inscription>
        <a class=prev href=/inscription/1{64}i1>❮</a>
        <iframe .* src=/preview/2{64}i2></iframe>
        <a class=next href=/inscription/3{64}i3>❯</a>
        </div>
        .*
      "
        .unindent(),
    );
}

#[test]
fn with_cursed_and_unbound() {
    assert_regex_match(
        &InscriptionHtml {
            id: inscription_id(2),
            number: -1,
            output: Some(tx_out(1)),
            satpoint: SatPoint { outpoint: OutPoint { txid: Txid(0, 0, 0, 0), vout: 0 }, offset: 0 },
            timestamp: 0,
            ..page(Vec::new())
        }
        .body(),
        &"
        <h1>HELLOWORLD</h1>
        .*
        <dl>
          .*
          <dt>location</dt>
          <dd><a class=collapse href=/satpoint/0{64}:0:0>0{64}:0:0</a></dd>
          <dt>output</dt>
          <dd><a class=collapse href=/output/0{64}:0>0{64}:0</a></dd>
          .*
        </dl>
      "
        .unindent(),
    );
}

#[test]
fn with_parent() {
    assert_regex_match(
        &InscriptionHtml { parents: vec![(inscription_id(2), None)], ..page(Vec::new()) }.body(),
        &"
        <h1>HELLOWORLD</h1>
        <div class=subtitle-row>
          <p class=subtitle>Inscription 1</p>
          <div class=title-links></div>
        </div>
        <div class=inscription>
        <div>❮</div>
        <iframe .* src=/preview/1{64}i1></iframe>
        <div>❯</div>
        </div>
        <dl>
          <dt>parents</dt>
          <dd>
            <div class=thumbnails>
              <a href=/inscription/2{64}i2><iframe .* src=/preview/2{64}i2\\?thumb=1></iframe></a>
            </div>
            <div class=center>
              <a href=/parents/1{64}i1>all</a>
            </div>
          </dd>
          <dt>id</dt>
          <dd class=collapse>1{64}i1</dd>
          <dt>preview</dt>
          <dd><a href=/preview/1{64}i1>link</a></dd>
          <dt>embed</dt>
          <dd>
            <a href=/embed/1{64}i1>link</a>
            <button type=button data-embed-copy data-inscription-id=1{64}i1>copy embed code</button>
          </dd>
          <dt>content</dt>
          <dd><a href=/content/1{64}i1>link</a></dd>
          <dt>content length</dt>
          <dd>10 bytes</dd>
          <dt>content type</dt>
          <dd>text/plain;charset=utf-8</dd>
          <dt>timestamp</dt>
          <dd><time>1970-01-01 00:00:00 UTC</time></dd>
          <dt>height</dt>
          <dd><a href=/block/0>0</a></dd>
          <dt>fee</dt>
          <dd>1</dd>
          <dt>reveal transaction</dt>
          <dd><a class=collapse href=/tx/1{64}>1{64}</a></dd>
          <dt>location</dt>
          <dd><a class=collapse href=/satpoint/1{64}:1:0>1{64}:1:0</a></dd>
          <dt>output</dt>
          <dd><a class=collapse href=/output/1{64}:1>1{64}:1</a></dd>
          <dt>offset</dt>
          <dd>0</dd>
          <dt>ethereum teleburn address</dt>
          <dd class=collapse>0xa1DfBd1C519B9323FD7Fd8e498Ac16c2E502F059</dd>
        </dl>
"
        .unindent(),
    );
}

fn children_pattern(total: u32, thumbnails: &str) -> String {
    format!(
        "
        <h1>HELLOWORLD</h1>
        <div class=subtitle-row>
          <p class=subtitle>Inscription 1</p>
          <div class=title-links></div>
        </div>
        <div class=inscription>
        <div>❮</div>
        <iframe .* src=/preview/1{{64}}i1></iframe>
        <div>❯</div>
        </div>
        <dl>
          <dt class=with-toolbar>children
            <div class=gallery-toolbar>
              <button class=\"gallery-view-btn active\" type=button data-mode=scroll aria-label=\"strip view\"><img class=icon src=/static/view-strip.svg></button>
              <button class=gallery-view-btn type=button data-mode=all aria-label=\"grid view\"><img class=icon src=/static/view-grid.svg></button>
            </div>
          </dt>
          <dd>
            <div class=\"gallery-row gallery-mode-scroll\" data-gallery-total=\"{total}\" data-load-more-url=\"/r/children/1{{64}}i1\">
              <button class=gallery-prev type=button aria-label=\"previous\">❮</button>
              <div class=thumbnails>
{thumbnails}              </div>
              <button class=gallery-next type=button aria-label=\"next\">❯</button>
            </div>
            <div class=center>
              <a href=/children/1{{64}}i1>all \\({total}\\)</a>
            </div>
          </dd>
          <dt>id</dt>
          <dd class=collapse>1{{64}}i1</dd>
          <dt>preview</dt>
          <dd><a href=/preview/1{{64}}i1>link</a></dd>
          <dt>embed</dt>
          <dd>
            <a href=/embed/1{{64}}i1>link</a>
            <button type=button data-embed-copy data-inscription-id=1{{64}}i1>copy embed code</button>
          </dd>
          <dt>content</dt>
          <dd><a href=/content/1{{64}}i1>link</a></dd>
          <dt>content length</dt>
          <dd>10 bytes</dd>
          <dt>content type</dt>
          <dd>text/plain;charset=utf-8</dd>
          <dt>timestamp</dt>
          <dd><time>1970-01-01 00:00:00 UTC</time></dd>
          <dt>height</dt>
          <dd><a href=/block/0>0</a></dd>
          <dt>fee</dt>
          <dd>1</dd>
          <dt>reveal transaction</dt>
          <dd><a class=collapse href=/tx/1{{64}}>1{{64}}</a></dd>
          <dt>location</dt>
          <dd><a class=collapse href=/satpoint/1{{64}}:1:0>1{{64}}:1:0</a></dd>
          <dt>output</dt>
          <dd><a class=collapse href=/output/1{{64}}:1>1{{64}}:1</a></dd>
          <dt>offset</dt>
          <dd>0</dd>
          <dt>ethereum teleburn address</dt>
          <dd class=collapse>0xa1DfBd1C519B9323FD7Fd8e498Ac16c2E502F059</dd>
        </dl>
      "
    )
    .unindent()
}

#[test]
fn with_children() {
    assert_regex_match(
        &InscriptionHtml {
            child_count: 2,
            children: vec![(inscription_id(2), None), (inscription_id(3), None)],
            ..page(Vec::new())
        }
        .body(),
        &children_pattern(
            2,
            "                <a href=/inscription/2{64}i2><iframe .* src=/preview/2{64}i2\\?thumb=1></iframe></a>
                <a href=/inscription/3{64}i3><iframe .* src=/preview/3{64}i3\\?thumb=1></iframe></a>
",
        ),
    );
}

#[test]
fn with_paginated_children() {
    assert_regex_match(
        &InscriptionHtml {
            child_count: 1,
            children: vec![(inscription_id(2), None)],
            ..page(Vec::new())
        }
        .body(),
        &children_pattern(
            1,
            "                <a href=/inscription/2{64}i2><iframe .* src=/preview/2{64}i2\\?thumb=1></iframe></a>
",
        ),
    );
}

#[test]
fn with_rune() {
    assert_regex_match(
        &InscriptionHtml { rune: Some(SpacedRune { rune: 26, spacers: 1 }), ..page(Vec::new()) }.body(),
        &"
        <h1>HELLOWORLD</h1>
        .*
        <dl>
          <dt>rune</dt>
          <dd><a href=/rune/A•A>A•A</a></dd>
          .*
        </dl>
      "
        .unindent(),
    );
}

#[test]
fn with_content_encoding() {
    assert_regex_match(
        &InscriptionHtml {
            inscription: Inscription {
                content_encoding: Some(b"br".to_vec()),
                ..inscription("text/plain;charset=utf-8", "HELLOWORLD")
            },
            ..page(Vec::new())
        }
        .body(),
        &"
        <h1>Inscription 1</h1>
        .*
        <dl>
          .*
          <dt>content encoding</dt>
          <dd>br</dd>
          .*
        </dl>
      "
        .unindent(),
    );
}

fn burn_script(payload: &[u8]) -> Vec<u8> {
    let data: &bitcoin::script::PushBytes = payload.try_into().unwrap();
    bitcoin::script::Builder::new()
        .push_opcode(bitcoin::opcodes::all::OP_RETURN)
        .push_slice(data)
        .into_script()
        .to_bytes()
}

#[test]
fn burn_metadata_decodes_op_return_push() {
    let html = InscriptionHtml {
        output: Some(TxOut {
            value: 1,
            script_pubkey: burn_script(&[
                0xA2, 0x63, b'f', b'o', b'o', 0x63, b'b', b'a', b'r', 0x63, b'b', b'a', b'z', 0x01,
            ]),
        }),
        ..page(Vec::new())
    };
    assert_eq!(
        html.burn_metadata(),
        Some(Value::Map(vec![
            (Value::Text("foo".into()), Value::Text("bar".into())),
            (Value::Text("baz".into()), Value::Integer(1.into())),
        ]))
    );
}

#[test]
fn burn_metadata_needs_op_return_and_cbor() {
    assert_eq!(InscriptionHtml { output: Some(tx_out(1)), ..page(Vec::new()) }.burn_metadata(), None);
    assert_eq!(page(Vec::new()).burn_metadata(), None);
    let not_cbor = InscriptionHtml {
        output: Some(TxOut { value: 0, script_pubkey: burn_script(&[0xff, 0xff]) }),
        ..page(Vec::new())
    };
    assert_eq!(not_cbor.burn_metadata(), None);
}

#[test]
fn metadata_sections_display_opus_metadata_before_metadata() {
    let sections = InscriptionHtml::metadata_sections_from_values(
        Some(Value::Map(vec![(Value::Text("title".into()), Value::Text("opus".into()))])),
        Some(Value::Map(vec![(Value::Text("foo".into()), Value::Text("bar".into()))])),
    );

    assert_eq!(
        sections,
        vec![
            (
                "opus metadata",
                Value::Map(vec![(Value::Text("title".into()), Value::Text("opus".into()))]),
            ),
            (
                "metadata",
                Value::Map(vec![(Value::Text("foo".into()), Value::Text("bar".into()))]),
            ),
        ]
    );
}

#[test]
fn metadata_sections_skip_missing_values() {
    assert!(InscriptionHtml::metadata_sections_from_values(None, None).is_empty());
    let only = InscriptionHtml::metadata_sections_from_values(None, Some(Value::Bool(true)));
    assert_eq!(only, vec![("metadata", Value::Bool(true))]);
}

#[test]
fn inscription_metadata_is_decoded_from_cbor() {
    let with_metadata = Inscription { metadata: Some(vec![0xA1, 0x61, b'a', 0x02]), ..Inscription::default() };
    assert_eq!(
        with_metadata.metadata(),
        Some(Value::Map(vec![(Value::Text("a".into()), Value::Integer(2.into()))]))
    );
    let garbage = Inscription { metadata: Some(vec![0xff]), ..Inscription::default() };
    assert_eq!(garbage.metadata(), None);
}

#[test]
fn text_title_rules() {
    assert_eq!(text_title(&inscription("text/plain", "  hello \n")), Some("hello".into()));
    assert_eq!(text_title(&inscription("text/plain", "two\nlines")), None);
    assert_eq!(text_title(&inscription("text/plain", "   ")), None);
    assert_eq!(text_title(&inscription("text/html", "hello")), None);
    assert_eq!(text_title(&inscription("text/plain", &"x".repeat(64))), Some("x".repeat(64)));
    assert_eq!(text_title(&inscription("text/plain", &"x".repeat(65))), None);
    let encoded = Inscription { content_encoding: Some(b"br".to_vec()), ..inscription("text/plain", "hi") };
    assert_eq!(text_title(&encoded), None);
    let invalid = Inscription { body: Some(vec![0xff, 0xfe]), ..inscription("text/plain", "") };
    assert_eq!(text_title(&invalid), None);
}

#[test]
fn heading_and_title_escape() {
    let html = InscriptionHtml { inscription: inscription("text/plain", "<b>&</b>"), number: -7, ..page(Vec::new()) };
    assert!(html.body().starts_with("<h1>&lt;b&gt;&amp;&lt;/b&gt;</h1>\n"));
    assert_eq!(html.title(), "Inscription -7");
    assert_eq!(
        html.oembed_url(),
        Some(format!("/inscription/{}i1", "1".repeat(64)))
    );
}

#[test]
fn breadcrumb_layout_dedupes_and_collapses() {
    let html = page(vec![
        vec![crumb(2, "X"), crumb(3, "Y"), crumb(1, "Current")],
        vec![crumb(2, "X"), crumb(3, "Y again"), crumb(1, "Current")],
    ]);
    let layout = html.breadcrumb_layout();
    assert_eq!(layout.prefix.len(), 2);
    assert!(layout.middles.is_empty());
    assert_eq!(layout.suffix.len(), 1);
    assert_eq!(layout.suffix[0].title, "Current");

    let forked = page(vec![
        vec![crumb(2, "X"), crumb(3, "Y"), crumb(4, "Z"), crumb(1, "Current")],
        vec![crumb(2, "X"), crumb(4, "Z"), crumb(1, "Current")],
    ])
    .breadcrumb_layout();
    assert_eq!(forked.prefix.iter().map(|c| c.title.as_str()).collect::<Vec<_>>(), vec!["X"]);
    assert_eq!(forked.middles.len(), 2);
    assert_eq!(forked.middles[0].iter().map(|c| c.title.as_str()).collect::<Vec<_>>(), vec!["Y"]);
    assert!(forked.middles[1].is_empty());
    assert_eq!(
        forked.suffix.iter().map(|c| c.title.as_str()).collect::<Vec<_>>(),
        vec!["Z", "Current"]
    );

    assert!(page(Vec::new()).breadcrumb_layout().suffix.is_empty());
}

#[test]
fn sat_and_rune_names() {
    assert_eq!(Sat::new(0).unwrap().name(), "nvtdijuwxlp");
    assert_eq!(Sat::new(2099999997689999).unwrap().name(), "a");
    assert!(Sat::new(2099999997690000).is_none());
    assert_eq!(SpacedRune { rune: 0, spacers: 0 }.to_string(), "A");
    assert_eq!(SpacedRune { rune: 25, spacers: 0 }.to_string(), "Z");
    assert_eq!(SpacedRune { rune: 26, spacers: 0 }.to_string(), "AA");
    assert_eq!(SpacedRune { rune: 27, spacers: 0b1 }.to_string(), "A•B");
    assert_eq!(SpacedRune { rune: 26, spacers: 0b10 }.to_string(), "AA");
    assert_eq!(
        SpacedRune { rune: u128::MAX, spacers: 0 }.to_string(),
        "BCGDENLQRQWDSLRUGSNLBTMFIJAV"
    );
}

#[test]
fn invalid_content_encoding_is_not_shown() {
    let html = InscriptionHtml {
        inscription: Inscription {
            content_encoding: Some(vec![b'b', 0x0a]),
            ..inscription("text/plain;charset=utf-8", "HELLOWORLD")
        },
        ..page(Vec::new())
    };
    let body = html.body();
    assert!(!body.contains("content encoding"));
    assert!(body.starts_with("<h1>HELLOWORLD</h1>"));
}

#[test]
fn timestamp_is_shown_in_utc() {
    let body = InscriptionHtml { timestamp: 1_700_000_000, ..page(Vec::new()) }.body();
    assert!(body.contains("  <dt>timestamp</dt>\n  <dd><time>2023-11-14 22:13:20 UTC</time></dd>\n"));
}

#[test]
fn address_follows_the_chain() {
    let html = InscriptionHtml {
        chain: ord_render::page::Chain::Signet,
        output: Some(tx_out(7)),
        ..page(Vec::new())
    };
    let body = html.body();
    assert!(body.contains(
        "  <dt>address</dt>\n  <dd><a class=collapse href=/address/tb1qw508d6qejxtdg4y5r3zarvary0c5xw7kxpjzsx>tb1qw508d6qejxtdg4y5r3zarvary0c5xw7kxpjzsx</a></dd>\n  <dt>value</dt>\n  <dd>7</dd>\n"
    ));
    let burn = InscriptionHtml {
        output: Some(TxOut { value: 0, script_pubkey: burn_script(&[1, 2, 3]) }),
        ..page(Vec::new())
    };
    let body = burn.body();
    assert!(!body.contains("<dt>address</dt>"));
    assert!(body.contains("  <dt>value</dt>\n  <dd>0</dd>\n"));
}

#[test]
fn teleburn_address_is_checksummed_sha256_of_id() {
    let id = InscriptionId { txid: Txid(1, 2, 3, 4), index: 0x0102_0304 };
    let address = ord_render::teleburn::teleburn_address(&id);
    let mut preimage = Vec::new();
    for word in [4u64, 3, 2, 1] {
        preimage.extend_from_slice(&word.to_le_bytes());
    }
    preimage.extend_from_slice(&0x0102_0304u32.to_be_bytes());
    let digest = <bitcoin::hashes::sha256::Hash as bitcoin::hashes::Hash>::hash(&preimage);
    let bytes = <bitcoin::hashes::sha256::Hash as bitcoin::hashes::Hash>::to_byte_array(digest);
    let expected: String = bytes[..20].iter().map(|b| format!("{b:02x}")).collect();
    assert_eq!(address.len(), 42);
    assert_eq!(&address[..2], "0x");
    assert_eq!(address[2..].to_ascii_lowercase(), expected);
    assert!(address[2..].chars().any(|c| c.is_ascii_uppercase()) || !expected.chars().any(|c| c.is_ascii_alphabetic()));
}

#[test]
fn later_sats_have_shorter_names() {
    let first = Sat::new(0).unwrap().name();
    let middle = Sat::new(1_000_000_000_000_000).unwrap().name();
    let last = Sat::new(2099999997689999).unwrap().name();
    assert!(last.len() <= middle.len() && middle.len() <= first.len());
    assert_eq!(Sat::new(2099999997689999).unwrap().n(), 2099999997689999);
}

fn burn_of(script: Vec<u8>) -> Option<Value> {
    InscriptionHtml { output: Some(TxOut { value: 0, script_pubkey: script }), ..page(Vec::new()) }
        .burn_metadata()
}

#[test]
fn script_pushes_are_read_like_bitcoin_does() {
    let seven = Some(Value::Integer(7.into()));
    assert_eq!(burn_of(vec![0x6a, 0x01, 0x07]), seven);
    assert_eq!(burn_of(vec![0x6a, 0x4c, 0x01, 0x07, 0xff]), seven);
    assert_eq!(burn_of(vec![0x6a, 0x4d, 0x01, 0x00, 0x07]), seven);
    assert_eq!(burn_of(vec![0x6a, 0x4e, 0x01, 0, 0, 0, 0x07]), seven);
    assert_eq!(burn_of(vec![0x6a, 0x02, 0x07]), None);
    assert_eq!(burn_of(vec![0x6a, 0x4d, 0x01]), None);
    assert_eq!(burn_of(vec![0x6a, 0x57]), None);
    assert_eq!(burn_of(vec![0x6a]), None);
    assert_eq!(burn_of(vec![0x6a, 0x00]), None);
    let mut long = vec![0x6a, 0x4c, 199, 0x78, 197];
    long.extend(vec![b'a'; 197]);
    assert_eq!(burn_of(long), Some(Value::Text("a".repeat(197))));
}
