use ord_render::gallery::GalleryHtml;
use ord_render::ids::{InscriptionId, Txid};
use ord_render::page::PageContent;
use regex::Regex;
use unindent::Unindent;

fn assert_regex_match(value: &str, pattern: &str) {
    let re = Regex::new(&format!("^(?s){}$", pattern)).unwrap();
    assert!(re.is_match(value), "{value:?} does not match {pattern:?}");
}

fn inscription_id(n: u32) -> InscriptionId {
    let word = u64::from(n) * 0x1111_1111_1111_1111;
    InscriptionId { txid: Txid(word, word, word, word), index: n }
}

#[test]
fn gallery_without_prev_and_next() {
    assert_regex_match(
        &GalleryHtml {
            id: inscription_id(1),
            number: 0,
            title: None,
            items: vec![(0, inscription_id(2), None), (1, inscription_id(3), None)],
            prev_page: None,
            next_page: None,
        }
        .body(),
        &"
        <h1><a href=/inscription/1{64}i1>Inscription 0</a> / Gallery</h1>
        <div class=thumbnails>
          <a href=/gallery/1{64}i1/0><iframe .* src=/preview/2{64}i2\\?thumb=1></iframe></a>
          <a href=/gallery/1{64}i1/1><iframe .* src=/preview/3{64}i3\\?thumb=1></iframe></a>
        </div>
        .*
        prev
        next
        .*
      "
        .unindent(),
    );
}

#[test]
fn gallery_with_prev_and_next() {
    assert_regex_match(
        &GalleryHtml {
            id: inscription_id(1),
            number: 0,
            title: None,
            items: vec![(0, inscription_id(2), None), (1, inscription_id(3), None)],
            next_page: Some(3),
            prev_page: Some(1),
        }
        .body(),
        &"
        <h1><a href=/inscription/1{64}i1>Inscription 0</a> / Gallery</h1>
        <div class=thumbnails>
          <a href=/gallery/1{64}i1/0><iframe .* src=/preview/2{64}i2\\?thumb=1></iframe></a>
          <a href=/gallery/1{64}i1/1><iframe .* src=/preview/3{64}i3\\?thumb=1></iframe></a>
        </div>
        .*
          <a class=prev href=/gallery/1{64}i1/page/1>prev</a>
          <a class=next href=/gallery/1{64}i1/page/3>next</a>
        .*
      "
        .unindent(),
    );
}

#[test]
fn gallery_with_title() {
    assert_regex_match(
        &GalleryHtml {
            id: inscription_id(1),
            number: 0,
            title: Some("Bitcoin Shrooms".into()),
            items: vec![(0, inscription_id(2), None)],
            prev_page: None,
            next_page: None,
        }
        .body(),
        &"
        <h1><a href=/inscription/1{64}i1>Bitcoin Shrooms</a> / Gallery</h1>
        .*
      "
        .unindent(),
    );
}

#[test]
fn gallery_titles() {
    let untitled = GalleryHtml {
        id: inscription_id(1),
        number: -3,
        title: None,
        items: Vec::new(),
        prev_page: None,
        next_page: None,
    };
    assert_eq!(untitled.title(), "Inscription -3 Gallery");
    assert_eq!(untitled.oembed_url(), None);
    let titled = GalleryHtml { title: Some("<Shrooms>".into()), ..untitled };
    assert_eq!(titled.title(), "<Shrooms> Gallery");
    assert!(titled.body().starts_with(
        "<h1><a href=/inscription/1111111111111111111111111111111111111111111111111111111111111111i1>&lt;Shrooms&gt;</a> / Gallery</h1>\n"
    ));
}
