use ord_render::ids::{InscriptionId, Txid};
use ord_render::inscriptions::{InscriptionsHtml, Sort};
use ord_render::item::{Attributes, Item, ItemHtml, Trait, Traits};
use ord_render::page::PageContent;
use regex::Regex;
use unindent::Unindent;

fn assert_regex_match(value: &str, pattern: &str) {
    let re = Regex::new(&format!("^(?s){}$", pattern)).unwrap();
    assert!(re.is_match(value), "{value:?} does not match {pattern:?}");
}

fn inscription_id(n: u32) -> InscriptionId {
    let word = u64::from(n) * 0x1111_1111_1111_1111;
    InscriptionId { txid: Txid(word, word, word, word), index: n }
}

#[test]
fn inscriptions_without_prev_and_next() {
    assert_regex_match(
        &InscriptionsHtml {
            inscriptions: vec![(inscription_id(1), None), (inscription_id(2), None)],
            prev: None,
            next: None,
            sort: Sort::Newest,
            cursed: false,
        }
        .body(),
        &"
        .*<h1>All Inscriptions</h1>.*
        <div class=thumbnails>
          <a href=/inscription/1{64}i1><iframe .* src=/preview/1{64}i1\\?thumb=1></iframe></a>
          <a href=/inscription/2{64}i2><iframe .* src=/preview/2{64}i2\\?thumb=1></iframe></a>
        </div>
        .*
        prev
        next
        .*
      "
        .unindent(),
    );
}

#[test]
fn inscriptions_with_prev_and_next() {
    assert_regex_match(
        &InscriptionsHtml {
            inscriptions: vec![(inscription_id(1), None), (inscription_id(2), None)],
            prev: Some(1),
            next: Some(2),
            sort: Sort::Newest,
            cursed: false,
        }
        .body(),
        &"
        .*<a class=prev href=/inscriptions/1>prev</a>
        <a class=next href=/inscriptions/2>next</a>.*
      "
        .unindent(),
    );
}

#[test]
fn oldest_sort_preserved_in_pagination_links() {
    assert_regex_match(
        &InscriptionsHtml {
            inscriptions: vec![(inscription_id(1), None)],
            prev: Some(0),
            next: Some(2),
            sort: Sort::Oldest,
            cursed: false,
        }
        .body(),
        &"
        .*<a class=prev href=/inscriptions/0\\?sort=oldest>prev</a>
        <a class=next href=/inscriptions/2\\?sort=oldest>next</a>.*
      "
        .unindent(),
    );
}

#[test]
fn query_string_covers_every_filter() {
    let mut page = InscriptionsHtml {
        inscriptions: Vec::new(),
        prev: None,
        next: None,
        sort: Sort::default(),
        cursed: false,
    };
    assert_eq!(page.query_string(), "");
    assert_eq!(page.cursed_checked(), "");
    assert_eq!(page.selected_if(Sort::Newest), " selected");
    assert_eq!(page.selected_if(Sort::Oldest), "");
    page.cursed = true;
    assert_eq!(page.query_string(), "?cursed=1");
    assert_eq!(page.cursed_checked(), " checked");
    page.sort = Sort::Oldest;
    assert_eq!(page.query_string(), "?sort=oldest&cursed=1");
    page.cursed = false;
    assert_eq!(page.query_string(), "?sort=oldest");
    assert_eq!(Sort::Oldest.to_string(), "oldest");
    assert_eq!(page.title(), "Inscriptions");
}

fn item_page(title: Option<&str>, traits: Vec<Trait>, i: usize, total: usize) -> ItemHtml {
    ItemHtml {
        gallery_id: inscription_id(2),
        gallery_number: 1,
        gallery_title: Some("Bar".into()),
        i,
        total,
        item: Item {
            id: Some(inscription_id(1)),
            attributes: Attributes { title: title.map(String::from), traits: Traits { items: traits } },
            index: None,
        },
    }
}

#[test]
fn body() {
    assert_regex_match(
        &item_page(Some("foo"), Vec::new(), 2, 5).body(),
        &"
        <h1>foo</h1>
        <div class=subtitle-row>
          <p class=subtitle><a href=/inscription/2{64}i2>\\s*Bar\\s*</a> / Item 2</p>
          <div class=title-links data-ord-path=/inscription/1{64}i1></div>
        </div>
        <div class=\"inscription gallery-item-nav\">
        <a class=prev href=/gallery/2{64}i2/1>❮</a>
        <iframe .* src=/preview/1{64}i1></iframe>
        <a class=next href=/gallery/2{64}i2/3>❯</a>
        </div>
        <dl>
          <dt>inscription</dt>
          <dd><a class=collapse href=/inscription/1{64}i1>1{64}i1</a></dd>
          <dt>gallery</dt>
          <dd><a class=collapse href=/inscription/2{64}i2>2{64}i2</a></dd>
          <dt>title</dt>
        <dd>foo</dd>

        </dl>
      "
        .unindent(),
    );
}

#[test]
fn body_without_item_title() {
    assert_regex_match(
        &ItemHtml {
            gallery_id: inscription_id(2),
            gallery_number: 1,
            gallery_title: Some("Bar".into()),
            i: 2,
            total: 5,
            item: Item {
                id: Some(inscription_id(1)),
                attributes: Attributes::default(),
                index: None,
            },
        }
        .body(),
        &"
        <h1>Gallery 1 Item 2</h1>
        <div class=subtitle-row>
          <div class=title-links data-ord-path=/inscription/1{64}i1></div>
        </div>
        .*
      "
        .unindent(),
    );
}

#[test]
fn title() {
    assert_eq!(item_page(Some("foo"), Vec::new(), 2, 5).title(), "Bar / foo");
}

#[test]
fn item_edges_and_traits() {
    let first = item_page(
        None,
        vec![Trait { name: "eyes".into(), value: "<laser>".into() }],
        0,
        1,
    );
    assert_eq!(first.title(), "Bar / Item 0");
    let body = first.body();
    assert!(body.contains("<div>❮</div>\n"));
    assert!(body.contains("<div>❯</div>\n"));
    assert!(body.contains("  <dt>eyes</dt>\n  <dd>&lt;laser&gt;</dd>\n"));
    let untitled_gallery = ItemHtml { gallery_title: None, ..item_page(None, Vec::new(), 1, 3) };
    assert_eq!(untitled_gallery.title(), "Gallery 1 / Item 1");
}
