use ord_render::iframe::Iframe;
use ord_render::ids::{InscriptionId, Txid};
use ord_render::media::{ImageRendering, Media};
use regex::Regex;

fn assert_regex_match(value: &str, pattern: &str) {
    let re = Regex::new(&format!("^(?s){}$", pattern)).unwrap();
    assert!(re.is_match(value), "{value:?} does not match {pattern:?}");
}

fn inscription_id(n: u32) -> InscriptionId {
    let word = u64::from(n) * 0x1111_1111_1111_1111;
    InscriptionId { txid: Txid(word, word, word, word), index: n }
}

#[test]
fn gallery_item() {
    assert_regex_match(
        &Iframe::item(inscription_id(1), 2, inscription_id(3), None).to_string(),
        "<a href=/gallery/1{64}i1/2><iframe sandbox=allow-scripts scrolling=no loading=lazy src=/preview/3{64}i3\\?thumb=1></iframe></a>",
    );
}

#[test]
fn main() {
    assert_regex_match(
        &Iframe::main(inscription_id(1)).to_string(),
        "<iframe sandbox=allow-scripts loading=lazy src=/preview/1{64}i1></iframe>",
    );
}

#[test]
fn thumbnail() {
    assert_regex_match(
        &Iframe::thumbnail(inscription_id(1), None).to_string(),
        "<a href=/inscription/1{64}i1><iframe sandbox=allow-scripts scrolling=no loading=lazy src=/preview/1{64}i1\\?thumb=1></iframe></a>",
    );
}

#[test]
fn thumbnail_image_renders_img() {
    assert_regex_match(
        &Iframe::thumbnail(inscription_id(1), Some(Media::Image(ImageRendering::Pixelated))).to_string(),
        "<a href=/inscription/1{64}i1><img loading=lazy decoding=async class=rendering-pixelated src=/content/1{64}i1></a>",
    );
}

#[test]
fn thumbnail_html_renders_scriptless_iframe() {
    assert_regex_match(
        &Iframe::thumbnail(inscription_id(1), Some(Media::Iframe)).to_string(),
        "<a href=/inscription/1{64}i1><iframe data-scriptable sandbox scrolling=no loading=lazy src=/preview/1{64}i1\\?thumb=1></iframe></a>",
    );
}

#[test]
fn item_image_renders_img() {
    assert_regex_match(
        &Iframe::item(inscription_id(1), 2, inscription_id(3), Some(Media::Image(ImageRendering::Auto)))
            .to_string(),
        "<a href=/gallery/1{64}i1/2><img loading=lazy decoding=async class=rendering-auto src=/content/3{64}i3></a>",
    );
}

#[test]
fn inscription_id_text() {
    let id = InscriptionId { txid: Txid(0x0123456789abcdef, 0, 0, 0xfe), index: 42 };
    assert_eq!(
        id.to_string(),
        format!("0123456789abcdef{}{}00000000000000fei42", "0".repeat(16), "0".repeat(16))
    );
}
