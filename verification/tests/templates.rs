use std::sync::Arc;

use ord_render::coming_soon::ComingSoonHtml;
use ord_render::page::{Chain, PageContent, PageHtml, ServerConfig, StaticContent};
use regex::Regex;

fn assert_regex_match(value: &str, pattern: &str) {
    let re = Regex::new(&format!("^(?s){}$", pattern)).unwrap();
    assert!(re.is_match(value), "{value:?} does not match {pattern:?}");
}

fn foo() -> StaticContent {
    StaticContent { title: "Foo".into(), body: "<h1>Foo</h1>".into() }
}

fn render_page(config: ServerConfig) -> String {
    foo().page(Arc::new(config)).to_string()
}

#[test]
fn page() {
    assert_regex_match(
        &render_page(ServerConfig {
            chain: Chain::Mainnet,
            csp_origin: Some("https://signet.ordinals.com".into()),
            domain: Some("signet.ordinals.com".into()),
            index_sats: true,
        }),
        r"<!doctype html>
<html lang=en>
  <head>
    <meta charset=utf-8>
    <meta name=format-detection content='telephone=no'>
    <meta name=viewport content='width=device-width,initial-scale=1.0'>
    <meta property=og:title content='Foo'>
    <meta property=og:image content='https://signet.ordinals.com/static/favicon.png'>
    <meta property=twitter:card content=summary>
    <title>Foo</title>
    <link rel=alternate href=/feed.xml type=application/rss\+xml title='Inscription Feed'>
\s*
    <link rel=icon href=/static/favicon.png>
    <link rel=icon href=/static/favicon.svg>
    <script src=/static/theme-init.js></script>
    <link rel=stylesheet href=/static/index.css>
    <link rel=stylesheet href=/static/modern-normalize.css>
    <script src=/static/marketplaces.js></script>
    <script src=/static/index.js></script>
    <script src=/static/inscription-embed.js defer></script>
  </head>
  <body>
  <header>
    <nav>
      <a href=/ title=home>Ordinals<sup>Gallery</sup></a>
      .*
      <a href=/clock title=clock>.*</a>
      <a href=/rare.txt title=rare>.*</a>
      .*
      <form action=/search method=get>
        <input type=text .*>
        <input class=icon type=image .*>
      </form>
    </nav>
  </header>
  <main>
<h1>Foo</h1>
  </main>
  </body>
</html>
",
    );
}

#[test]
fn page_mainnet() {
    assert_regex_match(
        &render_page(ServerConfig {
            chain: Chain::Mainnet,
            csp_origin: None,
            domain: None,
            index_sats: true,
        }),
        r".*<nav>\s*<a href=/ title=home>Ordinals<sup>Gallery</sup></a>.*",
    );
}

#[test]
fn page_no_sat_index() {
    assert_regex_match(
        &render_page(ServerConfig {
            chain: Chain::Mainnet,
            csp_origin: None,
            domain: None,
            index_sats: false,
        }),
        r".*<nav>\s*<a href=/ title=home>Ordinals<sup>Gallery</sup></a>.*<a href=/clock title=clock>.*</a>.*<form action=/search.*",
    );
}

#[test]
fn page_signet() {
    assert_regex_match(
        &render_page(ServerConfig {
            chain: Chain::Signet,
            csp_origin: None,
            domain: None,
            index_sats: true,
        }),
        r".*<nav>\s*<a href=/ title=home>Ordinals\.Gallery<sup>signet</sup></a>.*",
    );
}

#[test]
fn og_image_prefers_csp_origin_over_domain() {
    assert_regex_match(
        &render_page(ServerConfig {
            chain: Chain::Mainnet,
            csp_origin: Some("https://ordinals.gallery".into()),
            domain: Some("some-laptop.local".into()),
            ..Default::default()
        }),
        r".*<meta property=og:image content='https://ordinals\.gallery/static/favicon\.png'>.*",
    );
}

#[test]
fn og_image_falls_back_to_ordinals_com() {
    assert_regex_match(
        &render_page(ServerConfig {
            chain: Chain::Mainnet,
            csp_origin: None,
            domain: None,
            ..Default::default()
        }),
        r".*<meta property=og:image content='https://ordinals\.com/static/favicon\.png'>.*",
    );
}

#[test]
fn coming_soon() {
    assert_regex_match(&ComingSoonHtml {}.body(), "<h1>Coming Soon\\.</h1>\n");
}

#[test]
fn page_origin_prefers_domain_over_default() {
    let page = PageHtml::new(
        foo(),
        Arc::new(ServerConfig {
            domain: Some("example.com".into()),
            ..Default::default()
        }),
    );
    assert_eq!(page.page_origin(), "https://example.com");
    assert_eq!(page.og_image(), "https://example.com/static/favicon.png");
    assert_eq!(page.oembed_link(), "");
    assert_eq!(page.home_text(), "Ordinals");
    assert_eq!(page.superscript(), "Gallery");
}

#[test]
fn titles_are_escaped_in_the_head() {
    let content = StaticContent { title: "a<b & 'c'".into(), body: String::new() };
    let html = content.page(Arc::new(ServerConfig::default())).to_string();
    assert!(html.contains("<title>a&lt;b &amp; &#39;c&#39;</title>"));
    assert!(html.contains("<meta property=og:title content='a&lt;b &amp; &#39;c&#39;'>"));
}

#[test]
fn testnet_superscript_names_the_chain() {
    let page = PageHtml::new(
        foo(),
        Arc::new(ServerConfig {
            chain: Chain::Testnet4,
            ..Default::default()
        }),
    );
    assert_eq!(page.home_text(), "Ordinals.Gallery");
    assert_eq!(page.superscript(), "testnet4");
}
