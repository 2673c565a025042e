//! The page frame around every server page: head, navigation, and the
//! content's own markup.
use std::sync::Arc;
use vstd::prelude::*;
use crate::text::{escape, push_escaped};

verus! {

/// The Bitcoin network the server runs on.
#[derive(Debug, Clone, Copy, PartialEq, Eq, Structural)]
pub enum Chain {
    Mainnet,
    Regtest,
    Signet,
    Testnet,
    Testnet4,
}

impl Chain {
    /// The lowercase name of the chain.
    pub open spec fn name(self) -> Seq<char> {
        match self {
            Chain::Mainnet => "mainnet"@,
            Chain::Regtest => "regtest"@,
            Chain::Signet => "signet"@,
            Chain::Testnet => "testnet"@,
            Chain::Testnet4 => "testnet4"@,
        }
    }

    /// The lowercase name of the chain.
    pub fn to_string(&self) -> (s: String)
        ensures
            s@ == self.name(),
    {
        let name: &str = match self {
            Chain::Mainnet => "mainnet",
            Chain::Regtest => "regtest",
            Chain::Signet => "signet",
            Chain::Testnet => "testnet",
            Chain::Testnet4 => "testnet4",
        };
        String::from_str(name)
    }
}

impl Default for Chain {
    fn default() -> (c: Chain)
        ensures
            c == Chain::Mainnet,
    {
        Chain::Mainnet
    }
}

/// What the page frame reads of the server's configuration.
#[derive(Debug)]
pub struct ServerConfig {
    pub chain: Chain,
    /// The origin that the content-security policy names, if any.
    pub csp_origin: Option<String>,
    /// The server's domain, if known.
    pub domain: Option<String>,
    /// Whether the index tracks sats.
    pub index_sats: bool,
}

impl Default for ServerConfig {
    fn default() -> (c: ServerConfig)
        ensures
            c.chain == Chain::Mainnet,
            c.csp_origin is None,
            c.domain is None,
            !c.index_sats,
    {
        ServerConfig { chain: Chain::Mainnet, csp_origin: None, domain: None, index_sats: false }
    }
}

/// The origin pages are served from: the content-security-policy origin if
/// set, else `https://` and the domain if set, else `https://ordinals.com`.
pub open spec fn page_origin_text(config: ServerConfig) -> Seq<char> {
    match config.csp_origin {
        Some(origin) => origin@,
        None => match config.domain {
            Some(domain) => "https://"@ + domain@,
            None => "https://ordinals.com"@,
        },
    }
}

/// The image shown in link previews: the favicon at the page origin.
pub open spec fn og_image_text(config: ServerConfig) -> Seq<char> {
    page_origin_text(config) + "/static/favicon.png"@
}

/// The oEmbed discovery link of a page whose oEmbed path is `url` and
/// whose title is `title`; nothing when the page has no oEmbed path.
pub open spec fn oembed_link_text(config: ServerConfig, url: Option<Seq<char>>, title: Seq<char>) -> Seq<char> {
    match url {
        None => Seq::empty(),
        Some(path) => "<link rel=alternate type='application/json+oembed' href='/oembed?url="@
            + page_origin_text(config) + path + "' title='"@ + title + "'>"@,
    }
}

/// The oEmbed discovery link of a page with an oEmbed path gives the
/// absolute URL of that path: the content-security-policy origin, else
/// `https://` and the domain, else `https://ordinals.com`, followed by the
/// path. It is the same origin as that of the link-preview image.
pub proof fn lemma_oembed_url_is_absolute(config: ServerConfig, path: Seq<char>, title: Seq<char>)
    ensures
        ({
            let origin = match config.csp_origin {
                Some(o) => o@,
                None => match config.domain {
                    Some(d) => "https://"@ + d@,
                    None => "https://ordinals.com"@,
                },
            };
            &&& oembed_link_text(config, Some(path), title)
                == "<link rel=alternate type='application/json+oembed' href='/oembed?url="@ + origin + path
                + "' title='"@ + title + "'>"@
            &&& og_image_text(config) == origin + "/static/favicon.png"@
        }),
{
}

/// The name shown on the home link: `Ordinals` on mainnet, else
/// `Ordinals.Gallery`.
pub open spec fn home_text_of(chain: Chain) -> Seq<char> {
    if chain == Chain::Mainnet {
        "Ordinals"@
    } else {
        "Ordinals.Gallery"@
    }
}

/// The superscript of the home link: `Gallery` on mainnet, else the
/// chain's name.
pub open spec fn superscript_of(chain: Chain) -> Seq<char> {
    if chain == Chain::Mainnet {
        "Gallery"@
    } else {
        chain.name()
    }
}

/// Content that is shown inside the page frame.
pub trait PageContent: Sized {
    /// The page title.
    spec fn title_text(&self) -> Seq<char>;

    /// The path of the page's oEmbed document, if it has one.
    spec fn oembed_text(&self) -> Option<Seq<char>>;

    /// The content's markup.
    spec fn body_text(&self) -> Seq<char>;

    /// The page title.
    fn title(&self) -> (t: String)
        ensures
            t@ == self.title_text(),
    ;

    /// The path of the page's oEmbed document, if it has one.
    fn oembed_url(&self) -> (u: Option<String>)
        ensures
            match u {
                Some(p) => self.oembed_text() == Some(p@),
                None => self.oembed_text() is None,
            },
    ;

    /// The content's markup.
    fn body(&self) -> (b: String)
        ensures
            b@ == self.body_text(),
    ;

    /// The content inside the page frame, with the server's configuration.
    fn page(self, config: Arc<ServerConfig>) -> (p: PageHtml<Self>)
        ensures
            p.content() == self,
            p.config() == *config,
    {
        PageHtml::new(self, config)
    }
}

/// Content given as finished markup: a title and a body, without an oEmbed
/// document.
pub struct StaticContent {
    pub title: String,
    pub body: String,
}

impl PageContent for StaticContent {
    open spec fn title_text(&self) -> Seq<char> {
        self.title@
    }

    open spec fn oembed_text(&self) -> Option<Seq<char>> {
        None
    }

    open spec fn body_text(&self) -> Seq<char> {
        self.body@
    }

    fn title(&self) -> (t: String) {
        self.title.clone()
    }

    fn oembed_url(&self) -> (u: Option<String>) {
        None
    }

    fn body(&self) -> (b: String) {
        self.body.clone()
    }
}

/// A whole page: content inside the frame.
pub struct PageHtml<T> {
    content: T,
    config: Arc<ServerConfig>,
}

/// The markup of a whole page.
pub open spec fn page_text(
    config: ServerConfig,
    title: Seq<char>,
    oembed: Option<Seq<char>>,
    body: Seq<char>,
) -> Seq<char> {
    "<!doctype html>\n<html lang=en>\n  <head>\n    <meta charset=utf-8>\n    <meta name=format-detection content='telephone=no'>\n    <meta name=viewport content='width=device-width,initial-scale=1.0'>\n    <meta property=og:title content='"@
        + escape(title)
        + "'>\n    <meta property=og:image content='"@
        + escape(og_image_text(config))
        + "'>\n    <meta property=twitter:card content=summary>\n    <title>"@
        + escape(title)
        + "</title>\n    <link rel=alternate href=/feed.xml type=application/rss+xml title='Inscription Feed'>\n    "@
        + oembed_link_text(config, oembed, title)
        + "\n    <link rel=icon href=/static/favicon.png>\n    <link rel=icon href=/static/favicon.svg>\n    <script src=/static/theme-init.js></script>\n    <link rel=stylesheet href=/static/index.css>\n    <link rel=stylesheet href=/static/modern-normalize.css>\n    <script src=/static/marketplaces.js></script>\n    <script src=/static/index.js></script>\n    <script src=/static/inscription-embed.js defer></script>\n  </head>\n  <body>\n  <header>\n    <nav>\n      <a href=/ title=home>"@
        + home_text_of(config.chain)
        + "<sup>"@
        + escape(superscript_of(config.chain))
        + "</sup></a>\n      <a href=/inscriptions title=inscriptions>Inscriptions</a>\n      <a href=/clock title=clock><img class=icon src=/static/clock.svg></a>\n"@
        + (if config.index_sats {
            "      <a href=/rare.txt title=rare><img class=icon src=/static/diamond.svg></a>\n"@
        } else {
            Seq::empty()
        })
        + "      <a href=https://docs.ordinals.com/ title=handbook><img class=icon src=/static/book-open.svg></a>\n      <form action=/search method=get>\n        <input type=text autocapitalize=off autocomplete=off autocorrect=off name=query spellcheck=false>\n        <input class=icon type=image src=/static/magnifying-glass.svg alt=Search>\n      </form>\n    </nav>\n  </header>\n  <main>\n"@
        + body
        + "\n  </main>\n  </body>\n</html>\n"@
}

impl<T> PageHtml<T> {
    /// The content shown in the frame.
    pub closed spec fn content(&self) -> T {
        self.content
    }

    /// The server configuration the frame reads.
    pub closed spec fn config(&self) -> ServerConfig {
        *self.config
    }

    /// Puts `content` into the frame with the server's configuration.
    pub fn new(content: T, config: Arc<ServerConfig>) -> (p: Self)
        ensures
            p.content() == content,
            p.config() == *config,
    {
        PageHtml { content, config }
    }
}

impl<T: PageContent> PageHtml<T> {
    /// The origin pages are served from.
    pub fn page_origin(&self) -> (r: String)
        ensures
            r@ == page_origin_text(self.config()),
    {
        match &self.config.csp_origin {
            Some(origin) => origin.clone(),
            None => match &self.config.domain {
                Some(domain) => {
                    let mut r = String::from_str("https://");
                    r.append(domain.as_str());
                    r
                },
                None => String::from_str("https://ordinals.com"),
            },
        }
    }

    /// The image shown in link previews.
    pub fn og_image(&self) -> (r: String)
        ensures
            r@ == og_image_text(self.config()),
    {
        let mut r = self.page_origin();
        r.append("/static/favicon.png");
        r
    }

    /// The oEmbed discovery link, or nothing when the content has no
    /// oEmbed document.
    pub fn oembed_link(&self) -> (r: String)
        ensures
            r@ == oembed_link_text(self.config(), self.content().oembed_text(), self.content().title_text()),
    {
        let path = match self.content.oembed_url() {
            Some(path) => path,
            None => {
                return String::new();
            },
        };
        let mut r = String::from_str("<link rel=alternate type='application/json+oembed' href='/oembed?url=");
        r.append(self.page_origin().as_str());
        r.append(path.as_str());
        r.append("' title='");
        r.append(self.content.title().as_str());
        r.append("'>");
        r
    }

    /// The name shown on the home link.
    pub fn home_text(&self) -> (r: &'static str)
        ensures
            r@ == home_text_of(self.config().chain),
    {
        if self.config.chain == Chain::Mainnet {
            "Ordinals"
        } else {
            "Ordinals.Gallery"
        }
    }

    /// The superscript of the home link.
    pub fn superscript(&self) -> (r: String)
        ensures
            r@ == superscript_of(self.config().chain),
    {
        if self.config.chain == Chain::Mainnet {
            String::from_str("Gallery")
        } else {
            self.config.chain.to_string()
        }
    }

    /// The markup of the whole page.
    pub fn to_string(&self) -> (r: String)
        ensures
            r@ == page_text(
                self.config(),
                self.content().title_text(),
                self.content().oembed_text(),
                self.content().body_text(),
            ),
    {
        let title = self.content.title();
        let mut r = String::from_str(
            "<!doctype html>\n<html lang=en>\n  <head>\n    <meta charset=utf-8>\n    <meta name=format-detection content='telephone=no'>\n    <meta name=viewport content='width=device-width,initial-scale=1.0'>\n    <meta property=og:title content='",
        );
        push_escaped(&mut r, title.as_str());
        r.append("'>\n    <meta property=og:image content='");
        push_escaped(&mut r, self.og_image().as_str());
        r.append("'>\n    <meta property=twitter:card content=summary>\n    <title>");
        push_escaped(&mut r, title.as_str());
        r.append(
            "</title>\n    <link rel=alternate href=/feed.xml type=application/rss+xml title='Inscription Feed'>\n    ",
        );
        r.append(self.oembed_link().as_str());
        r.append(
            "\n    <link rel=icon href=/static/favicon.png>\n    <link rel=icon href=/static/favicon.svg>\n    <script src=/static/theme-init.js></script>\n    <link rel=stylesheet href=/static/index.css>\n    <link rel=stylesheet href=/static/modern-normalize.css>\n    <script src=/static/marketplaces.js></script>\n    <script src=/static/index.js></script>\n    <script src=/static/inscription-embed.js defer></script>\n  </head>\n  <body>\n  <header>\n    <nav>\n      <a href=/ title=home>",
        );
        r.append(self.home_text());
        r.append("<sup>");
        push_escaped(&mut r, self.superscript().as_str());
        r.append(
            "</sup></a>\n      <a href=/inscriptions title=inscriptions>Inscriptions</a>\n      <a href=/clock title=clock><img class=icon src=/static/clock.svg></a>\n",
        );
        if self.config.index_sats {
            r.append("      <a href=/rare.txt title=rare><img class=icon src=/static/diamond.svg></a>\n");
        }
        r.append(
            "      <a href=https://docs.ordinals.com/ title=handbook><img class=icon src=/static/book-open.svg></a>\n      <form action=/search method=get>\n        <input type=text autocapitalize=off autocomplete=off autocorrect=off name=query spellcheck=false>\n        <input class=icon type=image src=/static/magnifying-glass.svg alt=Search>\n      </form>\n    </nav>\n  </header>\n  <main>\n",
        );
        r.append(self.content.body().as_str());
        r.append("\n  </main>\n  </body>\n</html>\n");
        r
    }
}

} // verus!
