//! The index: the list of recent digests, with the optional subscription
//! form, banner and footer links.

use crate::config::{text_of, SiteConfig, SiteModel};
use crate::date::{date_label, format_date};
use crate::markup::{
    ANCHOR_CLOSE, ANCHOR_OPEN, ENTRY_BREAK, ENTRY_CLOSE, ENTRY_LABEL_OPEN, ENTRY_OPEN, INDEX_CLOSE, INDEX_LIST_OPEN, INDEX_STYLE, INDEX_TAGLINE, META_ANCHOR_LABEL_OPEN, META_CLOSE, META_OPEN, META_SEPARATOR, PAGE_OPEN, SLOT_BREAK, SOURCE_LABEL, STATS_LINK, STYLESHEET_CLOSE, STYLESHEET_OPEN, SUBSCRIBE_FORM, SUCCESS_BANNER, TITLE_CLOSE,
};
use crate::text::{join, joined, strip_leading, strip_leading_of, texts};
use vstd::prelude::*;
use vstd::string::*;

verus! {

/// Scheme that is left out of the label of the homepage link.
pub const SECURE_SCHEME: &'static str = "https://";

/// Scheme that is left out of the label of the homepage link.
pub const PLAIN_SCHEME: &'static str = "http://";

/// The link to a stylesheet, if one is configured.
pub open spec fn stylesheet_link(css_url: Option<Seq<char>>) -> Seq<char> {
    match css_url {
        Some(url) => STYLESHEET_OPEN@ + url + STYLESHEET_CLOSE@,
        None => Seq::empty(),
    }
}

/// The label of the homepage link: the address without its scheme.
pub open spec fn homepage_label(url: Seq<char>) -> Seq<char> {
    strip_leading(strip_leading(url, SECURE_SCHEME@), PLAIN_SCHEME@)
}

/// A footer link to `url` that reads `label`.
pub open spec fn anchor(url: Seq<char>, label: Seq<char>) -> Seq<char> {
    ANCHOR_OPEN@ + url + META_ANCHOR_LABEL_OPEN@ + label + ANCHOR_CLOSE@
}

/// The footer links that are there: homepage and source if configured, the
/// statistics always.
pub open spec fn footer_links(homepage: Option<Seq<char>>, source: Option<Seq<char>>) -> Seq<
    Seq<char>,
> {
    let first = match homepage {
        Some(url) => seq![anchor(url, homepage_label(url))],
        None => Seq::empty(),
    };
    let second = match source {
        Some(url) => seq![anchor(url, SOURCE_LABEL@)],
        None => Seq::empty(),
    };
    first + second + seq![STATS_LINK@]
}

/// The line of footer links.
pub open spec fn meta_links(homepage: Option<Seq<char>>, source: Option<Seq<char>>) -> Seq<char> {
    META_OPEN@ + joined(footer_links(homepage, source), META_SEPARATOR@) + META_CLOSE@
}

/// The banner, where the request asks for it.
pub open spec fn banner(subscribed: bool) -> Seq<char> {
    if subscribed {
        SUCCESS_BANNER@
    } else {
        Seq::empty()
    }
}

/// The subscription form, where subscriptions are enabled.
pub open spec fn subscribe_form(enabled: bool) -> Seq<char> {
    if enabled {
        SUBSCRIBE_FORM@
    } else {
        Seq::empty()
    }
}

/// The list entry of a digest: a link to its path that reads its label.
pub open spec fn entry(date: Seq<char>) -> Seq<char> {
    ENTRY_OPEN@ + date + ENTRY_LABEL_OPEN@ + date_label(date) + ENTRY_CLOSE@
}

/// The list entries of the digests, in their order.
pub open spec fn entries(dates: Seq<Seq<char>>) -> Seq<char> {
    joined(dates.map_values(|d: Seq<char>| entry(d)), ENTRY_BREAK@)
}

/// The index page of a site: its name, the footer links, the banner where
/// the request asks for it, the form where subscriptions are enabled, and
/// the list of the digests.
pub open spec fn index_page(site: SiteModel, subscribed: bool, dates: Seq<Seq<char>>) -> Seq<char> {
    PAGE_OPEN@ + site.digest_name + TITLE_CLOSE@ + stylesheet_link(site.css_url) + INDEX_STYLE@
        + site.digest_name + INDEX_TAGLINE@ + meta_links(site.homepage_url, site.source_url)
        + SLOT_BREAK@ + banner(subscribed) + SLOT_BREAK@ + subscribe_form(site.subscriptions())
        + INDEX_LIST_OPEN@ + entries(dates) + INDEX_CLOSE@
}

/// The link to a stylesheet, if one is configured.
pub fn render_stylesheet_link(css_url: &Option<String>) -> (r: String)
    ensures
        r@ == stylesheet_link(text_of(*css_url)),
{
    match css_url {
        Some(url) => {
            let mut r = STYLESHEET_OPEN.to_owned();
            r.append(url.as_str());
            r.append(STYLESHEET_CLOSE);
            r
        },
        None => String::new(),
    }
}

/// A footer link to `url` that reads `label`.
fn render_anchor(url: &str, label: &str) -> (r: String)
    ensures
        r@ == anchor(url@, label@),
{
    let mut r = ANCHOR_OPEN.to_owned();
    r.append(url);
    r.append(META_ANCHOR_LABEL_OPEN);
    r.append(label);
    r.append(ANCHOR_CLOSE);
    r
}

/// The line of footer links.
fn render_meta_links(homepage: &Option<String>, source: &Option<String>) -> (r: String)
    ensures
        r@ == meta_links(text_of(*homepage), text_of(*source)),
{
    let ghost want = footer_links(text_of(*homepage), text_of(*source));
    let mut links: Vec<String> = Vec::new();
    match homepage {
        Some(url) => {
            let label = strip_leading_of(
                strip_leading_of(url.as_str(), SECURE_SCHEME),
                PLAIN_SCHEME,
            );
            links.push(render_anchor(url.as_str(), label));
        },
        None => {},
    }
    match source {
        Some(url) => {
            links.push(render_anchor(url.as_str(), SOURCE_LABEL));
        },
        None => {},
    }
    links.push(STATS_LINK.to_owned());
    assert(texts(links@) =~= want);
    let mut r = META_OPEN.to_owned();
    r.append(join(&links, META_SEPARATOR).as_str());
    r.append(META_CLOSE);
    r
}

/// The list entries of the digests, in their order.
fn render_entries(dates: &Vec<String>) -> (r: String)
    ensures
        r@ == entries(texts(dates@)),
{
    let ghost want = texts(dates@).map_values(|d: Seq<char>| entry(d));
    let mut items: Vec<String> = Vec::new();
    let mut i: usize = 0;
    while i < dates.len()
        invariant
            i <= dates.len(),
            want == texts(dates@).map_values(|d: Seq<char>| entry(d)),
            items.len() == i,
            want.len() == dates.len(),
            texts(items@) == want.take(i as int),
        decreases dates.len() - i,
    {
        let date = dates[i].as_str();
        let mut item = ENTRY_OPEN.to_owned();
        item.append(date);
        item.append(ENTRY_LABEL_OPEN);
        item.append(format_date(date).as_str());
        item.append(ENTRY_CLOSE);
        let ghost before = texts(items@);
        items.push(item);
        assert forall|k: int| 0 <= k < i + 1 implies #[trigger] texts(items@)[k] == want[k] by {
            if k < i {
                assert(texts(items@)[k] == before[k]);
            }
        }
        i += 1;
    }
    assert(want.take(i as int) =~= want);
    join(&items, ENTRY_BREAK)
}

/// The index page: the digests of `dates` in their order, each under its
/// label; the subscription form if subscriptions are enabled; the banner if
/// `subscribed` is set; the footer links that are configured.
pub fn render_index(config: &SiteConfig, subscribed: bool, dates: &Vec<String>) -> (page: String)
    ensures
        page@ == index_page(config@, subscribed, texts(dates@)),
{
    let name = config.digest_name.as_str();
    let mut page = PAGE_OPEN.to_owned();
    page.append(name);
    page.append(TITLE_CLOSE);
    page.append(render_stylesheet_link(&config.css_url).as_str());
    page.append(INDEX_STYLE);
    page.append(name);
    page.append(INDEX_TAGLINE);
    page.append(render_meta_links(&config.homepage_url, &config.source_url).as_str());
    page.append(SLOT_BREAK);
    if subscribed {
        page.append(SUCCESS_BANNER);
    }
    assert(page@ =~= PAGE_OPEN@ + name@ + TITLE_CLOSE@ + stylesheet_link(text_of(config.css_url))
        + INDEX_STYLE@ + name@ + INDEX_TAGLINE@ + meta_links(
        text_of(config.homepage_url),
        text_of(config.source_url),
    ) + SLOT_BREAK@ + banner(subscribed));
    page.append(SLOT_BREAK);
    if config.subscriptions_enabled() {
        page.append(SUBSCRIBE_FORM);
    }
    page.append(INDEX_LIST_OPEN);
    page.append(render_entries(dates).as_str());
    page.append(INDEX_CLOSE);
    page
}

/// What `insert` put into `page` at the position `at` gives.
pub open spec fn inserted(page: Seq<char>, at: int, insert: Seq<char>) -> Seq<char> {
    page.subrange(0, at) + insert + page.subrange(at, page.len() as int)
}

/// The banner follows the flag of the request: the page with the flag is
/// the page without it with the banner put in at one place, and nothing else
/// differs.
pub proof fn lemma_banner_follows_flag(site: SiteModel, dates: Seq<Seq<char>>) -> (at: int)
    ensures
        0 <= at <= index_page(site, false, dates).len(),
        index_page(site, true, dates) == inserted(
            index_page(site, false, dates),
            at,
            SUCCESS_BANNER@,
        ),
{
    let before = PAGE_OPEN@ + site.digest_name + TITLE_CLOSE@ + stylesheet_link(site.css_url)
        + INDEX_STYLE@ + site.digest_name + INDEX_TAGLINE@ + meta_links(
        site.homepage_url,
        site.source_url,
    ) + SLOT_BREAK@;
    let after = SLOT_BREAK@ + subscribe_form(site.subscriptions()) + INDEX_LIST_OPEN@ + entries(
        dates,
    ) + INDEX_CLOSE@;
    assert(index_page(site, true, dates) =~= before + SUCCESS_BANNER@ + after);
    assert(index_page(site, false, dates) =~= before + after);
    before.len() as int
}

} // verus!
