use vstd::prelude::*;
use crate::article::{Article, ArticleView};

verus! {

/// The fields of one RSS item that an article is built from.
pub struct RssEntry {
    pub title: Option<String>,
    pub content: Option<String>,
    pub link: Option<String>,
    pub pub_date: Option<String>,
    pub author: Option<String>,
}

/// The fields of one Atom entry that an article is built from.
/// `published` is already in seconds since the epoch.
pub struct AtomEntry {
    pub title: String,
    pub summary: Option<String>,
    pub links: Vec<String>,
    pub published: Option<i64>,
}

/// An Atom document: the feed's own title and its entries in order.
pub struct AtomDoc {
    pub title: String,
    pub entries: Vec<AtomEntry>,
}

/// The items of an RSS channel read from a text, in document order;
/// `None` where the text is not an RSS channel.
pub uninterp spec fn rss_entries_of(text: Seq<char>) -> Option<Seq<RssEntry>>;

/// The Atom document read from a text; `None` where the text is not one.
pub uninterp spec fn atom_doc_of(text: Seq<char>) -> Option<AtomDoc>;

/// The instant an RFC 2822 date denotes, in seconds since the epoch;
/// `None` where the text is not such a date.
pub uninterp spec fn rfc2822_seconds(date: Seq<char>) -> Option<i64>;

/// Relies on rss::Channel::read_from, Channel::into_items and the
/// accessors of rss::Item, which only hand out what the item holds.
#[verifier::external_body]
fn read_rss(text: &str) -> (r: Option<Vec<RssEntry>>)
    ensures
        match r {
            Some(v) => rss_entries_of(text@) == Some(v@),
            None => rss_entries_of(text@) is None,
        },
{
    let own = |s: Option<&str>| s.map(|t| t.to_string());
    rss::Channel::read_from(text.as_bytes()).ok().map(|c| c.into_items().iter().map(|i| RssEntry {
        title: own(i.title()),
        content: own(i.content()),
        link: own(i.link()),
        pub_date: own(i.pub_date()),
        author: own(i.author()),
    }).collect())
}

/// Relies on atom_syndication's `FromStr for Feed`, on the accessors of
/// Feed and Entry, and on chrono's DateTime::timestamp for `published`.
#[verifier::external_body]
fn read_atom(text: &str) -> (r: Option<AtomDoc>)
    ensures
        r == atom_doc_of(text@),
{
    text.parse::<atom_syndication::Feed>().ok().map(|f| AtomDoc {
        title: f.title().value.clone(),
        entries: f.entries().iter().map(|e| AtomEntry {
            title: e.title().value.clone(),
            summary: e.summary().map(|t| t.value.clone()),
            links: e.links().iter().map(|l| l.href.clone()).collect(),
            published: e.published().map(|d| d.timestamp()),
        }).collect(),
    })
}

/// Relies on chrono's DateTime::parse_from_rfc2822 and DateTime::timestamp.
#[verifier::external_body]
fn rfc2822_timestamp(date: &str) -> (r: Option<i64>)
    ensures
        r == rfc2822_seconds(date@),
{
    chrono::DateTime::parse_from_rfc2822(date).ok().map(|d| d.timestamp())
}

/// A text that may be absent, with absence read as the empty text.
pub open spec fn or_empty(s: Option<String>) -> Seq<char> {
    match s {
        Some(t) => t@,
        None => Seq::empty(),
    }
}

/// A timestamp that may be absent, with absence read as the epoch.
pub open spec fn or_epoch(t: Option<i64>) -> i64 {
    match t {
        Some(v) => v,
        None => 0,
    }
}

/// The timestamp of an RSS item: its date read as RFC 2822, or the epoch.
pub open spec fn rss_date(d: Option<String>) -> i64 {
    match d {
        Some(s) => or_epoch(rfc2822_seconds(s@)),
        None => 0,
    }
}

/// The article an RSS item gives: the item's own author is the publisher.
pub open spec fn rss_article(e: RssEntry) -> ArticleView {
    ArticleView {
        title: or_empty(e.title),
        summary: or_empty(e.content),
        link: or_empty(e.link),
        date: rss_date(e.pub_date),
        publisher: or_empty(e.author),
    }
}

/// The first of a list of links, or the empty text.
pub open spec fn first_link(links: Seq<String>) -> Seq<char> {
    if links.len() > 0 {
        links[0]@
    } else {
        Seq::empty()
    }
}

/// The article an Atom entry gives: the feed's title is the publisher.
pub open spec fn atom_article(e: AtomEntry, feed_title: Seq<char>) -> ArticleView {
    ArticleView {
        title: e.title@,
        summary: or_empty(e.summary),
        link: first_link(e.links@),
        date: or_epoch(e.published),
        publisher: feed_title,
    }
}

pub open spec fn rss_articles(es: Seq<RssEntry>) -> Seq<ArticleView> {
    es.map_values(|e: RssEntry| rss_article(e))
}

pub open spec fn atom_articles(d: AtomDoc) -> Seq<ArticleView> {
    d.entries@.map_values(|e: AtomEntry| atom_article(e, d.title@))
}

/// The articles a feed text gives: read as RSS first, then as Atom, and
/// none where it is neither.
pub open spec fn parsed_articles(text: Seq<char>) -> Seq<ArticleView> {
    match rss_entries_of(text) {
        Some(es) => rss_articles(es),
        None => match atom_doc_of(text) {
            Some(d) => atom_articles(d),
            None => Seq::empty(),
        },
    }
}

pub open spec fn articles_view(v: Seq<Article>) -> Seq<ArticleView> {
    v.map_values(|a: Article| a@)
}

fn text_or_empty(s: Option<String>) -> (r: String)
    ensures
        r@ == or_empty(s),
{
    match s {
        Some(t) => t,
        None => String::new(),
    }
}

/// The timestamp of an RFC 2822 date, or 0 where it cannot be read.
pub fn parse_rfc_2822_date(date: &str) -> (r: i64)
    ensures
        r == or_epoch(rfc2822_seconds(date@)),
{
    match rfc2822_timestamp(date) {
        Some(t) => t,
        None => 0,
    }
}

impl Article {
    /// The article an RSS item gives.
    pub fn from_rss_item(e: RssEntry) -> (r: Article)
        ensures
            r@ == rss_article(e),
    {
        let date = match &e.pub_date {
            Some(d) => parse_rfc_2822_date(d.as_str()),
            None => 0,
        };
        let RssEntry { title, content, link, pub_date: _, author } = e;
        Article {
            title: text_or_empty(title),
            summary: text_or_empty(content),
            link: text_or_empty(link),
            date,
            publisher: text_or_empty(author),
        }
    }

    /// The article an Atom entry gives, published under the feed's title.
    pub fn from_atom_item(e: AtomEntry, feed_title: &String) -> (r: Article)
        ensures
            r@ == atom_article(e, feed_title@),
    {
        let link = if e.links.len() > 0 {
            e.links[0].clone()
        } else {
            String::new()
        };
        let date = match e.published {
            Some(t) => t,
            None => 0,
        };
        let AtomEntry { title, summary, links: _, published: _ } = e;
        Article {
            title,
            summary: text_or_empty(summary),
            link,
            date,
            publisher: feed_title.clone(),
        }
    }
}

/// The articles of a list of RSS items, in the same order.
pub fn articles_from_rss(entries: Vec<RssEntry>) -> (r: Vec<Article>)
    ensures
        articles_view(r@) == rss_articles(entries@),
{
    let ghost all = entries@;
    let mut rest = entries;
    let mut out: Vec<Article> = Vec::new();
    while rest.len() > 0
        invariant
            out@.len() + rest@.len() == all.len(),
            rest@ == all.subrange(out@.len() as int, all.len() as int),
            articles_view(out@) == rss_articles(all.subrange(0, out@.len() as int)),
        decreases rest@.len(),
    {
        let e = rest.remove(0);
        let ghost k = out@.len() as int;
        let ghost prev = out@;
        assert(e == all[k]);
        out.push(Article::from_rss_item(e));
        assert(all.subrange(0, k + 1) =~= all.subrange(0, k).push(all[k]));
        assert(articles_view(out@) =~= articles_view(prev).push(rss_article(all[k])));
        assert(articles_view(out@) =~= rss_articles(all.subrange(0, k + 1)));
    }
    assert(all.subrange(0, all.len() as int) =~= all);
    out
}

/// The articles of an Atom document, each published under its title.
pub fn articles_from_atom(doc: AtomDoc) -> (r: Vec<Article>)
    ensures
        articles_view(r@) == atom_articles(doc),
{
    let ghost all = doc.entries@;
    let ghost d = doc;
    let AtomDoc { title, entries } = doc;
    let mut rest = entries;
    let mut out: Vec<Article> = Vec::new();
    while rest.len() > 0
        invariant
            out@.len() + rest@.len() == all.len(),
            rest@ == all.subrange(out@.len() as int, all.len() as int),
            title@ == d.title@,
            all == d.entries@,
            articles_view(out@) == all.subrange(0, out@.len() as int).map_values(
                |e: AtomEntry| atom_article(e, d.title@),
            ),
        decreases rest@.len(),
    {
        let e = rest.remove(0);
        let ghost k = out@.len() as int;
        let ghost prev = out@;
        assert(e == all[k]);
        out.push(Article::from_atom_item(e, &title));
        assert(all.subrange(0, k + 1) =~= all.subrange(0, k).push(all[k]));
        assert(articles_view(out@) =~= articles_view(prev).push(atom_article(all[k], d.title@)));
        assert(articles_view(out@) =~= all.subrange(0, k + 1).map_values(
            |e: AtomEntry| atom_article(e, d.title@),
        ));
    }
    assert(all.subrange(0, all.len() as int) =~= all);
    out
}

/// Reads a text as an RSS channel; `None` where it is not one.
pub fn parse_rss_feed(content: &str) -> (r: Option<Vec<Article>>)
    ensures
        match rss_entries_of(content@) {
            Some(es) => r is Some && articles_view(r->0@) == rss_articles(es),
            None => r is None,
        },
{
    match read_rss(content) {
        Some(entries) => Some(articles_from_rss(entries)),
        None => None,
    }
}

/// Reads a text as an Atom feed; `None` where it is not one.
pub fn parse_atom_feed(content: &str) -> (r: Option<Vec<Article>>)
    ensures
        match atom_doc_of(content@) {
            Some(d) => r is Some && articles_view(r->0@) == atom_articles(d),
            None => r is None,
        },
{
    match read_atom(content) {
        Some(doc) => Some(articles_from_atom(doc)),
        None => None,
    }
}

/// Reads a feed text of either format: RSS is tried first, then Atom;
/// a text that is neither gives no article.
pub fn parse_feed(content: &str) -> (r: Vec<Article>)
    ensures
        articles_view(r@) == parsed_articles(content@),
{
    match parse_rss_feed(content) {
        Some(v) => v,
        None => match parse_atom_feed(content) {
            Some(v) => v,
            None => {
                let v: Vec<Article> = Vec::new();
                assert(articles_view(v@) =~= Seq::<ArticleView>::empty());
                v
            },
        },
    }
}

} // verus!
