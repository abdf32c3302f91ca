use newsterm::aggregator::{aggregate, insert_by_date, sort_by_date_desc, tag_articles};
use newsterm::app::App;
use newsterm::article::{Article, Feed};
use newsterm::feedloader::{parse_atom_feed, parse_feed, parse_rfc_2822_date, parse_rss_feed};

fn feed(name: &str) -> Feed {
    Feed { url: format!("http://{}.example/rss", name), name: name.to_string() }
}

fn article(title: &str, date: i64) -> Article {
    Article {
        title: title.to_string(),
        summary: String::new(),
        link: String::new(),
        date,
        publisher: String::new(),
    }
}

fn rss_item(title: &str, date: &str) -> String {
    format!(
        "<item><title>{}</title><link>http://example.com/{}</link><pubDate>{}</pubDate><author>ed@example.com</author></item>",
        title, title, date
    )
}

fn rss(items: &[String]) -> String {
    format!(
        "<?xml version=\"1.0\"?><rss version=\"2.0\"><channel><title>T</title><link>http://example.com</link><description>D</description>{}</channel></rss>",
        items.concat()
    )
}

const T100: &str = "Thu, 01 Jan 1970 00:01:40 +0000";
const T200: &str = "Thu, 01 Jan 1970 00:03:20 +0000";
const T300: &str = "Thu, 01 Jan 1970 00:05:00 +0000";

const ATOM: &str = "<?xml version=\"1.0\" encoding=\"utf-8\"?>\
<feed xmlns=\"http://www.w3.org/2005/Atom\"><title>Atom Site</title><id>urn:site</id>\
<updated>2020-01-01T00:00:00Z</updated>\
<entry><title>First</title><id>urn:1</id><updated>2020-01-01T00:00:00Z</updated>\
<published>1970-01-01T00:05:00Z</published><link href=\"http://a.example/1\"/>\
<link href=\"http://a.example/other\"/><summary>Sum one</summary></entry>\
<entry><title>Second</title><id>urn:2</id><updated>2020-01-01T00:00:00Z</updated></entry>\
</feed>";

#[test]
fn rfc_2822_dates_are_read() {
    assert_eq!(parse_rfc_2822_date(T100), 100);
    assert_eq!(parse_rfc_2822_date("Tue, 1 Jul 2003 10:52:37 +0200"), 1057049557);
    assert_eq!(parse_rfc_2822_date("not a date"), 0);
    assert_eq!(parse_rfc_2822_date(""), 0);
}

#[test]
fn rss_items_become_articles() {
    let text = "<?xml version=\"1.0\"?><rss version=\"2.0\" xmlns:content=\"http://purl.org/rss/1.0/modules/content/\"><channel><title>T</title><link>http://x</link><description>D</description>\
<item><title>Hello</title><link>http://x/1</link><pubDate>Thu, 01 Jan 1970 00:01:40 +0000</pubDate><author>joe@x</author><content:encoded>Body</content:encoded></item>\
<item><description>only a description</description></item></channel></rss>";
    let v = parse_rss_feed(text).expect("an rss channel");
    assert_eq!(v.len(), 2);
    assert_eq!(v[0].title, "Hello");
    assert_eq!(v[0].link, "http://x/1");
    assert_eq!(v[0].date, 100);
    assert_eq!(v[0].publisher, "joe@x");
    assert_eq!(v[0].summary, "Body");
    assert_eq!(v[1].title, "");
    assert_eq!(v[1].link, "");
    assert_eq!(v[1].date, 0);
    assert_eq!(v[1].publisher, "");
    assert_eq!(v[1].summary, "");
}

#[test]
fn malformed_text_is_no_rss_channel() {
    assert!(parse_rss_feed("<<< not xml").is_none());
    assert!(parse_rss_feed(ATOM).is_none());
}

#[test]
fn atom_entries_take_the_feed_title_as_publisher() {
    let v = parse_atom_feed(ATOM).expect("an atom feed");
    assert_eq!(v.len(), 2);
    assert_eq!(v[0].title, "First");
    assert_eq!(v[0].summary, "Sum one");
    assert_eq!(v[0].link, "http://a.example/1");
    assert_eq!(v[0].date, 300);
    assert_eq!(v[0].publisher, "Atom Site");
    assert_eq!(v[1].title, "Second");
    assert_eq!(v[1].link, "");
    assert_eq!(v[1].date, 0);
    assert_eq!(v[1].publisher, "Atom Site");
}

#[test]
fn malformed_text_is_no_atom_feed() {
    assert!(parse_atom_feed("<<< not xml").is_none());
}

#[test]
fn parse_feed_tries_rss_then_atom() {
    let r = parse_feed(&rss(&[rss_item("a", T100)]));
    assert_eq!(r.len(), 1);
    assert_eq!(r[0].title, "a");
    let a = parse_feed(ATOM);
    assert_eq!(a.len(), 2);
    assert_eq!(a[0].publisher, "Atom Site");
    assert!(parse_feed("garbage").is_empty());
}

#[test]
fn tagging_pairs_each_article_with_its_source() {
    let v = tag_articles(&feed("A"), vec![article("x", 1), article("y", 2)]);
    assert_eq!(v.len(), 2);
    assert_eq!(v[0].0.name, "A");
    assert_eq!(v[1].0.name, "A");
    assert_eq!(v[0].1.title, "x");
    assert_eq!(v[1].1.title, "y");
}

#[test]
fn insertion_goes_after_equal_dates() {
    let mut list = vec![(feed("A"), article("a", 5)), (feed("A"), article("b", 3))];
    insert_by_date(&mut list, (feed("B"), article("c", 3)));
    insert_by_date(&mut list, (feed("B"), article("d", 9)));
    let titles: Vec<&str> = list.iter().map(|e| e.1.title.as_str()).collect();
    assert_eq!(titles, vec!["d", "a", "b", "c"]);
}

#[test]
fn sort_is_descending_and_stable() {
    let items = vec![
        (feed("A"), article("a", 1)),
        (feed("A"), article("b", 7)),
        (feed("B"), article("c", 1)),
        (feed("B"), article("d", 7)),
        (feed("B"), article("e", 4)),
    ];
    let titles: Vec<String> = sort_by_date_desc(items).into_iter().map(|e| e.1.title).collect();
    assert_eq!(titles, vec!["b", "d", "e", "a", "c"]);
}

#[test]
fn refresh_orders_sources_by_date() {
    let fetched = vec![
        (feed("FeedA"), rss(&[rss_item("a100", T100), rss_item("a300", T300)])),
        (feed("FeedB"), rss(&[rss_item("b200", T200)])),
    ];
    let r = aggregate(fetched);
    let dates: Vec<i64> = r.iter().map(|e| e.1.date).collect();
    assert_eq!(dates, vec![300, 200, 100]);
    let names: Vec<&str> = r.iter().map(|e| e.0.name.as_str()).collect();
    assert_eq!(names, vec!["FeedA", "FeedB", "FeedA"]);
}

#[test]
fn refresh_adjacent_dates_never_increase() {
    let fetched = vec![
        (feed("A"), rss(&[rss_item("1", T200), rss_item("2", "bad date"), rss_item("3", T300)])),
        (feed("B"), ATOM.to_string()),
        (feed("C"), rss(&[rss_item("4", T100), rss_item("5", T300)])),
    ];
    let r = aggregate(fetched);
    assert_eq!(r.len(), 7);
    for w in r.windows(2) {
        assert!(w[0].1.date >= w[1].1.date);
    }
}

#[test]
fn malformed_source_does_not_touch_others() {
    let good_a = rss(&[rss_item("a1", T100), rss_item("a2", T300)]);
    let good_c = rss(&[rss_item("c1", T200)]);
    let with_good = aggregate(vec![
        (feed("A"), good_a.clone()),
        (feed("B"), rss(&[rss_item("b1", T200)])),
        (feed("C"), good_c.clone()),
    ]);
    let with_bad = aggregate(vec![
        (feed("A"), good_a),
        (feed("B"), "<rss><channel><item>".to_string()),
        (feed("C"), good_c),
    ]);
    assert_eq!(with_good.len(), 4);
    assert_eq!(with_bad.len(), 3);
    let others = |v: &Vec<(Feed, Article)>| -> Vec<String> {
        v.iter().filter(|e| e.0.name != "B").map(|e| e.1.title.clone()).collect()
    };
    assert_eq!(others(&with_good), others(&with_bad));
}

#[test]
fn refresh_of_no_source_is_empty() {
    assert!(aggregate(Vec::new()).is_empty());
}

#[test]
fn applying_a_refresh_replaces_the_list() {
    let mut app = App::new();
    assert!(app.begin_refresh());
    assert!(!app.begin_refresh());
    app.apply_refresh(vec![(feed("A"), rss(&[rss_item("x", T100), rss_item("y", T200)]))], 42);
    assert_eq!(app.articles.len(), 2);
    assert_eq!(app.articles[0].1.title, "y");
    assert_eq!(app.selected_article_index, 0);
    assert_eq!(app.last_update_timestamp, 42);
    assert!(!app.refreshing);
    assert!(app.begin_refresh());
}

#[test]
fn copies_keep_every_field() {
    let a = Article {
        title: "t".to_string(),
        summary: "s".to_string(),
        link: "l".to_string(),
        date: 7,
        publisher: "p".to_string(),
    };
    let b = a.duplicate();
    assert_eq!((b.title, b.summary, b.link, b.date, b.publisher), ("t".to_string(), "s".to_string(), "l".to_string(), 7, "p".to_string()));
    let f = feed("Z").duplicate();
    assert_eq!(f.name, "Z");
    assert_eq!(f.url, "http://Z.example/rss");
    let g = Feed::from_url("http://q".to_string());
    assert_eq!(g.url, "http://q");
    assert_eq!(g.name, "");
}
