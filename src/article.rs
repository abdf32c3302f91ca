use vstd::prelude::*;

verus! {

/// One entry of a feed, as the parser produced it.
///
/// `date` is in seconds since the epoch, 0 when the feed gave none that
/// could be read. `link` may be empty when the feed omitted it.
#[derive(Debug)]
pub struct Article {
    pub title: String,
    pub summary: String,
    pub link: String,
    pub date: i64,
    pub publisher: String,
}

/// A configured feed source: where it is fetched from, and the name shown
/// beside each of its articles.
#[derive(Debug)]
pub struct Feed {
    pub url: String,
    pub name: String,
}

/// What an article holds, as mathematical values.
pub struct ArticleView {
    pub title: Seq<char>,
    pub summary: Seq<char>,
    pub link: Seq<char>,
    pub date: i64,
    pub publisher: Seq<char>,
}

/// What a feed source holds, as mathematical values.
pub struct FeedView {
    pub url: Seq<char>,
    pub name: Seq<char>,
}

impl View for Article {
    type V = ArticleView;

    open spec fn view(&self) -> ArticleView {
        ArticleView {
            title: self.title@,
            summary: self.summary@,
            link: self.link@,
            date: self.date,
            publisher: self.publisher@,
        }
    }
}

impl View for Feed {
    type V = FeedView;

    open spec fn view(&self) -> FeedView {
        FeedView { url: self.url@, name: self.name@ }
    }
}

/// An article paired with the source it came from: the unit of the
/// aggregated list.
pub open spec fn entry_view(e: (Feed, Article)) -> (FeedView, ArticleView) {
    (e.0@, e.1@)
}

/// The view of a list of aggregated articles.
pub open spec fn entries_view(s: Seq<(Feed, Article)>) -> Seq<(FeedView, ArticleView)> {
    s.map_values(|e: (Feed, Article)| entry_view(e))
}

impl Article {
    /// A field-by-field copy.
    pub fn duplicate(&self) -> (r: Article)
        ensures
            r == *self,
            r@ == self@,
    {
        Article {
            title: self.title.clone(),
            summary: self.summary.clone(),
            link: self.link.clone(),
            date: self.date,
            publisher: self.publisher.clone(),
        }
    }
}

impl Feed {
    /// A field-by-field copy.
    pub fn duplicate(&self) -> (r: Feed)
        ensures
            r == *self,
            r@ == self@,
    {
        Feed { url: self.url.clone(), name: self.name.clone() }
    }

    /// A source read from a configuration line: the name is left empty.
    pub fn from_url(url: String) -> (r: Feed)
        ensures
            r.url == url,
            r.name@ == Seq::<char>::empty(),
    {
        Feed { url, name: String::new() }
    }
}

} // verus!
