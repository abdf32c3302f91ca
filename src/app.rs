use vstd::prelude::*;
use crate::aggregator::{aggregate, fetched_view, refreshed};
use crate::article::{Article, Feed, entries_view};
use crate::detail::{cleaned, find_line_with_substring, is_first_line_containing, lines};

verus! {

/// The size of the terminal, as the last frame found it.
#[derive(Debug)]
pub struct AppArea {
    pub width: usize,
    pub height: usize,
}

/// The article on show, its rendered text, and how far it is scrolled.
#[derive(Debug)]
pub struct AppDetail {
    pub article: (Feed, Article),
    pub content: String,
    pub scroll_index: usize,
}

/// The view mode: browsing the list, reading one article, or typing the
/// number of an article to jump to.
#[derive(Debug)]
pub enum AppState {
    Normal,
    Detail(AppDetail),
    Jump(usize),
}

/// The application state.
#[derive(Debug)]
pub struct App {
    pub running: bool,
    pub articles: Vec<(Feed, Article)>,
    pub selected_article_index: usize,
    pub area: AppArea,
    pub last_update_timestamp: i64,
    pub mode: AppState,
    /// A refresh was asked for and its result has not come back yet.
    pub refreshing: bool,
}

/// The text shown in place of an article that could not be fetched or
/// rendered.
pub open spec fn failure_text() -> Seq<char> {
    seq!['C', 'o', 'u', 'l', 'd', ' ', 'n', 'o', 't', ' ', 'd', 'o', 'w', 'n', 'l', 'o', 'a', 'd',
        ' ', 'a', 'r', 't', 'i', 'c', 'l', 'e']
}

/// Rows scrolled by one page: four fifths of the rows inside the frame
/// (the height less 3), rounded down; none where there is no such row.
pub open spec fn page_rows(height: int) -> int {
    if height >= 3 {
        (4 * (height - 3)) / 5
    } else {
        0
    }
}

/// The width an article is rendered to: the terminal's less a margin of 3.
pub open spec fn render_width(width: int) -> int {
    if width >= 3 {
        width - 3
    } else {
        0
    }
}

impl AppArea {
    /// Rows scrolled by one page.
    pub fn page_step(&self) -> (r: usize)
        ensures
            r == page_rows(self.height as int),
    {
        if self.height < 3 {
            return 0;
        }
        let x = self.height - 3;
        let r = x / 5 * 4 + x % 5 * 4 / 5;
        assert(r == (4 * x) / 5) by (nonlinear_arith)
            requires
                r == x / 5 * 4 + x % 5 * 4 / 5,
        ;
        r
    }

    /// The width an article is rendered to.
    pub fn text_width(&self) -> (r: usize)
        ensures
            r == render_width(self.width as int),
    {
        if self.width >= 3 {
            self.width - 3
        } else {
            0
        }
    }
}

impl Default for App {
    fn default() -> (r: Self)
        ensures
            r.running,
            r.articles@.len() == 0,
            r.selected_article_index == 0,
            r.area.width == 0 && r.area.height == 0,
            r.last_update_timestamp == 0,
            r.mode is Normal,
            !r.refreshing,
    {
        App {
            running: true,
            articles: Vec::new(),
            selected_article_index: 0,
            mode: AppState::Normal,
            area: AppArea { width: 0, height: 0 },
            last_update_timestamp: 0,
            refreshing: false,
        }
    }
}

impl App {
    /// The selection lies in the list, and is 0 when the list is empty.
    pub open spec fn wf(&self) -> bool {
        if self.articles@.len() == 0 {
            self.selected_article_index == 0
        } else {
            self.selected_article_index < self.articles@.len()
        }
    }

    /// A running application, browsing an empty list.
    pub fn new() -> (r: Self)
        ensures
            r.wf(),
            r.running,
            r.articles@.len() == 0,
            r.selected_article_index == 0,
            r.area.width == 0 && r.area.height == 0,
            r.last_update_timestamp == 0,
            r.mode is Normal,
            !r.refreshing,
    {
        Self::default()
    }

    /// The periodic tick of the event loop: nothing is refreshed on a
    /// timer, so the state stays as it is.
    pub fn tick(&mut self)
        ensures
            *final(self) == *old(self),
    {
    }

    /// Set running to false to quit the application.
    pub fn quit(&mut self)
        ensures
            *final(self) == (App { running: false, ..*old(self) }),
    {
        self.running = false;
    }

    /// Asks for a refresh: browsing from the top of the list. Returns
    /// false, and changes nothing, while an earlier refresh is pending.
    pub fn begin_refresh(&mut self) -> (r: bool)
        requires
            old(self).wf(),
        ensures
            final(self).wf(),
            r == !old(self).refreshing,
            r ==> *final(self) == (App {
                selected_article_index: 0,
                mode: AppState::Normal,
                refreshing: true,
                ..*old(self)
            }),
            !r ==> *final(self) == *old(self),
    {
        if self.refreshing {
            return false;
        }
        self.selected_article_index = 0;
        self.mode = AppState::Normal;
        self.refreshing = true;
        true
    }

    /// Takes the sources that were fetched: the list is replaced by their
    /// articles, most recent first, the selection goes back to the top and
    /// the pending refresh is over. `now` is when it ended.
    pub fn apply_refresh(&mut self, fetched: Vec<(Feed, String)>, now: i64)
        requires
            old(self).wf(),
        ensures
            final(self).wf(),
            entries_view(final(self).articles@) == refreshed(fetched_view(fetched@)),
            final(self).selected_article_index == 0,
            !final(self).refreshing,
            final(self).last_update_timestamp == now,
            final(self).running == old(self).running,
            final(self).mode == old(self).mode,
            final(self).area == old(self).area,
    {
        self.articles = aggregate(fetched);
        self.selected_article_index = 0;
        self.refreshing = false;
        self.last_update_timestamp = now;
    }

    /// Opens the selected article, given its text as rendered, or `None`
    /// where it could not be fetched or rendered: the placeholder text is
    /// shown then. The view opens at the first line that holds the title.
    pub fn show_detail(&mut self, rendered: Option<String>)
        requires
            old(self).wf(),
            old(self).articles@.len() > 0,
        ensures
            final(self).wf(),
            final(self).articles == old(self).articles,
            final(self).selected_article_index == old(self).selected_article_index,
            final(self).running == old(self).running,
            final(self).refreshing == old(self).refreshing,
            final(self).area == old(self).area,
            final(self).last_update_timestamp == old(self).last_update_timestamp,
            final(self).mode matches AppState::Detail(d) && {
                &&& d.article == old(self).articles@[old(self).selected_article_index as int]
                &&& d.content@ == match rendered {
                    Some(t) => t@,
                    None => failure_text(),
                }
                &&& is_first_line_containing(
                    lines(d.content@).map_values(|l: Seq<char>| cleaned(l)),
                    cleaned(d.article.1.title@),
                    d.scroll_index as int,
                )
            },
    {
        let i = self.selected_article_index;
        let article = (self.articles[i].0.duplicate(), self.articles[i].1.duplicate());
        let content = match rendered {
            Some(t) => t,
            None => {
                let t = String::from_str("Could not download article");
                proof {
                    reveal_strlit("Could not download article");
                }
                assert(t@ =~= failure_text());
                t
            },
        };
        let scroll_index = find_line_with_substring(content.as_str(), article.1.title.as_str());
        self.mode = AppState::Detail(AppDetail { article, content, scroll_index });
    }
}

} // verus!
