use vstd::prelude::*;
use crate::app::{App, AppDetail, AppState, page_rows, render_width};
use crate::detail::{line_count, lines};

verus! {

/// The key of a key press, as far as the reader tells keys apart.
#[derive(Debug, Clone, Copy, PartialEq, Eq, Structural)]
pub enum KeyCode {
    Char(char),
    Enter,
    Backspace,
    Other,
}

/// A key press: the key, and whether Control alone was held with it.
#[derive(Debug, Clone, Copy, PartialEq, Eq, Structural)]
pub struct KeyPress {
    pub code: KeyCode,
    pub control: bool,
}

/// What a key press asks for.
#[derive(Debug, Clone, Copy, PartialEq, Eq, Structural)]
pub enum Event {
    /// `q`: back to the list, or out of the application from the list.
    Quit,
    /// `Ctrl+C`: out of the application from anywhere.
    ForceQuit,
    /// `j`
    Down,
    /// `k`
    Up,
    /// `Ctrl+D`
    PageDown,
    /// `Ctrl+U`
    PageUp,
    /// `o`
    Open,
    /// `r`
    Refresh,
    /// `Enter`
    Confirm,
    /// `0` to `9`
    Digit(u8),
    /// `Backspace`
    Erase,
    /// Any other key.
    Ignored,
}

/// What the caller has to do after a key press, outside the state.
#[derive(Debug)]
pub enum Action {
    Nothing,
    /// Fetch all sources, then hand them to `App::apply_refresh`.
    Refresh,
    /// Open this link in the browser.
    OpenLink(String),
    /// Fetch this link, render it to this width, then hand the text to
    /// `App::show_detail`.
    LoadDetail(String, usize),
}

/// The event a key press stands for.
pub open spec fn event_spec(k: KeyPress) -> Event {
    match k.code {
        KeyCode::Char(c) => {
            if c == 'q' {
                Event::Quit
            } else if c == 'c' || c == 'C' {
                if k.control { Event::ForceQuit } else { Event::Ignored }
            } else if c == 'd' {
                if k.control { Event::PageDown } else { Event::Ignored }
            } else if c == 'u' {
                if k.control { Event::PageUp } else { Event::Ignored }
            } else if c == 'j' {
                Event::Down
            } else if c == 'k' {
                Event::Up
            } else if c == 'o' {
                Event::Open
            } else if c == 'r' {
                Event::Refresh
            } else if '0' <= c && c <= '9' {
                Event::Digit((c as u32 - '0' as u32) as u8)
            } else {
                Event::Ignored
            }
        },
        KeyCode::Enter => Event::Confirm,
        KeyCode::Backspace => Event::Erase,
        KeyCode::Other => Event::Ignored,
    }
}

/// The selection one row further down, kept on the list.
pub open spec fn index_below(sel: int, len: int) -> int {
    if len == 0 {
        0
    } else if sel + 1 < len - 1 {
        sel + 1
    } else {
        len - 1
    }
}

/// A typed number of an article, kept on the list.
pub open spec fn clamp_index(n: int, len: int) -> int {
    if len == 0 {
        0
    } else if n < len - 1 {
        n
    } else {
        len - 1
    }
}

/// A typed number with one more digit at its end, held at the largest
/// `usize` where it would pass it.
pub open spec fn append_digit(n: int, d: int) -> int {
    if n * 10 + d <= usize::MAX {
        n * 10 + d
    } else {
        usize::MAX as int
    }
}

/// The detail view after an event: only the scrolling events move it.
pub open spec fn scrolled(d: AppDetail, e: Event, height: int) -> AppDetail {
    match e {
        Event::Down => AppDetail {
            scroll_index: if d.scroll_index < usize::MAX { (d.scroll_index + 1) as usize } else { d.scroll_index },
            ..d
        },
        Event::Up => AppDetail {
            scroll_index: if d.scroll_index > 0 { (d.scroll_index - 1) as usize } else { 0 },
            ..d
        },
        Event::PageDown => AppDetail {
            scroll_index: if d.scroll_index + page_rows(height) < lines(d.content@).len() {
                (d.scroll_index + page_rows(height)) as usize
            } else {
                lines(d.content@).len() as usize
            },
            ..d
        },
        Event::PageUp => AppDetail {
            scroll_index: if d.scroll_index >= page_rows(height) {
                (d.scroll_index - page_rows(height)) as usize
            } else {
                0
            },
            ..d
        },
        _ => d,
    }
}

/// The state after an event.
pub open spec fn next_state(a: App, e: Event) -> App {
    let len = a.articles@.len() as int;
    match e {
        Event::ForceQuit => App { running: false, ..a },
        Event::Quit => match a.mode {
            AppState::Normal => App { running: false, ..a },
            _ => App { mode: AppState::Normal, ..a },
        },
        _ => match a.mode {
            AppState::Normal => match e {
                Event::Down => App {
                    selected_article_index: index_below(a.selected_article_index as int, len) as usize,
                    ..a
                },
                Event::Up => App {
                    selected_article_index: if a.selected_article_index > 0 {
                        (a.selected_article_index - 1) as usize
                    } else {
                        0
                    },
                    ..a
                },
                Event::Refresh => if a.refreshing {
                    a
                } else {
                    App { selected_article_index: 0, mode: AppState::Normal, refreshing: true, ..a }
                },
                Event::Digit(d) => App { mode: AppState::Jump(d as usize), ..a },
                _ => a,
            },
            AppState::Detail(d) => App {
                mode: AppState::Detail(scrolled(d, e, a.area.height as int)),
                ..a
            },
            AppState::Jump(n) => match e {
                Event::Confirm => App {
                    selected_article_index: clamp_index(n as int, len) as usize,
                    mode: AppState::Normal,
                    ..a
                },
                Event::Digit(d) => App {
                    mode: AppState::Jump(append_digit(n as int, d as int) as usize),
                    ..a
                },
                Event::Erase => App { mode: AppState::Jump(n / 10), ..a },
                _ => a,
            },
        },
    }
}

/// What the caller has to do after an event: only browsing a non-empty
/// list opens an article, and only a link that is not empty goes to the
/// browser.
pub open spec fn action_spec(a: App, e: Event) -> Action {
    let len = a.articles@.len();
    let link = a.articles@[a.selected_article_index as int].1.link;
    match a.mode {
        AppState::Normal => match e {
            Event::Refresh => if a.refreshing { Action::Nothing } else { Action::Refresh },
            Event::Open => if len > 0 && link@.len() > 0 {
                Action::OpenLink(link)
            } else {
                Action::Nothing
            },
            Event::Confirm => if len > 0 {
                Action::LoadDetail(link, render_width(a.area.width as int) as usize)
            } else {
                Action::Nothing
            },
            _ => Action::Nothing,
        },
        _ => Action::Nothing,
    }
}

/// The event a key press stands for.
pub fn event_of(k: KeyPress) -> (r: Event)
    ensures
        r == event_spec(k),
{
    match k.code {
        KeyCode::Char(c) => {
            if c == 'q' {
                Event::Quit
            } else if c == 'c' || c == 'C' {
                if k.control { Event::ForceQuit } else { Event::Ignored }
            } else if c == 'd' {
                if k.control { Event::PageDown } else { Event::Ignored }
            } else if c == 'u' {
                if k.control { Event::PageUp } else { Event::Ignored }
            } else if c == 'j' {
                Event::Down
            } else if c == 'k' {
                Event::Up
            } else if c == 'o' {
                Event::Open
            } else if c == 'r' {
                Event::Refresh
            } else if '0' <= c && c <= '9' {
                Event::Digit((c as u32 - '0' as u32) as u8)
            } else {
                Event::Ignored
            }
        },
        KeyCode::Enter => Event::Confirm,
        KeyCode::Backspace => Event::Erase,
        KeyCode::Other => Event::Ignored,
    }
}

fn scroll_detail(d: &mut AppDetail, e: Event, step: usize, Ghost(height): Ghost<int>)
    requires
        step == page_rows(height),
    ensures
        *final(d) == scrolled(*old(d), e, height),
{
    match e {
        Event::Down => {
            if d.scroll_index < usize::MAX {
                d.scroll_index = d.scroll_index + 1;
            }
        },
        Event::Up => {
            if d.scroll_index > 0 {
                d.scroll_index = d.scroll_index - 1;
            }
        },
        Event::PageDown => {
            let total = line_count(d.content.as_str());
            if d.scroll_index < total && step < total - d.scroll_index {
                d.scroll_index = d.scroll_index + step;
            } else {
                d.scroll_index = total;
            }
        },
        Event::PageUp => {
            if d.scroll_index >= step {
                d.scroll_index = d.scroll_index - step;
            } else {
                d.scroll_index = 0;
            }
        },
        _ => {},
    }
}

/// Applies an event to the state, and says what is left for the caller.
pub fn handle_event(e: Event, app: &mut App) -> (r: Action)
    requires
        old(app).wf(),
    ensures
        final(app).wf(),
        *final(app) == next_state(*old(app), e),
        r == action_spec(*old(app), e),
{
    match e {
        Event::ForceQuit => {
            app.quit();
            return Action::Nothing;
        },
        Event::Quit => {
            match app.mode {
                AppState::Normal => app.quit(),
                _ => app.mode = AppState::Normal,
            }
            return Action::Nothing;
        },
        _ => {},
    }
    let len = app.articles.len();
    match &app.mode {
        AppState::Normal => {
            let sel = app.selected_article_index;
            match e {
                Event::Down => {
                    app.selected_article_index = if len == 0 {
                        0
                    } else if sel + 1 < len - 1 {
                        sel + 1
                    } else {
                        len - 1
                    };
                    Action::Nothing
                },
                Event::Up => {
                    if sel > 0 {
                        app.selected_article_index = sel - 1;
                    }
                    Action::Nothing
                },
                Event::Refresh => {
                    if app.begin_refresh() {
                        Action::Refresh
                    } else {
                        Action::Nothing
                    }
                },
                Event::Digit(d) => {
                    app.mode = AppState::Jump(d as usize);
                    Action::Nothing
                },
                Event::Open => {
                    if len > 0 && !app.articles[sel].1.link.as_str().is_empty() {
                        Action::OpenLink(app.articles[sel].1.link.clone())
                    } else {
                        Action::Nothing
                    }
                },
                Event::Confirm => {
                    if len > 0 {
                        Action::LoadDetail(app.articles[sel].1.link.clone(), app.area.text_width())
                    } else {
                        Action::Nothing
                    }
                },
                _ => Action::Nothing,
            }
        },
        AppState::Detail(_) => {
            let step = app.area.page_step();
            match &mut app.mode {
                AppState::Detail(d) => scroll_detail(d, e, step, Ghost(app.area.height as int)),
                _ => {},
            }
            Action::Nothing
        },
        AppState::Jump(n) => {
            let n: usize = *n;
            match e {
                Event::Confirm => {
                    app.selected_article_index = if len == 0 {
                        0
                    } else if n < len - 1 {
                        n
                    } else {
                        len - 1
                    };
                    app.mode = AppState::Normal;
                },
                Event::Digit(d) => {
                    let d = d as usize;
                    let m = if n <= (usize::MAX - d) / 10 {
                        assert(n * 10 + d <= usize::MAX) by (nonlinear_arith)
                            requires
                                n <= (usize::MAX - d) / 10,
                                d <= usize::MAX,
                        ;
                        n * 10 + d
                    } else {
                        assert(n * 10 + d > usize::MAX) by (nonlinear_arith)
                            requires
                                n > (usize::MAX - d) / 10,
                                d <= usize::MAX,
                        ;
                        usize::MAX
                    };
                    app.mode = AppState::Jump(m);
                },
                Event::Erase => {
                    app.mode = AppState::Jump(n / 10);
                },
                _ => {},
            }
            Action::Nothing
        },
    }
}

/// Handles a key press: updates the state and says what is left for the
/// caller to do.
pub fn handle_key_events(key_event: KeyPress, app: &mut App) -> (r: Action)
    requires
        old(app).wf(),
    ensures
        final(app).wf(),
        *final(app) == next_state(*old(app), event_spec(key_event)),
        r == action_spec(*old(app), event_spec(key_event)),
{
    let e = event_of(key_event);
    handle_event(e, app)
}

/// Moving down from the last article, or up from the first, leaves the
/// state as it was.
pub proof fn lemma_browse_edges(a: App)
    requires
        a.wf(),
        a.mode is Normal,
    ensures
        a.articles@.len() > 0 && a.selected_article_index == a.articles@.len() - 1
            ==> next_state(a, Event::Down) == a,
        a.selected_article_index == 0 ==> next_state(a, Event::Up) == a,
{
}

/// From the list, two digits typed one after the other give the number
/// they spell, and erasing then leaves the first digit.
pub proof fn lemma_jump_digits(a: App, d1: u8, d2: u8)
    requires
        a.mode is Normal,
        d1 <= 9,
        d2 <= 9,
    ensures
        next_state(next_state(a, Event::Digit(d1)), Event::Digit(d2)).mode == AppState::Jump(
            (10 * d1 + d2) as usize,
        ),
        next_state(
            next_state(next_state(a, Event::Digit(d1)), Event::Digit(d2)),
            Event::Erase,
        ).mode == AppState::Jump(d1 as usize),
{
    assert((10 * d1 + d2) / 10 == d1 as int);
}

/// Confirming a typed number past the end of a non-empty list selects
/// the last article and goes back to the list.
pub proof fn lemma_jump_clamps(a: App, n: usize)
    requires
        a.wf(),
        a.mode == AppState::Jump(n),
        a.articles@.len() > 0,
        n > a.articles@.len() - 1,
    ensures
        next_state(a, Event::Confirm).selected_article_index == a.articles@.len() - 1,
        next_state(a, Event::Confirm).mode is Normal,
{
}

/// Quitting steps back one level: from an article or a typed number to
/// the list, still running; from the list out of the application.
pub proof fn lemma_quit_levels(a: App)
    ensures
        !(a.mode is Normal) ==> next_state(a, Event::Quit).mode is Normal
            && next_state(a, Event::Quit).running == a.running,
        a.mode is Normal ==> !next_state(a, Event::Quit).running,
{
}

/// Every event keeps the selection on the list.
pub proof fn lemma_next_state_wf(a: App, e: Event)
    requires
        a.wf(),
    ensures
        next_state(a, e).wf(),
{
}

} // verus!
