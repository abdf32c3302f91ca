use vstd::prelude::*;
use crate::article::{Article, ArticleView, Feed, FeedView, entry_view, entries_view};
use crate::feedloader::{articles_view, parse_feed, parsed_articles};

verus! {

/// An aggregated article, as mathematical values.
pub type EntryView = (FeedView, ArticleView);

/// Every article of the list is at least as recent as every later one.
pub open spec fn sorted_desc(s: Seq<EntryView>) -> bool {
    forall|i: int, j: int| 0 <= i < j < s.len() ==> s[i].1.date >= s[j].1.date
}

/// Places `x` after every trailing article that is strictly more recent,
/// and after all those that are as recent: equal dates keep their order.
pub open spec fn insert_desc(s: Seq<EntryView>, x: EntryView) -> Seq<EntryView>
    decreases s.len(),
{
    if s.len() == 0 {
        seq![x]
    } else if s.last().1.date >= x.1.date {
        s.push(x)
    } else {
        insert_desc(s.drop_last(), x).push(s.last())
    }
}

/// The stable sort by date, most recent first.
pub open spec fn sort_desc(s: Seq<EntryView>) -> Seq<EntryView>
    decreases s.len(),
{
    if s.len() == 0 {
        s
    } else {
        insert_desc(sort_desc(s.drop_last()), s.last())
    }
}

/// What one fetched source gives: each of its articles, tagged with it.
pub open spec fn contribution(feed: FeedView, text: Seq<char>) -> Seq<EntryView> {
    parsed_articles(text).map_values(|a: ArticleView| (feed, a))
}

/// The contributions of all fetched sources, one after the other.
pub open spec fn merged(fetched: Seq<(FeedView, Seq<char>)>) -> Seq<EntryView>
    decreases fetched.len(),
{
    if fetched.len() == 0 {
        Seq::empty()
    } else {
        merged(fetched.drop_last()) + contribution(fetched.last().0, fetched.last().1)
    }
}

/// The list a refresh produces from the fetched sources.
pub open spec fn refreshed(fetched: Seq<(FeedView, Seq<char>)>) -> Seq<EntryView> {
    sort_desc(merged(fetched))
}

proof fn lemma_insert_bound(s: Seq<EntryView>, x: EntryView, b: i64)
    requires
        forall|i: int| 0 <= i < s.len() ==> s[i].1.date >= b,
        x.1.date >= b,
    ensures
        insert_desc(s, x).len() == s.len() + 1,
        forall|i: int| 0 <= i < insert_desc(s, x).len() ==> insert_desc(s, x)[i].1.date >= b,
    decreases s.len(),
{
    if s.len() > 0 && s.last().1.date < x.1.date {
        lemma_insert_bound(s.drop_last(), x, b);
    }
}

proof fn lemma_insert_sorted(s: Seq<EntryView>, x: EntryView)
    requires
        sorted_desc(s),
    ensures
        sorted_desc(insert_desc(s, x)),
    decreases s.len(),
{
    if s.len() > 0 && s.last().1.date < x.1.date {
        let t = s.drop_last();
        lemma_insert_sorted(t, x);
        lemma_insert_bound(t, x, s.last().1.date);
    }
}

proof fn lemma_sort_sorted(s: Seq<EntryView>)
    ensures
        sorted_desc(sort_desc(s)),
    decreases s.len(),
{
    if s.len() > 0 {
        lemma_sort_sorted(s.drop_last());
        lemma_insert_sorted(sort_desc(s.drop_last()), s.last());
    }
}

proof fn lemma_insert_multiset(s: Seq<EntryView>, x: EntryView)
    ensures
        insert_desc(s, x).to_multiset() == s.to_multiset().insert(x),
    decreases s.len(),
{
    broadcast use vstd::multiset::group_multiset_axioms;
    broadcast use vstd::seq_lib::group_to_multiset_ensures;

    if s.len() == 0 {
        assert(seq![x] =~= s.push(x));
    } else if s.last().1.date < x.1.date {
        let t = s.drop_last();
        lemma_insert_multiset(t, x);
        assert(t.push(s.last()) =~= s);
        assert(insert_desc(t, x).push(s.last()).to_multiset() =~= s.to_multiset().insert(x));
    }
}

proof fn lemma_sort_multiset(s: Seq<EntryView>)
    ensures
        sort_desc(s).to_multiset() == s.to_multiset(),
    decreases s.len(),
{
    broadcast use vstd::seq_lib::group_to_multiset_ensures;

    if s.len() > 0 {
        lemma_sort_multiset(s.drop_last());
        lemma_insert_multiset(sort_desc(s.drop_last()), s.last());
        assert(s.drop_last().push(s.last()) =~= s);
    }
}

proof fn lemma_contribution_in_merged(f: Seq<(FeedView, Seq<char>)>, i: int)
    requires
        0 <= i < f.len(),
    ensures
        contribution(f[i].0, f[i].1).to_multiset().subset_of(merged(f).to_multiset()),
    decreases f.len(),
{
    broadcast use vstd::multiset::group_multiset_axioms;
    broadcast use vstd::seq_lib::lemma_multiset_commutative;

    let c = contribution(f.last().0, f.last().1);
    assert((merged(f.drop_last()) + c).to_multiset() =~= merged(f.drop_last()).to_multiset().add(
        c.to_multiset(),
    ));
    if i < f.len() - 1 {
        lemma_contribution_in_merged(f.drop_last(), i);
    }
}

/// A refresh yields a list ordered by date, most recent first: of any two
/// articles, and so of any two adjacent ones, the earlier is at least as
/// recent as the later.
pub proof fn lemma_refresh_sorted(fetched: Seq<(FeedView, Seq<char>)>)
    ensures
        sorted_desc(refreshed(fetched)),
        forall|i: int|
            0 <= i < refreshed(fetched).len() - 1 ==> refreshed(fetched)[i].1.date
                >= #[trigger] refreshed(fetched)[i + 1].1.date,
{
    lemma_sort_sorted(merged(fetched));
}

/// A refresh loses and invents no article: its list holds exactly the
/// articles of all fetched sources, each as often as its source gave it.
pub proof fn lemma_refresh_permutation(fetched: Seq<(FeedView, Seq<char>)>)
    ensures
        refreshed(fetched).to_multiset() == merged(fetched).to_multiset(),
{
    lemma_sort_multiset(merged(fetched));
}

/// Isolation of sources: whatever text source `j` returns, malformed or
/// not, every other source's articles are all in the refreshed list.
pub proof fn lemma_refresh_isolation(fetched: Seq<(FeedView, Seq<char>)>, j: int, text: Seq<char>)
    requires
        0 <= j < fetched.len(),
    ensures
        forall|i: int|
            0 <= i < fetched.len() && i != j ==> #[trigger] contribution(
                fetched[i].0,
                fetched[i].1,
            ).to_multiset().subset_of(
                refreshed(fetched.update(j, (fetched[j].0, text))).to_multiset(),
            ),
{
    let g = fetched.update(j, (fetched[j].0, text));
    lemma_sort_multiset(merged(g));
    assert forall|i: int|
        0 <= i < fetched.len() && i != j implies #[trigger] contribution(
        fetched[i].0,
        fetched[i].1,
    ).to_multiset().subset_of(refreshed(g).to_multiset()) by {
        assert(g[i] == fetched[i]);
        lemma_contribution_in_merged(g, i);
    }
}

/// The view of the fetched sources.
pub open spec fn fetched_view(v: Seq<(Feed, String)>) -> Seq<(FeedView, Seq<char>)> {
    v.map_values(|p: (Feed, String)| (p.0@, p.1@))
}

/// Tags each article with the source it came from.
pub fn tag_articles(feed: &Feed, articles: Vec<Article>) -> (r: Vec<(Feed, Article)>)
    ensures
        entries_view(r@) == articles_view(articles@).map_values(|a: ArticleView| (feed@, a)),
{
    let ghost all = articles@;
    let mut rest = articles;
    let mut out: Vec<(Feed, Article)> = Vec::new();
    while rest.len() > 0
        invariant
            out@.len() + rest@.len() == all.len(),
            rest@ == all.subrange(out@.len() as int, all.len() as int),
            entries_view(out@) == articles_view(all.subrange(0, out@.len() as int)).map_values(
                |a: ArticleView| (feed@, a),
            ),
        decreases rest@.len(),
    {
        let a = rest.remove(0);
        let ghost k = out@.len() as int;
        let ghost prev = out@;
        assert(a == all[k]);
        out.push((feed.duplicate(), a));
        assert(all.subrange(0, k + 1) =~= all.subrange(0, k).push(all[k]));
        assert(entries_view(out@) =~= entries_view(prev).push((feed@, all[k]@)));
        assert(articles_view(all.subrange(0, k + 1)).map_values(|a: ArticleView| (feed@, a))
            =~= articles_view(all.subrange(0, k)).map_values(|a: ArticleView| (feed@, a)).push(
            (feed@, all[k]@),
        ));
    }
    assert(all.subrange(0, all.len() as int) =~= all);
    out
}

/// Inserts an article into a list sorted most recent first, after every
/// article that is at least as recent.
pub fn insert_by_date(list: &mut Vec<(Feed, Article)>, item: (Feed, Article))
    ensures
        entries_view(final(list)@) == insert_desc(entries_view(old(list)@), entry_view(item)),
{
    let ghost s = entries_view(list@);
    let ghost x = entry_view(item);
    let mut p: usize = list.len();
    assert(s.subrange(0, s.len() as int) =~= s);
    assert(s.subrange(s.len() as int, s.len() as int) =~= Seq::<EntryView>::empty());
    let date = item.1.date;
    while p > 0 && list[p - 1].1.date < date
        invariant
            date == x.1.date,
            p <= list@.len(),
            s == entries_view(list@),
            insert_desc(s, x) == insert_desc(s.subrange(0, p as int), x) + s.subrange(
                p as int,
                s.len() as int,
            ),
        decreases p,
    {
        let ghost q = p as int;
        assert(s.subrange(0, q).drop_last() =~= s.subrange(0, q - 1));
        assert(s[q - 1].1.date < x.1.date);
        assert(insert_desc(s.subrange(0, q), x) == insert_desc(s.subrange(0, q - 1), x).push(
            s[q - 1],
        ));
        assert(insert_desc(s.subrange(0, q - 1), x).push(s[q - 1]) + s.subrange(q, s.len() as int)
            =~= insert_desc(s.subrange(0, q - 1), x) + s.subrange(q - 1, s.len() as int));
        p = p - 1;
    }
    let ghost q = p as int;
    assert(insert_desc(s.subrange(0, q), x) + s.subrange(q, s.len() as int) =~= s.insert(q, x));
    list.insert(p, item);
    assert(entries_view(list@) =~= s.insert(q, x));
}

/// Sorts aggregated articles by date, most recent first; articles of equal
/// date keep their order.
pub fn sort_by_date_desc(items: Vec<(Feed, Article)>) -> (r: Vec<(Feed, Article)>)
    ensures
        entries_view(r@) == sort_desc(entries_view(items@)),
{
    let ghost all = items@;
    let ghost n = all.len() as int;
    let mut rest = items;
    let mut out: Vec<(Feed, Article)> = Vec::new();
    let ghost mut k: int = 0;
    assert(entries_view(all.subrange(0, 0)) =~= Seq::<EntryView>::empty());
    assert(entries_view(out@) =~= Seq::<EntryView>::empty());
    while rest.len() > 0
        invariant
            0 <= k <= n,
            n == all.len(),
            rest@ == all.subrange(k, n),
            entries_view(out@) == sort_desc(entries_view(all.subrange(0, k))),
        decreases rest@.len(),
    {
        let x = rest.remove(0);
        assert(x == all[k]);
        insert_by_date(&mut out, x);
        assert(entries_view(all.subrange(0, k + 1)).drop_last() =~= entries_view(
            all.subrange(0, k),
        ));
        proof { k = k + 1; }
    }
    assert(all.subrange(0, n) =~= all);
    out
}

/// Builds the aggregated list from the sources that were fetched: each
/// text is parsed, its articles tagged with their source, the lists joined
/// in order and sorted most recent first.
pub fn aggregate(fetched: Vec<(Feed, String)>) -> (r: Vec<(Feed, Article)>)
    ensures
        entries_view(r@) == refreshed(fetched_view(fetched@)),
{
    let ghost all = fetched@;
    let ghost n = all.len() as int;
    let mut rest = fetched;
    let mut joined: Vec<(Feed, Article)> = Vec::new();
    let ghost mut k: int = 0;
    assert(fetched_view(all.subrange(0, 0)) =~= Seq::<(FeedView, Seq<char>)>::empty());
    assert(entries_view(joined@) =~= Seq::<EntryView>::empty());
    while rest.len() > 0
        invariant
            0 <= k <= n,
            n == all.len(),
            rest@ == all.subrange(k, n),
            entries_view(joined@) == merged(fetched_view(all.subrange(0, k))),
        decreases rest@.len(),
    {
        let (feed, text) = rest.remove(0);
        assert((feed, text) == all[k]);
        let articles = parse_feed(text.as_str());
        let mut tagged = tag_articles(&feed, articles);
        let ghost before = joined@;
        joined.append(&mut tagged);
        assert(entries_view(joined@) =~= entries_view(before) + contribution(feed@, text@));
        assert(fetched_view(all.subrange(0, k + 1)).drop_last() =~= fetched_view(
            all.subrange(0, k),
        ));
        proof { k = k + 1; }
    }
    assert(all.subrange(0, n) =~= all);
    sort_by_date_desc(joined)
}

} // verus!
