use vstd::prelude::*;

verus! {

/// Whether a character is alphabetic or numeric, in Unicode's sense.
pub uninterp spec fn alphanumeric(c: char) -> bool;

/// The characters a character becomes in lower case, in Unicode's sense.
pub uninterp spec fn lower_of(c: char) -> Seq<char>;

/// Relies on char::is_alphanumeric.
#[verifier::external_body]
fn is_alphanumeric(c: char) -> (r: bool)
    ensures
        r == alphanumeric(c),
{
    c.is_alphanumeric()
}

/// Relies on char::to_lowercase, collected in order.
#[verifier::external_body]
fn lowercase(c: char) -> (r: Vec<char>)
    ensures
        r@ == lower_of(c),
{
    c.to_lowercase().collect()
}

/// Relies on str::chars: the characters of the text, in order.
#[verifier::external_body]
fn chars_of(s: &str) -> (r: Vec<char>)
    ensures
        r@ == s@,
{
    s.chars().collect()
}

/// Relies on `String: FromIterator<char>`: the text of these characters.
#[verifier::external_body]
fn string_of(v: &Vec<char>) -> (r: String)
    ensures
        r@ == v@,
{
    v.iter().collect()
}

/// A text reduced for loose comparison: its alphanumeric characters only,
/// each in lower case.
pub open spec fn cleaned(s: Seq<char>) -> Seq<char>
    decreases s.len(),
{
    if s.len() == 0 {
        Seq::empty()
    } else if alphanumeric(s.last()) {
        cleaned(s.drop_last()) + lower_of(s.last())
    } else {
        cleaned(s.drop_last())
    }
}

/// The text split at each newline; there is one piece more than there are
/// newlines.
pub open spec fn pieces(s: Seq<char>) -> Seq<Seq<char>>
    decreases s.len(),
{
    if s.len() == 0 {
        seq![Seq::empty()]
    } else {
        let p = pieces(s.drop_last());
        if s.last() == '\n' {
            p.push(Seq::empty())
        } else {
            p.update(p.len() - 1, p.last().push(s.last()))
        }
    }
}

/// A line without the carriage return that ended it, if one did.
pub open spec fn strip_cr(l: Seq<char>) -> Seq<char> {
    if l.len() > 0 && l.last() == '\r' {
        l.drop_last()
    } else {
        l
    }
}

/// The lines of a text: lines end at `\n` or `\r\n`, and the last line
/// needs no ending (an empty text, or one ending in a newline, has no
/// line after it).
pub open spec fn lines(s: Seq<char>) -> Seq<Seq<char>> {
    let p = pieces(s);
    let ended = p.drop_last().map_values(|l: Seq<char>| strip_cr(l));
    if p.last().len() == 0 {
        ended
    } else {
        ended.push(p.last())
    }
}

/// `needle` occurs in `hay` as a contiguous run.
pub open spec fn contains(hay: Seq<char>, needle: Seq<char>) -> bool {
    exists|k: int| 0 <= k <= hay.len() - needle.len() && #[trigger] hay.subrange(k, k + needle.len()) == needle
}

/// `r` is the 1-based index of the first line holding `needle`, or 0 where
/// none does.
pub open spec fn is_first_line_containing(ls: Seq<Seq<char>>, needle: Seq<char>, r: int) -> bool {
    if r == 0 {
        forall|i: int| 0 <= i < ls.len() ==> !contains(#[trigger] ls[i], needle)
    } else {
        &&& 1 <= r <= ls.len()
        &&& contains(ls[r - 1], needle)
        &&& forall|i: int| 0 <= i < r - 1 ==> !contains(#[trigger] ls[i], needle)
    }
}

pub open spec fn views(v: Seq<Vec<char>>) -> Seq<Seq<char>> {
    v.map_values(|l: Vec<char>| l@)
}

/// The characters of a text reduced for loose comparison.
pub fn clean_chars(s: &Vec<char>) -> (r: Vec<char>)
    ensures
        r@ == cleaned(s@),
{
    let mut out: Vec<char> = Vec::new();
    let mut i: usize = 0;
    while i < s.len()
        invariant
            i <= s@.len(),
            out@ == cleaned(s@.subrange(0, i as int)),
        decreases s@.len() - i,
    {
        let c = s[i];
        assert(s@.subrange(0, i + 1).drop_last() =~= s@.subrange(0, i as int));
        if is_alphanumeric(c) {
            let mut low = lowercase(c);
            out.append(&mut low);
        }
        i = i + 1;
    }
    assert(s@.subrange(0, s@.len() as int) =~= s@);
    out
}

/// A text reduced for loose comparison: its alphanumeric characters only,
/// each in lower case.
pub fn clean(string: &str) -> (r: String)
    ensures
        r@ == cleaned(string@),
{
    let cs = chars_of(string);
    let c = clean_chars(&cs);
    string_of(&c)
}

fn strip_carriage_return(l: Vec<char>) -> (r: Vec<char>)
    ensures
        r@ == strip_cr(l@),
{
    let mut l = l;
    if l.len() > 0 && l[l.len() - 1] == '\r' {
        l.pop();
    }
    l
}

/// The lines of a text, as `str::lines` gives them.
pub fn split_lines(s: &Vec<char>) -> (r: Vec<Vec<char>>)
    ensures
        views(r@) == lines(s@),
{
    let mut done: Vec<Vec<char>> = Vec::new();
    let mut cur: Vec<char> = Vec::new();
    let ghost mut raw: Seq<Seq<char>> = Seq::empty();
    let mut i: usize = 0;
    assert(s@.subrange(0, 0) =~= Seq::<char>::empty());
    assert(raw.push(cur@) =~= seq![Seq::<char>::empty()]);
    while i < s.len()
        invariant
            i <= s@.len(),
            pieces(s@.subrange(0, i as int)) == raw.push(cur@),
            views(done@) == raw.map_values(|l: Seq<char>| strip_cr(l)),
        decreases s@.len() - i,
    {
        let c = s[i];
        assert(s@.subrange(0, i + 1).drop_last() =~= s@.subrange(0, i as int));
        if c == '\n' {
            let ghost prev = done@;
            let ghost old_cur = cur@;
            let line = strip_carriage_return(cur);
            done.push(line);
            cur = Vec::new();
            proof {
                assert(views(done@) =~= views(prev).push(strip_cr(old_cur)));
                assert(views(done@) =~= raw.push(old_cur).map_values(|l: Seq<char>| strip_cr(l)));
                raw = raw.push(old_cur);
            }
            assert(pieces(s@.subrange(0, i + 1)) =~= raw.push(cur@));
        } else {
            cur.push(c);
            assert(pieces(s@.subrange(0, i + 1)) =~= raw.push(cur@));
        }
        i = i + 1;
    }
    assert(s@.subrange(0, s@.len() as int) =~= s@);
    assert(pieces(s@).drop_last() =~= raw);
    if cur.len() > 0 {
        done.push(cur);
    }
    assert(views(done@) =~= lines(s@));
    done
}

/// Whether `hay` holds `needle` at position `k`.
fn occurs_at(hay: &Vec<char>, needle: &Vec<char>, k: usize) -> (r: bool)
    requires
        k + needle@.len() <= hay@.len(),
    ensures
        r == (hay@.subrange(k as int, k + needle@.len()) == needle@),
{
    let n: usize = hay.len();
    let mut j: usize = 0;
    while j < needle.len()
        invariant
            n == hay@.len(),
            j <= needle@.len(),
            k + needle@.len() <= hay@.len(),
            forall|t: int| 0 <= t < j ==> hay@[k + t] == needle@[t],
        decreases needle@.len() - j,
    {
        if hay[k + j] != needle[j] {
            assert(hay@.subrange(k as int, k + needle@.len())[j as int] != needle@[j as int]);
            return false;
        }
        j = j + 1;
    }
    assert(hay@.subrange(k as int, k + needle@.len()) =~= needle@);
    true
}

/// Whether `needle` occurs in `hay` as a contiguous run.
pub fn contains_chars(hay: &Vec<char>, needle: &Vec<char>) -> (r: bool)
    ensures
        r == contains(hay@, needle@),
{
    if needle.len() > hay.len() {
        return false;
    }
    let last = hay.len() - needle.len();
    let mut k: usize = 0;
    loop
        invariant
            k <= last,
            last == hay@.len() - needle@.len(),
            forall|t: int| 0 <= t < k ==> #[trigger] hay@.subrange(t, t + needle@.len()) != needle@,
        decreases last - k,
    {
        if occurs_at(hay, needle, k) {
            return true;
        }
        if k == last {
            return false;
        }
        k = k + 1;
    }
}

/// The 1-based index of the first line that holds `needle`, or 0 where
/// none does.
pub fn first_line_containing(lines: &Vec<Vec<char>>, needle: &Vec<char>) -> (r: usize)
    ensures
        is_first_line_containing(views(lines@), needle@, r as int),
{
    let mut i: usize = 0;
    while i < lines.len()
        invariant
            i <= lines@.len(),
            forall|t: int| 0 <= t < i ==> !contains(#[trigger] views(lines@)[t], needle@),
        decreases lines@.len() - i,
    {
        if contains_chars(&lines[i], needle) {
            return i + 1;
        }
        i = i + 1;
    }
    0
}

/// The line at which a rendered article is best opened: the 1-based index
/// of the first line that holds the title once both are reduced to lower
/// case alphanumerics, or 0 where no line does.
pub fn find_line_with_substring(big_string: &str, substring: &str) -> (r: usize)
    ensures
        is_first_line_containing(
            lines(big_string@).map_values(|l: Seq<char>| cleaned(l)),
            cleaned(substring@),
            r as int,
        ),
{
    let needle = clean_chars(&chars_of(substring));
    let all = split_lines(&chars_of(big_string));
    let mut reduced: Vec<Vec<char>> = Vec::new();
    let mut i: usize = 0;
    while i < all.len()
        invariant
            i <= all@.len(),
            views(reduced@) == views(all@).subrange(0, i as int).map_values(
                |l: Seq<char>| cleaned(l),
            ),
        decreases all@.len() - i,
    {
        let ghost prev = reduced@;
        reduced.push(clean_chars(&all[i]));
        assert(views(reduced@) =~= views(prev).push(cleaned(views(all@)[i as int])));
        assert(views(all@).subrange(0, i + 1) =~= views(all@).subrange(0, i as int).push(
            views(all@)[i as int],
        ));
        assert(views(reduced@) =~= views(all@).subrange(0, i + 1).map_values(
            |l: Seq<char>| cleaned(l),
        ));
        i = i + 1;
    }
    assert(views(all@).subrange(0, all@.len() as int) =~= views(all@));
    first_line_containing(&reduced, &needle)
}

/// The number of lines of a text.
pub fn line_count(s: &str) -> (r: usize)
    ensures
        r == lines(s@).len(),
{
    split_lines(&chars_of(s)).len()
}

} // verus!
