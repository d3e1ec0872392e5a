//! What the details page of a manga says of it: status, content rating and
//! viewer, and the tag list they are read from.
use vstd::prelude::*;
use crate::text::{chars_of, equal_chars, find_from, occurs_at, slice_chars, string_of};

verus! {

#[derive(Clone, Copy, Debug, PartialEq, Eq, Structural)]
pub enum MangaStatus {
    Unknown,
    Ongoing,
    Completed,
    Hiatus,
    Cancelled,
}

#[derive(Clone, Copy, Debug, PartialEq, Eq, Structural)]
pub enum ContentRating {
    Safe,
    Suggestive,
    Nsfw,
}

#[derive(Clone, Copy, Debug, PartialEq, Eq, Structural)]
pub enum MangaViewer {
    Default,
    Rtl,
    Ltr,
    Vertical,
    Scroll,
}

/// Tags that make a manga explicit.
pub open spec fn is_nsfw_tag(t: Seq<char>) -> bool {
    t == seq!['S', 'm', 'u', 't'] || t == seq!['M', 'a', 't', 'u', 'r', 'e'] || t == seq![
        'A',
        'd',
        'u',
        'l',
        't',
    ] || t == seq!['1', '8', '+']
}

/// Tags that make a manga suggestive.
pub open spec fn is_suggestive_tag(t: Seq<char>) -> bool {
    t == seq!['E', 'c', 'c', 'h', 'i'] || t == seq!['1', '6', '+']
}

/// Tags of formats read by scrolling.
pub open spec fn is_scroll_tag(t: Seq<char>) -> bool {
    t == seq!['W', 'e', 'b', 't', 'o', 'o', 'n'] || t == seq!['M', 'a', 'n', 'h', 'w', 'a']
        || t == seq!['M', 'a', 'n', 'h', 'u', 'a']
}

pub open spec fn some_tag(tags: Seq<Seq<char>>, p: spec_fn(Seq<char>) -> bool) -> bool {
    exists|i: int| 0 <= i < tags.len() && #[trigger] p(tags[i])
}

/// The content rating that a list of tags gives: explicit if any tag is,
/// else suggestive if any tag is, else safe.
pub open spec fn rating_of(tags: Seq<Seq<char>>) -> ContentRating {
    if some_tag(tags, |t: Seq<char>| is_nsfw_tag(t)) {
        ContentRating::Nsfw
    } else if some_tag(tags, |t: Seq<char>| is_suggestive_tag(t)) {
        ContentRating::Suggestive
    } else {
        ContentRating::Safe
    }
}

/// The viewer that a list of tags gives: scrolling if any tag asks for it.
pub open spec fn viewer_of(tags: Seq<Seq<char>>, default_viewer: MangaViewer) -> MangaViewer {
    if some_tag(tags, |t: Seq<char>| is_scroll_tag(t)) {
        MangaViewer::Scroll
    } else {
        default_viewer
    }
}

pub open spec fn rank(r: ContentRating) -> int {
    match r {
        ContentRating::Safe => 0,
        ContentRating::Suggestive => 1,
        ContentRating::Nsfw => 2,
    }
}

/// The status that the site's status text names; any other text is unknown.
pub open spec fn status_named(s: Seq<char>) -> MangaStatus {
    if s == seq!['O', 'n', 'g', 'o', 'i', 'n', 'g'] {
        MangaStatus::Ongoing
    } else if s == seq!['C', 'o', 'm', 'p', 'l', 'e', 't', 'e', 'd'] {
        MangaStatus::Completed
    } else if s == seq!['H', 'i', 'a', 't', 'u', 's'] {
        MangaStatus::Hiatus
    } else if s == seq!['C', 'a', 'n', 'c', 'e', 'l', 'l', 'e', 'd'] {
        MangaStatus::Cancelled
    } else {
        MangaStatus::Unknown
    }
}

pub fn status_from_text(text: &str) -> (r: MangaStatus)
    ensures
        r == status_named(text@),
{
    let s = chars_of(text);
    if equal_chars(&s, &vec!['O', 'n', 'g', 'o', 'i', 'n', 'g']) {
        MangaStatus::Ongoing
    } else if equal_chars(&s, &vec!['C', 'o', 'm', 'p', 'l', 'e', 't', 'e', 'd']) {
        MangaStatus::Completed
    } else if equal_chars(&s, &vec!['H', 'i', 'a', 't', 'u', 's']) {
        MangaStatus::Hiatus
    } else if equal_chars(&s, &vec!['C', 'a', 'n', 'c', 'e', 'l', 'l', 'e', 'd']) {
        MangaStatus::Cancelled
    } else {
        MangaStatus::Unknown
    }
}

fn is_nsfw(t: &Vec<char>) -> (r: bool)
    ensures
        r == is_nsfw_tag(t@),
{
    equal_chars(t, &vec!['S', 'm', 'u', 't']) || equal_chars(t, &vec!['M', 'a', 't', 'u', 'r', 'e'])
        || equal_chars(t, &vec!['A', 'd', 'u', 'l', 't']) || equal_chars(t, &vec!['1', '8', '+'])
}

fn is_suggestive(t: &Vec<char>) -> (r: bool)
    ensures
        r == is_suggestive_tag(t@),
{
    equal_chars(t, &vec!['E', 'c', 'c', 'h', 'i']) || equal_chars(t, &vec!['1', '6', '+'])
}

fn is_scroll(t: &Vec<char>) -> (r: bool)
    ensures
        r == is_scroll_tag(t@),
{
    equal_chars(t, &vec!['W', 'e', 'b', 't', 'o', 'o', 'n']) || equal_chars(
        t,
        &vec!['M', 'a', 'n', 'h', 'w', 'a'],
    ) || equal_chars(t, &vec!['M', 'a', 'n', 'h', 'u', 'a'])
}

pub open spec fn views(v: Seq<String>) -> Seq<Seq<char>> {
    v.map_values(|s: String| s@)
}

/// Content rating and viewer of a manga with these tags. The rating only
/// rises while the tags are read: explicit stays explicit.
pub fn scan_tags(tags: &Vec<String>, default_viewer: MangaViewer) -> (r: (ContentRating, MangaViewer))
    ensures
        r.0 == rating_of(views(tags@)),
        r.1 == viewer_of(views(tags@), default_viewer),
{
    let ghost all = views(tags@);
    let mut rating = ContentRating::Safe;
    let mut viewer = default_viewer;
    let mut i: usize = 0;
    while i < tags.len()
        invariant
            i <= tags.len(),
            all == views(tags@),
            rating == rating_of(all.take(i as int)),
            viewer == viewer_of(all.take(i as int), default_viewer),
        decreases tags.len() - i,
    {
        let t = chars_of(tags[i].as_str());
        let ghost before = all.take(i as int);
        let ghost after = all.take(i + 1);
        assert(after =~= before.push(t@));
        assert forall|p: spec_fn(Seq<char>) -> bool|
            some_tag(after, p) == (some_tag(before, p) || p(t@)) by {
            if some_tag(after, p) {
                let k = choose|k: int| 0 <= k < after.len() && #[trigger] p(after[k]);
                if k < before.len() {
                    assert(p(before[k]));
                }
            }
            if some_tag(before, p) {
                let k = choose|k: int| 0 <= k < before.len() && #[trigger] p(before[k]);
                assert(p(after[k]));
            }
            if p(t@) {
                assert(p(after[i as int]));
            }
        }
        if is_nsfw(&t) {
            rating = ContentRating::Nsfw;
        } else if is_suggestive(&t) {
            if rating != ContentRating::Nsfw {
                rating = ContentRating::Suggestive;
            }
        } else if is_scroll(&t) {
            viewer = MangaViewer::Scroll;
        }
        i = i + 1;
    }
    assert(all.take(tags.len() as int) =~= all);
    (rating, viewer)
}

/// Reading the same tags in any other order gives the same content rating
/// and the same viewer.
pub proof fn law_tag_order_irrelevant(a: Seq<Seq<char>>, b: Seq<Seq<char>>, default_viewer: MangaViewer)
    requires
        a.to_multiset() == b.to_multiset(),
    ensures
        rating_of(a) == rating_of(b),
        viewer_of(a, default_viewer) == viewer_of(b, default_viewer),
{
    a.to_multiset_ensures();
    b.to_multiset_ensures();
    assert forall|p: spec_fn(Seq<char>) -> bool| some_tag(a, p) == some_tag(b, p) by {
        if some_tag(a, p) {
            let k = choose|k: int| 0 <= k < a.len() && #[trigger] p(a[k]);
            let v = a[k];
            assert(a.contains(v));
            assert(a.to_multiset().count(v) > 0);
            assert(b.to_multiset().count(v) > 0);
            assert(b.contains(v));
            let j = choose|j: int| 0 <= j < b.len() && b[j] == a[k];
            assert(p(b[j]));
        }
        if some_tag(b, p) {
            let k = choose|k: int| 0 <= k < b.len() && #[trigger] p(b[k]);
            let v = b[k];
            assert(b.contains(v));
            assert(b.to_multiset().count(v) > 0);
            assert(a.to_multiset().count(v) > 0);
            assert(a.contains(v));
            let j = choose|j: int| 0 <= j < a.len() && a[j] == b[k];
            assert(p(a[j]));
        }
    }
}

/// Reading more tags never lowers the content rating.
pub proof fn law_rating_never_drops(tags: Seq<Seq<char>>, i: int, j: int)
    requires
        0 <= i <= j <= tags.len(),
    ensures
        rank(rating_of(tags.take(i))) <= rank(rating_of(tags.take(j))),
{
    assert forall|p: spec_fn(Seq<char>) -> bool| some_tag(tags.take(i), p) implies some_tag(
        tags.take(j),
        p,
    ) by {
        let k = choose|k: int| 0 <= k < i && #[trigger] p(tags.take(i)[k]);
        assert(p(tags.take(j)[k]));
    }
}

/// The first index at or after `i` where `d` occurs in `s`.
pub open spec fn next_occurrence(s: Seq<char>, d: Seq<char>, i: int) -> Option<int>
    decreases s.len() - i,
{
    if i < 0 || i >= s.len() || i + d.len() > s.len() {
        None
    } else if occurs_at(s, i, d) {
        Some(i)
    } else {
        next_occurrence(s, d, i + 1)
    }
}

/// The pieces of `s[start..]` between the occurrences of the delimiter `d`,
/// as `str::split` gives them (one piece, `s[start..]`, for an empty `d`).
pub open spec fn pieces_from(s: Seq<char>, d: Seq<char>, start: int) -> Seq<Seq<char>>
    decreases s.len() - start,
    via pieces_from_decreases
{
    if d.len() == 0 || start < 0 || start > s.len() {
        seq![s.subrange(start, s.len() as int)]
    } else {
        match next_occurrence(s, d, start) {
            Some(k) => seq![s.subrange(start, k)] + pieces_from(s, d, k + d.len()),
            None => seq![s.subrange(start, s.len() as int)],
        }
    }
}

pub open spec fn pieces(s: Seq<char>, d: Seq<char>) -> Seq<Seq<char>> {
    pieces_from(s, d, 0)
}

proof fn lemma_next_occurrence(s: Seq<char>, d: Seq<char>, i: int)
    requires
        0 <= i,
        d.len() > 0,
    ensures
        match next_occurrence(s, d, i) {
            Some(k) => i <= k && occurs_at(s, k, d) && forall|j: int|
                i <= j < k ==> !occurs_at(s, j, d),
            None => forall|j: int| i <= j ==> !occurs_at(s, j, d),
        },
    decreases s.len() - i,
{
    if i < s.len() && i + d.len() <= s.len() && !occurs_at(s, i, d) {
        lemma_next_occurrence(s, d, i + 1);
    }
}

#[via_fn]
proof fn pieces_from_decreases(s: Seq<char>, d: Seq<char>, start: int) {
    if d.len() > 0 && 0 <= start <= s.len() {
        lemma_next_occurrence(s, d, start);
    }
}

/// Splits `text` at every occurrence of `delimiter`.
pub fn split_text(text: &str, delimiter: &str) -> (r: Vec<String>)
    ensures
        views(r@) == pieces(text@, delimiter@),
{
    let s = chars_of(text);
    let d = chars_of(delimiter);
    let mut out: Vec<String> = Vec::new();
    if d.len() == 0 {
        out.push(string_of(s.as_slice()));
        assert(s@.subrange(0, s@.len() as int) =~= s@);
        assert(views(out@) =~= pieces(text@, delimiter@));
        return out;
    }
    let mut start: usize = 0;
    loop
        invariant
            start <= s.len(),
            d@.len() > 0,
            s@ == text@,
            d@ == delimiter@,
            views(out@) + pieces_from(s@, d@, start as int) == pieces(s@, d@),
        decreases s.len() - start,
    {
        proof {
            lemma_next_occurrence(s@, d@, start as int);
        }
        let total = s.len();
        match find_from(&s, &d, start) {
            Some(k) => {
                assert(next_occurrence(s@, d@, start as int) == Some(k as int));
                let piece = slice_chars(&s, start, k);
                out.push(string_of(piece.as_slice()));
                let ghost prev = views(out@).drop_last();
                assert(views(out@) =~= prev.push(piece@));
                start = k + d.len();
                assert(views(out@) + pieces_from(s@, d@, start as int) =~= pieces(s@, d@));
            },
            None => {
                assert(next_occurrence(s@, d@, start as int) is None);
                let piece = slice_chars(&s, start, s.len());
                out.push(string_of(piece.as_slice()));
                assert(views(out@) =~= pieces(s@, d@));
                return out;
            },
        }
    }
}

} // verus!
