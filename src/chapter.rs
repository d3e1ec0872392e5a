//! Reading volume and chapter numbers, and a display title, out of the free
//! text of a chapter link.
//!
//! A number is held as the decimal text of its value: leading zeros of the
//! whole part and trailing zeros of the fraction dropped (`"012"` is `"12"`,
//! `"4.50"` is `"4.5"`, `"7.0"` is `"7"`).
use vstd::prelude::*;
use crate::text::{
    chars_of, contains, find_from, first_occurrence, lemma_first_occurrence, matches_at,
    occurs_at, slice_chars, string_of, trim, trim_chars, trim_start, trim_start_index,
};

verus! {

pub open spec fn is_digit(c: char) -> bool {
    '0' <= c && c <= '9'
}

/// `s` with every occurrence of `pat` taken out, scanning left to right.
pub open spec fn removed(s: Seq<char>, pat: Seq<char>) -> Seq<char>
    decreases s.len(),
{
    if pat.len() == 0 || s.len() < pat.len() {
        s
    } else if s.take(pat.len() as int) == pat {
        removed(s.skip(pat.len() as int), pat)
    } else {
        seq![s[0]] + removed(s.drop_first(), pat)
    }
}

/// The end of the run of digits that starts at `i`.
pub open spec fn digits_end(s: Seq<char>, i: int) -> int
    decreases s.len() - i,
{
    if 0 <= i < s.len() && is_digit(s[i]) {
        digits_end(s, i + 1)
    } else {
        i
    }
}

pub open spec fn strip_leading_zeros(s: Seq<char>) -> Seq<char>
    decreases s.len(),
{
    if s.len() > 1 && s[0] == '0' {
        strip_leading_zeros(s.drop_first())
    } else {
        s
    }
}

pub open spec fn strip_trailing_zeros(s: Seq<char>) -> Seq<char>
    decreases s.len(),
{
    if s.len() > 0 && s.last() == '0' {
        strip_trailing_zeros(s.drop_last())
    } else {
        s
    }
}

/// The decimal text of the number with these whole and fraction digits.
pub open spec fn number_text(whole: Seq<char>, frac: Seq<char>) -> Seq<char> {
    let w = strip_leading_zeros(whole);
    let f = strip_trailing_zeros(frac);
    if f.len() == 0 {
        w
    } else {
        w + seq!['.'] + f
    }
}

/// The numbers written in `s` from index `i` on. A number is a maximal run of
/// digits, with a fraction when a `.` and at least one digit follow it.
pub open spec fn numbers_from(s: Seq<char>, i: int) -> Seq<Seq<char>>
    decreases s.len() - i,
    via numbers_from_decreases
{
    if i < 0 || i >= s.len() {
        seq![]
    } else if !is_digit(s[i]) {
        numbers_from(s, i + 1)
    } else {
        let e = digits_end(s, i);
        if e + 1 < s.len() && s[e] == '.' && is_digit(s[e + 1]) {
            let f = digits_end(s, e + 1);
            seq![number_text(s.subrange(i, e), s.subrange(e + 1, f))] + numbers_from(s, f)
        } else {
            seq![number_text(s.subrange(i, e), seq![])] + numbers_from(s, e)
        }
    }
}

pub open spec fn numbers_in(s: Seq<char>) -> Seq<Seq<char>> {
    numbers_from(s, 0)
}

proof fn lemma_digits_end(s: Seq<char>, i: int)
    requires
        0 <= i <= s.len(),
    ensures
        i <= digits_end(s, i) <= s.len(),
        i < s.len() && is_digit(s[i]) ==> i < digits_end(s, i),
        forall|k: int| i <= k < digits_end(s, i) ==> is_digit(s[k]),
    decreases s.len() - i,
{
    if i < s.len() && is_digit(s[i]) {
        lemma_digits_end(s, i + 1);
    }
}

#[via_fn]
proof fn numbers_from_decreases(s: Seq<char>, i: int) {
    if 0 <= i < s.len() && is_digit(s[i]) {
        lemma_digits_end(s, i);
        let e = digits_end(s, i);
        if e + 1 < s.len() {
            lemma_digits_end(s, e + 1);
        }
    }
}

/// The three characters at `i` spell `vol`, in either case.
pub open spec fn vol_at(s: Seq<char>, i: int) -> bool {
    0 <= i && i + 3 <= s.len() && (s[i] == 'v' || s[i] == 'V') && (s[i + 1] == 'o' || s[i + 1]
        == 'O') && (s[i + 2] == 'l' || s[i + 2] == 'L')
}

pub open spec fn mentions_volume(s: Seq<char>) -> bool {
    exists|i: int| #[trigger] vol_at(s, i)
}

/// The volume: the first number, where there are two or more and the text
/// mentions a volume.
pub open spec fn volume_of(numbers: Seq<Seq<char>>, has_volume: bool) -> Option<Seq<char>> {
    if numbers.len() > 1 && has_volume {
        Some(numbers[0])
    } else {
        None
    }
}

/// The chapter: the second number where the first is the volume, else the first.
pub open spec fn chapter_of(numbers: Seq<Seq<char>>, has_volume: bool) -> Option<Seq<char>> {
    if numbers.len() > 1 && has_volume {
        Some(numbers[1])
    } else if numbers.len() > 0 {
        Some(numbers[0])
    } else {
        None
    }
}

/// What follows the first occurrence of `marker` in `s`.
pub open spec fn after_first(s: Seq<char>, marker: Seq<char>) -> Seq<char> {
    s.skip(first_occurrence(s, marker) + marker.len())
}

/// Leading whitespace and then one `:` or `-`, if one stands there, taken off.
pub open spec fn drop_separator(t: Seq<char>) -> Seq<char> {
    let u = trim_start(t);
    if u.len() > 0 && (u[0] == ':' || u[0] == '-') {
        u.drop_first()
    } else {
        u
    }
}

/// The title shown for a chapter: the text after `" N"` (else after `"#N"`)
/// for chapter number `N`, without a leading separator, trimmed; the whole
/// text, trimmed, where no chapter number or neither marker is found.
pub open spec fn cleaned_title(raw: Seq<char>, chapter: Option<Seq<char>>) -> Seq<char> {
    match chapter {
        Some(n) => {
            let m1 = seq![' '] + n;
            let m2 = seq!['#'] + n;
            if contains(raw, m1) {
                trim(drop_separator(after_first(raw, m1)))
            } else if contains(raw, m2) {
                trim(drop_separator(after_first(raw, m2)))
            } else {
                trim(raw)
            }
        },
        None => trim(raw),
    }
}

pub open spec fn opt_view(o: Option<String>) -> Option<Seq<char>> {
    match o {
        Some(s) => Some(s@),
        None => None,
    }
}

/// Volume, chapter and display title read from one chapter link.
pub struct ChapterHeading {
    pub volume: Option<String>,
    pub chapter: Option<String>,
    pub title: String,
}

/// `s` with every occurrence of `pat` taken out.
pub fn remove_all(s: &Vec<char>, pat: &Vec<char>) -> (r: Vec<char>)
    ensures
        r@ == removed(s@, pat@),
{
    let n = s.len();
    let m = pat.len();
    let mut out: Vec<char> = Vec::new();
    let mut i: usize = 0;
    assert(s@.subrange(0, n as int) =~= s@);
    while i < n
        invariant
            n == s.len(),
            m == pat.len(),
            i <= n,
            out@ + removed(s@.subrange(i as int, n as int), pat@) == removed(s@, pat@),
        decreases n - i,
    {
        let ghost rest = s@.subrange(i as int, n as int);
        if m > 0 && n - i >= m && matches_at(s, i, pat) {
            assert(rest.take(m as int) =~= s@.subrange(i as int, i + m));
            assert(rest.skip(m as int) =~= s@.subrange(i + m, n as int));
            i = i + m;
        } else {
            if m > 0 && n - i >= m {
                assert(rest.take(m as int) =~= s@.subrange(i as int, i + m));
            }
            assert(rest.drop_first() =~= s@.subrange(i + 1, n as int));
            assert(rest =~= seq![s@[i as int]] + s@.subrange(i + 1, n as int));
            out.push(s[i]);
            i = i + 1;
            assert(out@ + removed(s@.subrange(i as int, n as int), pat@) =~= removed(s@, pat@));
        }
    }
    assert(out@ + seq![] =~= out@);
    out
}

/// The end of the run of digits of `s` that starts at `i`.
fn run_end(s: &Vec<char>, i: usize) -> (e: usize)
    requires
        i <= s.len(),
    ensures
        e == digits_end(s@, i as int),
{
    let mut e: usize = i;
    while e < s.len() && '0' <= s[e] && s[e] <= '9'
        invariant
            i <= e <= s.len(),
            digits_end(s@, e as int) == digits_end(s@, i as int),
        decreases s.len() - e,
    {
        e = e + 1;
    }
    e
}

/// The decimal text of the number whose whole digits are `s[i..e]` and whose
/// fraction digits are `s[e + 1..f]` (no fraction where `f <= e + 1`).
fn number_at(s: &Vec<char>, i: usize, e: usize, f: usize) -> (r: Vec<char>)
    requires
        i < e <= s.len(),
        f <= s.len(),
        e + 1 < f ==> s@[e as int] == '.',
    ensures
        r@ == number_text(
            s@.subrange(i as int, e as int),
            if e + 1 < f {
                s@.subrange(e + 1, f as int)
            } else {
                seq![]
            },
        ),
{
    let mut a: usize = i;
    while a + 1 < e && s[a] == '0'
        invariant
            i <= a < e <= s.len(),
            strip_leading_zeros(s@.subrange(a as int, e as int)) == strip_leading_zeros(
                s@.subrange(i as int, e as int),
            ),
        decreases e - a,
    {
        assert(s@.subrange(a as int, e as int).drop_first() =~= s@.subrange(a + 1, e as int));
        a = a + 1;
    }
    let mut r = slice_chars(s, a, e);
    if f > 0 && e < f - 1 {
        let mut b: usize = f;
        while b > e + 1 && s[b - 1] == '0'
            invariant
                e + 1 <= b <= f <= s.len(),
                strip_trailing_zeros(s@.subrange(e + 1, b as int)) == strip_trailing_zeros(
                    s@.subrange(e + 1, f as int),
                ),
            decreases b,
        {
            assert(s@.subrange(e + 1, b as int).drop_last() =~= s@.subrange(e + 1, b - 1));
            b = b - 1;
        }
        if b > e + 1 {
            let ghost w = r@;
            r.push('.');
            let mut k: usize = e + 1;
            while k < b
                invariant
                    e + 1 <= k <= b <= s.len(),
                    r@ == w + seq!['.'] + s@.subrange(e + 1, k as int),
                decreases b - k,
            {
                r.push(s[k]);
                k = k + 1;
                assert(r@ =~= w + seq!['.'] + s@.subrange(e + 1, k as int));
            }
        } else {
            assert(s@.subrange(e + 1, b as int).len() == 0);
        }
    } else {
        assert(strip_trailing_zeros(seq![]) == Seq::<char>::empty());
    }
    r
}

/// The numbers written in `s`, in order, each as its decimal text.
pub fn scan_numbers(s: &Vec<char>) -> (r: Vec<Vec<char>>)
    ensures
        r@.len() == numbers_in(s@).len(),
        forall|k: int| 0 <= k < r@.len() ==> r@[k]@ == numbers_in(s@)[k],
{
    let n = s.len();
    let mut out: Vec<Vec<char>> = Vec::new();
    let ghost found: Seq<Seq<char>> = seq![];
    let mut i: usize = 0;
    while i < n
        invariant
            n == s.len(),
            i <= n,
            out@.len() == found.len(),
            forall|k: int| 0 <= k < out@.len() ==> out@[k]@ == found[k],
            found + numbers_from(s@, i as int) == numbers_in(s@),
        decreases n - i,
    {
        if '0' <= s[i] && s[i] <= '9' {
            let e = run_end(s, i);
            proof {
                lemma_digits_end(s@, i as int);
            }
            if e < n - 1 && s[e] == '.' && '0' <= s[e + 1] && s[e + 1] <= '9' {
                let f = run_end(s, e + 1);
                proof {
                    lemma_digits_end(s@, e + 1);
                }
                let t = number_at(s, i, e, f);
                proof {
                    found = found.push(t@);
                }
                out.push(t);
                i = f;
            } else {
                let t = number_at(s, i, e, e);
                proof {
                    found = found.push(t@);
                }
                out.push(t);
                i = e;
            }
        } else {
            i = i + 1;
        }
    }
    assert(found + seq![] =~= found);
    out
}

pub fn has_volume(s: &Vec<char>) -> (r: bool)
    ensures
        r == mentions_volume(s@),
{
    let mut i: usize = 0;
    while i < s.len() && s.len() - i >= 3
        invariant
            forall|j: int| 0 <= j < i ==> !vol_at(s@, j),
        decreases s.len() - i,
    {
        if (s[i] == 'v' || s[i] == 'V') && (s[i + 1] == 'o' || s[i + 1] == 'O') && (s[i + 2]
            == 'l' || s[i + 2] == 'L') {
            assert(vol_at(s@, i as int));
            return true;
        }
        i = i + 1;
    }
    assert forall|j: int| !vol_at(s@, j) by {
        if 0 <= j < i {
        }
    }
    false
}

/// The text after `s[..k]` with a leading separator dropped, trimmed.
fn trimmed_tail(s: &Vec<char>, k: usize) -> (r: Vec<char>)
    requires
        k <= s.len(),
    ensures
        r@ == trim(drop_separator(s@.skip(k as int))),
{
    let rest = slice_chars(s, k, s.len());
    assert(rest@ =~= s@.skip(k as int));
    let a = trim_start_index(&rest);
    let tail = if a < rest.len() && (rest[a] == ':' || rest[a] == '-') {
        assert(rest@.subrange(a + 1, rest@.len() as int) =~= trim_start(rest@).drop_first());
        slice_chars(&rest, a + 1, rest.len())
    } else {
        slice_chars(&rest, a, rest.len())
    };
    trim_chars(&tail)
}

/// The display title of a chapter link `raw` whose chapter number is `chapter`.
pub fn clean_title(raw: &Vec<char>, chapter: &Option<Vec<char>>) -> (r: Vec<char>)
    ensures
        r@ == cleaned_title(
            raw@,
            match chapter {
                Some(n) => Some(n@),
                None => None,
            },
        ),
{
    match chapter {
        Some(n) => {
            let mut m1 = vec![' '];
            let mut m2 = vec!['#'];
            let mut k: usize = 0;
            while k < n.len()
                invariant
                    k <= n.len(),
                    m1@ == seq![' '] + n@.subrange(0, k as int),
                    m2@ == seq!['#'] + n@.subrange(0, k as int),
                decreases n.len() - k,
            {
                m1.push(n[k]);
                m2.push(n[k]);
                k = k + 1;
                assert(m1@ =~= seq![' '] + n@.subrange(0, k as int));
                assert(m2@ =~= seq!['#'] + n@.subrange(0, k as int));
            }
            assert(n@.subrange(0, n@.len() as int) =~= n@);
            let total = raw.len();
            match find_from(raw, &m1, 0) {
                Some(p) => {
                    proof {
                        lemma_first_occurrence(raw@, m1@, p as int);
                    }
                    assert(p + m1@.len() <= raw@.len());
                    let len = m1.len();
                    trimmed_tail(raw, p + len)
                },
                None => {
                    match find_from(raw, &m2, 0) {
                        Some(p) => {
                            proof {
                                lemma_first_occurrence(raw@, m2@, p as int);
                            }
                            assert(p + m2@.len() <= raw@.len());
                            let len = m2.len();
                    trimmed_tail(raw, p + len)
                        },
                        None => trim_chars(raw),
                    }
                },
            }
        },
        None => trim_chars(raw),
    }
}

/// Volume number, chapter number and display title of the chapter link text
/// `text`, on the page of the manga titled `manga_title`.
pub open spec fn heading_matches(h: ChapterHeading, manga_title: Seq<char>, text: Seq<char>) -> bool {
    let numbers = numbers_in(removed(text, manga_title));
    let has_volume = mentions_volume(text);
    &&& opt_view(h.volume) == volume_of(numbers, has_volume)
    &&& opt_view(h.chapter) == chapter_of(numbers, has_volume)
    &&& h.title@ == cleaned_title(text, chapter_of(numbers, has_volume))
}

/// Reads the heading of a chapter link. The numbers are looked for in `text`
/// with every occurrence of the manga's title taken out, so that a number in
/// the title is not read as a chapter number.
pub fn parse_chapter_heading(manga_title: &str, text: &str) -> (h: ChapterHeading)
    ensures
        heading_matches(h, manga_title@, text@),
{
    let raw = chars_of(text);
    let title = chars_of(manga_title);
    let rest = remove_all(&raw, &title);
    let numbers = scan_numbers(&rest);
    let ghost model = numbers_in(rest@);
    let vol = has_volume(&raw);
    let (volume, chapter): (Option<Vec<char>>, Option<Vec<char>>) = if numbers.len() > 1 && vol {
        (Some(numbers[0].clone()), Some(numbers[1].clone()))
    } else if numbers.len() > 0 {
        (None, Some(numbers[0].clone()))
    } else {
        (None, None)
    };
    let ghost chapter_model = chapter_of(model, mentions_volume(raw@));
    assert(match chapter {
        Some(n) => chapter_model == Some(n@),
        None => chapter_model is None,
    });
    let cleaned = clean_title(&raw, &chapter);
    ChapterHeading {
        volume: match volume {
            Some(v) => Some(string_of(v.as_slice())),
            None => None,
        },
        chapter: match chapter {
            Some(c) => Some(string_of(c.as_slice())),
            None => None,
        },
        title: string_of(cleaned.as_slice()),
    }
}

/// With a single number in the text (the manga title aside), that number is
/// the chapter and there is no volume, whatever else the text says.
pub proof fn law_single_number_is_chapter(h: ChapterHeading, manga_title: Seq<char>, text: Seq<char>)
    requires
        heading_matches(h, manga_title, text),
        numbers_in(removed(text, manga_title)).len() == 1,
    ensures
        opt_view(h.chapter) == Some(numbers_in(removed(text, manga_title))[0]),
        h.volume is None,
{
}

/// With two numbers and a mention of a volume, the first number is the volume
/// and the second the chapter.
pub proof fn law_volume_then_chapter(h: ChapterHeading, manga_title: Seq<char>, text: Seq<char>)
    requires
        heading_matches(h, manga_title, text),
        numbers_in(removed(text, manga_title)).len() == 2,
        mentions_volume(text),
    ensures
        opt_view(h.volume) == Some(numbers_in(removed(text, manga_title))[0]),
        opt_view(h.chapter) == Some(numbers_in(removed(text, manga_title))[1]),
{
}

/// Where neither `" N"` nor `"#N"` occurs for the chapter number `N` (or there
/// is no chapter number), the display title is the link text trimmed.
pub proof fn law_title_without_marker_is_trimmed(raw: Seq<char>, chapter: Option<Seq<char>>)
    requires
        chapter matches Some(n) ==> !contains(raw, seq![' '] + n) && !contains(raw, seq!['#'] + n),
    ensures
        cleaned_title(raw, chapter) == trim(raw),
{
}

} // verus!
