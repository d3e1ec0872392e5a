//! Character-level utilities shared by the scraping operations.
use vstd::prelude::*;

verus! {

/// Unicode `White_Space`, the set that `char::is_whitespace` and `str::trim` use.
pub open spec fn is_space(c: char) -> bool {
    c == ' ' || ('\t' <= c && c <= '\r') || c == '\u{85}' || c == '\u{a0}' || c == '\u{1680}'
        || ('\u{2000}' <= c && c <= '\u{200a}') || c == '\u{2028}' || c == '\u{2029}'
        || c == '\u{202f}' || c == '\u{205f}' || c == '\u{3000}'
}

pub fn is_space_char(c: char) -> (r: bool)
    ensures
        r == is_space(c),
{
    c == ' ' || ('\t' <= c && c <= '\r') || c == '\u{85}' || c == '\u{a0}' || c == '\u{1680}'
        || ('\u{2000}' <= c && c <= '\u{200a}') || c == '\u{2028}' || c == '\u{2029}'
        || c == '\u{202f}' || c == '\u{205f}' || c == '\u{3000}'
}

/// `s` without its leading whitespace.
pub open spec fn trim_start(s: Seq<char>) -> Seq<char>
    decreases s.len(),
{
    if s.len() > 0 && is_space(s[0]) {
        trim_start(s.drop_first())
    } else {
        s
    }
}

/// `s` without its trailing whitespace.
pub open spec fn trim_end(s: Seq<char>) -> Seq<char>
    decreases s.len(),
{
    if s.len() > 0 && is_space(s.last()) {
        trim_end(s.drop_last())
    } else {
        s
    }
}

pub open spec fn trim(s: Seq<char>) -> Seq<char> {
    trim_end(trim_start(s))
}

/// Relies on `str::chars` collected into a `Vec`: the characters of `s`, in order.
#[verifier::external_body]
pub(crate) fn chars_of(s: &str) -> (r: Vec<char>)
    ensures
        r@ == s@,
{
    s.chars().collect()
}

/// Relies on `String: FromIterator<&char>`: a string of the given characters, in order.
#[verifier::external_body]
pub(crate) fn string_of(v: &[char]) -> (r: String)
    ensures
        r@ == v@,
{
    v.iter().collect()
}

/// Copies `s[from..to]` into a new vector.
pub fn slice_chars(s: &Vec<char>, from: usize, to: usize) -> (r: Vec<char>)
    requires
        from <= to <= s.len(),
    ensures
        r@ == s@.subrange(from as int, to as int),
{
    let mut r: Vec<char> = Vec::new();
    let mut i: usize = from;
    while i < to
        invariant
            from <= i <= to <= s.len(),
            r@ == s@.subrange(from as int, i as int),
        decreases to - i,
    {
        r.push(s[i]);
        i = i + 1;
    }
    r
}

/// Index of the first character of `s` that is not whitespace.
pub fn trim_start_index(s: &Vec<char>) -> (i: usize)
    ensures
        i <= s.len(),
        s@.subrange(i as int, s@.len() as int) == trim_start(s@),
{
    let mut i: usize = 0;
    assert(s@.subrange(0, s@.len() as int) =~= s@);
    while i < s.len() && is_space_char(s[i])
        invariant
            i <= s.len(),
            trim_start(s@.subrange(i as int, s@.len() as int)) == trim_start(s@),
        decreases s.len() - i,
    {
        assert(s@.subrange(i as int, s@.len() as int).drop_first() =~= s@.subrange(
            i + 1,
            s@.len() as int,
        ));
        i = i + 1;
    }
    i
}

/// One past the index of the last character of `s[..to]` that is not whitespace.
pub fn trim_end_index(s: &Vec<char>, to: usize) -> (j: usize)
    requires
        to <= s.len(),
    ensures
        j <= to,
        s@.subrange(0, j as int) == trim_end(s@.subrange(0, to as int)),
{
    let mut j: usize = to;
    while j > 0 && is_space_char(s[j - 1])
        invariant
            j <= to <= s.len(),
            trim_end(s@.subrange(0, j as int)) == trim_end(s@.subrange(0, to as int)),
        decreases j,
    {
        assert(s@.subrange(0, j as int).drop_last() =~= s@.subrange(0, j - 1));
        j = j - 1;
    }
    j
}

/// `s` without leading and trailing whitespace.
pub fn trim_chars(s: &Vec<char>) -> (r: Vec<char>)
    ensures
        r@ == trim(s@),
{
    let i = trim_start_index(s);
    let tail = slice_chars(s, i, s.len());
    let j = trim_end_index(&tail, tail.len());
    assert(tail@.subrange(0, tail@.len() as int) =~= tail@);
    slice_chars(&tail, 0, j)
}

/// `pat` occurs in `s` starting at index `i`.
pub open spec fn occurs_at(s: Seq<char>, i: int, pat: Seq<char>) -> bool {
    0 <= i && i + pat.len() <= s.len() && s.subrange(i, i + pat.len()) == pat
}

pub open spec fn starts_with(s: Seq<char>, pat: Seq<char>) -> bool {
    occurs_at(s, 0, pat)
}

pub open spec fn contains(s: Seq<char>, pat: Seq<char>) -> bool {
    exists|i: int| occurs_at(s, i, pat)
}

/// The index of the first occurrence of `pat` in `s`, where there is one.
pub open spec fn first_occurrence(s: Seq<char>, pat: Seq<char>) -> int {
    choose|i: int| occurs_at(s, i, pat) && forall|j: int| 0 <= j < i ==> !occurs_at(s, j, pat)
}

pub fn matches_at(s: &Vec<char>, i: usize, pat: &Vec<char>) -> (r: bool)
    ensures
        r == occurs_at(s@, i as int, pat@),
{
    if i > s.len() || pat.len() > s.len() - i {
        return false;
    }
    let mut k: usize = 0;
    while k < pat.len()
        invariant
            i + pat.len() <= s.len(),
            k <= pat.len(),
            forall|m: int| 0 <= m < k ==> s@[i + m] == pat@[m],
        decreases pat.len() - k,
    {
        if s[i + k] != pat[k] {
            assert(s@.subrange(i as int, i + pat.len())[k as int] != pat@[k as int]);
            return false;
        }
        k = k + 1;
    }
    assert(s@.subrange(i as int, i + pat.len()) =~= pat@);
    true
}

/// `s` and `w` hold the same characters.
pub fn equal_chars(s: &Vec<char>, w: &Vec<char>) -> (r: bool)
    ensures
        r == (s@ == w@),
{
    if s.len() != w.len() {
        return false;
    }
    let r = matches_at(s, 0, w);
    assert(s@.subrange(0, s@.len() as int) =~= s@);
    r
}

/// The first occurrence of `pat` in `s` at or after `from`.
pub fn find_from(s: &Vec<char>, pat: &Vec<char>, from: usize) -> (r: Option<usize>)
    ensures
        match r {
            Some(i) => from <= i && occurs_at(s@, i as int, pat@) && forall|j: int|
                from <= j < i ==> !occurs_at(s@, j, pat@),
            None => forall|j: int| from <= j ==> !occurs_at(s@, j, pat@),
        },
{
    if from > s.len() {
        return None;
    }
    let mut i: usize = from;
    loop
        invariant
            from <= i <= s.len(),
            forall|j: int| from <= j < i ==> !occurs_at(s@, j, pat@),
        decreases s.len() - i,
    {
        if matches_at(s, i, pat) {
            return Some(i);
        }
        if i == s.len() {
            return None;
        }
        i = i + 1;
    }
}

pub proof fn lemma_first_occurrence(s: Seq<char>, pat: Seq<char>, i: int)
    requires
        occurs_at(s, i, pat),
        forall|j: int| 0 <= j < i ==> !occurs_at(s, j, pat),
    ensures
        first_occurrence(s, pat) == i,
{
    let k = first_occurrence(s, pat);
    assert(occurs_at(s, k, pat) && forall|j: int| 0 <= j < k ==> !occurs_at(s, j, pat));
    assert(!(k < i));
    assert(!(i < k));
}

pub open spec fn http_scheme() -> Seq<char> {
    seq!['h', 't', 't', 'p', ':', '/', '/']
}

pub open spec fn https_scheme() -> Seq<char> {
    seq!['h', 't', 't', 'p', 's', ':', '/', '/']
}

/// A URL on the plain-text scheme moved to the secure one; any other text unchanged.
pub open spec fn https_upgraded(url: Seq<char>) -> Seq<char> {
    if starts_with(url, http_scheme()) {
        https_scheme() + url.skip(7)
    } else {
        url
    }
}

/// A URL that names no scheme starting with `http` gets the secure scheme in front
/// (a scheme-relative `//host/path` becomes `https://host/path`).
pub open spec fn with_protocol(url: Seq<char>) -> Seq<char> {
    if starts_with(url, seq!['h', 't', 't', 'p']) {
        url
    } else {
        seq!['h', 't', 't', 'p', 's', ':'] + url
    }
}

pub fn https_upgrade(url: &str) -> (r: String)
    ensures
        r@ == https_upgraded(url@),
{
    let u = chars_of(url);
    let http = vec!['h', 't', 't', 'p', ':', '/', '/'];
    assert(http@ == http_scheme());
    if matches_at(&u, 0, &http) {
        let mut out = vec!['h', 't', 't', 'p', 's', ':', '/', '/'];
        assert(out@ == https_scheme());
        let mut i: usize = 7;
        while i < u.len()
            invariant
                7 <= i <= u.len(),
                out@ == https_scheme() + u@.subrange(7, i as int),
            decreases u.len() - i,
        {
            out.push(u[i]);
            i = i + 1;
            assert(out@ =~= https_scheme() + u@.subrange(7, i as int));
        }
        assert(u@.subrange(7, u@.len() as int) =~= u@.skip(7));
        string_of(out.as_slice())
    } else {
        string_of(u.as_slice())
    }
}

pub fn append_protocol(url: &str) -> (r: String)
    ensures
        r@ == with_protocol(url@),
{
    let u = chars_of(url);
    let http = vec!['h', 't', 't', 'p'];
    assert(http@ == seq!['h', 't', 't', 'p']);
    if matches_at(&u, 0, &http) {
        string_of(u.as_slice())
    } else {
        let mut out = vec!['h', 't', 't', 'p', 's', ':'];
        let ghost head = out@;
        let mut i: usize = 0;
        while i < u.len()
            invariant
                i <= u.len(),
                out@ == head + u@.subrange(0, i as int),
            decreases u.len() - i,
        {
            out.push(u[i]);
            i = i + 1;
            assert(out@ =~= head + u@.subrange(0, i as int));
        }
        assert(u@.subrange(0, u@.len() as int) =~= u@);
        string_of(out.as_slice())
    }
}

} // verus!
