//! A single-slot cache of the last fetched manga page.
//!
//! The details and the chapter list of a manga are read from the same page;
//! the cache keeps the bytes of the last page fetched, with its URL, so that
//! reading both costs one fetch. The URL and the page are held as one value
//! and replaced together.
use vstd::prelude::*;
use crate::text::chars_of;

verus! {

pub struct PageCache {
    slot: Option<(String, Vec<u8>)>,
}

/// The number of fetches that serving `ids` in turn takes, starting from a
/// cache that holds the page of `held`: one for each id that differs from the
/// one served just before it.
pub open spec fn fetch_count(held: Option<Seq<char>>, ids: Seq<Seq<char>>) -> nat
    decreases ids.len(),
{
    if ids.len() == 0 {
        0
    } else {
        (if held == Some(ids[0]) {
            0nat
        } else {
            1nat
        }) + fetch_count(Some(ids[0]), ids.drop_first())
    }
}

impl PageCache {
    /// The URL whose page is held.
    pub closed spec fn held(&self) -> Option<Seq<char>> {
        match self.slot {
            Some((u, _)) => Some(u@),
            None => None,
        }
    }

    /// The bytes of the page held.
    pub closed spec fn page(&self) -> Option<Seq<u8>> {
        match self.slot {
            Some((_, p)) => Some(p@),
            None => None,
        }
    }

    pub fn new() -> (r: PageCache)
        ensures
            r.held() is None,
            r.page() is None,
    {
        PageCache { slot: None }
    }

    /// The page of `url` has to be fetched: the cache holds another one, or none.
    pub fn needs_fetch(&self, url: &str) -> (r: bool)
        ensures
            r == (self.held() != Some(url@)),
    {
        match &self.slot {
            Some((u, _)) => {
                let a = chars_of(u.as_str());
                let b = chars_of(url);
                !crate::text::equal_chars(&a, &b)
            },
            None => true,
        }
    }

    /// Holds `page` as the page of `url`, in place of what was held.
    pub fn store(&mut self, url: String, page: Vec<u8>)
        ensures
            final(self).held() == Some(url@),
            final(self).page() == Some(page@),
    {
        self.slot = Some((url, page));
    }

    /// The page held, if any.
    pub fn current(&self) -> (r: Option<&Vec<u8>>)
        ensures
            match r {
                Some(p) => self.page() == Some(p@),
                None => self.page() is None,
            },
    {
        match &self.slot {
            Some((_, p)) => Some(p),
            None => None,
        }
    }
}

/// Asking twice in a row for one page fetches it once (not at all where it
/// is held already); asking then for another page fetches once more, and the
/// cache then holds the new page alone.
pub proof fn law_one_fetch_per_page(held: Option<Seq<char>>, x: Seq<char>, y: Seq<char>)
    requires
        x != y,
    ensures
        fetch_count(held, seq![x, x]) == (if held == Some(x) {
            0nat
        } else {
            1nat
        }),
        fetch_count(held, seq![x, x, y]) == fetch_count(held, seq![x, x]) + 1,
{
    reveal_with_fuel(fetch_count, 4);
    assert(seq![x, x].drop_first() =~= seq![x]);
    assert(seq![x].drop_first() =~= Seq::<Seq<char>>::empty());
    assert(seq![x, x, y].drop_first() =~= seq![x, y]);
    assert(seq![x, y].drop_first() =~= seq![y]);
    assert(seq![y].drop_first() =~= Seq::<Seq<char>>::empty());
}

} // verus!
