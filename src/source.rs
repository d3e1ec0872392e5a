//! The scraping engine: one configuration per site, and the operations that
//! turn what was read from a page into catalogue records.
//!
//! The host fetches each page and runs the configured selectors on it; the
//! values that those selectors pick out are handed to the operations here.
use vstd::prelude::*;
use crate::chapter::{
    chapter_of, cleaned_title, mentions_volume, numbers_in, opt_view, parse_chapter_heading,
    removed, volume_of, ChapterHeading,
};
use crate::details::{
    pieces, rating_of, scan_tags, split_text, status_from_text, status_named, viewer_of, views,
    ContentRating, MangaStatus, MangaViewer,
};
use crate::text::{
    append_protocol, chars_of, https_upgrade, https_upgraded, matches_at, slice_chars,
    starts_with, string_of, trim, trim_chars, with_protocol,
};

verus! {

/// A change made to a text read from a page.
pub enum TextTransform {
    Identity,
    Trim,
    /// Drops the given prefix where the text starts with it.
    StripPrefix(String),
}

pub open spec fn transformed(t: TextTransform, s: Seq<char>) -> Seq<char> {
    match t {
        TextTransform::Identity => s,
        TextTransform::Trim => trim(s),
        TextTransform::StripPrefix(p) => if starts_with(s, p@) {
            s.skip(p@.len() as int)
        } else {
            s
        },
    }
}

impl TextTransform {
    pub fn apply(&self, s: &str) -> (r: String)
        ensures
            r@ == transformed(*self, s@),
    {
        let v = chars_of(s);
        match self {
            TextTransform::Identity => string_of(v.as_slice()),
            TextTransform::Trim => {
                let t = trim_chars(&v);
                string_of(t.as_slice())
            },
            TextTransform::StripPrefix(p) => {
                let pv = chars_of(p.as_str());
                if matches_at(&v, 0, &pv) {
                    let t = slice_chars(&v, pv.len(), v.len());
                    assert(t@ =~= v@.skip(pv@.len() as int));
                    string_of(t.as_slice())
                } else {
                    string_of(v.as_slice())
                }
            },
        }
    }
}

/// A change made to the address of a page image.
pub enum UrlTransform {
    Identity,
    /// Puts the given text (a proxy's address) in front.
    Prefix(String),
}

pub open spec fn url_transformed(t: UrlTransform, s: Seq<char>) -> Seq<char> {
    match t {
        UrlTransform::Identity => s,
        UrlTransform::Prefix(p) => p@ + s,
    }
}

impl UrlTransform {
    pub fn apply(&self, s: String) -> (r: String)
        ensures
            r@ == url_transformed(*self, s@),
    {
        match self {
            UrlTransform::Identity => s,
            UrlTransform::Prefix(p) => p.clone().concat(s.as_str()),
        }
    }
}

/// The index of the first entry of `t` from `i` on whose key is `name`.
pub open spec fn key_from<V>(t: Seq<(String, V)>, name: Seq<char>, i: int) -> Option<int>
    decreases t.len() - i,
{
    if i < 0 || i >= t.len() {
        None
    } else if t[i].0@ == name {
        Some(i)
    } else {
        key_from(t, name, i + 1)
    }
}

pub fn key_index<V>(t: &Vec<(String, V)>, name: &str) -> (r: Option<usize>)
    ensures
        match r {
            Some(i) => key_from(t@, name@, 0) == Some(i as int) && i < t@.len(),
            None => key_from(t@, name@, 0) is None,
        },
{
    let n = chars_of(name);
    let mut i: usize = 0;
    while i < t.len()
        invariant
            i <= t.len(),
            n@ == name@,
            key_from(t@, name@, i as int) == key_from(t@, name@, 0),
        decreases t.len() - i,
    {
        let k = chars_of(t[i].0.as_str());
        if crate::text::equal_chars(&k, &n) {
            return Some(i);
        }
        i = i + 1;
    }
    None
}

/// How a listing's name becomes a path segment of the site.
pub enum ListingMapping {
    Identity,
    /// Names found in the table take the path beside them; others stay as they are.
    Table(Vec<(String, String)>),
}

pub open spec fn listing_path(m: ListingMapping, name: Seq<char>) -> Seq<char> {
    match m {
        ListingMapping::Identity => name,
        ListingMapping::Table(t) => match key_from(t@, name, 0) {
            Some(i) => t@[i].1@,
            None => name,
        },
    }
}

/// How the status text of a details page becomes a status.
pub enum StatusMapping {
    /// `Ongoing`, `Completed`, `Hiatus` and `Cancelled`; any other text is unknown.
    Standard,
    /// Texts found in the table take the status beside them; others are unknown.
    Table(Vec<(String, MangaStatus)>),
}

pub open spec fn status_for(m: StatusMapping, s: Seq<char>) -> MangaStatus {
    match m {
        StatusMapping::Standard => status_named(s),
        StatusMapping::Table(t) => match key_from(t@, s, 0) {
            Some(i) => t@[i].1,
            None => MangaStatus::Unknown,
        },
    }
}

impl ListingMapping {
    pub fn map(&self, name: &str) -> (r: String)
        ensures
            r@ == listing_path(*self, name@),
    {
        match self {
            ListingMapping::Identity => String::from_str(name),
            ListingMapping::Table(t) => match key_index(t, name) {
                Some(i) => t[i].1.clone(),
                None => String::from_str(name),
            },
        }
    }
}

impl StatusMapping {
    pub fn map(&self, text: &str) -> (r: MangaStatus)
        ensures
            r == status_for(*self, text@),
    {
        match self {
            StatusMapping::Standard => status_from_text(text),
            StatusMapping::Table(t) => match key_index(t, text) {
                Some(i) => t[i].1,
                None => MangaStatus::Unknown,
            },
        }
    }
}

/// The decimal digits of `n`.
pub open spec fn nat_text(n: nat) -> Seq<char>
    decreases n,
{
    if n < 10 {
        seq![digit_char(n)]
    } else {
        nat_text(n / 10) + seq![digit_char(n % 10)]
    }
}

pub open spec fn digit_char(d: nat) -> char {
    if d == 0 { '0' } else if d == 1 { '1' } else if d == 2 { '2' } else if d == 3 { '3' }
    else if d == 4 { '4' } else if d == 5 { '5' } else if d == 6 { '6' } else if d == 7 { '7' }
    else if d == 8 { '8' } else { '9' }
}

/// `n` written in decimal, with a `-` in front where it is negative.
pub open spec fn int_text(n: int) -> Seq<char> {
    if n < 0 {
        seq!['-'] + nat_text((-n) as nat)
    } else {
        nat_text(n as nat)
    }
}

fn digit(d: u64) -> (c: char)
    requires
        d < 10,
    ensures
        c == digit_char(d as nat),
{
    if d == 0 { '0' } else if d == 1 { '1' } else if d == 2 { '2' } else if d == 3 { '3' }
    else if d == 4 { '4' } else if d == 5 { '5' } else if d == 6 { '6' } else if d == 7 { '7' }
    else if d == 8 { '8' } else { '9' }
}

fn push_decimal(out: &mut Vec<char>, n: u64)
    ensures
        final(out)@ == old(out)@ + nat_text(n as nat),
    decreases n,
{
    if n >= 10 {
        push_decimal(out, n / 10);
    }
    out.push(digit(n % 10));
    assert(final(out)@ =~= old(out)@ + nat_text(n as nat));
}

pub fn decimal(n: i32) -> (r: String)
    ensures
        r@ == int_text(n as int),
{
    let mut out: Vec<char> = Vec::new();
    if n < 0 {
        out.push('-');
        let m: i64 = -(n as i64);
        push_decimal(&mut out, m as u64);
    } else {
        push_decimal(&mut out, n as u64);
    }
    assert(out@ =~= int_text(n as int));
    string_of(out.as_slice())
}

/// A manga as the catalogue shows it.
pub struct Manga {
    pub id: String,
    pub cover: String,
    pub title: String,
    pub author: String,
    pub artist: String,
    pub description: String,
    pub url: String,
    pub categories: Vec<String>,
    pub status: MangaStatus,
    pub nsfw: ContentRating,
    pub viewer: MangaViewer,
}

/// One page of a catalogue listing.
pub struct MangaPageResult {
    pub manga: Vec<Manga>,
    pub has_more: bool,
}

/// A chapter of a manga. A number is the decimal text of its value; `None`
/// stands for a number that the link does not give.
pub struct Chapter {
    pub id: String,
    pub title: String,
    pub volume: Option<String>,
    pub chapter: Option<String>,
    /// The date as the page writes it; the host turns it into a time.
    pub date_text: String,
    pub url: String,
    pub lang: String,
}

/// An image of a chapter, at its place in the chapter.
pub struct Page {
    pub index: usize,
    pub url: String,
}

pub struct DeepLink {
    pub manga: Option<Manga>,
    pub chapter: Option<Chapter>,
}

/// What the selectors pick out of one cell of a listing page.
pub struct ListingCell {
    /// Text of the title node.
    pub title: String,
    /// `href` of the link node.
    pub href: String,
    /// `data-original` of the image node (empty where the site has no image selector).
    pub image: String,
}

/// What the selectors pick out of a listing page.
pub struct ListingPage {
    pub cells: Vec<ListingCell>,
    /// The number of nodes that the next-page selector matched.
    pub next_page_links: usize,
}

/// What the selectors pick out of a manga's details page.
pub struct DetailsPage {
    pub title: String,
    /// `src` of the cover image.
    pub cover: String,
    pub author: String,
    /// The description's text, with a line break for each break of the page.
    pub description: String,
    /// The text of the tag list (empty where the site has no tag selector).
    pub tags: String,
    pub status: String,
}

/// What the selectors pick out of one row of a chapter list.
pub struct ChapterRow {
    /// `href` of the chapter link.
    pub href: String,
    /// Text of the chapter link.
    pub text: String,
    /// Text of the date node.
    pub date: String,
}

/// The layout of one site: where each datum stands on its pages, and how
/// the text found there is read.
pub struct WPComicsSource {
    pub base_url: String,
    pub listing_mapping: ListingMapping,
    pub status_mapping: StatusMapping,
    /// Pattern and locale in which chapter dates are written.
    pub date_format: String,
    pub date_locale: String,
    pub next_page: String,
    pub manga_cell: String,
    pub manga_cell_url: String,
    pub manga_cell_title: String,
    pub manga_cell_image: String,
    pub manga_details_title: String,
    pub manga_details_title_transformer: TextTransform,
    pub manga_details_cover: String,
    pub manga_details_author: String,
    pub manga_details_author_transformer: TextTransform,
    pub manga_details_description: String,
    pub manga_details_tags: String,
    pub manga_details_tags_splitter: String,
    pub manga_details_status: String,
    pub manga_details_status_transformer: TextTransform,
    pub manga_details_chapters: String,
    pub chapter_skip_first: bool,
    pub chapter_date_selector: String,
    pub chapter_anchor_selector: String,
    pub manga_viewer_page: String,
    pub manga_viewer_page_url_suffix: String,
    pub page_url_transformer: UrlTransform,
}

/// `m` is the summary that the listing cell `c` gives under `src`.
pub open spec fn summary_matches(src: WPComicsSource, c: ListingCell, m: Manga) -> bool {
    &&& m.id@ == https_upgraded(c.href@)
    &&& m.cover@ == (if src.manga_cell_image@.len() == 0 {
        Seq::<char>::empty()
    } else {
        https_upgraded(with_protocol(c.image@))
    })
    &&& m.title@ == transformed(src.manga_details_title_transformer, c.title@)
    &&& m.author@.len() == 0 && m.artist@.len() == 0 && m.description@.len() == 0
    &&& m.url@.len() == 0 && m.categories@.len() == 0
    &&& m.status == MangaStatus::Unknown && m.nsfw == ContentRating::Safe
    &&& m.viewer == MangaViewer::Default
}

/// The categories that a details page gives under `src`.
pub open spec fn categories_of(src: WPComicsSource, p: DetailsPage) -> Seq<Seq<char>> {
    if src.manga_details_tags@.len() == 0 {
        seq![]
    } else {
        pieces(p.tags@, src.manga_details_tags_splitter@)
    }
}

/// `m` is the manga that the details page `p` of `id` gives under `src`.
pub open spec fn details_match(
    src: WPComicsSource,
    id: Seq<char>,
    p: DetailsPage,
    default_viewer: MangaViewer,
    m: Manga,
) -> bool {
    let cats = categories_of(src, p);
    &&& m.id@ == id && m.url@ == id
    &&& m.cover@ == with_protocol(p.cover@)
    &&& m.title@ == transformed(src.manga_details_title_transformer, p.title@)
    &&& m.author@ == transformed(src.manga_details_author_transformer, p.author@)
    &&& m.artist@.len() == 0
    &&& m.description@ == p.description@
    &&& views(m.categories@) == cats
    &&& m.nsfw == rating_of(cats)
    &&& m.viewer == viewer_of(cats, default_viewer)
    &&& m.status == status_for(
        src.status_mapping,
        transformed(src.manga_details_status_transformer, p.status@),
    )
}

/// `c` is the chapter that the row `row` gives, on the page of the manga
/// titled `manga_title`.
pub open spec fn chapter_matches(manga_title: Seq<char>, row: ChapterRow, c: Chapter) -> bool {
    let numbers = numbers_in(removed(row.text@, manga_title));
    let has_volume = mentions_volume(row.text@);
    &&& c.id@ == https_upgraded(row.href@)
    &&& c.url@ == c.id@
    &&& opt_view(c.volume) == volume_of(numbers, has_volume)
    &&& opt_view(c.chapter) == chapter_of(numbers, has_volume)
    &&& c.title@ == cleaned_title(row.text@, chapter_of(numbers, has_volume))
    &&& c.date_text@ == row.date@
    &&& c.lang@ == seq!['e', 'n']
}

/// The manga title that chapter links are read against.
pub open spec fn chapter_context(src: WPComicsSource, page_title: Seq<char>) -> Seq<char> {
    trim(transformed(src.manga_details_title_transformer, page_title))
}

/// The number of rows at the head of a chapter list that are not chapters.
pub open spec fn skipped_rows(src: WPComicsSource, rows: nat) -> nat {
    if src.chapter_skip_first && rows > 0 {
        1
    } else {
        0
    }
}

/// The address of an image as the page gives it, made absolute and transformed.
pub open spec fn image_url(src: WPComicsSource, attr: Seq<char>) -> Seq<char> {
    url_transformed(src.page_url_transformer, with_protocol(attr))
}

impl WPComicsSource {
    /// The summaries of a listing page, in the order of its cells. More pages
    /// follow where the next-page selector matched a node; a site without such
    /// a selector is paged until a page comes back empty, so there `has_more`
    /// is always true.
    pub fn get_manga_list(&self, page: &ListingPage) -> (r: MangaPageResult)
        ensures
            r.manga@.len() == page.cells@.len(),
            forall|i: int|
                0 <= i < r.manga@.len() ==> summary_matches(*self, page.cells@[i], #[trigger] r.manga@[i]),
            r.has_more == (self.next_page@.len() == 0 || page.next_page_links > 0),
    {
        let mut mangas: Vec<Manga> = Vec::new();
        let with_image = !self.manga_cell_image.as_str().is_empty();
        let mut i: usize = 0;
        while i < page.cells.len()
            invariant
                i <= page.cells@.len(),
                mangas@.len() == i,
                with_image == (self.manga_cell_image@.len() > 0),
                forall|k: int| 0 <= k < i ==> summary_matches(*self, page.cells@[k], #[trigger] mangas@[k]),
            decreases page.cells.len() - i,
        {
            let cell = &page.cells[i];
            let cover = if with_image {
                let absolute = append_protocol(cell.image.as_str());
                https_upgrade(absolute.as_str())
            } else {
                String::new()
            };
            mangas.push(Manga {
                id: https_upgrade(cell.href.as_str()),
                cover,
                title: self.manga_details_title_transformer.apply(cell.title.as_str()),
                author: String::new(),
                artist: String::new(),
                description: String::new(),
                url: String::new(),
                categories: Vec::new(),
                status: MangaStatus::Unknown,
                nsfw: ContentRating::Safe,
                viewer: MangaViewer::Default,
            });
            i = i + 1;
        }
        let has_more = self.next_page.as_str().is_empty() || page.next_page_links > 0;
        MangaPageResult { manga: mangas, has_more }
    }

    /// The address of page `page` (counted from 1) of the listing named `listing`.
    pub fn listing_url(&self, listing: &str, page: i32) -> (r: String)
        ensures
            r@ == self.base_url@ + seq!['/'] + listing_path(self.listing_mapping, listing@) + seq![
                '?',
                'p',
                'a',
                'g',
                'e',
                '=',
            ] + int_text(page as int),
    {
        let path = self.listing_mapping.map(listing);
        let number = decimal(page);
        let mut out = chars_of(self.base_url.as_str());
        out.push('/');
        let head = string_of(out.as_slice());
        let with_path = head.concat(path.as_str());
        let mut q = chars_of(with_path.as_str());
        q.push('?');
        q.push('p');
        q.push('a');
        q.push('g');
        q.push('e');
        q.push('=');
        let r = string_of(q.as_slice()).concat(number.as_str());
        assert(r@ =~= self.base_url@ + seq!['/'] + listing_path(self.listing_mapping, listing@)
            + seq!['?', 'p', 'a', 'g', 'e', '='] + int_text(page as int));
        r
    }

    /// The manga that the details page of `id` shows. The content rating and
    /// the viewer are read from the tags: `Smut`, `Mature`, `Adult` and `18+`
    /// make it explicit, `Ecchi` and `16+` suggestive unless explicit, and
    /// `Webtoon`, `Manhwa` and `Manhua` ask for the scrolling viewer.
    pub fn get_manga_details(&self, id: &str, page: &DetailsPage, default_viewer: MangaViewer) -> (r: Manga)
        ensures
            details_match(*self, id@, *page, default_viewer, r),
    {
        let categories = if !self.manga_details_tags.as_str().is_empty() {
            split_text(page.tags.as_str(), self.manga_details_tags_splitter.as_str())
        } else {
            let empty: Vec<String> = Vec::new();
            assert(views(empty@) =~= Seq::<Seq<char>>::empty());
            empty
        };
        let (nsfw, viewer) = scan_tags(&categories, default_viewer);
        let status_text = self.manga_details_status_transformer.apply(page.status.as_str());
        Manga {
            id: String::from_str(id),
            cover: append_protocol(page.cover.as_str()),
            title: self.manga_details_title_transformer.apply(page.title.as_str()),
            author: self.manga_details_author_transformer.apply(page.author.as_str()),
            artist: String::new(),
            description: page.description.clone(),
            url: String::from_str(id),
            categories,
            status: self.status_mapping.map(status_text.as_str()),
            nsfw,
            viewer,
        }
    }

    /// The chapters of a manga, in the order of the rows of its page; the
    /// first row is left out where the site puts a notice there. `page_title`
    /// is the text of the page's title node.
    pub fn get_chapter_list(&self, page_title: &str, rows: &Vec<ChapterRow>) -> (r: Vec<Chapter>)
        ensures
            r@.len() + skipped_rows(*self, rows@.len()) == rows@.len(),
            forall|i: int|
                0 <= i < r@.len() ==> chapter_matches(
                    chapter_context(*self, page_title@),
                    rows@[i + skipped_rows(*self, rows@.len())],
                    #[trigger] r@[i],
                ),
    {
        let transformed_title = self.manga_details_title_transformer.apply(page_title);
        let t = chars_of(transformed_title.as_str());
        let trimmed = trim_chars(&t);
        let title = string_of(trimmed.as_slice());
        let ghost context = chapter_context(*self, page_title@);
        let skip: usize = if self.chapter_skip_first && rows.len() > 0 {
            1
        } else {
            0
        };
        let mut chapters: Vec<Chapter> = Vec::new();
        let mut i: usize = skip;
        while i < rows.len()
            invariant
                skip == skipped_rows(*self, rows@.len()),
                skip <= i <= rows@.len(),
                title@ == context,
                chapters@.len() + skip == i,
                forall|k: int|
                    0 <= k < chapters@.len() ==> chapter_matches(context, rows@[k + skip], #[trigger] chapters@[k]),
            decreases rows.len() - i,
        {
            let row = &rows[i];
            let url = https_upgrade(row.href.as_str());
            let heading: ChapterHeading = parse_chapter_heading(title.as_str(), row.text.as_str());
            let lang = string_of(vec!['e', 'n'].as_slice());
            chapters.push(Chapter {
                id: url.clone(),
                title: heading.title,
                volume: heading.volume,
                chapter: heading.chapter,
                date_text: row.date.clone(),
                url,
                lang,
            });
            i = i + 1;
        }
        chapters
    }

    /// The address of the page that holds the images of chapter `id`.
    pub fn page_list_url(&self, id: &str) -> (r: String)
        ensures
            r@ == id@ + self.manga_viewer_page_url_suffix@,
    {
        String::from_str(id).concat(self.manga_viewer_page_url_suffix.as_str())
    }

    /// The pages of a chapter from the image addresses of its page, in the
    /// order of the page: the `i`-th image is page `i`.
    pub fn get_page_list(&self, images: &Vec<String>) -> (r: Vec<Page>)
        ensures
            r@.len() == images@.len(),
            forall|i: int|
                0 <= i < r@.len() ==> (#[trigger] r@[i]).index == i && r@[i].url@ == image_url(
                    *self,
                    images@[i]@,
                ),
    {
        let mut pages: Vec<Page> = Vec::new();
        let mut i: usize = 0;
        while i < images.len()
            invariant
                i <= images@.len(),
                pages@.len() == i,
                forall|k: int|
                    0 <= k < i ==> (#[trigger] pages@[k]).index == k && pages@[k].url@ == image_url(
                        *self,
                        images@[k]@,
                    ),
            decreases images.len() - i,
        {
            let absolute = append_protocol(images[i].as_str());
            pages.push(Page { index: i, url: self.page_url_transformer.apply(absolute) });
            i = i + 1;
        }
        pages
    }

    /// A link to this site always opens a manga: the one whose details page
    /// `page` is; a chapter is never opened directly.
    pub fn handle_url(&self, url: &str, page: &DetailsPage, default_viewer: MangaViewer) -> (r: DeepLink)
        ensures
            r.manga matches Some(m) && details_match(*self, url@, *page, default_viewer, m),
            r.chapter is None,
    {
        DeepLink { manga: Some(self.get_manga_details(url, page, default_viewer)), chapter: None }
    }
}

impl Default for WPComicsSource {
    /// The layout shared by the sites of the template: identity transforms,
    /// the standard status words, and the template's own selectors.
    fn default() -> (r: WPComicsSource)
        ensures
            r.base_url@ == ""@,
            r.date_format@ == "MM/dd/yyyy"@,
            r.date_locale@ == "en_US"@,
            r.next_page@ == "li > a[rel=next]"@,
            r.manga_cell@ == "div.items > div.row > div.item > figure.clearfix"@,
            r.manga_cell_url@ == "figcaption > h3 > a"@,
            r.manga_cell_title@ == "figcaption > h3 > a"@,
            r.manga_cell_image@ == "div.image > a > img"@,
            r.manga_details_title@ == "h1.title-detail"@,
            r.manga_details_cover@ == "div.col-image > img"@,
            r.manga_details_author@ == "ul.list-info > li.author > p.col-xs-8"@,
            r.manga_details_description@ == "div.detail-content > p"@,
            r.manga_details_tags@ == "li.kind.row > p.col-xs-8"@,
            r.manga_details_tags_splitter@ == " - "@,
            r.manga_details_status@ == "li.status.row > p.col-xs-8"@,
            r.manga_details_chapters@ == "div.list-chapter > nav > ul > li"@,
            r.chapter_date_selector@ == "div.col-xs-4"@,
            r.chapter_anchor_selector@ == "div.chapter > a"@,
            r.manga_viewer_page@ == "div.page-chapter > img"@,
            r.manga_viewer_page_url_suffix@ == ""@,
            r.listing_mapping is Identity,
            r.status_mapping is Standard,
            r.manga_details_title_transformer is Identity,
            r.manga_details_author_transformer is Identity,
            r.manga_details_status_transformer is Identity,
            r.page_url_transformer is Identity,
            !r.chapter_skip_first,
    {
        WPComicsSource {
            base_url: String::from_str(""),
            date_format: String::from_str("MM/dd/yyyy"),
            date_locale: String::from_str("en_US"),
            next_page: String::from_str("li > a[rel=next]"),
            manga_cell: String::from_str("div.items > div.row > div.item > figure.clearfix"),
            manga_cell_url: String::from_str("figcaption > h3 > a"),
            manga_cell_title: String::from_str("figcaption > h3 > a"),
            manga_cell_image: String::from_str("div.image > a > img"),
            manga_details_title: String::from_str("h1.title-detail"),
            manga_details_cover: String::from_str("div.col-image > img"),
            manga_details_author: String::from_str("ul.list-info > li.author > p.col-xs-8"),
            manga_details_description: String::from_str("div.detail-content > p"),
            manga_details_tags: String::from_str("li.kind.row > p.col-xs-8"),
            manga_details_tags_splitter: String::from_str(" - "),
            manga_details_status: String::from_str("li.status.row > p.col-xs-8"),
            manga_details_chapters: String::from_str("div.list-chapter > nav > ul > li"),
            chapter_date_selector: String::from_str("div.col-xs-4"),
            chapter_anchor_selector: String::from_str("div.chapter > a"),
            manga_viewer_page: String::from_str("div.page-chapter > img"),
            manga_viewer_page_url_suffix: String::from_str(""),
            listing_mapping: ListingMapping::Identity,
            status_mapping: StatusMapping::Standard,
            manga_details_title_transformer: TextTransform::Identity,
            manga_details_author_transformer: TextTransform::Identity,
            manga_details_status_transformer: TextTransform::Identity,
            chapter_skip_first: false,
            page_url_transformer: UrlTransform::Identity,
        }
    }
}

} // verus!
