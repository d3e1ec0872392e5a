use wpcomics_template::cache::PageCache;
use wpcomics_template::chapter::parse_chapter_heading;
use wpcomics_template::details::{
    scan_tags, split_text, status_from_text, ContentRating, MangaStatus, MangaViewer,
};
use wpcomics_template::source::{
    decimal, ChapterRow, DetailsPage, ListingCell, ListingMapping, ListingPage, StatusMapping,
    TextTransform, UrlTransform, WPComicsSource,
};
use wpcomics_template::text::{append_protocol, https_upgrade};

fn s(x: &str) -> String {
    String::from(x)
}

fn strings(xs: &[&str]) -> Vec<String> {
    xs.iter().map(|x| String::from(*x)).collect()
}

fn details(tags: &str, status: &str) -> DetailsPage {
    DetailsPage {
        title: s("My Manga"),
        cover: s("//img.example.com/cover.jpg"),
        author: s("Someone"),
        description: s("First line\nSecond line"),
        tags: s(tags),
        status: s(status),
    }
}

#[test]
fn heading_with_subtitle() {
    let h = parse_chapter_heading("My Manga", "Chapter 12: The Return");
    assert_eq!(h.chapter, Some(s("12")));
    assert_eq!(h.volume, None);
    assert_eq!(h.title, "The Return");
}

#[test]
fn heading_with_volume() {
    let h = parse_chapter_heading("My Manga", "Vol.3 Chapter 12");
    assert_eq!(h.volume, Some(s("3")));
    assert_eq!(h.chapter, Some(s("12")));
    assert_eq!(h.title, "");
}

#[test]
fn heading_volume_word_in_capitals() {
    let h = parse_chapter_heading("", "VOLUME 2 - CHAPTER 7.5");
    assert_eq!(h.volume, Some(s("2")));
    assert_eq!(h.chapter, Some(s("7.5")));
}

#[test]
fn heading_two_numbers_without_volume() {
    let h = parse_chapter_heading("", "Chapter 5 part 2");
    assert_eq!(h.volume, None);
    assert_eq!(h.chapter, Some(s("5")));
    assert_eq!(h.title, "part 2");
}

#[test]
fn heading_single_number_is_chapter() {
    let h = parse_chapter_heading("Tower", "Episode 40");
    assert_eq!(h.volume, None);
    assert_eq!(h.chapter, Some(s("40")));
}

#[test]
fn heading_ignores_numbers_of_manga_title() {
    let h = parse_chapter_heading("Solo Leveling 2", "Solo Leveling 2 Chapter 5");
    assert_eq!(h.chapter, Some(s("5")));
    assert_eq!(h.volume, None);
    assert_eq!(h.title, "");
}

#[test]
fn heading_without_number() {
    let h = parse_chapter_heading("My Manga", "  Prologue  ");
    assert_eq!(h.chapter, None);
    assert_eq!(h.volume, None);
    assert_eq!(h.title, "Prologue");
}

#[test]
fn heading_without_marker_is_trimmed() {
    let h = parse_chapter_heading("", " Chapter 012 ");
    assert_eq!(h.chapter, Some(s("12")));
    assert_eq!(h.title, "Chapter 012");
}

#[test]
fn heading_hash_marker() {
    let h = parse_chapter_heading("", "Oneshot #7 - Ending");
    assert_eq!(h.chapter, Some(s("7")));
    assert_eq!(h.title, "Ending");
}

#[test]
fn heading_number_zero_and_fraction_zeros() {
    let h = parse_chapter_heading("", "Chapter 0");
    assert_eq!(h.chapter, Some(s("0")));
    let h = parse_chapter_heading("", "Chapter 3.50");
    assert_eq!(h.chapter, Some(s("3.5")));
    let h = parse_chapter_heading("", "Chapter 8.0 end");
    assert_eq!(h.chapter, Some(s("8")));
}

#[test]
fn rating_order_does_not_matter() {
    let (a, _) = scan_tags(&strings(&["Ecchi", "Smut"]), MangaViewer::Default);
    let (b, _) = scan_tags(&strings(&["Smut", "Ecchi"]), MangaViewer::Default);
    assert_eq!(a, ContentRating::Nsfw);
    assert_eq!(b, ContentRating::Nsfw);
}

#[test]
fn rating_suggestive_and_safe() {
    let (r, v) = scan_tags(&strings(&["Action", "16+"]), MangaViewer::Rtl);
    assert_eq!(r, ContentRating::Suggestive);
    assert_eq!(v, MangaViewer::Rtl);
    let (r, v) = scan_tags(&strings(&["Action", "ecchi"]), MangaViewer::Default);
    assert_eq!(r, ContentRating::Safe);
    assert_eq!(v, MangaViewer::Default);
}

#[test]
fn scroll_viewer_from_tags() {
    let (r, v) = scan_tags(&strings(&["Manhua", "18+"]), MangaViewer::Rtl);
    assert_eq!(r, ContentRating::Nsfw);
    assert_eq!(v, MangaViewer::Scroll);
}

#[test]
fn split_on_delimiter() {
    assert_eq!(split_text("Action - Ecchi - Manhwa", " - "), strings(&["Action", "Ecchi", "Manhwa"]));
    assert_eq!(split_text("Action - ", " - "), strings(&["Action", ""]));
    assert_eq!(split_text("Action", " - "), strings(&["Action"]));
    assert_eq!(split_text("", ", "), strings(&[""]));
}

#[test]
fn status_words() {
    assert_eq!(status_from_text("Ongoing"), MangaStatus::Ongoing);
    assert_eq!(status_from_text("Completed"), MangaStatus::Completed);
    assert_eq!(status_from_text("Hiatus"), MangaStatus::Hiatus);
    assert_eq!(status_from_text("Cancelled"), MangaStatus::Cancelled);
    assert_eq!(status_from_text("ongoing"), MangaStatus::Unknown);
}

#[test]
fn url_helpers() {
    assert_eq!(https_upgrade("http://site.com/a"), "https://site.com/a");
    assert_eq!(https_upgrade("https://site.com/a"), "https://site.com/a");
    assert_eq!(https_upgrade("/a"), "/a");
    assert_eq!(append_protocol("//cdn.site.com/a.jpg"), "https://cdn.site.com/a.jpg");
    assert_eq!(append_protocol("http://cdn.site.com/a.jpg"), "http://cdn.site.com/a.jpg");
}

#[test]
fn decimal_text() {
    assert_eq!(decimal(0), "0");
    assert_eq!(decimal(2), "2");
    assert_eq!(decimal(1234), "1234");
    assert_eq!(decimal(-15), "-15");
    assert_eq!(decimal(i32::MIN), "-2147483648");
}

#[test]
fn listing_without_next_page_node_has_no_more() {
    let src = WPComicsSource::default();
    let page = ListingPage {
        cells: vec![ListingCell {
            title: s("One"),
            href: s("http://site.com/manga/one"),
            image: s("//img.site.com/one.jpg"),
        }],
        next_page_links: 0,
    };
    let r = src.get_manga_list(&page);
    assert!(!r.has_more);
    assert_eq!(r.manga.len(), 1);
    assert_eq!(r.manga[0].id, "https://site.com/manga/one");
    assert_eq!(r.manga[0].cover, "https://img.site.com/one.jpg");
    assert_eq!(r.manga[0].title, "One");
    assert_eq!(r.manga[0].status, MangaStatus::Unknown);
}

#[test]
fn listing_paging() {
    let mut src = WPComicsSource::default();
    let page = ListingPage { cells: Vec::new(), next_page_links: 1 };
    assert!(src.get_manga_list(&page).has_more);
    src.next_page = String::new();
    src.manga_cell_image = String::new();
    let page = ListingPage {
        cells: vec![ListingCell { title: s("Two"), href: s("https://a/2"), image: s("x.jpg") }],
        next_page_links: 0,
    };
    let r = src.get_manga_list(&page);
    assert!(r.has_more);
    assert_eq!(r.manga[0].cover, "");
}

#[test]
fn listing_address() {
    let mut src = WPComicsSource::default();
    src.base_url = s("https://site.com");
    assert_eq!(src.listing_url("Latest", 2), "https://site.com/Latest?page=2");
    src.listing_mapping =
        ListingMapping::Table(vec![(s("Popular"), s("hot")), (s("Latest"), s("new-updates"))]);
    assert_eq!(src.listing_url("Latest", 1), "https://site.com/new-updates?page=1");
    assert_eq!(src.listing_url("Other", 10), "https://site.com/Other?page=10");
}

#[test]
fn details_from_page() {
    let src = WPComicsSource::default();
    let m = src.get_manga_details(
        "https://site.com/manga/x",
        &details("Action - Smut - Webtoon", "Completed"),
        MangaViewer::Rtl,
    );
    assert_eq!(m.id, "https://site.com/manga/x");
    assert_eq!(m.url, "https://site.com/manga/x");
    assert_eq!(m.cover, "https://img.example.com/cover.jpg");
    assert_eq!(m.title, "My Manga");
    assert_eq!(m.author, "Someone");
    assert_eq!(m.description, "First line\nSecond line");
    assert_eq!(m.categories, strings(&["Action", "Smut", "Webtoon"]));
    assert_eq!(m.nsfw, ContentRating::Nsfw);
    assert_eq!(m.viewer, MangaViewer::Scroll);
    assert_eq!(m.status, MangaStatus::Completed);
}

#[test]
fn details_without_tag_selector() {
    let mut src = WPComicsSource::default();
    src.manga_details_tags = String::new();
    src.manga_details_title_transformer = TextTransform::StripPrefix(s("My "));
    src.status_mapping = StatusMapping::Table(vec![(s("Đang tiến hành"), MangaStatus::Ongoing)]);
    let m = src.get_manga_details("id", &details("Smut", "Đang tiến hành"), MangaViewer::Rtl);
    assert!(m.categories.is_empty());
    assert_eq!(m.nsfw, ContentRating::Safe);
    assert_eq!(m.viewer, MangaViewer::Rtl);
    assert_eq!(m.title, "Manga");
    assert_eq!(m.status, MangaStatus::Ongoing);
}

#[test]
fn deep_link_opens_manga() {
    let src = WPComicsSource::default();
    let d = src.handle_url("https://site.com/manga/x", &details("", "Ongoing"), MangaViewer::Default);
    assert!(d.chapter.is_none());
    let m = d.manga.unwrap();
    assert_eq!(m.id, "https://site.com/manga/x");
    assert_eq!(m.status, MangaStatus::Ongoing);
}

#[test]
fn chapter_list_in_page_order() {
    let mut src = WPComicsSource::default();
    let rows = vec![
        ChapterRow { href: s("http://s/notice"), text: s("Notice"), date: s("") },
        ChapterRow { href: s("http://s/c2"), text: s("My Manga Chapter 2: End"), date: s("01/02/2023") },
        ChapterRow { href: s("https://s/c1"), text: s("Chapter 1"), date: s("01/01/2023") },
    ];
    let all = src.get_chapter_list("  My Manga ", &rows);
    assert_eq!(all.len(), 3);
    assert_eq!(all[0].chapter, None);
    src.chapter_skip_first = true;
    let r = src.get_chapter_list("  My Manga ", &rows);
    assert_eq!(r.len(), 2);
    assert_eq!(r[0].id, "https://s/c2");
    assert_eq!(r[0].url, "https://s/c2");
    assert_eq!(r[0].chapter, Some(s("2")));
    assert_eq!(r[0].volume, None);
    assert_eq!(r[0].title, "End");
    assert_eq!(r[0].date_text, "01/02/2023");
    assert_eq!(r[0].lang, "en");
    assert_eq!(r[1].chapter, Some(s("1")));
    assert_eq!(r[1].title, "");
    assert!(src.get_chapter_list("x", &Vec::new()).is_empty());
}

#[test]
fn page_indices_follow_document_order() {
    let mut src = WPComicsSource::default();
    let images = strings(&["//cdn/a.jpg", "http://cdn/b.jpg", "https://cdn/c.jpg"]);
    let pages = src.get_page_list(&images);
    assert_eq!(pages.len(), 3);
    for (i, p) in pages.iter().enumerate() {
        assert_eq!(p.index, i);
    }
    assert_eq!(pages[0].url, "https://cdn/a.jpg");
    assert_eq!(pages[1].url, "http://cdn/b.jpg");
    src.page_url_transformer = UrlTransform::Prefix(s("https://proxy/?u="));
    let pages = src.get_page_list(&images);
    assert_eq!(pages[2].url, "https://proxy/?u=https://cdn/c.jpg");
    src.manga_viewer_page_url_suffix = s("/all");
    assert_eq!(src.page_list_url("https://s/c1"), "https://s/c1/all");
}

#[test]
fn cache_fetches_once_per_page() {
    let mut cache = PageCache::new();
    assert!(cache.current().is_none());
    assert!(cache.needs_fetch("https://s/a"));
    cache.store(s("https://s/a"), vec![1, 2]);
    assert!(!cache.needs_fetch("https://s/a"));
    assert_eq!(cache.current(), Some(&vec![1u8, 2]));
    assert!(cache.needs_fetch("https://s/b"));
    cache.store(s("https://s/b"), vec![3]);
    assert_eq!(cache.current(), Some(&vec![3u8]));
    assert!(cache.needs_fetch("https://s/a"));
}
