use watchlist::parsers::{
    get_show, imdb, replace_html_entities, scrab, show_of_captures, Field, ScrapeError,
    IMDB_ABOUT, IMDB_ALTERNATIVE_TITLE, IMDB_PICTURE, IMDB_RELEASE_DATE, IMDB_TITLE,
};
use watchlist::show::{Show, ShowType, Status};
use watchlist::sites::{
    check_link_is_allowed_site, check_link_is_importable, import_clicked, picture_is_remote,
    Sites, SITE_IMDB,
};

const PAGE: &str = "<h1><span class=\"hero__primary-text\">Tom &amp; Jerry</span></h1>\
<div>Original title: Tom &lt;and&gt; Jerry</div>\
<a href=\"/title/tt0032953/releaseinfo?ref_=tt_ov_rdat\">1940&ndash;1967</a>\
<span class=\"bruFve\">A cat &quot;chases&quot; a mouse; it isn&#039;t easy.</span>\
<img class=\"ipc-image\" loading=\"eager\" src=\"https://example.org/tom.jpg\" alt=\"\">";

fn assert_blank(show: &Show) {
    assert_eq!(show.id, 0);
    assert_eq!(show.index, 0);
    assert_eq!(show.title, "");
    assert_eq!(show.alternative_title, "");
    assert_eq!(show.release_date, "");
    assert_eq!(show.about, "");
    assert_eq!(show.link_to_show, "");
    assert_eq!(show.link_to_picture, "");
    assert_eq!(show.score, 0);
    assert!(!show.favorite);
    assert_eq!(show.status, Status::WatchLater);
    assert_eq!(show.show_type, ShowType::Serial);
    assert_eq!(show.season, 0);
    assert_eq!(show.episodes_count, 0);
    assert_eq!(show.episode, 0);
    assert_eq!(show.release_time, "");
    assert_eq!(show.schedule(), [0; 7]);
    assert!(!show.new_episodes_available);
}

#[test]
fn default_show_is_blank() {
    assert_blank(&Show::default());
}

#[test]
fn links_of_imdb_are_allowed() {
    assert_eq!(SITE_IMDB, "https://www.imdb.com");
    assert!(check_link_is_allowed_site("https://www.imdb.com") == Sites::Imdb);
    assert!(check_link_is_allowed_site("https://www.imdb.com/title/tt0368794/") == Sites::Imdb);
    assert!(check_link_is_allowed_site("https://www.imdb.community") == Sites::Imdb);
    assert!(check_link_is_allowed_site("") == Sites::Unknown);
    assert!(check_link_is_allowed_site("https://www.imdb.co") == Sites::Unknown);
    assert!(check_link_is_allowed_site("http://www.imdb.com/title/") == Sites::Unknown);
    assert!(check_link_is_allowed_site(" https://www.imdb.com") == Sites::Unknown);
    assert!(check_link_is_allowed_site("see https://www.imdb.com") == Sites::Unknown);
}

#[test]
fn only_links_of_known_sites_are_importable() {
    assert!(check_link_is_importable("https://www.imdb.com/title/tt0368794/"));
    assert!(check_link_is_importable("https://www.imdb.com"));
    assert!(!check_link_is_importable(""));
    assert!(!check_link_is_importable("https://example.org/title/tt0368794/"));
    assert!(!check_link_is_importable("www.imdb.com"));
}

#[test]
fn pictures_named_by_an_address_are_remote() {
    assert!(picture_is_remote("http://example.org/a.png"));
    assert!(picture_is_remote("https://example.org/a.png"));
    assert!(picture_is_remote("http"));
    assert!(!picture_is_remote("/home/me/a.png"));
    assert!(!picture_is_remote("htt"));
    assert!(!picture_is_remote(""));
    assert!(!picture_is_remote("a.http"));
}

#[test]
fn import_reads_a_page_of_imdb() {
    let link = "https://www.imdb.com/title/tt0032953/";
    let show = import_clicked(link, PAGE);
    assert_eq!(show.title, "Tom & Jerry");
    assert_eq!(show.alternative_title, "Tom <and> Jerry");
    assert_eq!(show.release_date, "1940&ndash;1967");
    assert_eq!(show.about, "A cat \"chases\" a mouse; it isn't easy.");
    assert_eq!(show.link_to_picture, "https://example.org/tom.jpg");
    assert_eq!(show.link_to_show, link);
    assert_eq!(show.id, 0);
    assert_eq!(show.status, Status::WatchLater);
    assert_eq!(show.show_type, ShowType::Serial);
    assert!(!show.new_episodes_available);
}

#[test]
fn import_from_an_unknown_site_is_blank() {
    assert_blank(&import_clicked("https://example.org/title/tt0032953/", PAGE));
    assert_blank(&import_clicked("", PAGE));
}

#[test]
fn page_without_the_marks_gives_only_the_link() {
    let link = "https://www.imdb.com/title/tt0000001/";
    let show = imdb(link, "<html><body>nothing of note</body></html>");
    assert_eq!(show.link_to_show, link);
    assert_eq!(show.title, "");
    assert_eq!(show.alternative_title, "");
    assert_eq!(show.release_date, "");
    assert_eq!(show.about, "");
    assert_eq!(show.link_to_picture, "");
}

#[test]
fn first_match_on_the_page_is_taken() {
    let page = "hero__primary-text\">First<x hero__primary-text\">Second<";
    assert_eq!(imdb("https://www.imdb.com/", page).title, "First");
}

#[test]
fn character_references_are_written_out() {
    assert_eq!(replace_html_entities(""), "");
    assert_eq!(replace_html_entities("plain text"), "plain text");
    assert_eq!(replace_html_entities("&#x27;"), "'");
    assert_eq!(replace_html_entities("&#039;"), "'");
    assert_eq!(replace_html_entities("&quot;"), "\"");
    assert_eq!(replace_html_entities("&amp;"), "&");
    assert_eq!(replace_html_entities("&lt;"), "<");
    assert_eq!(replace_html_entities("&gt;"), ">");
    assert_eq!(replace_html_entities("&ndash;"), "-");
    assert_eq!(replace_html_entities("a&lt;b&gt;c&amp;d"), "a<b>c&d");
    assert_eq!(replace_html_entities("&&amp;&"), "&&&");
    assert_eq!(replace_html_entities("&nbsp;&copy;"), "&nbsp;&copy;");
}

#[test]
fn ampersand_is_written_out_before_the_brackets() {
    assert_eq!(replace_html_entities("&amp;lt;"), "<");
    assert_eq!(replace_html_entities("&amp;gt;"), ">");
    assert_eq!(replace_html_entities("&amp;ndash;"), "-");
    // the apostrophe and the quotation mark come before the ampersand
    assert_eq!(replace_html_entities("&amp;#x27;"), "&#x27;");
    assert_eq!(replace_html_entities("&amp;quot;"), "&quot;");
    assert_eq!(replace_html_entities("&amp;amp;"), "&amp;");
}

#[test]
fn captures_make_a_show() {
    let show = show_of_captures(
        "https://www.imdb.com/title/tt1/",
        Some("Title &amp; more".to_string()),
        None,
        Some("1999&ndash;2000".to_string()),
        Some("It&#x27;s about".to_string()),
        Some("https://example.org/p.jpg?a=1&amp;b=2".to_string()),
    );
    assert_eq!(show.title, "Title & more");
    assert_eq!(show.alternative_title, "Title & more");
    assert_eq!(show.release_date, "1999&ndash;2000");
    assert_eq!(show.about, "It's about");
    assert_eq!(show.link_to_picture, "https://example.org/p.jpg?a=1&amp;b=2");
    assert_eq!(show.link_to_show, "https://www.imdb.com/title/tt1/");

    let named = show_of_captures("", Some("T".to_string()), Some("O &lt;".to_string()), None, None, None);
    assert_eq!(named.title, "T");
    assert_eq!(named.alternative_title, "O <");
    assert_eq!(named.release_date, "");
    assert_eq!(named.about, "");
    assert_eq!(named.link_to_picture, "");

    let untitled = show_of_captures("", None, Some("".to_string()), None, None, None);
    assert_eq!(untitled.title, "");
    assert_eq!(untitled.alternative_title, "");
}

#[test]
fn patterns_of_imdb() {
    assert_eq!(IMDB_TITLE, "hero__primary-text\">([^<]+)");
    assert_eq!(IMDB_ALTERNATIVE_TITLE, "Original title: ([^<]+)");
    assert_eq!(IMDB_RELEASE_DATE, "releaseinfo\\?ref_=tt_ov_rdat\">([^<]+)");
    assert_eq!(IMDB_ABOUT, "bruFve\">([^<]+)");
    assert_eq!(IMDB_PICTURE, "class=\"ipc-image\" loading=\"eager\" src=\"([^\"]+)");
}

#[test]
fn scraping_with_patterns_of_one_s_own() {
    let page = "name=Alien;aka=Star Beast;year=1979;plot=In space;img=alien.png;";
    let show = scrab(
        "https://example.org/alien",
        page,
        "name=([^;]+)",
        "aka=([^;]+)",
        "year=([0-9]+)",
        "plot=([^;]+)",
        "img=([^;]+)",
    )
    .unwrap();
    assert_eq!(show.title, "Alien");
    assert_eq!(show.alternative_title, "Star Beast");
    assert_eq!(show.release_date, "1979");
    assert_eq!(show.about, "In space");
    assert_eq!(show.link_to_picture, "alien.png");
    assert_eq!(show.link_to_show, "https://example.org/alien");
}

#[test]
fn group_that_takes_no_part_leaves_the_field_empty() {
    let show = scrab("", "year: unknown", "(t)?", "a(b)?|y", "year: ([0-9]+)?", "x", "(z)").unwrap();
    assert_eq!(show.title, "");
    assert_eq!(show.alternative_title, "");
    assert_eq!(show.release_date, "");
    assert_eq!(show.about, "");
    assert_eq!(show.link_to_picture, "");
}

#[test]
fn first_invalid_pattern_is_reported() {
    let good = "(a)";
    let bad = "(a";
    let page = "a";
    assert_eq!(scrab("", page, bad, bad, bad, bad, bad).err(), Some(ScrapeError::InvalidPattern(Field::Title)));
    assert_eq!(
        scrab("", page, good, bad, good, bad, good).err(),
        Some(ScrapeError::InvalidPattern(Field::AlternativeTitle))
    );
    assert_eq!(
        scrab("", page, good, good, bad, good, bad).err(),
        Some(ScrapeError::InvalidPattern(Field::ReleaseDate))
    );
    assert_eq!(scrab("", page, good, good, good, bad, good).err(), Some(ScrapeError::InvalidPattern(Field::About)));
    assert_eq!(
        scrab("", page, good, good, good, good, bad).err(),
        Some(ScrapeError::InvalidPattern(Field::Picture))
    );
    assert!(scrab("", page, good, good, good, good, good).is_ok());
}

#[test]
fn failed_read_gives_a_blank_show() {
    assert_blank(&get_show(Err(ScrapeError::PageNotRead)));
    assert_blank(&get_show(Err(ScrapeError::InvalidPattern(Field::About))));
    let mut read = Show::default();
    read.title = "Kept".to_string();
    read.score = 9;
    let show = get_show(Ok(read));
    assert_eq!(show.title, "Kept");
    assert_eq!(show.score, 9);
}
