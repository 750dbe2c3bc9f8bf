//! What the page of a show says about it: title, original title, years of
//! release, summary and picture, each found by a pattern of its own.

use vstd::prelude::*;
use crate::pattern::{capture_first_group, first_capture};
use crate::show::{Show, ShowView};
use crate::text::{replace_all, replaced, replaced_keeps_text_without_first_char};

verus! {

/// One of the things that are read from a page.
#[derive(Clone, Copy, Debug, PartialEq, Eq, Structural)]
pub enum Field {
    Title,
    AlternativeTitle,
    ReleaseDate,
    About,
    Picture,
}

/// Why a page gave no show.
#[derive(Clone, Copy, Debug, PartialEq, Eq, Structural)]
pub enum ScrapeError {
    /// The page could not be read at all.
    PageNotRead,
    /// The pattern for this field is no regular expression.
    InvalidPattern(Field),
}

/// `text` with the character references of a page written out: the
/// apostrophe in its two spellings, the quotation mark, the ampersand, the
/// two angle brackets and the dash, replaced in this order.
pub open spec fn unescaped(text: Seq<char>) -> Seq<char> {
    let apostrophes = replaced(replaced(text, "&#x27;"@, "'"@), "&#039;"@, "'"@);
    let quotes = replaced(apostrophes, "&quot;"@, "\""@);
    let ampersands = replaced(quotes, "&amp;"@, "&"@);
    let brackets = replaced(replaced(ampersands, "&lt;"@, "<"@), "&gt;"@, ">"@);
    replaced(brackets, "&ndash;"@, "-"@)
}

/// Writes out the character references in a text taken from a page.
pub fn replace_html_entities(text: &str) -> (result: String)
    ensures
        result@ == unescaped(text@),
{
    proof {
        reveal_strlit("&#x27;");
        reveal_strlit("&#039;");
        reveal_strlit("&quot;");
        reveal_strlit("&amp;");
        reveal_strlit("&lt;");
        reveal_strlit("&gt;");
        reveal_strlit("&ndash;");
    }
    let mut result = replace_all(text, "&#x27;", "'");
    result = replace_all(result.as_str(), "&#039;", "'");
    result = replace_all(result.as_str(), "&quot;", "\"");
    result = replace_all(result.as_str(), "&amp;", "&");
    result = replace_all(result.as_str(), "&lt;", "<");
    result = replace_all(result.as_str(), "&gt;", ">");
    result = replace_all(result.as_str(), "&ndash;", "-");
    result
}

/// A text without an ampersand holds no character reference and is written
/// out as it stands.
pub proof fn unescaped_keeps_plain_text(text: Seq<char>)
    requires
        !text.contains('&'),
    ensures
        unescaped(text) == text,
{
    reveal_strlit("&#x27;");
    reveal_strlit("&#039;");
    reveal_strlit("&quot;");
    reveal_strlit("&amp;");
    reveal_strlit("&lt;");
    reveal_strlit("&gt;");
    reveal_strlit("&ndash;");
    replaced_keeps_text_without_first_char(text, "&#x27;"@, "'"@);
    replaced_keeps_text_without_first_char(text, "&#039;"@, "'"@);
    replaced_keeps_text_without_first_char(text, "&quot;"@, "\""@);
    replaced_keeps_text_without_first_char(text, "&amp;"@, "&"@);
    replaced_keeps_text_without_first_char(text, "&lt;"@, "<"@);
    replaced_keeps_text_without_first_char(text, "&gt;"@, ">"@);
    replaced_keeps_text_without_first_char(text, "&ndash;"@, "-"@);
}

/// The characters of what a pattern captured; none where it captured nothing.
pub open spec fn captured_text(found: Option<String>) -> Seq<char> {
    match found {
        Some(text) => text@,
        None => Seq::empty(),
    }
}

/// The characters of what was captured under a pattern that compiles; none
/// where nothing was captured.
pub open spec fn capture_or_empty(pattern: Seq<char>, page: Seq<char>) -> Seq<char> {
    match first_capture(pattern, page) {
        Some(Some(text)) => text,
        _ => Seq::empty(),
    }
}

/// The show that the captured texts make: title, original title and summary
/// with their character references written out, the years and the picture
/// as they were found, the original title taken from the title where there
/// is none, and the link that the page was read from. All else is blank.
pub open spec fn show_of_texts(
    link: Seq<char>,
    title: Seq<char>,
    alternative: Seq<char>,
    release: Seq<char>,
    about: Seq<char>,
    image: Seq<char>,
) -> ShowView {
    ShowView {
        title: unescaped(title),
        alternative_title: if unescaped(alternative).len() == 0 {
            unescaped(title)
        } else {
            unescaped(alternative)
        },
        release_date: release,
        about: unescaped(about),
        link_to_picture: image,
        link_to_show: link,
        ..ShowView::blank()
    }
}

/// The first of the five patterns that is no regular expression, if there
/// is one.
pub open spec fn first_invalid_pattern(
    page: Seq<char>,
    title: Seq<char>,
    alternative: Seq<char>,
    release: Seq<char>,
    about: Seq<char>,
    image: Seq<char>,
) -> Option<Field> {
    if first_capture(title, page) is None {
        Some(Field::Title)
    } else if first_capture(alternative, page) is None {
        Some(Field::AlternativeTitle)
    } else if first_capture(release, page) is None {
        Some(Field::ReleaseDate)
    } else if first_capture(about, page) is None {
        Some(Field::About)
    } else if first_capture(image, page) is None {
        Some(Field::Picture)
    } else {
        None
    }
}

/// What `scrab` gives for a page and five patterns.
pub open spec fn scraped(
    link: Seq<char>,
    page: Seq<char>,
    title: Seq<char>,
    alternative: Seq<char>,
    release: Seq<char>,
    about: Seq<char>,
    image: Seq<char>,
) -> Result<ShowView, ScrapeError> {
    match first_invalid_pattern(page, title, alternative, release, about, image) {
        Some(field) => Err(ScrapeError::InvalidPattern(field)),
        None => Ok(
            show_of_texts(
                link,
                capture_or_empty(title, page),
                capture_or_empty(alternative, page),
                capture_or_empty(release, page),
                capture_or_empty(about, page),
                capture_or_empty(image, page),
            ),
        ),
    }
}

/// The text that a pattern captured, or the empty text.
fn text_or_empty(found: Option<String>) -> (text: String)
    ensures
        text@ == captured_text(found),
{
    match found {
        Some(text) => text,
        None => String::new(),
    }
}

/// Makes a show of what the five patterns captured on the page at `link`.
pub fn show_of_captures(
    link: &str,
    title: Option<String>,
    alternative: Option<String>,
    release: Option<String>,
    about: Option<String>,
    image: Option<String>,
) -> (show: Show)
    ensures
        show@ == show_of_texts(
            link@,
            captured_text(title),
            captured_text(alternative),
            captured_text(release),
            captured_text(about),
            captured_text(image),
        ),
{
    let title_text = replace_html_entities(text_or_empty(title).as_str());
    let mut alternative_text = replace_html_entities(text_or_empty(alternative).as_str());
    if alternative_text.as_str().is_empty() {
        alternative_text = title_text.clone();
    }
    let about_text = replace_html_entities(text_or_empty(about).as_str());
    let mut show = Show::default();
    show.title = title_text;
    show.alternative_title = alternative_text;
    show.release_date = text_or_empty(release);
    show.about = about_text;
    show.link_to_picture = text_or_empty(image);
    show.link_to_show = link.to_owned();
    show
}

/// Reads a show from the text of its page, each field by the first group
/// of its pattern. A field whose pattern finds nothing stays empty.
///
/// Fails on the first pattern, in the order of the parameters, that is no
/// regular expression.
pub fn scrab(
    link: &str,
    page: &str,
    title: &str,
    alternative: &str,
    release: &str,
    about: &str,
    image: &str,
) -> (r: Result<Show, ScrapeError>)
    ensures
        r is Ok <==> scraped(link@, page@, title@, alternative@, release@, about@, image@) is Ok,
        r matches Ok(show) ==> Ok::<ShowView, ScrapeError>(show@) == scraped(
            link@,
            page@,
            title@,
            alternative@,
            release@,
            about@,
            image@,
        ),
        r matches Err(e) ==> Err::<ShowView, ScrapeError>(e) == scraped(
            link@,
            page@,
            title@,
            alternative@,
            release@,
            about@,
            image@,
        ),
{
    let found_title = match capture_first_group(title, page) {
        Ok(found) => found,
        Err(_) => { return Err(ScrapeError::InvalidPattern(Field::Title)); },
    };
    let found_alternative = match capture_first_group(alternative, page) {
        Ok(found) => found,
        Err(_) => { return Err(ScrapeError::InvalidPattern(Field::AlternativeTitle)); },
    };
    let found_release = match capture_first_group(release, page) {
        Ok(found) => found,
        Err(_) => { return Err(ScrapeError::InvalidPattern(Field::ReleaseDate)); },
    };
    let found_about = match capture_first_group(about, page) {
        Ok(found) => found,
        Err(_) => { return Err(ScrapeError::InvalidPattern(Field::About)); },
    };
    let found_image = match capture_first_group(image, page) {
        Ok(found) => found,
        Err(_) => { return Err(ScrapeError::InvalidPattern(Field::Picture)); },
    };
    Ok(show_of_captures(link, found_title, found_alternative, found_release, found_about, found_image))
}

/// The show that was read, or a blank one where reading failed.
pub fn get_show(parsed: Result<Show, ScrapeError>) -> (show: Show)
    ensures
        show@ == match parsed {
            Ok(read) => read@,
            Err(_) => ShowView::blank(),
        },
{
    match parsed {
        Ok(read) => read,
        Err(_) => Show::default(),
    }
}

/// The pattern for the title on a page of IMDb.
pub const IMDB_TITLE: &'static str = r#"hero__primary-text">([^<]+)"#;

/// The pattern for the original title on a page of IMDb.
pub const IMDB_ALTERNATIVE_TITLE: &'static str = r#"Original title: ([^<]+)"#;

/// The pattern for the years of release on a page of IMDb.
pub const IMDB_RELEASE_DATE: &'static str = r#"releaseinfo\?ref_=tt_ov_rdat">([^<]+)"#;

/// The pattern for the summary on a page of IMDb.
pub const IMDB_ABOUT: &'static str = r#"bruFve">([^<]+)"#;

/// The pattern for the picture on a page of IMDb.
pub const IMDB_PICTURE: &'static str = r#"class="ipc-image" loading="eager" src="([^"]+)"#;

/// What `imdb` reads from a page of IMDb.
pub open spec fn imdb_show(link: Seq<char>, page: Seq<char>) -> ShowView {
    match scraped(
        link,
        page,
        IMDB_TITLE@,
        IMDB_ALTERNATIVE_TITLE@,
        IMDB_RELEASE_DATE@,
        IMDB_ABOUT@,
        IMDB_PICTURE@,
    ) {
        Ok(show) => show,
        Err(_) => ShowView::blank(),
    }
}

/// Reads a show from the text of its page on IMDb, found at `link`.
pub fn imdb(link: &str, page: &str) -> (show: Show)
    ensures
        show@ == imdb_show(link@, page@),
{
    let parsed = scrab(
        link,
        page,
        IMDB_TITLE,
        IMDB_ALTERNATIVE_TITLE,
        IMDB_RELEASE_DATE,
        IMDB_ABOUT,
        IMDB_PICTURE,
    );
    get_show(parsed)
}

} // verus!
