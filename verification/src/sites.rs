//! The sites that a show may be imported from.

use vstd::prelude::*;
use crate::parsers::{imdb, imdb_show};
use crate::show::{Show, ShowView};
use crate::text::starts_with;

verus! {

/// Where the links of IMDb begin.
pub const SITE_IMDB: &'static str = "https://www.imdb.com";

/// A site that a link leads to.
#[derive(Clone, Copy, Debug, PartialEq, Eq, Structural)]
pub enum Sites {
    Imdb,
    Unknown,
}

/// The site of a link: IMDb for a link that begins as its links do.
pub open spec fn site_of(link: Seq<char>) -> Sites {
    if SITE_IMDB@.is_prefix_of(link) {
        Sites::Imdb
    } else {
        Sites::Unknown
    }
}

/// Tells which known site a link leads to, if any.
pub fn check_link_is_allowed_site(link: &str) -> (site: Sites)
    ensures
        site == site_of(link@),
{
    if starts_with(link, SITE_IMDB) {
        Sites::Imdb
    } else {
        Sites::Unknown
    }
}

/// Tells whether a show can be imported from a link: the link is not empty
/// and leads to a known site.
pub fn check_link_is_importable(link: &str) -> (importable: bool)
    ensures
        importable == (link@.len() > 0 && site_of(link@) != Sites::Unknown),
        importable == (site_of(link@) == Sites::Imdb),
{
    if link.is_empty() {
        proof {
            reveal_strlit("https://www.imdb.com");
        }
        return false;
    }
    let site = check_link_is_allowed_site(link);
    site != Sites::Unknown
}

/// Tells whether a picture is named by an address to fetch it from, and
/// not by a file.
pub fn picture_is_remote(name: &str) -> (remote: bool)
    ensures
        remote == "http"@.is_prefix_of(name@),
{
    starts_with(name, "http")
}

/// Imports the show at `link` from the text of its page: read as a page of
/// IMDb where the link leads there, and a blank show for any other link.
pub fn import_clicked(link: &str, page: &str) -> (show: Show)
    ensures
        show@ == (if site_of(link@) == Sites::Imdb {
            imdb_show(link@, page@)
        } else {
            ShowView::blank()
        }),
{
    let site = check_link_is_allowed_site(link);
    if site == Sites::Imdb {
        return imdb(link, page);
    }
    Show::default()
}

} // verus!
