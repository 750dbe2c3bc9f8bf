//! The list of shows as it is displayed: placing and removing a show,
//! numbering the rows, and picking the shows that a filter or a search asks
//! for.

use vstd::prelude::*;
use crate::datetime::{
    available_at_some_instant, available_or_not, check_new_episodes_available,
};
use crate::release::releases_nothing;
use crate::show::{Show, ShowType, ShowView, Status};
use crate::text::{contains, lowercased, occurs_in, to_lowercase};

verus! {

/// The shows of a list as contracts see them.
pub open spec fn views(shows: Seq<Show>) -> Seq<ShowView> {
    Seq::new(shows.len(), |i: int| shows[i]@)
}

/// The list with each show numbered by its place.
pub open spec fn numbered(shows: Seq<ShowView>) -> Seq<ShowView> {
    Seq::new(shows.len(), |i: int| ShowView { index: i as i32, ..shows[i] })
}

/// The place of the first show of the given status at or after `from`; the
/// length of the list where there is none.
pub open spec fn first_of_status(shows: Seq<ShowView>, status: Status, from: int) -> int
    decreases shows.len() - from,
{
    if from >= shows.len() {
        shows.len() as int
    } else if shows[from].status == status {
        from
    } else {
        first_of_status(shows, status, from + 1)
    }
}

/// The place of the first show of the given id at or after `from`; the
/// length of the list where there is none.
pub open spec fn first_of_id(shows: Seq<ShowView>, id: i32, from: int) -> int
    decreases shows.len() - from,
{
    if from >= shows.len() {
        shows.len() as int
    } else if shows[from].id == id {
        from
    } else {
        first_of_id(shows, id, from + 1)
    }
}

/// The id for a show that is new to the list: one more than the id of the
/// show at the top, and 1 in an empty list.
pub open spec fn next_id(shows: Seq<ShowView>) -> int {
    if shows.len() > 0 {
        shows[0].id + 1
    } else {
        1
    }
}

/// The list after a show has been placed in it. A show without an id gets
/// the next one and goes before the first show of its status, or to the top
/// where it is the first of its status. A show with an id takes the place of
/// the show of that id, if there is one. All rows are then numbered anew.
pub open spec fn placed(shows: Seq<ShowView>, show: ShowView) -> Seq<ShowView> {
    if show.id == 0 {
        let found = first_of_status(shows, show.status, 0);
        let at = if found < shows.len() {
            found
        } else {
            0
        };
        numbered(shows.insert(at, ShowView { id: next_id(shows) as i32, ..show }))
    } else {
        let found = first_of_id(shows, show.id, 0);
        if found < shows.len() {
            numbered(shows.update(found, show))
        } else {
            numbered(shows)
        }
    }
}

/// A copy of a show.
pub fn copy_of(show: &Show) -> (copy: Show)
    ensures
        copy@ == show@,
{
    Show {
        id: show.id,
        index: show.index,
        title: show.title.clone(),
        alternative_title: show.alternative_title.clone(),
        release_date: show.release_date.clone(),
        about: show.about.clone(),
        link_to_show: show.link_to_show.clone(),
        link_to_picture: show.link_to_picture.clone(),
        score: show.score,
        favorite: show.favorite,
        status: show.status,
        show_type: show.show_type,
        season: show.season,
        episodes_count: show.episodes_count,
        episode: show.episode,
        release_time: show.release_time.clone(),
        schedule_monday: show.schedule_monday,
        schedule_tuesday: show.schedule_tuesday,
        schedule_wednesday: show.schedule_wednesday,
        schedule_thursday: show.schedule_thursday,
        schedule_friday: show.schedule_friday,
        schedule_saturday: show.schedule_saturday,
        schedule_sunday: show.schedule_sunday,
        new_episodes_available: show.new_episodes_available,
    }
}

/// Numbers the shows of a list by their places.
pub fn renumber(shows: &mut Vec<Show>)
    requires
        old(shows)@.len() <= i32::MAX,
    ensures
        views(final(shows)@) == numbered(views(old(shows)@)),
{
    let ghost before = views(shows@);
    let count: usize = shows.len();
    let mut i: usize = 0;
    while i < count
        invariant
            i <= count,
            count <= i32::MAX,
            shows@.len() == count,
            before.len() == count,
            forall|j: int| 0 <= j < i ==> (#[trigger] shows@[j])@ == numbered(before)[j],
            forall|j: int| i <= j < count ==> (#[trigger] shows@[j])@ == before[j],
        decreases count - i,
    {
        let mut show = copy_of(&shows[i]);
        show.index = i as i32;
        shows.set(i, show);
        i = i + 1;
    }
    assert(views(shows@) =~= numbered(before));
}

/// Finds the first show of a status.
fn position_of_status(shows: &Vec<Show>, status: Status) -> (at: usize)
    ensures
        at == first_of_status(views(shows@), status, 0),
        at <= shows@.len(),
{
    let mut i: usize = 0;
    while i < shows.len()
        invariant
            i <= shows@.len(),
            first_of_status(views(shows@), status, 0) == first_of_status(
                views(shows@),
                status,
                i as int,
            ),
        decreases shows@.len() - i,
    {
        if shows[i].status == status {
            return i;
        }
        i = i + 1;
    }
    i
}

/// Finds the first show of an id.
fn position_of_id(shows: &Vec<Show>, id: i32) -> (at: usize)
    ensures
        at == first_of_id(views(shows@), id, 0),
        at <= shows@.len(),
{
    let mut i: usize = 0;
    while i < shows.len()
        invariant
            i <= shows@.len(),
            first_of_id(views(shows@), id, 0) == first_of_id(views(shows@), id, i as int),
        decreases shows@.len() - i,
    {
        if shows[i].id == id {
            return i;
        }
        i = i + 1;
    }
    i
}

/// Places a show in the list: a new one, which has no id yet, before the
/// first show of its status, and a known one over the show of its id. The
/// rows are numbered anew.
pub fn place_show(shows: &mut Vec<Show>, show: Show)
    requires
        old(shows)@.len() < i32::MAX,
        show.id == 0 && old(shows)@.len() > 0 ==> old(shows)@[0].id < i32::MAX,
    ensures
        views(final(shows)@) == placed(views(old(shows)@), show@),
{
    let ghost before = views(shows@);
    if show.id == 0 {
        let id: i32 = if shows.len() > 0 {
            shows[0].id + 1
        } else {
            1
        };
        let found = position_of_status(shows, show.status);
        let at: usize = if found < shows.len() {
            found
        } else {
            0
        };
        let mut new = show;
        new.id = id;
        shows.insert(at, new);
        assert(views(shows@) =~= before.insert(at as int, ShowView { id: id, ..show@ }));
    } else {
        let found = position_of_id(shows, show.id);
        if found < shows.len() {
            shows.set(found, show);
            assert(views(shows@) =~= before.update(found as int, show@));
        }
    }
    renumber(shows);
}

/// Takes the show at the place that `show` is numbered with out of the
/// list, and numbers the rows anew.
pub fn drop_show(shows: &mut Vec<Show>, show: &Show)
    requires
        0 <= show.index < old(shows)@.len() <= i32::MAX,
    ensures
        views(final(shows)@) == numbered(views(old(shows)@).remove(show.index as int)),
{
    let ghost before = views(shows@);
    shows.remove(show.index as usize);
    assert(views(shows@) =~= before.remove(show.index as int));
    renumber(shows);
}

/// The statuses that the list can be narrowed to.
#[derive(Clone, Copy, Debug, PartialEq, Eq, Structural)]
pub enum FilterStatus {
    All,
    Watching,
    Planned,
    Completed,
    Liked,
    Dropped,
}

/// The kinds of show that the list can be narrowed to.
#[derive(Clone, Copy, Debug, PartialEq, Eq, Structural)]
pub enum FilterShowType {
    All,
    Serial,
    Film,
    Cartoon,
    Anime,
}

/// What the list is narrowed to.
#[derive(Clone, Copy, Debug, PartialEq, Eq, Structural)]
pub struct Filter {
    pub status: FilterStatus,
    pub show_type: FilterShowType,
}

/// Whether a show is one that the filter asks for: of the status and of the
/// kind that it names. Favorites are a status of the filter; planned shows
/// are those to watch later.
pub open spec fn passes(show: ShowView, filter: Filter) -> bool {
    &&& match filter.status {
        FilterStatus::All => true,
        FilterStatus::Watching => show.status == Status::Watching,
        FilterStatus::Planned => show.status == Status::WatchLater,
        FilterStatus::Completed => show.status == Status::Completed,
        FilterStatus::Liked => show.favorite,
        FilterStatus::Dropped => show.status == Status::Dropped,
    }
    &&& match filter.show_type {
        FilterShowType::All => true,
        FilterShowType::Serial => show.show_type == ShowType::Serial,
        FilterShowType::Film => show.show_type == ShowType::Film,
        FilterShowType::Cartoon => show.show_type == ShowType::Cartoon,
        FilterShowType::Anime => show.show_type == ShowType::Anime,
    }
}

/// Tells whether a show is one that the filter asks for.
pub fn matches_filter(show: &Show, filter: &Filter) -> (b: bool)
    ensures
        b == passes(show@, *filter),
{
    let status = match filter.status {
        FilterStatus::All => true,
        FilterStatus::Watching => show.status == Status::Watching,
        FilterStatus::Planned => show.status == Status::WatchLater,
        FilterStatus::Completed => show.status == Status::Completed,
        FilterStatus::Liked => show.favorite,
        FilterStatus::Dropped => show.status == Status::Dropped,
    };
    let kind = match filter.show_type {
        FilterShowType::All => true,
        FilterShowType::Serial => show.show_type == ShowType::Serial,
        FilterShowType::Film => show.show_type == ShowType::Film,
        FilterShowType::Cartoon => show.show_type == ShowType::Cartoon,
        FilterShowType::Anime => show.show_type == ShowType::Anime,
    };
    status && kind
}

/// The shows that the filter asks for, in the order of the list.
pub fn show_filter(shows: &Vec<Show>, filter: &Filter) -> (chosen: Vec<Show>)
    ensures
        views(chosen@) == views(shows@).filter(|show: ShowView| passes(show, *filter)),
{
    let ghost wanted = |show: ShowView| passes(show, *filter);
    let mut chosen: Vec<Show> = Vec::new();
    let mut i: usize = 0;
    proof {
        reveal(Seq::filter);
        assert(views(shows@).take(0) =~= Seq::<ShowView>::empty());
        assert(views(chosen@) =~= Seq::<ShowView>::empty());
    }
    while i < shows.len()
        invariant
            i <= shows@.len(),
            wanted == |show: ShowView| passes(show, *filter),
            views(chosen@) == views(shows@).take(i as int).filter(wanted),
        decreases shows@.len() - i,
    {
        let ghost so_far = views(chosen@);
        if matches_filter(&shows[i], filter) {
            chosen.push(copy_of(&shows[i]));
            assert(views(chosen@) =~= so_far.push(shows@[i as int]@));
        }
        proof {
            let seen = views(shows@).take(i as int);
            assert(views(shows@).take(i + 1) =~= seen.push(shows@[i as int]@));
            seen.lemma_filter_push(shows@[i as int]@, wanted);
        }
        i = i + 1;
    }
    assert(views(shows@).take(shows@.len() as int) =~= views(shows@));
    chosen
}

/// Whether a search for `text` finds a show: an empty text finds every
/// show, another one the shows that have it in their title or their
/// original title, capitals and small letters counting as the same.
pub open spec fn found_by(show: ShowView, text: Seq<char>) -> bool {
    text.len() == 0 || occurs_in(lowercased(text), lowercased(show.title)) || occurs_in(
        lowercased(text),
        lowercased(show.alternative_title),
    )
}

/// Tells whether a search for `text` finds a show.
pub fn matches_search(show: &Show, text: &str) -> (b: bool)
    ensures
        b == found_by(show@, text@),
{
    if text.is_empty() {
        return true;
    }
    let wanted = to_lowercase(text);
    contains(to_lowercase(show.title.as_str()).as_str(), wanted.as_str()) || contains(
        to_lowercase(show.alternative_title.as_str()).as_str(),
        wanted.as_str(),
    )
}

/// The shows that a search for `text` finds, in the order of the list.
pub fn search(shows: &Vec<Show>, text: &str) -> (chosen: Vec<Show>)
    ensures
        views(chosen@) == views(shows@).filter(|show: ShowView| found_by(show, text@)),
{
    let ghost wanted = |show: ShowView| found_by(show, text@);
    let mut chosen: Vec<Show> = Vec::new();
    let mut i: usize = 0;
    proof {
        reveal(Seq::filter);
        assert(views(shows@).take(0) =~= Seq::<ShowView>::empty());
        assert(views(chosen@) =~= Seq::<ShowView>::empty());
    }
    while i < shows.len()
        invariant
            i <= shows@.len(),
            wanted == |show: ShowView| found_by(show, text@),
            views(chosen@) == views(shows@).take(i as int).filter(wanted),
        decreases shows@.len() - i,
    {
        let ghost so_far = views(chosen@);
        if matches_search(&shows[i], text) {
            chosen.push(copy_of(&shows[i]));
            assert(views(chosen@) =~= so_far.push(shows@[i as int]@));
        }
        proof {
            let seen = views(shows@).take(i as int);
            assert(views(shows@).take(i + 1) =~= seen.push(shows@[i as int]@));
            seen.lemma_filter_push(shows@[i as int]@, wanted);
        }
        i = i + 1;
    }
    assert(views(shows@).take(shows@.len() as int) =~= views(shows@));
    chosen
}

/// Asks the calculator whether a show has an episode that the viewer has
/// not watched, at the instant that the machine's clock shows. A show whose
/// release time cannot be read has none, and neither has one that releases
/// nothing.
pub fn check_new_episode_available(show: &Show) -> (available: bool)
    ensures
        available ==> available_at_some_instant(
            show@.release_time,
            show@.episode as u32,
            show@.schedule(),
        ),
        available ==> !releases_nothing(show@.schedule()),
{
    available_or_not(
        check_new_episodes_available(
            show.release_time.as_str(),
            #[verifier::truncate] (show.episode as u32),
            show.schedule(),
        ),
    )
}

} // verus!
