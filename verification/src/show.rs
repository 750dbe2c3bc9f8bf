//! A show of the watchlist, with all that the list keeps of it.

use vstd::prelude::*;

verus! {

/// How far the viewer is with a show.
#[derive(Clone, Copy, Debug, PartialEq, Eq, Structural)]
pub enum Status {
    WatchLater,
    Watching,
    Completed,
    Dropped,
}

/// What kind of show it is.
#[derive(Clone, Copy, Debug, PartialEq, Eq, Structural)]
pub enum ShowType {
    Serial,
    Film,
    Cartoon,
    Anime,
}

impl Status {
    /// The number that the list stores for a status.
    pub open spec fn stored(self) -> int {
        match self {
            Status::WatchLater => 0,
            Status::Watching => 1,
            Status::Completed => 2,
            Status::Dropped => 3,
        }
    }

    /// The status that a stored number stands for. A number that stands for
    /// none reads as `WatchLater`.
    pub open spec fn of_stored(code: int) -> Status {
        if code == 1 {
            Status::Watching
        } else if code == 2 {
            Status::Completed
        } else if code == 3 {
            Status::Dropped
        } else {
            Status::WatchLater
        }
    }

    /// The number to store for this status.
    pub fn code(self) -> (c: i64)
        ensures
            c == self.stored(),
    {
        match self {
            Status::WatchLater => 0,
            Status::Watching => 1,
            Status::Completed => 2,
            Status::Dropped => 3,
        }
    }

    /// Reads a stored number back.
    pub fn from_code(code: i64) -> (status: Status)
        ensures
            status == Status::of_stored(code as int),
    {
        match code {
            1 => Status::Watching,
            2 => Status::Completed,
            3 => Status::Dropped,
            _ => Status::WatchLater,
        }
    }

    /// Every status comes back from the number stored for it.
    pub proof fn stored_round_trip(self)
        ensures
            Status::of_stored(self.stored()) == self,
    {
    }
}

impl ShowType {
    /// The number that the list stores for a kind of show.
    pub open spec fn stored(self) -> int {
        match self {
            ShowType::Serial => 0,
            ShowType::Film => 1,
            ShowType::Cartoon => 2,
            ShowType::Anime => 3,
        }
    }

    /// The kind that a stored number stands for. A number that stands for
    /// none reads as `Serial`.
    pub open spec fn of_stored(code: int) -> ShowType {
        if code == 1 {
            ShowType::Film
        } else if code == 2 {
            ShowType::Cartoon
        } else if code == 3 {
            ShowType::Anime
        } else {
            ShowType::Serial
        }
    }

    /// The number to store for this kind.
    pub fn code(self) -> (c: i64)
        ensures
            c == self.stored(),
    {
        match self {
            ShowType::Serial => 0,
            ShowType::Film => 1,
            ShowType::Cartoon => 2,
            ShowType::Anime => 3,
        }
    }

    /// Reads a stored number back.
    pub fn from_code(code: i64) -> (kind: ShowType)
        ensures
            kind == ShowType::of_stored(code as int),
    {
        match code {
            1 => ShowType::Film,
            2 => ShowType::Cartoon,
            3 => ShowType::Anime,
            _ => ShowType::Serial,
        }
    }

    /// Every kind comes back from the number stored for it.
    pub proof fn stored_round_trip(self)
        ensures
            ShowType::of_stored(self.stored()) == self,
    {
    }
}

/// One show of the watchlist.
#[derive(Clone, Debug)]
pub struct Show {
    /// The key of the show in the stored list; 0 for a show not stored yet.
    pub id: i32,
    /// The place of the show in the list as it is displayed.
    pub index: i32,
    pub title: String,
    pub alternative_title: String,
    pub release_date: String,
    pub about: String,
    pub link_to_show: String,
    pub link_to_picture: String,
    pub score: i32,
    pub favorite: bool,
    pub status: Status,
    pub show_type: ShowType,
    pub season: i32,
    pub episodes_count: i32,
    /// The number of the last episode that the viewer has watched.
    pub episode: i32,
    /// The first release, written as `YYYY-MM-DD HH:MM`.
    pub release_time: String,
    pub schedule_monday: i32,
    pub schedule_tuesday: i32,
    pub schedule_wednesday: i32,
    pub schedule_thursday: i32,
    pub schedule_friday: i32,
    pub schedule_saturday: i32,
    pub schedule_sunday: i32,
    pub new_episodes_available: bool,
}

/// A show as contracts see it: each text as its characters.
pub struct ShowView {
    pub id: i32,
    pub index: i32,
    pub title: Seq<char>,
    pub alternative_title: Seq<char>,
    pub release_date: Seq<char>,
    pub about: Seq<char>,
    pub link_to_show: Seq<char>,
    pub link_to_picture: Seq<char>,
    pub score: i32,
    pub favorite: bool,
    pub status: Status,
    pub show_type: ShowType,
    pub season: i32,
    pub episodes_count: i32,
    pub episode: i32,
    pub release_time: Seq<char>,
    pub schedule_monday: i32,
    pub schedule_tuesday: i32,
    pub schedule_wednesday: i32,
    pub schedule_thursday: i32,
    pub schedule_friday: i32,
    pub schedule_saturday: i32,
    pub schedule_sunday: i32,
    pub new_episodes_available: bool,
}

impl View for Show {
    type V = ShowView;

    open spec fn view(&self) -> ShowView {
        ShowView {
            id: self.id,
            index: self.index,
            title: self.title@,
            alternative_title: self.alternative_title@,
            release_date: self.release_date@,
            about: self.about@,
            link_to_show: self.link_to_show@,
            link_to_picture: self.link_to_picture@,
            score: self.score,
            favorite: self.favorite,
            status: self.status,
            show_type: self.show_type,
            season: self.season,
            episodes_count: self.episodes_count,
            episode: self.episode,
            release_time: self.release_time@,
            schedule_monday: self.schedule_monday,
            schedule_tuesday: self.schedule_tuesday,
            schedule_wednesday: self.schedule_wednesday,
            schedule_thursday: self.schedule_thursday,
            schedule_friday: self.schedule_friday,
            schedule_saturday: self.schedule_saturday,
            schedule_sunday: self.schedule_sunday,
            new_episodes_available: self.new_episodes_available,
        }
    }
}

impl ShowView {
    /// The show of which nothing is known: every text empty, every number 0,
    /// to watch later, a serial.
    pub open spec fn blank() -> ShowView {
        ShowView {
            id: 0,
            index: 0,
            title: Seq::empty(),
            alternative_title: Seq::empty(),
            release_date: Seq::empty(),
            about: Seq::empty(),
            link_to_show: Seq::empty(),
            link_to_picture: Seq::empty(),
            score: 0,
            favorite: false,
            status: Status::WatchLater,
            show_type: ShowType::Serial,
            season: 0,
            episodes_count: 0,
            episode: 0,
            release_time: Seq::empty(),
            schedule_monday: 0,
            schedule_tuesday: 0,
            schedule_wednesday: 0,
            schedule_thursday: 0,
            schedule_friday: 0,
            schedule_saturday: 0,
            schedule_sunday: 0,
            new_episodes_available: false,
        }
    }

    /// The weekly schedule of the show, from Monday to Sunday, each count as
    /// the unsigned number of the same bits.
    pub open spec fn schedule(self) -> Seq<u32> {
        seq![
            self.schedule_monday as u32,
            self.schedule_tuesday as u32,
            self.schedule_wednesday as u32,
            self.schedule_thursday as u32,
            self.schedule_friday as u32,
            self.schedule_saturday as u32,
            self.schedule_sunday as u32,
        ]
    }
}

impl Default for Show {
    fn default() -> (show: Show)
        ensures
            show@ == ShowView::blank(),
    {
        Show {
            id: 0,
            index: 0,
            title: String::new(),
            alternative_title: String::new(),
            release_date: String::new(),
            about: String::new(),
            link_to_show: String::new(),
            link_to_picture: String::new(),
            score: 0,
            favorite: false,
            status: Status::WatchLater,
            show_type: ShowType::Serial,
            season: 0,
            episodes_count: 0,
            episode: 0,
            release_time: String::new(),
            schedule_monday: 0,
            schedule_tuesday: 0,
            schedule_wednesday: 0,
            schedule_thursday: 0,
            schedule_friday: 0,
            schedule_saturday: 0,
            schedule_sunday: 0,
            new_episodes_available: false,
        }
    }
}

impl Show {
    /// The weekly schedule of the show, from Monday to Sunday.
    pub fn schedule(&self) -> (schedule: [u32; 7])
        ensures
            schedule@ == self@.schedule(),
    {
        let schedule: [u32; 7] = [
            #[verifier::truncate] (self.schedule_monday as u32),
            #[verifier::truncate] (self.schedule_tuesday as u32),
            #[verifier::truncate] (self.schedule_wednesday as u32),
            #[verifier::truncate] (self.schedule_thursday as u32),
            #[verifier::truncate] (self.schedule_friday as u32),
            #[verifier::truncate] (self.schedule_saturday as u32),
            #[verifier::truncate] (self.schedule_sunday as u32),
        ];
        schedule
    }
}

} // verus!
