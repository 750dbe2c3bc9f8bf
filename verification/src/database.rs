//! The stored list of shows: the statements that change it, and what a row
//! of it says. Running a statement is left to the caller.

use vstd::prelude::*;
use crate::datetime::{
    available_at_some_instant, available_or_not, check_new_episodes_available,
};
use crate::release::releases_nothing;
use crate::show::{Show, ShowType, ShowView, Status};
use crate::text::{decimal, decimal_text, replace_all, replaced};

verus! {

/// The file that holds the list.
pub const DATABASE_NAME: &'static str = "watchlist.db";

/// The number of columns that a show is written into.
pub const COLUMNS: usize = 20;

/// A text with every straight quotation mark turned into a curly one, so
/// that it cannot end the quotation that it is written into.
pub open spec fn quoted_safely(text: Seq<char>) -> Seq<char> {
    replaced(text, "\""@, "“"@)
}

/// A truth value as text.
pub open spec fn truth_text(b: bool) -> Seq<char> {
    if b {
        "true"@
    } else {
        "false"@
    }
}

/// The name of the column with the given number.
pub open spec fn column_name(i: int) -> Seq<char> {
    if i == 0 {
        "title"@
    } else if i == 1 {
        "alternative_title"@
    } else if i == 2 {
        "release_date"@
    } else if i == 3 {
        "about"@
    } else if i == 4 {
        "link_to_show"@
    } else if i == 5 {
        "score"@
    } else if i == 6 {
        "favorite"@
    } else if i == 7 {
        "status"@
    } else if i == 8 {
        "season"@
    } else if i == 9 {
        "episodes_count"@
    } else if i == 10 {
        "episode"@
    } else if i == 11 {
        "release_time"@
    } else if i == 12 {
        "schedule_monday"@
    } else if i == 13 {
        "schedule_tuesday"@
    } else if i == 14 {
        "schedule_wednesday"@
    } else if i == 15 {
        "schedule_thursday"@
    } else if i == 16 {
        "schedule_friday"@
    } else if i == 17 {
        "schedule_saturday"@
    } else if i == 18 {
        "schedule_sunday"@
    } else {
        "show_type"@
    }
}

/// What is written into each column for a show, in the order of the
/// columns. Title, original title and summary are made safe for quotation.
pub open spec fn stored_values(show: ShowView) -> Seq<Seq<char>> {
    seq![
        quoted_safely(show.title),
        quoted_safely(show.alternative_title),
        show.release_date,
        quoted_safely(show.about),
        show.link_to_show,
        decimal_text(show.score as int),
        truth_text(show.favorite),
        decimal_text(show.status.stored()),
        decimal_text(show.season as int),
        decimal_text(show.episodes_count as int),
        decimal_text(show.episode as int),
        show.release_time,
        decimal_text(show.schedule_monday as int),
        decimal_text(show.schedule_tuesday as int),
        decimal_text(show.schedule_wednesday as int),
        decimal_text(show.schedule_thursday as int),
        decimal_text(show.schedule_friday as int),
        decimal_text(show.schedule_saturday as int),
        decimal_text(show.schedule_sunday as int),
        decimal_text(show.show_type.stored()),
    ]
}

/// `text` between quotation marks.
pub open spec fn quoted(text: Seq<char>) -> Seq<char> {
    "\""@ + text + "\""@
}

/// The first `n` columns, each set to its quoted value, with commas between.
pub open spec fn assignments(values: Seq<Seq<char>>, n: nat) -> Seq<char>
    decreases n,
{
    if n == 0 {
        Seq::empty()
    } else {
        let before = assignments(values, (n - 1) as nat);
        let separated = if n == 1 {
            before
        } else {
            before + ", "@
        };
        separated + column_name(n - 1) + " = "@ + quoted(values[n - 1])
    }
}

/// The names of the first `n` columns, with commas between.
pub open spec fn column_list(n: nat) -> Seq<char>
    decreases n,
{
    if n == 0 {
        Seq::empty()
    } else {
        let before = column_list((n - 1) as nat);
        let separated = if n == 1 {
            before
        } else {
            before + ", "@
        };
        separated + column_name(n - 1)
    }
}

/// The first `n` values, each quoted, with commas between.
pub open spec fn value_list(values: Seq<Seq<char>>, n: nat) -> Seq<char>
    decreases n,
{
    if n == 0 {
        Seq::empty()
    } else {
        let before = value_list(values, (n - 1) as nat);
        let separated = if n == 1 {
            before
        } else {
            before + ", "@
        };
        separated + quoted(values[n - 1])
    }
}

/// The statement that writes a show over the stored one of the same id.
pub open spec fn update_statement(show: ShowView) -> Seq<char> {
    "UPDATE list SET "@ + assignments(stored_values(show), COLUMNS as nat) + " WHERE id = "@
        + decimal_text(show.id as int) + ";"@
}

/// The statement that stores a show which has no id yet.
pub open spec fn insert_statement(show: ShowView) -> Seq<char> {
    "REPLACE INTO list("@ + column_list(COLUMNS as nat) + ") VALUES ("@ + value_list(
        stored_values(show),
        COLUMNS as nat,
    ) + ");"@
}

/// The statement that sets one column of the show with the given id.
pub open spec fn change_statement(column: Seq<char>, value: Seq<char>, id: int) -> Seq<char> {
    "UPDATE list SET "@ + column + " = "@ + quoted(value) + " WHERE id = "@ + quoted(
        decimal_text(id),
    ) + ";"@
}

/// The statement that stores a picture, given with it, for the show of the
/// given title.
pub open spec fn picture_statement(title: Seq<char>) -> Seq<char> {
    "UPDATE list SET image = ? WHERE title = "@ + quoted(title) + ";"@
}

/// The statement that takes the show of the given title off the list.
pub open spec fn delete_statement(title: Seq<char>) -> Seq<char> {
    "DELETE FROM list WHERE title = "@ + quoted(title) + ";"@
}

/// The statements that store a show.
#[derive(Clone, Debug)]
pub struct SaveStatements {
    /// Stores all of the show but its picture.
    pub show: String,
    /// Stores the picture, for a show that has one; the picture's bytes are
    /// its one parameter.
    pub picture: Option<String>,
}

/// What `add_show` gives for a show.
pub open spec fn save_statement(show: ShowView) -> Seq<char> {
    if show.id != 0 {
        update_statement(show)
    } else {
        insert_statement(show)
    }
}

fn name_of_column(i: usize) -> (name: &'static str)
    requires
        i < COLUMNS,
    ensures
        name@ == column_name(i as int),
{
    match i {
        0 => "title",
        1 => "alternative_title",
        2 => "release_date",
        3 => "about",
        4 => "link_to_show",
        5 => "score",
        6 => "favorite",
        7 => "status",
        8 => "season",
        9 => "episodes_count",
        10 => "episode",
        11 => "release_time",
        12 => "schedule_monday",
        13 => "schedule_tuesday",
        14 => "schedule_wednesday",
        15 => "schedule_thursday",
        16 => "schedule_friday",
        17 => "schedule_saturday",
        18 => "schedule_sunday",
        _ => "show_type",
    }
}

fn make_safe(text: &str) -> (safe: String)
    ensures
        safe@ == quoted_safely(text@),
{
    proof {
        reveal_strlit("\"");
    }
    replace_all(text, "\"", "“")
}

fn truth(b: bool) -> (text: String)
    ensures
        text@ == truth_text(b),
{
    if b {
        "true".to_owned()
    } else {
        "false".to_owned()
    }
}

/// The views of the texts that a vector holds.
pub open spec fn texts_of(values: Seq<String>) -> Seq<Seq<char>> {
    Seq::new(values.len(), |i: int| values[i]@)
}

fn values_of(s: &Show) -> (values: Vec<String>)
    ensures
        values@.len() == COLUMNS,
        texts_of(values@) == stored_values(s@),
{
    let mut values: Vec<String> = Vec::new();
    values.push(make_safe(s.title.as_str()));
    values.push(make_safe(s.alternative_title.as_str()));
    values.push(s.release_date.clone());
    values.push(make_safe(s.about.as_str()));
    values.push(s.link_to_show.clone());
    values.push(decimal(s.score as i64));
    values.push(truth(s.favorite));
    values.push(decimal(s.status.code()));
    values.push(decimal(s.season as i64));
    values.push(decimal(s.episodes_count as i64));
    values.push(decimal(s.episode as i64));
    values.push(s.release_time.clone());
    values.push(decimal(s.schedule_monday as i64));
    values.push(decimal(s.schedule_tuesday as i64));
    values.push(decimal(s.schedule_wednesday as i64));
    values.push(decimal(s.schedule_thursday as i64));
    values.push(decimal(s.schedule_friday as i64));
    values.push(decimal(s.schedule_saturday as i64));
    values.push(decimal(s.schedule_sunday as i64));
    values.push(decimal(s.show_type.code()));
    assert(texts_of(values@) =~= stored_values(s@));
    values
}

fn append_quoted(statement: &mut String, text: &str)
    ensures
        final(statement)@ == old(statement)@ + quoted(text@),
{
    statement.append("\"");
    statement.append(text);
    statement.append("\"");
    assert(final(statement)@ =~= old(statement)@ + quoted(text@));
}

fn update_of(s: &Show) -> (statement: String)
    ensures
        statement@ == update_statement(s@),
{
    let values = values_of(s);
    let mut statement = "UPDATE list SET ".to_owned();
    let ghost head = statement@;
    let mut i: usize = 0;
    while i < COLUMNS
        invariant
            i <= COLUMNS,
            values@.len() == COLUMNS,
            texts_of(values@) == stored_values(s@),
            statement@ == head + assignments(stored_values(s@), i as nat),
        decreases COLUMNS - i,
    {
        let ghost before = statement@;
        if i > 0 {
            statement.append(", ");
        }
        statement.append(name_of_column(i));
        statement.append(" = ");
        append_quoted(&mut statement, values[i].as_str());
        proof {
            assert(texts_of(values@)[i as int] == values@[i as int]@);
            assert(statement@ =~= head + assignments(stored_values(s@), (i + 1) as nat));
        }
        i = i + 1;
    }
    statement.append(" WHERE id = ");
    statement.append(decimal(s.id as i64).as_str());
    statement.append(";");
    statement
}

fn insert_of(s: &Show) -> (statement: String)
    ensures
        statement@ == insert_statement(s@),
{
    let values = values_of(s);
    let mut statement = "REPLACE INTO list(".to_owned();
    let ghost head = statement@;
    let mut i: usize = 0;
    while i < COLUMNS
        invariant
            i <= COLUMNS,
            statement@ == head + column_list(i as nat),
        decreases COLUMNS - i,
    {
        if i > 0 {
            statement.append(", ");
        }
        statement.append(name_of_column(i));
        proof {
            assert(statement@ =~= head + column_list((i + 1) as nat));
        }
        i = i + 1;
    }
    statement.append(") VALUES (");
    let ghost middle = statement@;
    let mut j: usize = 0;
    while j < COLUMNS
        invariant
            j <= COLUMNS,
            values@.len() == COLUMNS,
            texts_of(values@) == stored_values(s@),
            statement@ == middle + value_list(stored_values(s@), j as nat),
        decreases COLUMNS - j,
    {
        if j > 0 {
            statement.append(", ");
        }
        append_quoted(&mut statement, values[j].as_str());
        proof {
            assert(texts_of(values@)[j as int] == values@[j as int]@);
            assert(statement@ =~= middle + value_list(stored_values(s@), (j + 1) as nat));
        }
        j = j + 1;
    }
    statement.append(");");
    statement
}

fn change_of(column: &str, value: &str, id: i32) -> (statement: String)
    ensures
        statement@ == change_statement(column@, value@, id as int),
{
    let mut statement = "UPDATE list SET ".to_owned();
    statement.append(column);
    statement.append(" = ");
    append_quoted(&mut statement, value);
    statement.append(" WHERE id = ");
    append_quoted(&mut statement, decimal(id as i64).as_str());
    statement.append(";");
    statement
}

/// The statements that store a show: an update of the stored show where
/// the show has an id, a new row where its id is 0; and, for a show with a
/// picture, the statement that stores the picture under the show's title.
pub fn add_show(s: &Show) -> (statements: SaveStatements)
    ensures
        statements.show@ == save_statement(s@),
        statements.picture is Some <==> s@.link_to_picture.len() > 0,
        statements.picture matches Some(picture) ==> picture@ == picture_statement(s@.title),
{
    let show = if s.id != 0 {
        update_of(s)
    } else {
        insert_of(s)
    };
    let picture = if !s.link_to_picture.as_str().is_empty() {
        let mut statement = "UPDATE list SET image = ? WHERE title = ".to_owned();
        append_quoted(&mut statement, s.title.as_str());
        statement.append(";");
        Some(statement)
    } else {
        None
    };
    SaveStatements { show, picture }
}

/// The statement that takes a show off the list, by its title.
pub fn remove_show(show: &Show) -> (statement: String)
    ensures
        statement@ == delete_statement(show@.title),
{
    let mut statement = "DELETE FROM list WHERE title = ".to_owned();
    append_quoted(&mut statement, show.title.as_str());
    statement.append(";");
    statement
}

/// The statement that stores the score of a show.
pub fn score_changed(show: &Show) -> (statement: String)
    ensures
        statement@ == change_statement("score"@, decimal_text(show@.score as int), show@.id as int),
{
    change_of("score", decimal(show.score as i64).as_str(), show.id)
}

/// The statement that stores the status of a show.
pub fn status_changed(show: &Show) -> (statement: String)
    ensures
        statement@ == change_statement(
            "status"@,
            decimal_text(show@.status.stored()),
            show@.id as int,
        ),
{
    change_of("status", decimal(show.status.code()).as_str(), show.id)
}

/// The statement that stores whether a show is a favorite.
pub fn favorite_changed(show: &Show) -> (statement: String)
    ensures
        statement@ == change_statement("favorite"@, truth_text(show@.favorite), show@.id as int),
{
    change_of("favorite", truth(show.favorite).as_str(), show.id)
}

/// The statement that stores the season that the viewer is at.
pub fn season_changed(show: &Show) -> (statement: String)
    ensures
        statement@ == change_statement(
            "season"@,
            decimal_text(show@.season as int),
            show@.id as int,
        ),
{
    change_of("season", decimal(show.season as i64).as_str(), show.id)
}

/// The statement that stores the episode that the viewer is at.
pub fn episode_changed(show: &Show) -> (statement: String)
    ensures
        statement@ == change_statement(
            "episode"@,
            decimal_text(show@.episode as int),
            show@.id as int,
        ),
{
    change_of("episode", decimal(show.episode as i64).as_str(), show.id)
}

/// A row of the stored list, as it is read.
#[derive(Clone, Debug)]
pub struct StoredShow {
    pub id: i64,
    pub title: String,
    pub alternative_title: String,
    pub release_date: String,
    pub about: String,
    pub link_to_show: String,
    pub score: i64,
    /// `true` for a favorite, written out.
    pub favorite: String,
    pub status: i64,
    pub show_type: i64,
    pub season: i64,
    pub episodes_count: i64,
    pub episode: i64,
    pub release_time: String,
    pub schedule_monday: i64,
    pub schedule_tuesday: i64,
    pub schedule_wednesday: i64,
    pub schedule_thursday: i64,
    pub schedule_friday: i64,
    pub schedule_saturday: i64,
    pub schedule_sunday: i64,
}

/// The show that a row stands for, at the given place of the list and with
/// the given answer to whether it has new episodes. A stored number is cut
/// to the 32 bits that a show keeps of it.
pub open spec fn show_of_row_view(row: StoredShow, index: i32, available: bool) -> ShowView {
    ShowView {
        id: row.id as i32,
        index: index,
        title: row.title@,
        alternative_title: row.alternative_title@,
        release_date: row.release_date@,
        about: row.about@,
        link_to_show: row.link_to_show@,
        link_to_picture: Seq::empty(),
        score: row.score as i32,
        favorite: row.favorite@ == "true"@,
        status: Status::of_stored(row.status as int),
        show_type: ShowType::of_stored(row.show_type as int),
        season: row.season as i32,
        episodes_count: row.episodes_count as i32,
        episode: row.episode as i32,
        release_time: row.release_time@,
        schedule_monday: row.schedule_monday as i32,
        schedule_tuesday: row.schedule_tuesday as i32,
        schedule_wednesday: row.schedule_wednesday as i32,
        schedule_thursday: row.schedule_thursday as i32,
        schedule_friday: row.schedule_friday as i32,
        schedule_saturday: row.schedule_saturday as i32,
        schedule_sunday: row.schedule_sunday as i32,
        new_episodes_available: available,
    }
}

/// The weekly schedule that a row holds, from Monday to Sunday.
pub open spec fn row_schedule(row: StoredShow) -> Seq<u32> {
    show_of_row_view(row, 0, false).schedule()
}

/// Makes the show that a row stands for.
pub fn show_of_row(row: &StoredShow, index: i32, new_episodes_available: bool) -> (show: Show)
    ensures
        show@ == show_of_row_view(*row, index, new_episodes_available),
{
    let favorite = row.favorite == "true".to_owned();
    Show {
        id: #[verifier::truncate] (row.id as i32),
        index,
        title: row.title.clone(),
        alternative_title: row.alternative_title.clone(),
        release_date: row.release_date.clone(),
        about: row.about.clone(),
        link_to_show: row.link_to_show.clone(),
        link_to_picture: String::new(),
        score: #[verifier::truncate] (row.score as i32),
        favorite,
        status: Status::from_code(row.status),
        show_type: ShowType::from_code(row.show_type),
        season: #[verifier::truncate] (row.season as i32),
        episodes_count: #[verifier::truncate] (row.episodes_count as i32),
        episode: #[verifier::truncate] (row.episode as i32),
        release_time: row.release_time.clone(),
        schedule_monday: #[verifier::truncate] (row.schedule_monday as i32),
        schedule_tuesday: #[verifier::truncate] (row.schedule_tuesday as i32),
        schedule_wednesday: #[verifier::truncate] (row.schedule_wednesday as i32),
        schedule_thursday: #[verifier::truncate] (row.schedule_thursday as i32),
        schedule_friday: #[verifier::truncate] (row.schedule_friday as i32),
        schedule_saturday: #[verifier::truncate] (row.schedule_saturday as i32),
        schedule_sunday: #[verifier::truncate] (row.schedule_sunday as i32),
        new_episodes_available,
    }
}

/// Makes the shows that the rows stand for, in the order of the rows, each
/// with its place in that order. Whether a show has new episodes is asked
/// of the calculator, at the instant that the machine's clock shows; a show
/// whose release time it cannot read, or whose schedule is empty, has none.
pub fn shows_of_rows(rows: &Vec<StoredShow>) -> (shows: Vec<Show>)
    requires
        rows@.len() <= i32::MAX,
    ensures
        shows@.len() == rows@.len(),
        forall|i: int|
            0 <= i < rows@.len() ==> (#[trigger] shows@[i])@ == show_of_row_view(
                rows@[i],
                i as i32,
                shows@[i].new_episodes_available,
            ),
        forall|i: int|
            0 <= i < rows@.len() && (#[trigger] shows@[i]).new_episodes_available ==> {
                &&& available_at_some_instant(
                    rows@[i].release_time@,
                    (rows@[i].episode as i32) as u32,
                    row_schedule(rows@[i]),
                )
                &&& !releases_nothing(row_schedule(rows@[i]))
            },
{
    let mut shows: Vec<Show> = Vec::new();
    let mut index: usize = 0;
    while index < rows.len()
        invariant
            index <= rows@.len(),
            rows@.len() <= i32::MAX,
            shows@.len() == index,
            forall|i: int|
                0 <= i < index ==> (#[trigger] shows@[i])@ == show_of_row_view(
                    rows@[i],
                    i as i32,
                    shows@[i].new_episodes_available,
                ),
            forall|i: int|
                0 <= i < index && (#[trigger] shows@[i]).new_episodes_available ==> {
                    &&& available_at_some_instant(
                        rows@[i].release_time@,
                        (rows@[i].episode as i32) as u32,
                        row_schedule(rows@[i]),
                    )
                    &&& !releases_nothing(row_schedule(rows@[i]))
                },
        decreases rows@.len() - index,
    {
        let row = &rows[index];
        let unchecked = show_of_row(row, index as i32, false);
        let answer = check_new_episodes_available(
            row.release_time.as_str(),
            #[verifier::truncate] (unchecked.episode as u32),
            unchecked.schedule(),
        );
        let show = show_of_row(row, index as i32, available_or_not(answer));
        proof {
            assert(unchecked@.schedule() == row_schedule(*row));
        }
        shows.push(show);
        index = index + 1;
    }
    shows
}

} // verus!
