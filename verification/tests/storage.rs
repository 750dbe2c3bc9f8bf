use watchlist::database::{
    add_show, episode_changed, favorite_changed, remove_show, score_changed,
    season_changed, show_of_row, shows_of_rows, status_changed, StoredShow, COLUMNS,
    DATABASE_NAME,
};
use watchlist::datetime::available_or_not;
use watchlist::release::AvailabilityError;
use watchlist::show::{Show, ShowType, Status};
use watchlist::text::decimal;

fn the_wire() -> Show {
    let mut show = Show::default();
    show.id = 7;
    show.index = 3;
    show.title = "The \"Wire\"".to_string();
    show.alternative_title = "La \"Wire\"".to_string();
    show.release_date = "2002–2008".to_string();
    show.about = "Police & \"thieves\"".to_string();
    show.link_to_show = "https://www.imdb.com/title/tt0306414/".to_string();
    show.score = 9;
    show.favorite = true;
    show.status = Status::Completed;
    show.show_type = ShowType::Serial;
    show.season = 5;
    show.episodes_count = 60;
    show.episode = -3;
    show.release_time = "2002-06-02 21:00".to_string();
    show.schedule_tuesday = 1;
    show.schedule_sunday = 2;
    show
}

fn row() -> StoredShow {
    StoredShow {
        id: 12,
        title: "Kaiju No. 8".to_string(),
        alternative_title: "Kaijuu 8-gou".to_string(),
        release_date: "2024– ".to_string(),
        about: "A man turns into a monster.".to_string(),
        link_to_show: "https://www.imdb.com/title/tt21975436/".to_string(),
        score: 8,
        favorite: "true".to_string(),
        status: 1,
        show_type: 3,
        season: 1,
        episodes_count: 12,
        episode: 8,
        release_time: "2024-04-14 06:00".to_string(),
        schedule_monday: 0,
        schedule_tuesday: 0,
        schedule_wednesday: 0,
        schedule_thursday: 0,
        schedule_friday: 0,
        schedule_saturday: 0,
        schedule_sunday: 1,
    }
}

#[test]
fn list_is_kept_in_one_file() {
    assert_eq!(DATABASE_NAME, "watchlist.db");
    assert_eq!(COLUMNS, 20);
}

#[test]
fn numbers_are_written_in_decimal() {
    assert_eq!(decimal(0), "0");
    assert_eq!(decimal(7), "7");
    assert_eq!(decimal(10), "10");
    assert_eq!(decimal(-1), "-1");
    assert_eq!(decimal(1_234_567_890), "1234567890");
    assert_eq!(decimal(-9_000_000_001), "-9000000001");
    assert_eq!(decimal(i64::MAX), "9223372036854775807");
    assert_eq!(decimal(i64::MIN), "-9223372036854775808");
    for n in [-1000i64, -99, -10, -9, 9, 99, 100, 101, 65_535, 2_147_483_647] {
        assert_eq!(decimal(n), n.to_string());
    }
}

#[test]
fn show_with_an_id_is_updated() {
    let statements = add_show(&the_wire());
    assert_eq!(statements.show, UPDATE);
    assert_eq!(statements.picture, None);
}

#[test]
fn show_without_an_id_is_stored_anew() {
    let mut show = the_wire();
    show.id = 0;
    let statements = add_show(&show);
    assert_eq!(statements.show, INSERT);
    assert_eq!(statements.picture, None);
}

#[test]
fn picture_is_stored_under_the_title() {
    let mut show = the_wire();
    show.link_to_picture = "/tmp/watchlist/wire.jpg".to_string();
    let statements = add_show(&show);
    assert_eq!(statements.show, UPDATE);
    assert_eq!(
        statements.picture,
        Some("UPDATE list SET image = ? WHERE title = \"The \"Wire\"\";".to_string())
    );
}

#[test]
fn blank_show_is_stored_with_empty_texts() {
    let stored = add_show(&Show::default()).show;
    assert!(stored.starts_with("REPLACE INTO list(title, alternative_title, "));
    assert!(stored.ends_with(
        ") VALUES (\"\", \"\", \"\", \"\", \"\", \"0\", \"false\", \"0\", \"0\", \"0\", \"0\", \"\", \
\"0\", \"0\", \"0\", \"0\", \"0\", \"0\", \"0\", \"0\");"
    ));
}

#[test]
fn show_is_removed_by_its_title() {
    assert_eq!(remove_show(&the_wire()), "DELETE FROM list WHERE title = \"The \"Wire\"\";");
    assert_eq!(remove_show(&Show::default()), "DELETE FROM list WHERE title = \"\";");
}

#[test]
fn single_changes_name_their_column() {
    let show = the_wire();
    assert_eq!(score_changed(&show), "UPDATE list SET score = \"9\" WHERE id = \"7\";");
    assert_eq!(status_changed(&show), "UPDATE list SET status = \"2\" WHERE id = \"7\";");
    assert_eq!(favorite_changed(&show), "UPDATE list SET favorite = \"true\" WHERE id = \"7\";");
    assert_eq!(season_changed(&show), "UPDATE list SET season = \"5\" WHERE id = \"7\";");
    assert_eq!(episode_changed(&show), "UPDATE list SET episode = \"-3\" WHERE id = \"7\";");
    let mut other = Show::default();
    other.id = -4;
    other.status = Status::Dropped;
    assert_eq!(status_changed(&other), "UPDATE list SET status = \"3\" WHERE id = \"-4\";");
    assert_eq!(favorite_changed(&other), "UPDATE list SET favorite = \"false\" WHERE id = \"-4\";");
}

#[test]
fn statuses_and_kinds_are_stored_as_numbers() {
    let statuses = [Status::WatchLater, Status::Watching, Status::Completed, Status::Dropped];
    let kinds = [ShowType::Serial, ShowType::Film, ShowType::Cartoon, ShowType::Anime];
    for code in 0..4i64 {
        assert_eq!(statuses[code as usize].code(), code);
        assert_eq!(Status::from_code(code), statuses[code as usize]);
        assert_eq!(kinds[code as usize].code(), code);
        assert_eq!(ShowType::from_code(code), kinds[code as usize]);
    }
    for code in [-1i64, 4, 5, 100, i64::MAX, i64::MIN] {
        assert_eq!(Status::from_code(code), Status::WatchLater);
        assert_eq!(ShowType::from_code(code), ShowType::Serial);
    }
}

#[test]
fn row_is_read_into_a_show() {
    let show = show_of_row(&row(), 4, true);
    assert_eq!(show.id, 12);
    assert_eq!(show.index, 4);
    assert_eq!(show.title, "Kaiju No. 8");
    assert_eq!(show.alternative_title, "Kaijuu 8-gou");
    assert_eq!(show.release_date, "2024– ");
    assert_eq!(show.about, "A man turns into a monster.");
    assert_eq!(show.link_to_show, "https://www.imdb.com/title/tt21975436/");
    assert_eq!(show.link_to_picture, "");
    assert_eq!(show.score, 8);
    assert!(show.favorite);
    assert_eq!(show.status, Status::Watching);
    assert_eq!(show.show_type, ShowType::Anime);
    assert_eq!(show.season, 1);
    assert_eq!(show.episodes_count, 12);
    assert_eq!(show.episode, 8);
    assert_eq!(show.release_time, "2024-04-14 06:00");
    assert_eq!(show.schedule(), [0, 0, 0, 0, 0, 0, 1]);
    assert!(show.new_episodes_available);
    assert!(!show_of_row(&row(), 4, false).new_episodes_available);
}

#[test]
fn only_the_word_true_makes_a_favorite() {
    for text in ["false", "", "TRUE", "True", "1", " true", "true "] {
        let mut stored = row();
        stored.favorite = text.to_string();
        assert!(!show_of_row(&stored, 0, false).favorite);
    }
}

#[test]
fn stored_numbers_are_cut_to_32_bits() {
    let mut stored = row();
    stored.id = (1i64 << 32) + 5;
    stored.score = -1;
    stored.season = i32::MAX as i64 + 1;
    stored.episode = (1i64 << 40) - 2;
    stored.schedule_monday = -1;
    let show = show_of_row(&stored, 0, false);
    assert_eq!(show.id, 5);
    assert_eq!(show.score, -1);
    assert_eq!(show.season, i32::MIN);
    assert_eq!(show.episode, -2);
    assert_eq!(show.schedule_monday, -1);
    assert_eq!(show.schedule()[0], u32::MAX);
}

#[test]
fn failure_of_the_calculator_counts_as_nothing_new() {
    assert!(available_or_not(Ok(true)));
    assert!(!available_or_not(Ok(false)));
    assert!(!available_or_not(Err(AvailabilityError::InvalidDateFormat)));
    assert!(!available_or_not(Err(AvailabilityError::AmbiguousOrNonexistentLocalTime)));
    assert!(!available_or_not(Err(AvailabilityError::ReleaseInFuture)));
    assert!(!available_or_not(Err(AvailabilityError::DateOutOfRange)));
}

#[test]
fn rows_become_shows_in_their_order() {
    let running = row();
    let mut caught_up = row();
    caught_up.id = 13;
    caught_up.episode = 1_000_000;
    let mut unreadable = row();
    unreadable.id = 14;
    unreadable.release_time = "next spring".to_string();
    let mut silent = row();
    silent.id = 15;
    silent.schedule_sunday = 0;
    silent.episode = 0;
    let mut ahead = row();
    ahead.id = 16;
    ahead.release_time = "9999-01-01 00:00".to_string();
    ahead.episode = 0;
    let shows = shows_of_rows(&vec![running, caught_up, unreadable, silent, ahead]);
    assert_eq!(shows.len(), 5);
    for (place, show) in shows.iter().enumerate() {
        assert_eq!(show.index, place as i32);
        assert_eq!(show.id, 12 + place as i32);
        assert_eq!(show.title, "Kaiju No. 8");
        assert_eq!(show.status, Status::Watching);
    }
    assert!(shows[0].new_episodes_available);
    assert!(!shows[1].new_episodes_available);
    assert!(!shows[2].new_episodes_available);
    assert!(!shows[3].new_episodes_available);
    assert!(!shows[4].new_episodes_available);
    assert!(shows_of_rows(&Vec::new()).is_empty());
}

const UPDATE: &str = "UPDATE list SET title = \"The “Wire“\", alternative_title = \"La “Wire“\", release_date = \"2002–2008\", about = \"Police & “thieves“\", link_to_show = \"https://www.imdb.com/title/tt0306414/\", score = \"9\", favorite = \"true\", status = \"2\", season = \"5\", episodes_count = \"60\", episode = \"-3\", release_time = \"2002-06-02 21:00\", schedule_monday = \"0\", schedule_tuesday = \"1\", schedule_wednesday = \"0\", schedule_thursday = \"0\", schedule_friday = \"0\", schedule_saturday = \"0\", schedule_sunday = \"2\", show_type = \"0\" WHERE id = 7;";

const INSERT: &str = "REPLACE INTO list(title, alternative_title, release_date, about, link_to_show, score, favorite, status, season, episodes_count, episode, release_time, schedule_monday, schedule_tuesday, schedule_wednesday, schedule_thursday, schedule_friday, schedule_saturday, schedule_sunday, show_type) VALUES (\"The “Wire“\", \"La “Wire“\", \"2002–2008\", \"Police & “thieves“\", \"https://www.imdb.com/title/tt0306414/\", \"9\", \"true\", \"2\", \"5\", \"60\", \"-3\", \"2002-06-02 21:00\", \"0\", \"1\", \"0\", \"0\", \"0\", \"0\", \"2\", \"0\");";
