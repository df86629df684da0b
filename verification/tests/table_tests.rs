//! The insert semantics of the `media` table model: check constraints,
//! the unique `(tmdb_id, media_type)` pair, and the timestamp defaults.

use media_tracker::db::Database;
use media_tracker::table::InsertError;
use media_tracker::table::MediaTable;
use media_tracker::table::MediaType;
use media_tracker::table::NewMedia;
use media_tracker::table::WatchStatus;

fn new_media(tmdb_id: i64, media_type: &str, status: &str, user_rating: Option<i64>) -> NewMedia {
    NewMedia {
        tmdb_id,
        media_type: media_type.to_string(),
        title: "Example title".to_string(),
        poster_path: None,
        backdrop_path: None,
        overview: None,
        release_date: None,
        genres: None,
        vote_average: None,
        status: status.to_string(),
        user_rating,
        user_notes: None,
        watched_date: None,
        created_at: None,
        updated_at: None,
    }
}

const NOW: &str = "2024-01-01 00:00:00";

#[test]
fn duplicate_pair_is_rejected() {
    let mut t = MediaTable::new();
    assert_eq!(t.insert(new_media(42, "movie", "watched", None), NOW), Ok(1));
    assert_eq!(
        t.insert(new_media(42, "movie", "watchlist", Some(3)), NOW),
        Err(InsertError::DuplicatePair)
    );
    assert_eq!(t.len(), 1);
}

#[test]
fn same_tmdb_id_with_other_media_type_is_accepted() {
    let mut t = MediaTable::new();
    assert_eq!(t.insert(new_media(42, "movie", "watched", None), NOW), Ok(1));
    assert_eq!(t.insert(new_media(42, "tv", "watched", None), NOW), Ok(2));
    assert_eq!(t.len(), 2);
}

#[test]
fn media_type_outside_movie_and_tv_fails_the_check() {
    let mut t = MediaTable::new();
    assert_eq!(
        t.insert(new_media(1, "book", "watched", None), NOW),
        Err(InsertError::MediaTypeCheck)
    );
    assert_eq!(
        t.insert(new_media(1, "Movie", "watched", None), NOW),
        Err(InsertError::MediaTypeCheck)
    );
    assert_eq!(t.len(), 0);
}

#[test]
fn status_outside_watched_and_watchlist_fails_the_check() {
    let mut t = MediaTable::new();
    assert_eq!(
        t.insert(new_media(1, "movie", "planned", None), NOW),
        Err(InsertError::StatusCheck)
    );
    assert_eq!(t.len(), 0);
}

#[test]
fn user_rating_six_and_minus_one_fail_zero_through_five_succeed() {
    let mut t = MediaTable::new();
    assert_eq!(
        t.insert(new_media(1, "movie", "watched", Some(6)), NOW),
        Err(InsertError::UserRatingCheck)
    );
    assert_eq!(
        t.insert(new_media(1, "movie", "watched", Some(-1)), NOW),
        Err(InsertError::UserRatingCheck)
    );
    for rating in 0..=5 {
        let r = t.insert(new_media(100 + rating, "movie", "watched", Some(rating)), NOW);
        assert_eq!(r, Ok(rating + 1));
    }
    assert_eq!(t.len(), 6);
}

#[test]
fn timestamps_default_to_now_and_explicit_values_are_kept() {
    let mut t = MediaTable::new();
    assert_eq!(t.insert(new_media(1, "movie", "watched", None), NOW), Ok(1));
    let mut explicit = new_media(2, "tv", "watchlist", None);
    explicit.created_at = Some("2020-06-01 12:00:00".to_string());
    assert_eq!(t.insert(explicit, NOW), Ok(2));
    assert_eq!(t.rows[0].created_at, NOW);
    assert_eq!(t.rows[0].updated_at, NOW);
    assert_eq!(t.rows[1].created_at, "2020-06-01 12:00:00");
    assert_eq!(t.rows[1].updated_at, NOW);
}

#[test]
fn stored_rows_carry_the_typed_columns() {
    let mut t = MediaTable::new();
    let mut n = new_media(7, "tv", "watchlist", Some(4));
    n.overview = Some("An overview".to_string());
    assert_eq!(t.insert(n, NOW), Ok(1));
    assert_eq!(t.rows[0].id, 1);
    assert_eq!(t.rows[0].tmdb_id, 7);
    assert_eq!(t.rows[0].media_type, MediaType::Tv);
    assert_eq!(t.rows[0].status, WatchStatus::Watchlist);
    assert_eq!(t.rows[0].user_rating, Some(4));
    assert_eq!(t.rows[0].overview.as_deref(), Some("An overview"));
}

#[test]
fn migration_creates_the_table_once_and_reapplying_is_a_noop() {
    let mut d = Database::new();
    assert!(d.media.is_none());
    d.apply_media_migration();
    assert!(d.media.is_some());
    assert_eq!(d.applied, vec![1]);
    assert_eq!(d.media.as_ref().unwrap().rows.len(), 0);

    // A row survives a re-application: the statement creates the table
    // only if it does not exist, and the runner skips known versions.
    let table = d.media.as_mut().unwrap();
    assert_eq!(table.insert(new_media(42, "movie", "watched", None), NOW), Ok(1));
    d.apply_media_migration();
    assert_eq!(d.applied, vec![1]);
    assert_eq!(d.media.as_ref().unwrap().rows.len(), 1);
}
