//! The `media` table modelled as a value: rows, the check constraints on
//! `media_type`, `status` and `user_rating`, the unique `(tmdb_id,
//! media_type)` pair, and the timestamp defaults applied on insert.

use vstd::prelude::*;

verus! {

/// The values the `media_type` column admits.
#[derive(Clone, Copy, PartialEq, Eq, Structural, Debug)]
pub enum MediaType {
    Movie,
    Tv,
}

/// The values the `status` column admits.
#[derive(Clone, Copy, PartialEq, Eq, Structural, Debug)]
pub enum WatchStatus {
    Watched,
    Watchlist,
}

/// Which `media_type` strings the check constraint accepts, and the
/// variant each one denotes.
pub open spec fn spec_media_type(s: Seq<char>) -> Option<MediaType> {
    if s == "movie"@ {
        Some(MediaType::Movie)
    } else if s == "tv"@ {
        Some(MediaType::Tv)
    } else {
        None
    }
}

/// Which `status` strings the check constraint accepts, and the variant
/// each one denotes.
pub open spec fn spec_status(s: Seq<char>) -> Option<WatchStatus> {
    if s == "watched"@ {
        Some(WatchStatus::Watched)
    } else if s == "watchlist"@ {
        Some(WatchStatus::Watchlist)
    } else {
        None
    }
}

/// The check constraint on `user_rating`: absent, or between 0 and 5.
pub open spec fn rating_ok(r: Option<i64>) -> bool {
    match r {
        Some(v) => 0 <= v && v <= 5,
        None => true,
    }
}

pub fn parse_media_type(s: &String) -> (r: Option<MediaType>)
    ensures
        r == spec_media_type(s@),
{
    if *s == String::from_str("movie") {
        Some(MediaType::Movie)
    } else if *s == String::from_str("tv") {
        Some(MediaType::Tv)
    } else {
        None
    }
}

pub fn parse_status(s: &String) -> (r: Option<WatchStatus>)
    ensures
        r == spec_status(s@),
{
    if *s == String::from_str("watched") {
        Some(WatchStatus::Watched)
    } else if *s == String::from_str("watchlist") {
        Some(WatchStatus::Watchlist)
    } else {
        None
    }
}

/// A row as handed to an insert: the columns a caller may supply. The
/// typed columns of the schema (`media_type`, `status`) arrive as text,
/// exactly as an SQL insert would carry them, so that the check
/// constraints have something to reject. `vote_average` is the one
/// `REAL` column; no table rule reads it, so the model carries the
/// numeric literal in its textual form.
pub struct NewMedia {
    pub tmdb_id: i64,
    pub media_type: String,
    pub title: String,
    pub poster_path: Option<String>,
    pub backdrop_path: Option<String>,
    pub overview: Option<String>,
    pub release_date: Option<String>,
    pub genres: Option<String>,
    pub vote_average: Option<String>,
    pub status: String,
    pub user_rating: Option<i64>,
    pub user_notes: Option<String>,
    pub watched_date: Option<String>,
    pub created_at: Option<String>,
    pub updated_at: Option<String>,
}

/// A stored row, after the constraints have accepted it.
pub struct MediaRow {
    pub id: i64,
    pub tmdb_id: i64,
    pub media_type: MediaType,
    pub title: String,
    pub poster_path: Option<String>,
    pub backdrop_path: Option<String>,
    pub overview: Option<String>,
    pub release_date: Option<String>,
    pub genres: Option<String>,
    pub vote_average: Option<String>,
    pub status: WatchStatus,
    pub user_rating: Option<i64>,
    pub user_notes: Option<String>,
    pub watched_date: Option<String>,
    pub created_at: String,
    pub updated_at: String,
}

/// The mathematical image of a stored row: text columns as character
/// sequences.
pub ghost struct RowModel {
    pub id: i64,
    pub tmdb_id: i64,
    pub media_type: MediaType,
    pub title: Seq<char>,
    pub poster_path: Option<Seq<char>>,
    pub backdrop_path: Option<Seq<char>>,
    pub overview: Option<Seq<char>>,
    pub release_date: Option<Seq<char>>,
    pub genres: Option<Seq<char>>,
    pub vote_average: Option<Seq<char>>,
    pub status: WatchStatus,
    pub user_rating: Option<i64>,
    pub user_notes: Option<Seq<char>>,
    pub watched_date: Option<Seq<char>>,
    pub created_at: Seq<char>,
    pub updated_at: Seq<char>,
}

/// The view of an optional text column.
pub open spec fn opt_text(o: Option<String>) -> Option<Seq<char>> {
    match o {
        Some(s) => Some(s@),
        None => None,
    }
}

impl View for MediaRow {
    type V = RowModel;

    open spec fn view(&self) -> RowModel {
        RowModel {
            id: self.id,
            tmdb_id: self.tmdb_id,
            media_type: self.media_type,
            title: self.title@,
            poster_path: opt_text(self.poster_path),
            backdrop_path: opt_text(self.backdrop_path),
            overview: opt_text(self.overview),
            release_date: opt_text(self.release_date),
            genres: opt_text(self.genres),
            vote_average: opt_text(self.vote_average),
            status: self.status,
            user_rating: self.user_rating,
            user_notes: opt_text(self.user_notes),
            watched_date: opt_text(self.watched_date),
            created_at: self.created_at@,
            updated_at: self.updated_at@,
        }
    }
}

/// No stored row already claims this `(tmdb_id, media_type)` pair.
pub open spec fn pair_free(rows: Seq<RowModel>, tmdb_id: i64, kind: MediaType) -> bool {
    forall|i: int|
        0 <= i < rows.len() ==> !((#[trigger] rows[i]).tmdb_id == tmdb_id && rows[i].media_type
            == kind)
}

/// Why an insert is rejected. The checks run in the schema's column
/// order (`media_type`, then `status`, then `user_rating`), and the
/// unique constraint on `(tmdb_id, media_type)` runs after them.
#[derive(Clone, Copy, PartialEq, Eq, Structural, Debug)]
pub enum InsertError {
    MediaTypeCheck,
    StatusCheck,
    UserRatingCheck,
    DuplicatePair,
}

/// The outcome the constraints assign to inserting `n` into a table
/// whose rows are `rows`: the first violated constraint, or `None` when
/// the insert must succeed.
pub open spec fn insert_error(rows: Seq<RowModel>, n: NewMedia) -> Option<InsertError> {
    if spec_media_type(n.media_type@) is None {
        Some(InsertError::MediaTypeCheck)
    } else if spec_status(n.status@) is None {
        Some(InsertError::StatusCheck)
    } else if !rating_ok(n.user_rating) {
        Some(InsertError::UserRatingCheck)
    } else if !pair_free(rows, n.tmdb_id, spec_media_type(n.media_type@)->0) {
        Some(InsertError::DuplicatePair)
    } else {
        None
    }
}

/// The row an accepted insert stores: `id` from the autoincrement
/// counter, and the two timestamps defaulting to `now` when omitted.
pub open spec fn stored_row(n: NewMedia, id: i64, now: Seq<char>) -> RowModel {
    RowModel {
        id: id,
        tmdb_id: n.tmdb_id,
        media_type: spec_media_type(n.media_type@)->0,
        title: n.title@,
        poster_path: opt_text(n.poster_path),
        backdrop_path: opt_text(n.backdrop_path),
        overview: opt_text(n.overview),
        release_date: opt_text(n.release_date),
        genres: opt_text(n.genres),
        vote_average: opt_text(n.vote_average),
        status: spec_status(n.status@)->0,
        user_rating: n.user_rating,
        user_notes: opt_text(n.user_notes),
        watched_date: opt_text(n.watched_date),
        created_at: match n.created_at {
            Some(s) => s@,
            None => now,
        },
        updated_at: match n.updated_at {
            Some(s) => s@,
            None => now,
        },
    }
}

/// After an accepted insert of `a`, a second insert carrying the same
/// `(tmdb_id, media_type)` pair — and passing the three check
/// constraints — is rejected by the unique constraint.
pub proof fn lemma_duplicate_pair_rejected(
    rows: Seq<RowModel>,
    a: NewMedia,
    b: NewMedia,
    id: i64,
    now: Seq<char>,
)
    requires
        insert_error(rows, a) is None,
        spec_status(b.status@) is Some,
        rating_ok(b.user_rating),
        b.tmdb_id == a.tmdb_id,
        b.media_type@ == a.media_type@,
    ensures
        insert_error(rows.push(stored_row(a, id, now)), b) == Some(InsertError::DuplicatePair),
{
    let grown = rows.push(stored_row(a, id, now));
    assert(grown[rows.len() as int].tmdb_id == b.tmdb_id);
    assert(grown[rows.len() as int].media_type == spec_media_type(b.media_type@)->0);
    assert(!pair_free(grown, b.tmdb_id, spec_media_type(b.media_type@)->0));
}

/// After an accepted insert of `a`, an insert of `b` with the same
/// `tmdb_id` but the other `media_type` is still accepted, provided `b`
/// was acceptable before.
pub proof fn lemma_distinct_type_accepted(
    rows: Seq<RowModel>,
    a: NewMedia,
    b: NewMedia,
    id: i64,
    now: Seq<char>,
)
    requires
        insert_error(rows, a) is None,
        insert_error(rows, b) is None,
        b.tmdb_id == a.tmdb_id,
        spec_media_type(b.media_type@) != spec_media_type(a.media_type@),
    ensures
        insert_error(rows.push(stored_row(a, id, now)), b) is None,
{
    let grown = rows.push(stored_row(a, id, now));
    let kind = spec_media_type(b.media_type@)->0;
    assert forall|i: int|
        0 <= i < grown.len() implies !((#[trigger] grown[i]).tmdb_id == b.tmdb_id
        && grown[i].media_type == kind) by {
        if i < rows.len() {
            assert(grown[i] == rows[i]);
            assert(!(rows[i].tmdb_id == b.tmdb_id && rows[i].media_type == kind));
        } else {
            assert(grown[i].media_type == spec_media_type(a.media_type@)->0);
        }
    }
}

/// The `media` table: its stored rows and the autoincrement counter for
/// the `id` primary key.
pub struct MediaTable {
    pub rows: Vec<MediaRow>,
    pub next_id: i64,
}

impl View for MediaTable {
    type V = Seq<RowModel>;

    open spec fn view(&self) -> Seq<RowModel> {
        self.rows@.map_values(|r: MediaRow| r@)
    }
}

impl MediaTable {
    /// The table's invariant: ids are positive, strictly increasing and
    /// below the counter; every stored rating passed its check; and the
    /// `(tmdb_id, media_type)` pair is unique across rows.
    pub open spec fn wf(&self) -> bool {
        &&& 1 <= self.next_id
        &&& forall|i: int| 0 <= i < self@.len() ==> 1 <= (#[trigger] self@[i]).id < self.next_id
        &&& forall|i: int, j: int| 0 <= i < j < self@.len() ==> self@[i].id < self@[j].id
        &&& forall|i: int| 0 <= i < self@.len() ==> rating_ok((#[trigger] self@[i]).user_rating)
        &&& forall|i: int, j: int|
            0 <= i < j < self@.len() ==> !(self@[i].tmdb_id == self@[j].tmdb_id
                && self@[i].media_type == self@[j].media_type)
    }

    /// The table the migration creates: no rows, ids starting at 1.
    pub fn new() -> (t: MediaTable)
        ensures
            t@ =~= Seq::<RowModel>::empty(),
            t.next_id == 1,
            t.wf(),
    {
        let t = MediaTable { rows: Vec::new(), next_id: 1 };
        proof {
            assert(t@ =~= Seq::<RowModel>::empty());
        }
        t
    }

    pub fn len(&self) -> (n: usize)
        ensures
            n == self@.len(),
    {
        self.rows.len()
    }

    /// Insert one row under the schema's constraints. Rejections leave
    /// the table unchanged and name the first violated constraint;
    /// success stores exactly the row `stored_row` describes (with the
    /// timestamps defaulting to `now`) and returns its id.
    pub fn insert(&mut self, n: NewMedia, now: &str) -> (r: Result<i64, InsertError>)
        requires
            old(self).wf(),
            old(self).next_id < i64::MAX,
        ensures
            final(self).wf(),
            match insert_error(old(self)@, n) {
                Some(e) => r == Err::<i64, InsertError>(e) && *final(self) == *old(self),
                None => {
                    &&& r == Ok::<i64, InsertError>(old(self).next_id)
                    &&& final(self)@ =~= old(self)@.push(
                        stored_row(n, old(self).next_id, now@),
                    )
                    &&& final(self).next_id == old(self).next_id + 1
                },
            },
    {
        let kind = match parse_media_type(&n.media_type) {
            Some(k) => k,
            None => {
                return Err(InsertError::MediaTypeCheck);
            },
        };
        let status = match parse_status(&n.status) {
            Some(s) => s,
            None => {
                return Err(InsertError::StatusCheck);
            },
        };
        match n.user_rating {
            Some(v) => {
                if v < 0 || v > 5 {
                    return Err(InsertError::UserRatingCheck);
                }
            },
            None => {},
        }
        let mut i: usize = 0;
        while i < self.rows.len()
            invariant
                i <= self.rows.len(),
                *self == *old(self),
                old(self).wf(),
                spec_media_type(n.media_type@) == Some(kind),
                spec_status(n.status@) == Some(status),
                rating_ok(n.user_rating),
                forall|k: int|
                    0 <= k < i ==> !((#[trigger] self@[k]).tmdb_id == n.tmdb_id
                        && self@[k].media_type == kind),
            decreases self.rows.len() - i,
        {
            if self.rows[i].tmdb_id == n.tmdb_id && self.rows[i].media_type == kind {
                proof {
                    assert(old(self)@[i as int].tmdb_id == n.tmdb_id && old(self)@[i as int].media_type
                        == kind);
                    assert(!pair_free(old(self)@, n.tmdb_id, kind));
                    assert(insert_error(old(self)@, n) == Some(InsertError::DuplicatePair));
                }
                return Err(InsertError::DuplicatePair);
            }
            i += 1;
        }
        let id = self.next_id;
        let created_at = match n.created_at {
            Some(s) => s,
            None => String::from_str(now),
        };
        let updated_at = match n.updated_at {
            Some(s) => s,
            None => String::from_str(now),
        };
        let row = MediaRow {
            id,
            tmdb_id: n.tmdb_id,
            media_type: kind,
            title: n.title,
            poster_path: n.poster_path,
            backdrop_path: n.backdrop_path,
            overview: n.overview,
            release_date: n.release_date,
            genres: n.genres,
            vote_average: n.vote_average,
            status,
            user_rating: n.user_rating,
            user_notes: n.user_notes,
            watched_date: n.watched_date,
            created_at,
            updated_at,
        };
        proof {
            assert(row@ == stored_row(n, id, now@));
        }
        self.rows.push(row);
        self.next_id = id + 1;
        proof {
            assert(self@ =~= old(self)@.push(stored_row(n, id, now@)));
        }
        Ok(id)
    }
}

} // verus!
