//! The concrete schema of the `media` table: sixteen columns, the two
//! membership checks, the rating range, the timestamp defaults, and the
//! unique `(tmdb_id, media_type)` pair — together with lemmas tying the
//! schema's constraints to the table model's insert semantics.

use vstd::prelude::*;

use crate::schema::CheckModel;
use crate::schema::CheckRule;
use crate::schema::Column;
use crate::schema::ColumnModel;
use crate::schema::ColumnType;
use crate::schema::SchemaModel;
use crate::schema::TableSchema;
use crate::table::rating_ok;
use crate::table::spec_media_type;
use crate::table::spec_status;

verus! {

/// The sixteen column definitions of the `media` table, in order.
pub open spec fn media_columns() -> Seq<ColumnModel> {
    seq![
        ColumnModel {
            name: "id"@,
            ty: ColumnType::Integer,
            pk_autoincrement: true,
            not_null: false,
            check: CheckModel::NoCheck,
            default_now: false,
        },
        ColumnModel {
            name: "tmdb_id"@,
            ty: ColumnType::Integer,
            pk_autoincrement: false,
            not_null: true,
            check: CheckModel::NoCheck,
            default_now: false,
        },
        ColumnModel {
            name: "media_type"@,
            ty: ColumnType::Text,
            pk_autoincrement: false,
            not_null: true,
            check: CheckModel::OneOf(seq!["movie"@, "tv"@]),
            default_now: false,
        },
        ColumnModel {
            name: "title"@,
            ty: ColumnType::Text,
            pk_autoincrement: false,
            not_null: true,
            check: CheckModel::NoCheck,
            default_now: false,
        },
        ColumnModel {
            name: "poster_path"@,
            ty: ColumnType::Text,
            pk_autoincrement: false,
            not_null: false,
            check: CheckModel::NoCheck,
            default_now: false,
        },
        ColumnModel {
            name: "backdrop_path"@,
            ty: ColumnType::Text,
            pk_autoincrement: false,
            not_null: false,
            check: CheckModel::NoCheck,
            default_now: false,
        },
        ColumnModel {
            name: "overview"@,
            ty: ColumnType::Text,
            pk_autoincrement: false,
            not_null: false,
            check: CheckModel::NoCheck,
            default_now: false,
        },
        ColumnModel {
            name: "release_date"@,
            ty: ColumnType::Text,
            pk_autoincrement: false,
            not_null: false,
            check: CheckModel::NoCheck,
            default_now: false,
        },
        ColumnModel {
            name: "genres"@,
            ty: ColumnType::Text,
            pk_autoincrement: false,
            not_null: false,
            check: CheckModel::NoCheck,
            default_now: false,
        },
        ColumnModel {
            name: "vote_average"@,
            ty: ColumnType::Real,
            pk_autoincrement: false,
            not_null: false,
            check: CheckModel::NoCheck,
            default_now: false,
        },
        ColumnModel {
            name: "status"@,
            ty: ColumnType::Text,
            pk_autoincrement: false,
            not_null: true,
            check: CheckModel::OneOf(seq!["watched"@, "watchlist"@]),
            default_now: false,
        },
        ColumnModel {
            name: "user_rating"@,
            ty: ColumnType::Integer,
            pk_autoincrement: false,
            not_null: false,
            check: CheckModel::Range(0, 5),
            default_now: false,
        },
        ColumnModel {
            name: "user_notes"@,
            ty: ColumnType::Text,
            pk_autoincrement: false,
            not_null: false,
            check: CheckModel::NoCheck,
            default_now: false,
        },
        ColumnModel {
            name: "watched_date"@,
            ty: ColumnType::Text,
            pk_autoincrement: false,
            not_null: false,
            check: CheckModel::NoCheck,
            default_now: false,
        },
        ColumnModel {
            name: "created_at"@,
            ty: ColumnType::Text,
            pk_autoincrement: false,
            not_null: false,
            check: CheckModel::NoCheck,
            default_now: true,
        },
        ColumnModel {
            name: "updated_at"@,
            ty: ColumnType::Text,
            pk_autoincrement: false,
            not_null: false,
            check: CheckModel::NoCheck,
            default_now: true,
        },
    ]
}

/// The `media` table definition.
pub open spec fn media_schema() -> SchemaModel {
    SchemaModel {
        name: "media"@,
        columns: media_columns(),
        unique_columns: seq!["tmdb_id"@, "media_type"@],
    }
}

fn simple_column(name: &str, ty: ColumnType, not_null: bool, default_now: bool) -> (c: Column)
    ensures
        c@ == (ColumnModel {
            name: name@,
            ty: ty,
            pk_autoincrement: false,
            not_null: not_null,
            check: CheckModel::NoCheck,
            default_now: default_now,
        }),
{
    Column {
        name: String::from_str(name),
        ty,
        pk_autoincrement: false,
        not_null,
        check: CheckRule::NoCheck,
        default_now,
    }
}

fn one_of_pair(a: &str, b: &str) -> (c: CheckRule)
    ensures
        c@ == CheckModel::OneOf(seq![a@, b@]),
{
    let mut vs: Vec<String> = Vec::new();
    vs.push(String::from_str(a));
    vs.push(String::from_str(b));
    let c = CheckRule::OneOf(vs);
    proof {
        assert(c@->OneOf_0 =~= seq![a@, b@]);
        assert(c@ == CheckModel::OneOf(seq![a@, b@]));
    }
    c
}

/// Build the `media` table definition.
pub fn media_table_schema() -> (s: TableSchema)
    ensures
        s@ == media_schema(),
{
    let mut columns: Vec<Column> = Vec::new();
    columns.push(
        Column {
            name: String::from_str("id"),
            ty: ColumnType::Integer,
            pk_autoincrement: true,
            not_null: false,
            check: CheckRule::NoCheck,
            default_now: false,
        },
    );
    columns.push(simple_column("tmdb_id", ColumnType::Integer, true, false));
    columns.push(
        Column {
            name: String::from_str("media_type"),
            ty: ColumnType::Text,
            pk_autoincrement: false,
            not_null: true,
            check: one_of_pair("movie", "tv"),
            default_now: false,
        },
    );
    columns.push(simple_column("title", ColumnType::Text, true, false));
    columns.push(simple_column("poster_path", ColumnType::Text, false, false));
    columns.push(simple_column("backdrop_path", ColumnType::Text, false, false));
    columns.push(simple_column("overview", ColumnType::Text, false, false));
    columns.push(simple_column("release_date", ColumnType::Text, false, false));
    columns.push(simple_column("genres", ColumnType::Text, false, false));
    columns.push(simple_column("vote_average", ColumnType::Real, false, false));
    columns.push(
        Column {
            name: String::from_str("status"),
            ty: ColumnType::Text,
            pk_autoincrement: false,
            not_null: true,
            check: one_of_pair("watched", "watchlist"),
            default_now: false,
        },
    );
    columns.push(
        Column {
            name: String::from_str("user_rating"),
            ty: ColumnType::Integer,
            pk_autoincrement: false,
            not_null: false,
            check: CheckRule::Range(0, 5),
            default_now: false,
        },
    );
    columns.push(simple_column("user_notes", ColumnType::Text, false, false));
    columns.push(simple_column("watched_date", ColumnType::Text, false, false));
    columns.push(simple_column("created_at", ColumnType::Text, false, true));
    columns.push(simple_column("updated_at", ColumnType::Text, false, true));
    let mut unique_columns: Vec<String> = Vec::new();
    unique_columns.push(String::from_str("tmdb_id"));
    unique_columns.push(String::from_str("media_type"));
    let s = TableSchema { name: String::from_str("media"), columns, unique_columns };
    proof {
        assert(s@.columns =~= media_columns());
        assert(s@.unique_columns =~= seq!["tmdb_id"@, "media_type"@]);
    }
    s
}

/// The shape the migration guarantees: one table, named `media`, with
/// sixteen columns under their declared names, and the unique
/// `(tmdb_id, media_type)` pair.
pub proof fn lemma_media_schema_shape()
    ensures
        media_schema().name == "media"@,
        media_schema().columns.len() == 16,
        media_schema().unique_columns =~= seq!["tmdb_id"@, "media_type"@],
        media_schema().columns[0].name == "id"@,
        media_schema().columns[1].name == "tmdb_id"@,
        media_schema().columns[2].name == "media_type"@,
        media_schema().columns[3].name == "title"@,
        media_schema().columns[4].name == "poster_path"@,
        media_schema().columns[5].name == "backdrop_path"@,
        media_schema().columns[6].name == "overview"@,
        media_schema().columns[7].name == "release_date"@,
        media_schema().columns[8].name == "genres"@,
        media_schema().columns[9].name == "vote_average"@,
        media_schema().columns[10].name == "status"@,
        media_schema().columns[11].name == "user_rating"@,
        media_schema().columns[12].name == "user_notes"@,
        media_schema().columns[13].name == "watched_date"@,
        media_schema().columns[14].name == "created_at"@,
        media_schema().columns[15].name == "updated_at"@,
{
}

/// The strings the `media_type` membership check accepts are exactly
/// those the table model's insert accepts.
pub proof fn lemma_media_type_check_matches(s: Seq<char>)
    ensures
        spec_media_type(s) is Some <==> (media_columns()[2].check->OneOf_0).contains(s),
{
    if spec_media_type(s) is Some {
        if s == "movie"@ {
            assert(media_columns()[2].check->OneOf_0[0] == s);
        } else {
            assert(media_columns()[2].check->OneOf_0[1] == s);
        }
    }
}

/// The strings the `status` membership check accepts are exactly those
/// the table model's insert accepts.
pub proof fn lemma_status_check_matches(s: Seq<char>)
    ensures
        spec_status(s) is Some <==> (media_columns()[10].check->OneOf_0).contains(s),
{
    if spec_status(s) is Some {
        if s == "watched"@ {
            assert(media_columns()[10].check->OneOf_0[0] == s);
        } else {
            assert(media_columns()[10].check->OneOf_0[1] == s);
        }
    }
}

/// The range check on `user_rating` accepts exactly the ratings the
/// table model's insert accepts.
pub proof fn lemma_rating_check_matches(v: i64)
    ensures
        rating_ok(Some(v)) <==> (media_columns()[11].check matches CheckModel::Range(lo, hi)
            && lo <= v <= hi),
{
}

} // verus!
