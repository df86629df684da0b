//! The migration record and the rendered `CREATE TABLE` statement.

use media_tracker::media::media_table_schema;
use media_tracker::migration::database_url;
use media_tracker::migration::media_migrations;
use media_tracker::migration::MigrationKind;
use media_tracker::schema::render_schema;
use media_tracker::schema::CheckRule;
use media_tracker::schema::ColumnType;

#[test]
fn migration_list_has_one_forward_record() {
    let ms = media_migrations();
    assert_eq!(ms.len(), 1);
    assert_eq!(ms[0].version, 1);
    assert_eq!(ms[0].description, "create_media_table");
    assert_eq!(ms[0].kind, MigrationKind::Up);
}

#[test]
fn connection_string_names_the_local_file() {
    assert_eq!(database_url(), "sqlite:media_tracker.db");
}

#[test]
fn media_schema_has_sixteen_columns_in_order() {
    let s = media_table_schema();
    assert_eq!(s.name, "media");
    assert_eq!(s.columns.len(), 16);
    let names: Vec<&str> = s.columns.iter().map(|c| c.name.as_str()).collect();
    assert_eq!(
        names,
        vec![
            "id",
            "tmdb_id",
            "media_type",
            "title",
            "poster_path",
            "backdrop_path",
            "overview",
            "release_date",
            "genres",
            "vote_average",
            "status",
            "user_rating",
            "user_notes",
            "watched_date",
            "created_at",
            "updated_at",
        ]
    );
    assert_eq!(
        s.unique_columns,
        vec!["tmdb_id".to_string(), "media_type".to_string()]
    );
}

#[test]
fn media_schema_constraints_match_the_data_model() {
    let s = media_table_schema();
    let col = |name: &str| {
        s.columns
            .iter()
            .find(|c| c.name == name)
            .expect("column present")
    };
    assert!(matches!(col("id").ty, ColumnType::Integer));
    assert!(col("id").pk_autoincrement);
    assert!(col("tmdb_id").not_null);
    assert!(col("title").not_null);
    assert!(!col("poster_path").not_null);
    assert!(matches!(col("vote_average").ty, ColumnType::Real));
    match &col("media_type").check {
        CheckRule::OneOf(vs) => assert_eq!(vs, &vec!["movie".to_string(), "tv".to_string()]),
        _ => panic!("media_type has a membership check"),
    }
    match &col("status").check {
        CheckRule::OneOf(vs) => {
            assert_eq!(vs, &vec!["watched".to_string(), "watchlist".to_string()])
        }
        _ => panic!("status has a membership check"),
    }
    match col("user_rating").check {
        CheckRule::Range(lo, hi) => {
            assert_eq!(lo, 0);
            assert_eq!(hi, 5);
        }
        _ => panic!("user_rating has a range check"),
    }
    assert!(col("created_at").default_now);
    assert!(col("updated_at").default_now);
}

#[test]
fn rendered_sql_is_the_create_table_statement() {
    let s = media_table_schema();
    let sql = render_schema(&s);
    assert_eq!(
        sql,
        "CREATE TABLE IF NOT EXISTS media (\
         id INTEGER PRIMARY KEY AUTOINCREMENT, \
         tmdb_id INTEGER NOT NULL, \
         media_type TEXT NOT NULL CHECK(media_type IN ('movie', 'tv')), \
         title TEXT NOT NULL, \
         poster_path TEXT, \
         backdrop_path TEXT, \
         overview TEXT, \
         release_date TEXT, \
         genres TEXT, \
         vote_average REAL, \
         status TEXT NOT NULL CHECK(status IN ('watched', 'watchlist')), \
         user_rating INTEGER CHECK(user_rating >= 0 AND user_rating <= 5), \
         user_notes TEXT, \
         watched_date TEXT, \
         created_at TEXT DEFAULT (datetime('now')), \
         updated_at TEXT DEFAULT (datetime('now')), \
         UNIQUE(tmdb_id, media_type))"
    );
    let migration_sql = &media_migrations()[0].sql;
    assert_eq!(&sql, migration_sql);
}
