//! The migration list the application registers with its database
//! plugin: exactly one forward migration, version 1, named
//! `create_media_table`, whose statement is the rendered `media` schema.

use vstd::prelude::*;

use crate::media::media_schema;
use crate::media::media_table_schema;
use crate::schema::schema_sql;

verus! {

/// The direction of a migration script.
#[derive(Clone, Copy, PartialEq, Eq, Structural, Debug)]
pub enum MigrationKind {
    Up,
    Down,
}

/// One versioned schema-change script.
pub struct Migration {
    pub version: i64,
    pub description: String,
    pub sql: String,
    pub kind: MigrationKind,
}

/// The mathematical image of a migration record.
pub ghost struct MigrationModel {
    pub version: i64,
    pub description: Seq<char>,
    pub sql: Seq<char>,
    pub kind: MigrationKind,
}

impl View for Migration {
    type V = MigrationModel;

    open spec fn view(&self) -> MigrationModel {
        MigrationModel {
            version: self.version,
            description: self.description@,
            sql: self.sql@,
            kind: self.kind,
        }
    }
}

/// The single migration record the application registers: version 1,
/// forward, creating the `media` table.
pub open spec fn media_migration() -> MigrationModel {
    MigrationModel {
        version: 1,
        description: "create_media_table"@,
        sql: schema_sql(media_schema()),
        kind: MigrationKind::Up,
    }
}

/// Build the migration list: one record, `media_migration`.
pub fn media_migrations() -> (ms: Vec<Migration>)
    ensures
        ms@.len() == 1,
        ms@[0]@ == media_migration(),
{
    let schema = media_table_schema();
    let sql = crate::schema::render_schema(&schema);
    let mut ms: Vec<Migration> = Vec::new();
    ms.push(
        Migration {
            version: 1,
            description: String::from_str("create_media_table"),
            sql,
            kind: MigrationKind::Up,
        },
    );
    ms
}

/// The connection string naming the local database file.
pub fn database_url() -> (s: String)
    ensures
        s@ == "sqlite:media_tracker.db"@,
{
    String::from_str("sqlite:media_tracker.db")
}

} // verus!
