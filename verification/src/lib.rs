//! A verified model of a small media-tracker database bootstrap.
//!
//! The library defines the `media` table: its schema, the SQL migration
//! that creates it, and the semantics of the schema's constraints
//! (check constraints, the unique `(tmdb_id, media_type)` pair, and the
//! timestamp defaults). The host application registers the generated
//! migration with its database plugin and runs the event loop; nothing
//! in here performs I/O.

pub mod db;
pub mod media;
pub mod migration;
pub mod schema;
pub mod table;
