//! The schema of the picture store.

use vstd::prelude::*;
use vstd::string::StringExecFns;

verus! {

/// The statements that `sql_schema` returns: one table where each row
/// represents a photo, and a one-row counter holding the next id the
/// store will assign — kept so that an id is never reused, not even
/// after its row is deleted and the library reopened.
pub open spec fn spec_sql_schema() -> Seq<char> {
    "CREATE TABLE IF NOT EXISTS photos (id INTEGER NOT NULL UNIQUE, filename TEXT NOT NULL, hash BLOB NOT NULL, thumbnail_name TEXT NOT NULL, width INTEGER NOT NULL, height INTEGER NOT NULL, missing INTEGER NOT NULL, PRIMARY KEY(id)); CREATE TABLE IF NOT EXISTS counter (next INTEGER NOT NULL); INSERT INTO counter (next) SELECT 1 WHERE NOT EXISTS (SELECT next FROM counter);"@
}

/// The schema of the picture store, executed when a library is created.
pub fn sql_schema() -> (r: String)
    ensures
        r@ == spec_sql_schema(),
{
    String::from_str(
        "CREATE TABLE IF NOT EXISTS photos (id INTEGER NOT NULL UNIQUE, filename TEXT NOT NULL, hash BLOB NOT NULL, thumbnail_name TEXT NOT NULL, width INTEGER NOT NULL, height INTEGER NOT NULL, missing INTEGER NOT NULL, PRIMARY KEY(id)); CREATE TABLE IF NOT EXISTS counter (next INTEGER NOT NULL); INSERT INTO counter (next) SELECT 1 WHERE NOT EXISTS (SELECT next FROM counter);"
    )
}

} // verus!
