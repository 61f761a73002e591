//! The durable side of the catalog: a connection to the picture store,
//! and the trusted row operations the library performs on it.
//!
//! The in-memory catalog is the model the contracts speak about; every
//! mutation of it is written through to the store row for row, and a
//! library is opened by reading all rows back.

use vstd::prelude::*;

use crate::error::Error;
use crate::photo::Photo;
use crate::sql::sql_schema;

verus! {

#[verifier::external_type_specification]
#[verifier::external_body]
pub struct ExConnection(rusqlite::Connection);

/// The database structure manages the connection to the picture store.
#[derive(Debug)]
pub struct Database {
    conn: rusqlite::Connection,
}

impl Database {
    /// Creates the database object and file, and inserts the main
    /// structure; safe to call on an already-initialized store.
    pub fn new(path: &String) -> (r: Result<Database, Error>)
        ensures
            (r.is_err() ==> r == Err::<Database, Error>(Error::StorageError)),
    {
        let conn = match open_connection(path) {
            Ok(c) => c,
            Err(e) => {
                return Err(e);
            },
        };
        let db = Database { conn };
        match db.execute_batch(&sql_schema()) {
            Ok(()) => Ok(db),
            Err(e) => Err(e),
        }
    }

    /// Opens an existing database file without touching the schema.
    pub fn open(path: &String) -> (r: Result<Database, Error>)
        ensures
            (r.is_err() ==> r == Err::<Database, Error>(Error::StorageError)),
    {
        match open_connection(path) {
            Ok(c) => Ok(Database { conn: c }),
            Err(e) => Err(e),
        }
    }

    /// Relies on rusqlite::Connection::execute_batch: runs the given SQL
    /// statements against the store.
    #[verifier::external_body]
    fn execute_batch(&self, sql: &String) -> (r: Result<(), Error>)
        ensures
            (r.is_err() ==> r == Err::<(), Error>(Error::StorageError)),
    {
        match self.conn.execute_batch(sql.as_str()) {
            Ok(()) => Ok(()),
            Err(_) => Err(Error::StorageError),
        }
    }

    /// Relies on rusqlite::Connection::execute: inserts the row for one
    /// picture, carrying the id the catalog assigned to it.
    #[verifier::external_body]
    pub(crate) fn write_picture(&self, photo: &Photo) -> (r: Result<(), Error>)
        ensures
            (r.is_err() ==> r == Err::<(), Error>(Error::StorageError)),
    {
        let sql = "INSERT INTO photos (id, filename, hash, thumbnail_name, width, height, missing) VALUES (?1, ?2, ?3, ?4, ?5, ?6, ?7)";
        let res = self.conn.execute(sql, (
            photo.get_id(), photo.get_filename(), photo.get_hash().to_le_bytes(),
            photo.get_thumbnail_name(), photo.get_width(), photo.get_height(),
            photo.get_is_missing(),
        ));
        match res {
            Ok(_) => Ok(()),
            Err(_) => Err(Error::StorageError),
        }
    }

    /// Relies on rusqlite::Connection::execute: rewrites the mutable
    /// columns — thumbnail name and missing flag — of the row with the
    /// picture's id.
    #[verifier::external_body]
    pub(crate) fn update_picture(&self, photo: &Photo) -> (r: Result<(), Error>)
        ensures
            (r.is_err() ==> r == Err::<(), Error>(Error::StorageError)),
    {
        let res = self.conn.execute(
            "UPDATE photos SET thumbnail_name = ?1, missing = ?2 WHERE id = ?3",
            (photo.get_thumbnail_name(), photo.get_is_missing(), photo.get_id()),
        );
        match res {
            Ok(_) => Ok(()),
            Err(_) => Err(Error::StorageError),
        }
    }

    /// Relies on rusqlite::Connection::execute: deletes the row with the
    /// given id.
    #[verifier::external_body]
    pub(crate) fn delete_picture(&self, id: u32) -> (r: Result<(), Error>)
        ensures
            (r.is_err() ==> r == Err::<(), Error>(Error::StorageError)),
    {
        match self.conn.execute("DELETE FROM photos WHERE id = ?1", (id,)) {
            Ok(_) => Ok(()),
            Err(_) => Err(Error::StorageError),
        }
    }

    /// Relies on rusqlite::Connection::execute: persists the id counter,
    /// so that an assigned id survives deletions and reopenings.
    #[verifier::external_body]
    pub(crate) fn write_counter(&self, next: u64) -> (r: Result<(), Error>)
        ensures
            (r.is_err() ==> r == Err::<(), Error>(Error::StorageError)),
    {
        match self.conn.execute("UPDATE counter SET next = ?1", (next as i64,)) {
            Ok(_) => Ok(()),
            Err(_) => Err(Error::StorageError),
        }
    }

    /// Relies on rusqlite prepare/query_row: reads the persisted id
    /// counter; whatever integer the store holds comes back as it is.
    #[verifier::external_body]
    pub(crate) fn read_counter(&self) -> (r: Result<i64, Error>)
        ensures
            (r.is_err() ==> r == Err::<i64, Error>(Error::StorageError)),
    {
        let res = self.conn.query_row("SELECT next FROM counter", (), |row| row.get(0));
        match res {
            Ok(v) => Ok(v),
            Err(_) => Err(Error::StorageError),
        }
    }

    /// Relies on rusqlite prepare/query: reads every row of the photos
    /// table, in store order, into picture values.
    #[verifier::external_body]
    pub fn list_all_pictures(&self) -> (r: Result<Vec<Photo>, Error>)
        ensures
            (r.is_err() ==> r == Err::<Vec<Photo>, Error>(Error::StorageError)),
    {
        let sql = "SELECT id, filename, hash, thumbnail_name, width, height, missing FROM photos";
        let mut stmt = self.conn.prepare(sql).map_err(|_| Error::StorageError)?;
        let rows = stmt.query_map((), |row| Ok(Photo {
            id: row.get(0)?, filename: row.get(1)?, hash: u128::from_le_bytes(row.get(2)?),
            thumbnail_name: row.get(3)?, width: row.get(4)?, height: row.get(5)?,
            missing: row.get(6)?,
        })).map_err(|_| Error::StorageError)?;
        rows.collect::<Result<Vec<Photo>, rusqlite::Error>>().map_err(|_| Error::StorageError)
    }
}

/// Relies on rusqlite::Connection::open: opens the database file,
/// creating it when absent.
#[verifier::external_body]
fn open_connection(path: &String) -> (r: Result<rusqlite::Connection, Error>)
    ensures
        (r.is_err() ==> r == Err::<rusqlite::Connection, Error>(Error::StorageError)),
{
    match rusqlite::Connection::open(path.as_str()) {
        Ok(c) => Ok(c),
        Err(_) => Err(Error::StorageError),
    }
}

} // verus!
