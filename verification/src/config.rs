//! The configuration of a library: where its pictures, thumbnails and
//! database live. The settings are persisted in a small embedded-store
//! file of their own, so that a library can be reopened from its
//! configuration path alone.

use vstd::prelude::*;
use vstd::string::StringExecFns;

use crate::error::Error;

verus! {

/// Mathematical view of a library configuration.
pub struct ConfigView {
    pub config_path: Seq<char>,
    pub pictures_paths: Seq<Seq<char>>,
    pub thumbnails_path: Seq<char>,
    pub database_path: Seq<char>,
}

/// The locations a library works with: the settings file itself, the
/// picture folders to scan, the thumbnail folder and the database file.
#[derive(Debug)]
pub struct Config {
    config_path: String,
    pictures_paths: Vec<String>,
    thumbnails_path: String,
    database_path: String,
}

impl View for Config {
    type V = ConfigView;

    closed spec fn view(&self) -> ConfigView {
        ConfigView {
            config_path: self.config_path@,
            pictures_paths: self.pictures_paths@.map_values(|s: String| s@),
            thumbnails_path: self.thumbnails_path@,
            database_path: self.database_path@,
        }
    }
}

impl Config {
    /// Builds a configuration from the given locations and persists it
    /// at `config_path`.
    pub fn new(
        config_path: &String,
        pictures_paths: &Vec<String>,
        thumbnails_path: &String,
        database_path: &String,
    ) -> (r: Result<Config, Error>)
        ensures
            (r.is_ok() ==> r.unwrap()@ == (ConfigView {
                config_path: config_path@,
                pictures_paths: pictures_paths@.map_values(|s: String| s@),
                thumbnails_path: thumbnails_path@,
                database_path: database_path@,
            })),
            (r.is_err() ==> r == Err::<Config, Error>(Error::StorageError)),
    {
        let config = Config {
            config_path: config_path.clone(),
            pictures_paths: clone_paths(pictures_paths),
            thumbnails_path: thumbnails_path.clone(),
            database_path: database_path.clone(),
        };
        match config.write_config() {
            Ok(()) => Ok(config),
            Err(e) => Err(e),
        }
    }

    /// Reads the configuration persisted at `config_path`: the settings
    /// rows come back from the store, and `config_from_rows` — whose
    /// contract is exact — interprets them.
    pub fn open(config_path: &String) -> (r: Result<Config, Error>)
        ensures
            (r.is_ok() ==> r.unwrap()@.config_path == config_path@),
            (r.is_err() ==> r == Err::<Config, Error>(Error::IoError)
                || r == Err::<Config, Error>(Error::StorageError)),
    {
        let rows = match load_config(config_path) {
            Ok(rows) => rows,
            Err(e) => {
                return Err(e);
            },
        };
        Ok(config_from_rows(config_path, &rows))
    }

    /// Persists the configuration at its own `config_path`.
    fn write_config(&self) -> (r: Result<(), Error>)
        ensures
            (r.is_err() ==> r == Err::<(), Error>(Error::StorageError)),
    {
        store_config(
            &self.config_path,
            &self.pictures_paths,
            &self.thumbnails_path,
            &self.database_path,
        )
    }

    /// Adds one picture folder and persists the changed configuration.
    pub fn add_folder(&mut self, folder: &String) -> (r: Result<(), Error>)
        ensures
            final(self)@ == (ConfigView {
                pictures_paths: old(self)@.pictures_paths.push(folder@),
                ..old(self)@
            }),
            (r.is_err() ==> r == Err::<(), Error>(Error::StorageError)),
    {
        let ghost prev = self@;
        self.pictures_paths.push(folder.clone());
        proof {
            assert(self@.pictures_paths =~= prev.pictures_paths.push(folder@));
        }
        self.write_config()
    }

    /// Whether the given folder is already one of the configured
    /// picture folders.
    pub fn contains_folder(&self, folder: &String) -> (r: bool)
        ensures
            r == self@.pictures_paths.contains(folder@),
    {
        let n = self.pictures_paths.len();
        let mut k: usize = 0;
        while k < n
            invariant
                k <= n,
                n == self@.pictures_paths.len(),
                forall|i: int| 0 <= i < k ==> self@.pictures_paths[i] != folder@,
            decreases n - k,
        {
            if self.pictures_paths[k] == *folder {
                proof {
                    assert(self@.pictures_paths[k as int] == folder@);
                }
                return true;
            }
            k += 1;
        }
        proof {
            assert(!self@.pictures_paths.contains(folder@));
        }
        false
    }

    /// The picture folders of the library.
    pub fn get_pictures_path(&self) -> (r: Vec<String>)
        ensures
            r@.map_values(|s: String| s@) == self@.pictures_paths,
    {
        clone_paths(&self.pictures_paths)
    }

    /// The thumbnail folder of the library.
    pub fn get_thumbnails_path(&self) -> (r: String)
        ensures
            r@ == self@.thumbnails_path,
    {
        self.thumbnails_path.clone()
    }

    /// The database file of the library.
    pub fn get_database_path(&self) -> (r: String)
        ensures
            r@ == self@.database_path,
    {
        self.database_path.clone()
    }
}

/// The views of a list of settings rows.
pub open spec fn spec_rows(rows: Seq<(String, String)>) -> Seq<(Seq<char>, Seq<char>)> {
    rows.map_values(|p: (String, String)| (p.0@, p.1@))
}

/// The values of the 'folder'-keyed rows, in order.
pub open spec fn folder_values(rows: Seq<(Seq<char>, Seq<char>)>) -> Seq<Seq<char>>
    decreases rows.len(),
{
    if rows.len() == 0 {
        Seq::empty()
    } else if rows.last().0 == "folder"@ {
        folder_values(rows.drop_last()).push(rows.last().1)
    } else {
        folder_values(rows.drop_last())
    }
}

/// The value of the last row carrying `key`, or empty when none does.
pub open spec fn keyed_value(rows: Seq<(Seq<char>, Seq<char>)>, key: Seq<char>) -> Seq<char>
    decreases rows.len(),
{
    if rows.len() == 0 {
        Seq::empty()
    } else if rows.last().0 == key {
        rows.last().1
    } else {
        keyed_value(rows.drop_last(), key)
    }
}

/// Builds the configuration that a list of settings rows describes: the
/// picture folders are the 'folder'-keyed values in row order, and the
/// thumbnail and database locations are the last 'thumbnails'- and
/// 'database'-keyed values; rows under any other key are ignored.
pub fn config_from_rows(config_path: &String, rows: &Vec<(String, String)>) -> (r: Config)
    ensures
        r@ == (ConfigView {
            config_path: config_path@,
            pictures_paths: folder_values(spec_rows(rows@)),
            thumbnails_path: keyed_value(spec_rows(rows@), "thumbnails"@),
            database_path: keyed_value(spec_rows(rows@), "database"@),
        }),
{
    let mut config = Config {
        config_path: config_path.clone(),
        pictures_paths: Vec::new(),
        thumbnails_path: String::new(),
        database_path: String::new(),
    };
    let ghost rv = spec_rows(rows@);
    let n = rows.len();
    let mut k: usize = 0;
    proof {
        assert(rv.take(0) =~= Seq::<(Seq<char>, Seq<char>)>::empty());
        assert(config@.pictures_paths =~= folder_values(rv.take(0)));
    }
    while k < n
        invariant
            k <= n,
            n == rows@.len(),
            rv == spec_rows(rows@),
            config@.config_path == config_path@,
            config@.pictures_paths == folder_values(rv.take(k as int)),
            config@.thumbnails_path == keyed_value(rv.take(k as int), "thumbnails"@),
            config@.database_path == keyed_value(rv.take(k as int), "database"@),
        decreases n - k,
    {
        let ghost prefix = rv.take(k as int);
        proof {
            reveal_strlit("folder");
            reveal_strlit("thumbnails");
            reveal_strlit("database");
            assert("folder"@.len() == 6 && "thumbnails"@.len() == 10 && "database"@.len() == 8);
            assert(rv.take(k + 1 as int).drop_last() =~= prefix);
            assert(rv.take(k + 1 as int).last() == rv[k as int]);
            assert(rv[k as int] == (rows@[k as int].0@, rows@[k as int].1@));
        }
        if rows[k].0 == String::from_str("folder") {
            let ghost before = config@.pictures_paths;
            config.pictures_paths.push(rows[k].1.clone());
            proof {
                assert(config@.pictures_paths =~= before.push(rows@[k as int].1@));
            }
        } else if rows[k].0 == String::from_str("thumbnails") {
            config.thumbnails_path = rows[k].1.clone();
        } else if rows[k].0 == String::from_str("database") {
            config.database_path = rows[k].1.clone();
        }
        k += 1;
    }
    proof {
        assert(rv.take(n as int) =~= rv);
    }
    config
}

/// Clones a list of paths.
fn clone_paths(v: &Vec<String>) -> (r: Vec<String>)
    ensures
        r@.map_values(|s: String| s@) == v@.map_values(|s: String| s@),
{
    let n = v.len();
    let mut r: Vec<String> = Vec::new();
    let mut k: usize = 0;
    while k < n
        invariant
            k <= n,
            n == v@.len(),
            r@.len() == k,
            forall|i: int| 0 <= i < k ==> r@[i]@ == v@[i]@,
        decreases n - k,
    {
        r.push(v[k].clone());
        k += 1;
    }
    proof {
        assert(r@.map_values(|s: String| s@) =~= v@.map_values(|s: String| s@));
    }
    r
}

/// Relies on rusqlite (Connection::open, execute_batch, execute): writes
/// the library's settings into the settings store at `path` — one row
/// per picture folder, one row each for the thumbnail folder and the
/// database file — replacing whatever was stored before.
#[verifier::external_body]
fn store_config(path: &String, pictures: &Vec<String>, thumbs: &String, dbp: &String) -> (r: Result<(), Error>)
    ensures
        (r.is_err() ==> r == Err::<(), Error>(Error::StorageError)),
{
    let conn = rusqlite::Connection::open(path.as_str()).map_err(|_| Error::StorageError)?;
    conn.execute_batch(
        "CREATE TABLE IF NOT EXISTS settings (key TEXT NOT NULL, value TEXT NOT NULL); DELETE FROM settings;",
    ).map_err(|_| Error::StorageError)?;
    for p in pictures.iter() {
        conn.execute("INSERT INTO settings (key, value) VALUES ('folder', ?1)", (p,))
            .map_err(|_| Error::StorageError)?;
    }
    conn.execute("INSERT INTO settings (key, value) VALUES ('thumbnails', ?1)", (thumbs,))
        .map_err(|_| Error::StorageError)?;
    conn.execute("INSERT INTO settings (key, value) VALUES ('database', ?1)", (dbp,))
        .map_err(|_| Error::StorageError)?;
    Ok(())
}

/// Relies on rusqlite (Connection::open_with_flags read-only, prepare,
/// query_map): reads every settings row at `path` as a (key, value)
/// pair; `IoError` when no settings store exists there.
#[verifier::external_body]
fn load_config(path: &String) -> (r: Result<Vec<(String, String)>, Error>)
    ensures
        (r.is_err() ==> r == Err::<Vec<(String, String)>, Error>(Error::IoError)
            || r == Err::<Vec<(String, String)>, Error>(Error::StorageError)),
{
    let flags = rusqlite::OpenFlags::SQLITE_OPEN_READ_ONLY;
    let conn = rusqlite::Connection::open_with_flags(path.as_str(), flags)
        .map_err(|_| Error::IoError)?;
    let mut stmt = conn.prepare("SELECT key, value FROM settings")
        .map_err(|_| Error::StorageError)?;
    let rows = stmt.query_map((), |row| Ok((row.get(0)?, row.get(1)?)))
        .map_err(|_| Error::StorageError)?;
    rows.collect::<Result<Vec<(String, String)>, rusqlite::Error>>()
        .map_err(|_| Error::StorageError)
}

} // verus!
