//! The import orchestrator: a library instance composes the candidate
//! enumerator, the identity resolver, the catalog and the thumbnail
//! deriver into the operations the host application calls.

use vstd::prelude::*;
use vstd::seq_lib::*;
use vstd::string::StringExecFns;

use crate::catalog::{entries_with_hash, has_path, ids_unique, paths_unique, Catalog};
use crate::config::{Config, ConfigView};
use crate::database::Database;
use crate::error::Error;
use crate::filesystem::{absolutize_path, path_exists};
use crate::photo::{Photo, PhotoView};
use crate::scan::{
    candidate_paths, filter_candidates, hidden_component_at_or_after,
    lemma_candidate_path_origin, mime_guess_of, starts_with_image, walk_directory, FileEntry,
};
use crate::thumb::{derive_thumbnail, new_uuid_token};

verus! {

/// The full path of a thumbnail file: folder, separator, name and the
/// fixed extension.
pub open spec fn spec_thumb_path(dir: Seq<char>, name: Seq<char>) -> Seq<char> {
    dir + "/"@ + name + ".jpg"@
}

fn thumb_file_path(dir: &String, name: &String) -> (r: String)
    ensures
        r@ == spec_thumb_path(dir@, name@),
{
    let mut r = dir.clone();
    r.append("/");
    r.append(name.as_str());
    r.append(".jpg");
    r
}

/// A photo library: its configuration, the open connection to its
/// store, and the catalog of entries loaded from it.
#[derive(Debug)]
pub struct Library {
    config: Config,
    db: Database,
    catalog: Catalog,
}

impl Library {
    /// The catalog entries of this library, in insertion order.
    pub closed spec fn entries(&self) -> Seq<PhotoView> {
        self.catalog@
    }

    /// The configuration of this library.
    pub closed spec fn spec_config(&self) -> ConfigView {
        self.config@
    }

    /// The id the catalog will assign next.
    pub closed spec fn spec_next_id(&self) -> u64 {
        self.catalog.spec_next_id()
    }

    /// Well-formed: the id counter stands above every id in the catalog.
    pub closed spec fn wf(&self) -> bool {
        self.catalog.wf()
    }

    /// Creates a new library: the database file is created and given
    /// the schema, the configuration is persisted at `config_path`, and
    /// the catalog starts empty.
    ///
    /// The folders named by the paths are not created; they are the
    /// caller's concern.
    pub fn create(
        config_path: &String,
        thumbnails_path: &String,
        database_path: &String,
    ) -> (r: Result<Library, Error>)
        ensures
            (r.is_ok() ==> r.unwrap().entries() == Seq::<PhotoView>::empty()
                && r.unwrap().wf()
                && r.unwrap().spec_config() == (ConfigView {
                    config_path: config_path@,
                    pictures_paths: Seq::<Seq<char>>::empty(),
                    thumbnails_path: thumbnails_path@,
                    database_path: database_path@,
                })),
            (r.is_err() ==> r == Err::<Library, Error>(Error::StorageError)),
    {
        let db = match Database::new(database_path) {
            Ok(db) => db,
            Err(e) => {
                return Err(e);
            },
        };
        let no_folders: Vec<String> = Vec::new();
        let config = match Config::new(config_path, &no_folders, thumbnails_path, database_path) {
            Ok(c) => c,
            Err(e) => {
                return Err(e);
            },
        };
        proof {
            assert(no_folders@.map_values(|s: String| s@) =~= Seq::<Seq<char>>::empty());
        }
        Ok(Library { config, db, catalog: Catalog::new() })
    }

    /// Opens an existing library: reads the configuration persisted at
    /// `config_path`, opens the database file it names, and loads every
    /// stored entry into the catalog.
    pub fn open(config_path: &String) -> (r: Result<Library, Error>)
        ensures
            (r.is_ok() ==> r.unwrap().wf()
                && r.unwrap().spec_config().config_path == config_path@),
            (r.is_err() ==> r == Err::<Library, Error>(Error::IoError)
                || r == Err::<Library, Error>(Error::StorageError)),
    {
        let config = match Config::open(config_path) {
            Ok(c) => c,
            Err(e) => {
                return Err(e);
            },
        };
        let db = match Database::open(&config.get_database_path()) {
            Ok(db) => db,
            Err(e) => {
                return Err(e);
            },
        };
        let photos = match db.list_all_pictures() {
            Ok(v) => v,
            Err(e) => {
                return Err(e);
            },
        };
        // The persisted counter keeps assigned ids from being reused
        // after a reopen; a store without one starts from the rows.
        let floor: u64 = match db.read_counter() {
            Ok(v) => if v < 1 {
                1u64
            } else {
                v as u64
            },
            Err(_) => 1u64,
        };
        Ok(Library { config, db, catalog: Catalog::from_photos(photos, floor) })
    }

    /// Adds the picture at an already-absolute path.
    ///
    /// Law (duplicate rejection): when the catalog already holds an
    /// entry with this exact path — missing or not — the result is the
    /// `AlreadyExists` error and the catalog is unchanged; and that
    /// error is returned in no other case. On success the new entry is
    /// appended, carrying this path, the next free id, no thumbnail and
    /// a clear missing flag.
    pub fn add_picture_absolute(&mut self, full_path: &String) -> (r: Result<Photo, Error>)
        requires
            old(self).wf(),
        ensures
            final(self).wf(),
            final(self).spec_config() == old(self).spec_config(),
            (has_path(old(self).entries(), full_path@)
                <==> r == Err::<Photo, Error>(Error::AlreadyExists)),
            (r.is_err() ==> final(self).entries() == old(self).entries()
                && final(self).spec_next_id() == old(self).spec_next_id()),
            (r.is_ok() ==> !has_path(old(self).entries(), full_path@)
                && final(self).entries() == old(self).entries().push(r.unwrap()@)
                && r.unwrap()@.filename == full_path@
                && r.unwrap()@.id as u64 == old(self).spec_next_id()
                && r.unwrap()@.thumbnail_name == Seq::<char>::empty()
                && r.unwrap()@.missing == 0
                && final(self).spec_next_id() == old(self).spec_next_id() + 1),
            (paths_unique(old(self).entries()) ==> paths_unique(final(self).entries())),
            (ids_unique(old(self).entries()) ==> ids_unique(final(self).entries())),
    {
        if let Some(_) = self.catalog.lookup_path(full_path) {
            return Err(Error::AlreadyExists);
        }
        match path_exists(full_path) {
            Ok(true) => {},
            Ok(false) => {
                return Err(Error::NotFound);
            },
            Err(e) => {
                return Err(e);
            },
        }
        let mut photo = Photo::new();
        match photo.from_file(full_path) {
            Ok(()) => {},
            Err(e) => {
                return Err(e);
            },
        }
        let id = match self.catalog.next_picture_id() {
            Ok(id) => id,
            Err(e) => {
                return Err(e);
            },
        };
        photo.set_id(id);
        match self.db.write_picture(&photo) {
            Ok(()) => {},
            Err(e) => {
                return Err(e);
            },
        }
        match self.db.write_counter(id as u64 + 1) {
            Ok(()) => {},
            Err(e) => {
                return Err(e);
            },
        }
        let ret = photo.clone();
        self.catalog.push_new(photo);
        Ok(ret)
    }

    /// Adds one picture to the library without touching the configured
    /// folders: the path is made absolute and then catalogued under the
    /// same duplicate semantics as a folder scan.
    pub fn add_picture(&mut self, filename: &String) -> (r: Result<Photo, Error>)
        requires
            old(self).wf(),
        ensures
            final(self).wf(),
            final(self).spec_config() == old(self).spec_config(),
            (r.is_err() ==> final(self).entries() == old(self).entries()
                && final(self).spec_next_id() == old(self).spec_next_id()),
            (r.is_ok() ==> !has_path(old(self).entries(), r.unwrap()@.filename)
                && final(self).entries() == old(self).entries().push(r.unwrap()@)
                && r.unwrap()@.id as u64 == old(self).spec_next_id()),
            (paths_unique(old(self).entries()) ==> paths_unique(final(self).entries())),
            (ids_unique(old(self).entries()) ==> ids_unique(final(self).entries())),
    {
        let full = absolutize_path(filename);
        self.add_picture_absolute(&full)
    }

    /// Imports each candidate path in turn: a path already catalogued
    /// is skipped, any per-file failure is skipped, and a new picture
    /// is inserted exactly once. The scan is never aborted by one bad
    /// candidate.
    ///
    /// Law (idempotent scan): entries already catalogued are kept
    /// unchanged; every appended entry carries a path that was not in
    /// the catalog before, no two appended entries share a path, and
    /// when every candidate is already catalogued nothing changes at
    /// all — importing the same candidates twice inserts each at most
    /// once.
    pub fn import_candidates(&mut self, paths: &Vec<String>)
        requires
            old(self).wf(),
        ensures
            final(self).wf(),
            final(self).spec_config() == old(self).spec_config(),
            old(self).entries().is_prefix_of(final(self).entries()),
            forall|t: int| old(self).entries().len() <= t < final(self).entries().len()
                ==> !has_path(old(self).entries(), final(self).entries()[t].filename),
            forall|t: int| old(self).entries().len() <= t < final(self).entries().len()
                ==> exists|j: int| 0 <= j < paths@.len()
                    && #[trigger] final(self).entries()[t].filename == #[trigger] paths@[j]@,
            forall|t1: int, t2: int| old(self).entries().len() <= t1 < t2
                < final(self).entries().len()
                ==> final(self).entries()[t1].filename != final(self).entries()[t2].filename,
            (paths_unique(old(self).entries()) ==> paths_unique(final(self).entries())),
            (ids_unique(old(self).entries()) ==> ids_unique(final(self).entries())),
            ((forall|j: int| 0 <= j < paths@.len() ==> has_path(old(self).entries(), paths@[j]@))
                ==> final(self).entries() == old(self).entries()),
    {
        let ghost olde = old(self).entries();
        let n = paths.len();
        let mut k: usize = 0;
        while k < n
            invariant
                n == paths@.len(),
                k <= n,
                self.wf(),
                self.spec_config() == old(self).spec_config(),
                olde == old(self).entries(),
                olde.is_prefix_of(self.entries()),
                forall|t: int| olde.len() <= t < self.entries().len()
                    ==> !has_path(olde, self.entries()[t].filename),
                forall|t: int| olde.len() <= t < self.entries().len()
                    ==> exists|j: int| 0 <= j < paths@.len()
                        && #[trigger] self.entries()[t].filename == #[trigger] paths@[j]@,
                forall|t1: int, t2: int| olde.len() <= t1 < t2 < self.entries().len()
                    ==> self.entries()[t1].filename != self.entries()[t2].filename,
                paths_unique(olde) ==> paths_unique(self.entries()),
                ids_unique(olde) ==> ids_unique(self.entries()),
                (forall|j: int| 0 <= j < paths@.len() ==> has_path(olde, paths@[j]@))
                    ==> self.entries() == olde,
            decreases n - k,
        {
            let ghost mid = self.entries();
            let res = self.add_picture_absolute(&paths[k]);
            proof {
                if res.is_ok() {
                    let e = res.unwrap()@;
                    assert(self.entries() == mid.push(e));
                    assert(e.filename == paths@[k as int]@);
                    assert(!has_path(mid, e.filename));
                    lemma_not_has_path_prefix(olde, mid, e.filename);
                    assert forall|t1: int| olde.len() <= t1 < mid.len() implies
                        mid[t1].filename != e.filename by {
                        if mid[t1].filename == e.filename {
                            assert(has_path(mid, e.filename));
                        }
                    }
                    if forall|j: int| 0 <= j < paths@.len() ==> has_path(olde, paths@[j]@) {
                        assert(has_path(olde, paths@[k as int]@));
                        lemma_has_path_prefix(olde, mid, paths@[k as int]@);
                        assert(false);
                    }
                }
            }
            k += 1;
        }
    }

    /// Scans a folder given by an absolute path: the folder is recorded
    /// in the configuration when new, its tree is walked, the image
    /// candidates are picked out, and each one is imported under the
    /// skip-duplicates policy. A root that is not an existing directory
    /// — or any failure of the enumeration itself, or of recording the
    /// folder — aborts the scan; a failure on one candidate does not.
    ///
    /// Law (what a scan may insert): every entry the call appends lies
    /// under the scanned root, below no hidden directory, and carries a
    /// path whose guessed media type begins with the image category;
    /// and the configuration gains at most this one folder.
    pub fn process_folder_absolute(&mut self, full_path: &String) -> (r: Result<(), Error>)
        requires
            old(self).wf(),
        ensures
            final(self).wf(),
            old(self).entries().is_prefix_of(final(self).entries()),
            forall|t: int| old(self).entries().len() <= t < final(self).entries().len()
                ==> !has_path(old(self).entries(), final(self).entries()[t].filename),
            forall|t1: int, t2: int| old(self).entries().len() <= t1 < t2
                < final(self).entries().len()
                ==> final(self).entries()[t1].filename != final(self).entries()[t2].filename,
            forall|t: int| old(self).entries().len() <= t < final(self).entries().len()
                ==> full_path@.is_prefix_of(#[trigger] final(self).entries()[t].filename)
                    && !hidden_component_at_or_after(
                        final(self).entries()[t].filename,
                        full_path@.len() as int,
                    )
                    && starts_with_image(mime_guess_of(final(self).entries()[t].filename)),
            (paths_unique(old(self).entries()) ==> paths_unique(final(self).entries())),
            (ids_unique(old(self).entries()) ==> ids_unique(final(self).entries())),
            (final(self).spec_config().pictures_paths == old(self).spec_config().pictures_paths
                || final(self).spec_config().pictures_paths
                    == old(self).spec_config().pictures_paths.push(full_path@)),
            final(self).spec_config().config_path == old(self).spec_config().config_path,
            final(self).spec_config().thumbnails_path == old(self).spec_config().thumbnails_path,
            final(self).spec_config().database_path == old(self).spec_config().database_path,
            (r.is_err() ==> final(self).entries() == old(self).entries()),
    {
        if !crate::photo::path_is_dir(full_path) {
            return Err(Error::NotFound);
        }
        if !self.config.contains_folder(full_path) {
            match self.config.add_folder(full_path) {
                Ok(()) => {},
                Err(e) => {
                    return Err(e);
                },
            }
        }
        let entries = match walk_directory(full_path) {
            Ok(v) => v,
            Err(e) => {
                return Err(e);
            },
        };
        let candidates = filter_candidates(&entries);
        let ghost evs = entries@.map_values(|e: FileEntry| e@);
        self.import_candidates(&candidates);
        proof {
            assert forall|t: int| old(self).entries().len() <= t < self.entries().len() implies
                full_path@.is_prefix_of(#[trigger] self.entries()[t].filename)
                    && !hidden_component_at_or_after(
                        self.entries()[t].filename,
                        full_path@.len() as int,
                    )
                    && starts_with_image(mime_guess_of(self.entries()[t].filename)) by {
                let name = self.entries()[t].filename;
                let j = choose|j: int|
                    0 <= j < candidates@.len() && name == candidates@[j]@;
                assert(candidates@.map_values(|s: String| s@)[j] == candidate_paths(evs)[j]);
                let i = lemma_candidate_path_origin(evs, j);
                assert(evs[i] == entries@[i]@);
                assert(name == entries@[i]@.path);
            }
        }
        Ok(())
    }

    /// Scans a folder for any images that are not in the library yet:
    /// the path is made absolute and the tree is processed as by
    /// `process_folder_absolute`.
    pub fn process_folder(&mut self, folder: &String) -> (r: Result<(), Error>)
        requires
            old(self).wf(),
        ensures
            final(self).wf(),
            old(self).entries().is_prefix_of(final(self).entries()),
            forall|t: int| old(self).entries().len() <= t < final(self).entries().len()
                ==> !has_path(old(self).entries(), final(self).entries()[t].filename),
            forall|t1: int, t2: int| old(self).entries().len() <= t1 < t2
                < final(self).entries().len()
                ==> final(self).entries()[t1].filename != final(self).entries()[t2].filename,
            (paths_unique(old(self).entries()) ==> paths_unique(final(self).entries())),
            (ids_unique(old(self).entries()) ==> ids_unique(final(self).entries())),
            (final(self).spec_config().pictures_paths == old(self).spec_config().pictures_paths
                || final(self).spec_config().pictures_paths
                    == old(self).spec_config().pictures_paths.push(
                        final(self).spec_config().pictures_paths.last(),
                    )),
            final(self).spec_config().config_path == old(self).spec_config().config_path,
            final(self).spec_config().thumbnails_path == old(self).spec_config().thumbnails_path,
            final(self).spec_config().database_path == old(self).spec_config().database_path,
            (r.is_err() ==> final(self).entries() == old(self).entries()),
    {
        let full = absolutize_path(folder);
        self.process_folder_absolute(&full)
    }

    /// Scans every configured picture folder for photos not in the
    /// database, and imports them into the database.
    pub fn scan_new_photos(&mut self) -> (r: Result<bool, Error>)
        requires
            old(self).wf(),
        ensures
            final(self).wf(),
            old(self).entries().is_prefix_of(final(self).entries()),
            forall|t: int| old(self).entries().len() <= t < final(self).entries().len()
                ==> !has_path(old(self).entries(), final(self).entries()[t].filename),
            forall|t1: int, t2: int| old(self).entries().len() <= t1 < t2
                < final(self).entries().len()
                ==> final(self).entries()[t1].filename != final(self).entries()[t2].filename,
            (paths_unique(old(self).entries()) ==> paths_unique(final(self).entries())),
            (ids_unique(old(self).entries()) ==> ids_unique(final(self).entries())),
            (r.is_ok() ==> r == Ok::<bool, Error>(true)),
    {
        let folders = self.config.get_pictures_path();
        let ghost olde = old(self).entries();
        let n = folders.len();
        let mut k: usize = 0;
        while k < n
            invariant
                k <= n,
                n == folders@.len(),
                self.wf(),
                olde == old(self).entries(),
                olde.is_prefix_of(self.entries()),
                forall|t: int| olde.len() <= t < self.entries().len()
                    ==> !has_path(olde, self.entries()[t].filename),
                forall|t1: int, t2: int| olde.len() <= t1 < t2 < self.entries().len()
                    ==> self.entries()[t1].filename != self.entries()[t2].filename,
                paths_unique(olde) ==> paths_unique(self.entries()),
                ids_unique(olde) ==> ids_unique(self.entries()),
            decreases n - k,
        {
            let ghost mid = self.entries();
            let res = self.process_folder(&folders[k]);
            proof {
                lemma_appended_fresh_chain(olde, mid, self.entries());
            }
            match res {
                Ok(()) => {},
                Err(e) => {
                    return Err(e);
                },
            }
            k += 1;
        }
        Ok(true)
    }

    /// Check if all photos exist on the filesystem. Marks the catalog
    /// entries whose backing file is gone as missing — in memory and in
    /// the store. The flag is deliberately one-way: a file that
    /// reappears does not clear it, so no sweep ever unmarks an entry.
    pub fn check_photos_existence(&mut self) -> (r: Result<(), Error>)
        ensures
            final(self).entries().len() == old(self).entries().len(),
            forall|i: int| 0 <= i < old(self).entries().len()
                ==> final(self).entries()[i] == old(self).entries()[i]
                    || final(self).entries()[i] == (PhotoView {
                        missing: 1,
                        ..old(self).entries()[i]
                    }),
            forall|i: int| 0 <= i < old(self).entries().len()
                && old(self).entries()[i].missing == 1
                ==> final(self).entries()[i].missing == 1,
            final(self).spec_config() == old(self).spec_config(),
            final(self).spec_next_id() == old(self).spec_next_id(),
            (old(self).wf() ==> final(self).wf()),
            (r.is_err() ==> r == Err::<(), Error>(Error::IoError)
                || r == Err::<(), Error>(Error::StorageError)),
    {
        let n = self.catalog.len();
        let mut present: Vec<bool> = Vec::new();
        let mut k: usize = 0;
        while k < n
            invariant
                k <= n,
                n == self.catalog@.len(),
                present@.len() == k,
                self == old(self),
            decreases n - k,
        {
            let filename = self.catalog.photo_at(k).get_filename();
            match path_exists(&filename) {
                Ok(b) => present.push(b),
                Err(e) => {
                    return Err(e);
                },
            }
            k += 1;
        }
        self.catalog.apply_existence(&present);
        proof {
            assert forall|i: int| 0 <= i < old(self).entries().len() implies
                (self.entries()[i] == old(self).entries()[i] || self.entries()[i] == (PhotoView {
                    missing: 1,
                    ..old(self).entries()[i]
                })) && (old(self).entries()[i].missing == 1
                    ==> self.entries()[i].missing == 1) by {
                if present@[i] {
                    assert(self.entries()[i] == old(self).entries()[i]);
                } else {
                    assert(self.entries()[i] == (PhotoView {
                        missing: 1,
                        ..old(self).entries()[i]
                    }));
                }
            }
        }
        let mut j: usize = 0;
        while j < n
            invariant
                j <= n,
                n == self.catalog@.len(),
                present@.len() == n,
                self.catalog@.len() == old(self).entries().len(),
                forall|i: int| 0 <= i < old(self).entries().len()
                    ==> self.entries()[i] == old(self).entries()[i]
                        || self.entries()[i] == (PhotoView {
                            missing: 1,
                            ..old(self).entries()[i]
                        }),
                forall|i: int| 0 <= i < old(self).entries().len()
                    && old(self).entries()[i].missing == 1
                    ==> self.entries()[i].missing == 1,
                self.spec_config() == old(self).spec_config(),
                self.spec_next_id() == old(self).spec_next_id(),
                old(self).wf() ==> self.wf(),
            decreases n - j,
        {
            if !present[j] {
                match self.db.update_picture(self.catalog.photo_at(j)) {
                    Ok(()) => {},
                    Err(e) => {
                        return Err(e);
                    },
                }
            }
            j += 1;
        }
        Ok(())
    }

    /// Get all photos in a Vec, with all catalogued data inside the
    /// Photo values, in catalog order.
    pub fn list_all_photos(&self) -> (r: Result<Vec<Photo>, Error>)
        ensures
            r.is_ok(),
            (r.is_ok() ==> r.unwrap()@.map_values(|p: Photo| p@) == self.entries()),
    {
        Ok(self.catalog.all_photos())
    }

    /// List all pictures in the library; the catalog is the source.
    pub fn list_all_pictures(&self) -> (r: Result<Vec<Photo>, Error>)
        ensures
            r.is_ok(),
            (r.is_ok() ==> r.unwrap()@.map_values(|p: Photo| p@) == self.entries()),
    {
        self.list_all_photos()
    }

    /// Law (id freshness): in a well-formed library every catalogued id
    /// lies strictly below the id the store will assign next, so an
    /// assigned id is never reused for a different entry — insertion
    /// hands out exactly the next id and then moves past it.
    pub proof fn lemma_ids_below_next_id(&self)
        requires
            self.wf(),
        ensures
            forall|i: int| 0 <= i < self.entries().len()
                ==> (self.entries()[i].id as u64) < self.spec_next_id(),
    {
    }

    /// Whether an entry with exactly this path is in the catalog. Any
    /// match counts, missing or not: this is the membership question
    /// the import pipeline asks before inserting.
    pub fn contains_path(&self, path: &String) -> (r: bool)
        ensures
            r == has_path(self.entries(), path@),
    {
        self.catalog.lookup_path(path).is_some()
    }

    /// The catalogued entries whose content fingerprint equals `hash`,
    /// in catalog order: the explicit duplicate-detection query. Two
    /// byte-identical files imported under different paths carry the
    /// same fingerprint and are both returned here; folder scans never
    /// consult it — there the path alone is authoritative.
    pub fn find_photos_by_hash(&self, hash: u128) -> (r: Vec<Photo>)
        ensures
            r@.map_values(|p: Photo| p@) == entries_with_hash(self.entries(), hash),
    {
        self.catalog.photos_with_hash(hash)
    }

    /// Get a Photo element from an id: the first catalogued entry that
    /// carries it, or `NotFound`.
    pub fn get_photo_from_id(&self, id: u32) -> (r: Result<Photo, Error>)
        ensures
            (r.is_ok() <==> exists|i: int|
                0 <= i < self.entries().len() && self.entries()[i].id == id),
            (r.is_ok() ==> exists|i: int|
                0 <= i < self.entries().len() && self.entries()[i].id == id
                    && r.unwrap()@ == self.entries()[i]
                    && (forall|j: int| 0 <= j < i ==> self.entries()[j].id != id)),
            (r.is_err() ==> r == Err::<Photo, Error>(Error::NotFound)),
    {
        match self.catalog.lookup_id(id) {
            Some(i) => {
                let p = self.catalog.photo_at(i).clone();
                proof {
                    assert(0 <= i < self.entries().len() && self.entries()[i as int].id == id
                        && p@ == self.entries()[i as int]
                        && (forall|j: int| 0 <= j < i ==> self.entries()[j].id != id));
                }
                Ok(p)
            },
            None => Err(Error::NotFound),
        }
    }

    /// Deletes the photo with the given id from the store and from the
    /// catalog. Removing a derived thumbnail file is the caller's
    /// concern.
    pub fn delete_photo_by_id(&mut self, id: u32) -> (r: Result<(), Error>)
        ensures
            final(self).spec_config() == old(self).spec_config(),
            final(self).spec_next_id() == old(self).spec_next_id(),
            (old(self).wf() ==> final(self).wf()),
            (r.is_err() ==> final(self).entries() == old(self).entries()),
            (r == Err::<(), Error>(Error::NotFound) <==> (forall|i: int|
                0 <= i < old(self).entries().len() ==> old(self).entries()[i].id != id)),
            (r.is_ok() ==> exists|i: int|
                0 <= i < old(self).entries().len() && old(self).entries()[i].id == id
                    && (forall|j: int| 0 <= j < i ==> old(self).entries()[j].id != id)
                    && final(self).entries() == old(self).entries().remove(i)),
    {
        let idx = match self.catalog.lookup_id(id) {
            Some(i) => i,
            None => {
                proof {
                    assert(forall|i: int| 0 <= i < old(self).entries().len()
                        ==> old(self).entries()[i].id != id);
                }
                return Err(Error::NotFound);
            },
        };
        proof {
            assert(old(self).entries()[idx as int].id == id);
        }
        match self.db.delete_picture(id) {
            Ok(()) => {},
            Err(e) => {
                return Err(e);
            },
        }
        let _removed = self.catalog.remove_at(idx);
        proof {
            assert(0 <= idx < old(self).entries().len()
                && old(self).entries()[idx as int].id == id
                && (forall|j: int| 0 <= j < idx ==> old(self).entries()[j].id != id)
                && self.entries() == old(self).entries().remove(idx as int));
        }
        Ok(())
    }

    /// Creates a thumbnail for the photo under a fresh random name in
    /// the configured thumbnail folder, and saves that name to the
    /// Photo object. Does not save to database, and never touches the
    /// catalog. On success the photo carries the freshly drawn token —
    /// always 36 characters — as its thumbnail name.
    pub fn create_thumbnail(&self, photo: &mut Photo) -> (r: Result<(), Error>)
        ensures
            final(photo)@.id == old(photo)@.id,
            final(photo)@.filename == old(photo)@.filename,
            final(photo)@.hash == old(photo)@.hash,
            final(photo)@.width == old(photo)@.width,
            final(photo)@.height == old(photo)@.height,
            final(photo)@.missing == old(photo)@.missing,
            (r.is_ok() ==> final(photo)@.thumbnail_name.len() == 36),
            (r.is_err() ==> final(photo)@ == old(photo)@
                && (r == Err::<(), Error>(Error::ImageDecodeError)
                    || r == Err::<(), Error>(Error::IoError))),
    {
        let name = new_uuid_token();
        let full = thumb_file_path(&self.config.get_thumbnails_path(), &name);
        match derive_thumbnail(&photo.get_filename(), &full) {
            Ok(()) => {},
            Err(e) => {
                return Err(e);
            },
        }
        photo.set_thumbnail_name(name);
        Ok(())
    }

    /// The full path of the photo's thumbnail file inside the library's
    /// thumbnail folder.
    pub fn get_thumbnail(&self, photo: &Photo) -> (r: Result<String, Error>)
        ensures
            r.is_ok(),
            (r.is_ok() ==> r.unwrap()@ == spec_thumb_path(
                self.spec_config().thumbnails_path,
                photo@.thumbnail_name,
            )),
    {
        Ok(thumb_file_path(&self.config.get_thumbnails_path(), &photo.get_thumbnail_name()))
    }

    /// Derives a thumbnail for the entry with the given id, records the
    /// generated name — a fresh 36-character token — in the catalog and
    /// in the store, and returns it. Every other field of every entry
    /// is left unchanged; on any error the catalog is unchanged.
    pub fn generate_thumbnail(&mut self, id: u32) -> (r: Result<String, Error>)
        ensures
            (r.is_ok() ==> r.unwrap()@.len() == 36),
            final(self).spec_config() == old(self).spec_config(),
            final(self).spec_next_id() == old(self).spec_next_id(),
            (old(self).wf() ==> final(self).wf()),
            (r.is_err() ==> final(self).entries() == old(self).entries()),
            (r == Err::<String, Error>(Error::NotFound) <==> (forall|i: int|
                0 <= i < old(self).entries().len() ==> old(self).entries()[i].id != id)),
            (r.is_ok() ==> exists|i: int|
                0 <= i < old(self).entries().len() && old(self).entries()[i].id == id
                    && (forall|j: int| 0 <= j < i ==> old(self).entries()[j].id != id)
                    && final(self).entries() == old(self).entries().update(i, (PhotoView {
                        thumbnail_name: r.unwrap()@,
                        ..old(self).entries()[i]
                    }))),
    {
        let idx = match self.catalog.lookup_id(id) {
            Some(i) => i,
            None => {
                proof {
                    assert(forall|i: int| 0 <= i < old(self).entries().len()
                        ==> old(self).entries()[i].id != id);
                }
                return Err(Error::NotFound);
            },
        };
        proof {
            assert(old(self).entries()[idx as int].id == id);
        }
        let mut photo = self.catalog.photo_at(idx).clone();
        match self.create_thumbnail(&mut photo) {
            Ok(()) => {},
            Err(e) => {
                return Err(e);
            },
        }
        match self.db.update_picture(&photo) {
            Ok(()) => {},
            Err(e) => {
                return Err(e);
            },
        }
        let name = photo.get_thumbnail_name();
        self.catalog.set_thumbnail_at(idx, photo.get_thumbnail_name());
        proof {
            assert(0 <= idx < old(self).entries().len()
                && old(self).entries()[idx as int].id == id
                && (forall|j: int| 0 <= j < idx ==> old(self).entries()[j].id != id)
                && self.entries() == old(self).entries().update(idx as int, (PhotoView {
                    thumbnail_name: name@,
                    ..old(self).entries()[idx as int]
                })));
        }
        Ok(name)
    }

    /// Generate thumbnails for all pictures in the library, recording
    /// each generated name — a fresh 36-character token — in the
    /// catalog and the store. A picture whose thumbnail cannot be
    /// derived or recorded is skipped and keeps its previous name; all
    /// other fields of every entry are left unchanged.
    pub fn generate_all_thumbnails(&mut self) -> (r: Result<(), Error>)
        ensures
            final(self).entries().len() == old(self).entries().len(),
            forall|i: int| 0 <= i < old(self).entries().len()
                ==> final(self).entries()[i].id == old(self).entries()[i].id
                    && final(self).entries()[i].filename == old(self).entries()[i].filename
                    && final(self).entries()[i].hash == old(self).entries()[i].hash
                    && final(self).entries()[i].width == old(self).entries()[i].width
                    && final(self).entries()[i].height == old(self).entries()[i].height
                    && final(self).entries()[i].missing == old(self).entries()[i].missing,
            forall|i: int| 0 <= i < old(self).entries().len()
                ==> final(self).entries()[i].thumbnail_name
                    == old(self).entries()[i].thumbnail_name
                    || final(self).entries()[i].thumbnail_name.len() == 36,
            final(self).spec_config() == old(self).spec_config(),
            final(self).spec_next_id() == old(self).spec_next_id(),
            (old(self).wf() ==> final(self).wf()),
            r.is_ok(),
    {
        let n = self.catalog.len();
        let mut k: usize = 0;
        while k < n
            invariant
                k <= n,
                n == self.catalog@.len(),
                self.entries().len() == old(self).entries().len(),
                forall|i: int| 0 <= i < old(self).entries().len()
                    ==> self.entries()[i].id == old(self).entries()[i].id
                        && self.entries()[i].filename == old(self).entries()[i].filename
                        && self.entries()[i].hash == old(self).entries()[i].hash
                        && self.entries()[i].width == old(self).entries()[i].width
                        && self.entries()[i].height == old(self).entries()[i].height
                        && self.entries()[i].missing == old(self).entries()[i].missing,
                forall|i: int| 0 <= i < old(self).entries().len()
                    ==> self.entries()[i].thumbnail_name
                        == old(self).entries()[i].thumbnail_name
                        || self.entries()[i].thumbnail_name.len() == 36,
                self.spec_config() == old(self).spec_config(),
                self.spec_next_id() == old(self).spec_next_id(),
                old(self).wf() ==> self.wf(),
            decreases n - k,
        {
            let mut photo = self.catalog.photo_at(k).clone();
            match self.create_thumbnail(&mut photo) {
                Ok(()) => {
                    self.catalog.set_thumbnail_at(k, photo.get_thumbnail_name());
                    match self.db.update_picture(self.catalog.photo_at(k)) {
                        Ok(()) => {},
                        Err(_) => {},
                    }
                },
                Err(_) => {},
            }
            k += 1;
        }
        Ok(())
    }
}

/// A path found in a prefix is found in the whole sequence.
proof fn lemma_has_path_prefix(s1: Seq<PhotoView>, s2: Seq<PhotoView>, p: Seq<char>)
    requires
        s1.is_prefix_of(s2),
        has_path(s1, p),
    ensures
        has_path(s2, p),
{
    let i = choose|i: int| 0 <= i < s1.len() && s1[i].filename == p;
    assert(s2[i].filename == p);
}

/// A path absent from the whole sequence is absent from a prefix.
proof fn lemma_not_has_path_prefix(s1: Seq<PhotoView>, s2: Seq<PhotoView>, p: Seq<char>)
    requires
        s1.is_prefix_of(s2),
        !has_path(s2, p),
    ensures
        !has_path(s1, p),
{
    if has_path(s1, p) {
        lemma_has_path_prefix(s1, s2, p);
    }
}

/// Freshness and distinctness of appended entries compose across two
/// growth steps.
proof fn lemma_appended_fresh_chain(s0: Seq<PhotoView>, s1: Seq<PhotoView>, s2: Seq<PhotoView>)
    requires
        s0.is_prefix_of(s1),
        s1.is_prefix_of(s2),
        forall|t: int| s0.len() <= t < s1.len() ==> !has_path(s0, s1[t].filename),
        forall|t: int| s1.len() <= t < s2.len() ==> !has_path(s1, s2[t].filename),
        forall|t1: int, t2: int| s0.len() <= t1 < t2 < s1.len()
            ==> s1[t1].filename != s1[t2].filename,
        forall|t1: int, t2: int| s1.len() <= t1 < t2 < s2.len()
            ==> s2[t1].filename != s2[t2].filename,
    ensures
        s0.is_prefix_of(s2),
        forall|t: int| s0.len() <= t < s2.len() ==> !has_path(s0, s2[t].filename),
        forall|t1: int, t2: int| s0.len() <= t1 < t2 < s2.len()
            ==> s2[t1].filename != s2[t2].filename,
{
    assert forall|t: int| s0.len() <= t < s2.len() implies !has_path(s0, s2[t].filename) by {
        if t < s1.len() {
            assert(s2[t] == s1[t]);
        } else {
            lemma_not_has_path_prefix(s0, s1, s2[t].filename);
        }
    }
    assert forall|t1: int, t2: int| s0.len() <= t1 < t2 < s2.len() implies
        s2[t1].filename != s2[t2].filename by {
        if t2 < s1.len() {
            assert(s2[t1] == s1[t1] && s2[t2] == s1[t2]);
        } else if t1 >= s1.len() {
        } else {
            // t1 lies in s1, t2 was appended after s1: the appended
            // path is absent from all of s1.
            assert(!has_path(s1, s2[t2].filename));
            assert(s2[t1] == s1[t1]);
            if s2[t1].filename == s2[t2].filename {
                assert(0 <= t1 < s1.len() && s1[t1].filename == s2[t2].filename);
                assert(has_path(s1, s2[t2].filename));
            }
        }
    }
}

} // verus!
