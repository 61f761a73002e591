//! The in-memory model of the catalog: the sequence of entries known to a
//! library instance, together with the id counter of the store.
//!
//! Every decision of the import pipeline — duplicate detection, id
//! assignment, the reconciliation sweep — is made against this model;
//! the database file mirrors it row for row.

use vstd::prelude::*;

use crate::error::Error;
use crate::photo::{Photo, PhotoView};

verus! {

/// True when some entry of `s` has path `p`.
pub open spec fn has_path(s: Seq<PhotoView>, p: Seq<char>) -> bool {
    exists|i: int| 0 <= i < s.len() && s[i].filename == p
}

/// True when no two entries of `s` share a path.
pub open spec fn paths_unique(s: Seq<PhotoView>) -> bool {
    forall|i: int, j: int| 0 <= i < j < s.len() ==> s[i].filename != s[j].filename
}

/// The entries of `s` whose content fingerprint is `h`, in order.
pub open spec fn entries_with_hash(s: Seq<PhotoView>, h: u128) -> Seq<PhotoView>
    decreases s.len(),
{
    if s.len() == 0 {
        Seq::empty()
    } else if s.last().hash == h {
        entries_with_hash(s.drop_last(), h).push(s.last())
    } else {
        entries_with_hash(s.drop_last(), h)
    }
}

/// True when no two entries of `s` share an id.
pub open spec fn ids_unique(s: Seq<PhotoView>) -> bool {
    forall|i: int, j: int| 0 <= i < j < s.len() ==> s[i].id != s[j].id
}

/// The entries of a library, in insertion order, plus the next id the
/// store will assign.
#[derive(Debug)]
pub struct Catalog {
    photos: Vec<Photo>,
    next_id: u64,
}

impl View for Catalog {
    type V = Seq<PhotoView>;

    closed spec fn view(&self) -> Seq<PhotoView> {
        self.photos@.map_values(|p: Photo| p@)
    }
}

impl Catalog {
    /// The id the store will assign to the next inserted entry.
    pub closed spec fn spec_next_id(&self) -> u64 {
        self.next_id
    }

    /// Well-formed: the id counter is positive, within the range the
    /// store can assign, and strictly above every id already present —
    /// so an assigned id is never reused for a different entry.
    pub open spec fn wf(&self) -> bool {
        &&& 1 <= self.spec_next_id() <= u32::MAX as u64 + 1
        &&& forall|i: int| 0 <= i < self@.len() ==> (self@[i].id as u64) < self.spec_next_id()
    }

    /// An empty catalog.
    pub fn new() -> (r: Catalog)
        ensures
            r@ == Seq::<PhotoView>::empty(),
            r.wf(),
            r.spec_next_id() == 1,
    {
        let r = Catalog { photos: Vec::new(), next_id: 1 };
        proof {
            assert(r@ =~= Seq::<PhotoView>::empty());
        }
        r
    }

    /// The catalog holding exactly the given entries, as loaded from the
    /// store. The id counter starts above every id present and no lower
    /// than the persisted counter `floor`, so an id the store once
    /// assigned is not handed out again after a reopen; a `floor` beyond
    /// the assignable range only exhausts the counter.
    pub fn from_photos(photos: Vec<Photo>, floor: u64) -> (r: Catalog)
        ensures
            r@ == photos@.map_values(|p: Photo| p@),
            r.wf(),
            r.spec_next_id() >= floor || r.spec_next_id() == u32::MAX as u64 + 1,
    {
        let mut max_id: u32 = 0;
        let n = photos.len();
        let mut k: usize = 0;
        while k < n
            invariant
                n == photos@.len(),
                k <= n,
                forall|i: int| 0 <= i < k ==> photos@[i]@.id <= max_id,
            decreases n - k,
        {
            if photos[k].get_id() > max_id {
                max_id = photos[k].get_id();
            }
            k += 1;
        }
        let mut next: u64 = max_id as u64 + 1;
        if floor > next {
            next = floor;
        }
        if next > u32::MAX as u64 + 1 {
            next = u32::MAX as u64 + 1;
        }
        let r = Catalog { photos, next_id: next };
        proof {
            assert(forall|i: int| 0 <= i < r@.len() ==> (r@[i].id as u64) < r.spec_next_id());
        }
        r
    }

    /// The number of entries.
    pub fn len(&self) -> (r: usize)
        ensures
            r == self@.len(),
    {
        self.photos.len()
    }

    /// A reference to the entry at position `i`.
    pub fn photo_at(&self, i: usize) -> (r: &Photo)
        requires
            i < self@.len(),
        ensures
            r@ == self@[i as int],
    {
        &self.photos[i]
    }

    /// The position of the first entry with the given path, if any.
    /// Any match counts, missing or not.
    pub fn lookup_path(&self, path: &String) -> (r: Option<usize>)
        ensures
            (r.is_some() ==> r.unwrap() < self@.len()
                && self@[r.unwrap() as int].filename == path@
                && (forall|j: int| 0 <= j < r.unwrap() ==> self@[j].filename != path@)),
            (r.is_none() ==> !has_path(self@, path@)),
    {
        let n = self.photos.len();
        let mut k: usize = 0;
        while k < n
            invariant
                n == self@.len(),
                k <= n,
                forall|j: int| 0 <= j < k ==> self@[j].filename != path@,
            decreases n - k,
        {
            if self.photos[k].get_filename() == *path {
                return Some(k);
            }
            k += 1;
        }
        None
    }

    /// The position of the first entry with the given id, if any.
    pub fn lookup_id(&self, id: u32) -> (r: Option<usize>)
        ensures
            (r.is_some() ==> r.unwrap() < self@.len()
                && self@[r.unwrap() as int].id == id
                && (forall|j: int| 0 <= j < r.unwrap() ==> self@[j].id != id)),
            (r.is_none() ==> forall|j: int| 0 <= j < self@.len() ==> self@[j].id != id),
    {
        let n = self.photos.len();
        let mut k: usize = 0;
        while k < n
            invariant
                n == self@.len(),
                k <= n,
                forall|j: int| 0 <= j < k ==> self@[j].id != id,
            decreases n - k,
        {
            if self.photos[k].get_id() == id {
                return Some(k);
            }
            k += 1;
        }
        None
    }

    /// The id the store will assign next, or `StorageError` when the id
    /// space is exhausted.
    pub fn next_picture_id(&self) -> (r: Result<u32, Error>)
        ensures
            (r.is_ok() <==> self.spec_next_id() <= u32::MAX as u64),
            (r.is_ok() ==> r.unwrap() as u64 == self.spec_next_id()),
            (r.is_err() ==> r == Err::<u32, Error>(Error::StorageError)),
    {
        if self.next_id <= u32::MAX as u64 {
            Ok(self.next_id as u32)
        } else {
            Err(Error::StorageError)
        }
    }

    /// Appends an entry carrying the id the store assigns to it.
    pub(crate) fn push_new(&mut self, photo: Photo)
        requires
            old(self).wf(),
            old(self).spec_next_id() <= u32::MAX as u64,
            photo@.id as u64 == old(self).spec_next_id(),
        ensures
            final(self)@ == old(self)@.push(photo@),
            final(self).wf(),
            final(self).spec_next_id() == old(self).spec_next_id() + 1,
    {
        let ghost prev = self@;
        let ghost pv = photo@;
        self.photos.push(photo);
        self.next_id = self.next_id + 1;
        proof {
            assert(self@ =~= prev.push(pv));
        }
    }

    /// Marks every entry whose backing file was reported absent as
    /// missing; entries whose file is present are left unchanged.
    pub fn apply_existence(&mut self, present: &Vec<bool>)
        requires
            present@.len() == old(self)@.len(),
        ensures
            final(self)@.len() == old(self)@.len(),
            forall|i: int| 0 <= i < old(self)@.len() && present@[i]
                ==> final(self)@[i] == old(self)@[i],
            forall|i: int| 0 <= i < old(self)@.len() && !present@[i]
                ==> final(self)@[i] == (PhotoView { missing: 1, ..old(self)@[i] }),
            final(self).spec_next_id() == old(self).spec_next_id(),
            forall|i: int| 0 <= i < old(self)@.len()
                ==> final(self)@[i].id == old(self)@[i].id
                    && final(self)@[i].filename == old(self)@[i].filename,
            (old(self).wf() ==> final(self).wf()),
    {
        let ghost prev = self@;
        let n = self.photos.len();
        let mut k: usize = 0;
        while k < n
            invariant
                n == self@.len(),
                prev.len() == n,
                present@.len() == n,
                k <= n,
                self.spec_next_id() == old(self).spec_next_id(),
                forall|i: int| k <= i < n ==> self@[i] == prev[i],
                forall|i: int| 0 <= i < k && present@[i] ==> self@[i] == prev[i],
                forall|i: int| 0 <= i < k && !present@[i]
                    ==> self@[i] == (PhotoView { missing: 1, ..prev[i] }),
                forall|i: int| 0 <= i < n
                    ==> self@[i].id == prev[i].id && self@[i].filename == prev[i].filename,
            decreases n - k,
        {
            if !present[k] {
                self.photos[k].set_is_missing(1);
                proof {
                    assert(self@[k as int] == (PhotoView { missing: 1, ..prev[k as int] }));
                }
            }
            k += 1;
        }
        proof {
            if old(self).wf() {
                assert forall|i: int| 0 <= i < self@.len() implies
                    (self@[i].id as u64) < self.spec_next_id() by {
                    assert(self@[i].id == prev[i].id);
                    assert((prev[i].id as u64) < old(self).spec_next_id());
                }
            }
        }
    }

    /// Replaces the thumbnail name of the entry at position `i`.
    pub(crate) fn set_thumbnail_at(&mut self, i: usize, name: String)
        requires
            i < old(self)@.len(),
        ensures
            final(self)@ == old(self)@.update(
                i as int,
                PhotoView { thumbnail_name: name@, ..old(self)@[i as int] },
            ),
            final(self).spec_next_id() == old(self).spec_next_id(),
    {
        let ghost prev = self@;
        let ghost nv = name@;
        let photo = &mut self.photos[i];
        photo.set_thumbnail_name(name);
        proof {
            assert(self@ =~= prev.update(
                i as int,
                PhotoView { thumbnail_name: nv, ..prev[i as int] },
            ));
        }
    }

    /// Removes the entry at position `i` and returns it.
    pub(crate) fn remove_at(&mut self, i: usize) -> (r: Photo)
        requires
            i < old(self)@.len(),
        ensures
            r@ == old(self)@[i as int],
            final(self)@ == old(self)@.remove(i as int),
            final(self).spec_next_id() == old(self).spec_next_id(),
    {
        let ghost prev = self@;
        let r = self.photos.remove(i);
        proof {
            assert(self@ =~= prev.remove(i as int));
        }
        r
    }

    /// Clones of the entries whose content fingerprint is `hash`, in
    /// insertion order: the content-based duplicate query.
    pub fn photos_with_hash(&self, hash: u128) -> (r: Vec<Photo>)
        ensures
            r@.map_values(|p: Photo| p@) == entries_with_hash(self@, hash),
    {
        let n = self.photos.len();
        let mut r: Vec<Photo> = Vec::new();
        let mut k: usize = 0;
        proof {
            assert(self@.take(0) =~= Seq::<PhotoView>::empty());
            assert(r@.map_values(|p: Photo| p@) =~= Seq::<PhotoView>::empty());
        }
        while k < n
            invariant
                k <= n,
                n == self@.len(),
                r@.map_values(|p: Photo| p@) == entries_with_hash(self@.take(k as int), hash),
            decreases n - k,
        {
            let ghost prefix = self@.take(k as int);
            proof {
                assert(self@.take(k + 1 as int).drop_last() =~= prefix);
                assert(self@.take(k + 1 as int).last() == self@[k as int]);
            }
            if self.photos[k].get_hash() == hash {
                let ghost before = r@.map_values(|p: Photo| p@);
                r.push(self.photos[k].clone());
                proof {
                    assert(r@.map_values(|p: Photo| p@) =~= before.push(self@[k as int]));
                }
            }
            k += 1;
        }
        proof {
            assert(self@.take(n as int) =~= self@);
        }
        r
    }

    /// Clones of all entries, in insertion order.
    pub fn all_photos(&self) -> (r: Vec<Photo>)
        ensures
            r@.map_values(|p: Photo| p@) == self@,
    {
        let n = self.photos.len();
        let mut r: Vec<Photo> = Vec::new();
        let mut k: usize = 0;
        while k < n
            invariant
                n == self@.len(),
                k <= n,
                r@.len() == k,
                forall|i: int| 0 <= i < k ==> r@[i]@ == self@[i],
            decreases n - k,
        {
            r.push(self.photos[k].clone());
            k += 1;
        }
        proof {
            assert(r@.map_values(|p: Photo| p@) =~= self@);
        }
        r
    }
}

} // verus!
