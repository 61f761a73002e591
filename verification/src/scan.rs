//! The candidate enumerator: walking a folder tree and picking out the
//! files whose media type classifies them as images.

use vstd::prelude::*;
use vstd::string::*;

use crate::error::Error;

verus! {

/// Mathematical view of one walk entry.
pub struct FileEntryView {
    pub path: Seq<char>,
    pub is_file: bool,
}

/// One entry reported by the directory walk: its path and whether it is
/// a plain file.
pub struct FileEntry {
    pub path: String,
    pub is_file: bool,
}

impl View for FileEntry {
    type V = FileEntryView;

    open spec fn view(&self) -> FileEntryView {
        FileEntryView { path: self.path@, is_file: self.is_file }
    }
}

/// The media type that the extension table assigns to a path; a function
/// of the path alone. Empty when no type is known for the extension.
pub uninterp spec fn mime_guess_of(path: Seq<char>) -> Seq<char>;

/// Relies on mime_guess::from_path: the first media type guessed from
/// the path's extension, a pure table lookup depending on the path
/// alone; the empty string when the table has no entry for it.
#[verifier::external_body]
fn mime_for_path(p: &String) -> (r: String)
    ensures
        r@ == mime_guess_of(p@),
{
    match mime_guess::from_path(p.as_str()).first_raw() {
        Some(m) => m.to_owned(),
        None => String::new(),
    }
}

/// True when the media type begins with the image category marker.
pub open spec fn starts_with_image(m: Seq<char>) -> bool {
    m.len() >= 6 && m.subrange(0, 6) == "image/"@
}

/// Executable check of `starts_with_image`.
fn has_image_prefix(m: &String) -> (r: bool)
    ensures
        r == starts_with_image(m@),
{
    proof {
        reveal_strlit("image/");
    }
    let s = m.as_str();
    if s.unicode_len() < 6 {
        return false;
    }
    let r = s.get_char(0) == 'i' && s.get_char(1) == 'm' && s.get_char(2) == 'a'
        && s.get_char(3) == 'g' && s.get_char(4) == 'e' && s.get_char(5) == '/';
    proof {
        let sub = m@.subrange(0, 6);
        assert(forall|i: int| 0 <= i < 6 ==> sub[i] == m@[i]);
        if r {
            assert(sub =~= "image/"@);
        } else {
            assert(sub[0] == m@[0] && sub[1] == m@[1] && sub[2] == m@[2] && sub[3] == m@[3]
                && sub[4] == m@[4] && sub[5] == m@[5]);
            assert(sub != "image/"@);
        }
    }
    r
}

/// True when the name begins with the hidden-entry marker.
pub open spec fn spec_hidden_name(s: Seq<char>) -> bool {
    s.len() > 0 && s[0] == '.'
}

/// True when the file name starts with a dot; such entries — and
/// everything below them — are skipped by the walk.
pub fn name_starts_with_dot(s: &str) -> (r: bool)
    ensures
        r == spec_hidden_name(s@),
{
    if s.unicode_len() == 0 {
        false
    } else {
        s.get_char(0) == '.'
    }
}

/// True when the path holds, at or after position `from`, a component
/// that begins with the hidden-entry marker: a dot right after a
/// separator.
pub open spec fn hidden_component_at_or_after(p: Seq<char>, from: int) -> bool {
    exists|i: int| from <= i < p.len() && 1 <= i && #[trigger] p[i] == '.' && p[i - 1] == '/'
}

/// Relies on walkdir::WalkDir: walks the tree under `root`, pruning every
/// entry whose name starts with the hidden marker — and with it its
/// whole subtree — and reports each remaining entry's path and whether
/// it is a plain file. Every reported path extends `root`, and none
/// holds a hidden component below it: walkdir yields paths prefixed by
/// the root it was given, visits parents before children, and
/// filter_entry's pruning keeps a pruned directory's descendants from
/// ever being yielded. The first unreadable entry aborts the walk.
#[verifier::external_body]
pub(crate) fn walk_directory(root: &String) -> (r: Result<Vec<FileEntry>, Error>)
    ensures
        (r.is_err() ==> r == Err::<Vec<FileEntry>, Error>(Error::NotFound)),
        (r.is_ok() ==> forall|i: int| 0 <= i < r.unwrap()@.len()
            ==> root@.is_prefix_of(#[trigger] r.unwrap()@[i]@.path)
                && !hidden_component_at_or_after(r.unwrap()@[i]@.path, root@.len() as int)),
{
    let keep = |e: &walkdir::DirEntry|
        !name_starts_with_dot(e.file_name().to_string_lossy().as_ref());
    let mut out = Vec::new();
    for entry in walkdir::WalkDir::new(root.as_str()).into_iter().filter_entry(keep) {
        let e = entry.map_err(|_| Error::NotFound)?;
        let path = e.path().to_string_lossy().into_owned();
        out.push(FileEntry { path, is_file: e.file_type().is_file() });
    }
    Ok(out)
}

/// True of walk entries that the scan takes as import candidates: plain
/// files whose guessed media type begins with the image category.
pub open spec fn is_image_candidate(e: FileEntryView) -> bool {
    e.is_file && starts_with_image(mime_guess_of(e.path))
}

/// The paths of the image candidates among `entries`, in order.
pub open spec fn candidate_paths(s: Seq<FileEntryView>) -> Seq<Seq<char>>
    decreases s.len(),
{
    if s.len() == 0 {
        Seq::empty()
    } else if is_image_candidate(s.last()) {
        candidate_paths(s.drop_last()).push(s.last().path)
    } else {
        candidate_paths(s.drop_last())
    }
}

/// Every candidate path is the path of some walk entry that satisfies
/// the candidate predicate — this names that entry, so whatever holds
/// of all entry paths holds of all candidates.
pub proof fn lemma_candidate_path_origin(s: Seq<FileEntryView>, j: int) -> (i: int)
    requires
        0 <= j < candidate_paths(s).len(),
    ensures
        0 <= i < s.len(),
        candidate_paths(s)[j] == s[i].path,
        is_image_candidate(s[i]),
    decreases s.len(),
{
    let rest = candidate_paths(s.drop_last());
    if is_image_candidate(s.last()) && j == rest.len() {
        assert(candidate_paths(s)[j] == s.last().path);
        s.len() - 1
    } else {
        assert(candidate_paths(s)[j] == rest[j]);
        let i = lemma_candidate_path_origin(s.drop_last(), j);
        assert(s[i] == s.drop_last()[i]);
        i
    }
}

/// Picks the import candidates out of the walk's entries.
pub fn filter_candidates(entries: &Vec<FileEntry>) -> (r: Vec<String>)
    ensures
        r@.map_values(|s: String| s@) == candidate_paths(entries@.map_values(|e: FileEntry| e@)),
{
    let ghost evs = entries@.map_values(|e: FileEntry| e@);
    let n = entries.len();
    let mut r: Vec<String> = Vec::new();
    let mut k: usize = 0;
    proof {
        assert(evs.take(0) =~= Seq::<FileEntryView>::empty());
        assert(r@.map_values(|s: String| s@) =~= Seq::<Seq<char>>::empty());
    }
    while k < n
        invariant
            n == entries@.len(),
            evs == entries@.map_values(|e: FileEntry| e@),
            k <= n,
            r@.map_values(|s: String| s@) == candidate_paths(evs.take(k as int)),
        decreases n - k,
    {
        let ghost prefix = evs.take(k as int);
        let mime = mime_for_path(&entries[k].path);
        let keep = entries[k].is_file && has_image_prefix(&mime);
        proof {
            assert(evs.take(k + 1 as int).drop_last() =~= prefix);
            assert(evs.take(k + 1 as int).last() == evs[k as int]);
            assert(evs[k as int] == entries@[k as int]@);
            assert(keep == is_image_candidate(evs[k as int]));
        }
        if keep {
            let ghost before = r@.map_values(|s: String| s@);
            r.push(entries[k].path.clone());
            proof {
                assert(r@.map_values(|s: String| s@) =~= before.push(entries@[k as int]@.path));
            }
        }
        k += 1;
    }
    proof {
        assert(evs.take(n as int) =~= evs);
    }
    r
}

} // verus!
