//! The storage directory as a mathematical value, and what saving, deleting
//! and loading a memo mean for it.

use crate::models::memo::MemoView;
use crate::storage::memo_storage::{
    file_of, loaded_memos, sorted_newest_first, stored, StoredFileView,
};
use vstd::prelude::*;

verus! {

/// The files of a storage directory: for the path of each file, the memo
/// that the text of the file holds, or `None` where the text holds no memo.
pub struct Directory {
    pub files: Map<Seq<char>, Option<MemoView>>,
}

impl Directory {
    /// The directory after `memo` has been written to the file `path`.
    pub open spec fn written(self, path: Seq<char>, memo: MemoView) -> Directory {
        Directory { files: self.files.insert(path, Some(memo)) }
    }

    /// The directory after the file `path` has been removed; the directory
    /// itself where there is no path.
    pub open spec fn removed(self, path: Option<Seq<char>>) -> Directory {
        match path {
            Some(p) => Directory { files: self.files.remove(p) },
            None => self,
        }
    }

    /// `files` is a listing of the directory: each of its entries is a file
    /// of the directory with what it holds, and no file is missing.
    pub open spec fn listed_by(self, files: Seq<StoredFileView>) -> bool {
        &&& forall|k: int|
            0 <= k < files.len() ==> self.files.contains_key(#[trigger] files[k].path)
                && self.files[files[k].path] == files[k].memo
        &&& forall|p: Seq<char>| #[trigger]
            self.files.contains_key(p) ==> exists|k: int|
                0 <= k < files.len() && #[trigger] files[k].path == p
    }

    /// No file but `path` holds a memo with the id `id`.
    pub open spec fn holds_id_only_at(self, id: Seq<char>, path: Option<Seq<char>>) -> bool {
        forall|p: Seq<char>| #[trigger]
            self.files.contains_key(p) && path != Some(p) ==> !(self.files[p] matches Some(m)
                && m.id == id)
    }
}

/// A memo is among the loaded ones exactly if some file holds it.
proof fn lemma_loaded_members(files: Seq<StoredFileView>, memo: MemoView)
    ensures
        loaded_memos(files).contains(memo) <==> exists|k: int|
            0 <= k < files.len() && (#[trigger] files[k]).loaded() == Some(memo),
    decreases files.len(),
{
    let load = |f: StoredFileView| f.loaded();
    if files.len() > 0 {
        let rest = files.drop_last();
        let last = files.last();
        lemma_loaded_members(rest, memo);
        let tail: Seq<MemoView> = match last.loaded() {
            Some(m) => seq![m],
            None => Seq::empty(),
        };
        assert(loaded_memos(files) =~= loaded_memos(rest) + tail);
        if loaded_memos(files).contains(memo) {
            let all = loaded_memos(files);
            let i = choose|i: int| 0 <= i < all.len() && all[i] == memo;
            if i < loaded_memos(rest).len() {
                assert(loaded_memos(rest)[i] == memo);
                assert(loaded_memos(rest).contains(memo));
                let k = choose|k: int|
                    0 <= k < rest.len() && (#[trigger] rest[k]).loaded() == Some(memo);
                assert(files[k].loaded() == Some(memo));
            } else {
                assert(files[files.len() - 1].loaded() == Some(memo));
            }
        }
        if exists|k: int| 0 <= k < files.len() && (#[trigger] files[k]).loaded() == Some(memo) {
            let k = choose|k: int|
                0 <= k < files.len() && (#[trigger] files[k]).loaded() == Some(memo);
            if k < rest.len() {
                assert(rest[k].loaded() == Some(memo));
                let part = loaded_memos(rest);
                let i = choose|i: int| 0 <= i < part.len() && part[i] == memo;
                assert(loaded_memos(files)[i] == memo);
            } else {
                assert(loaded_memos(files)[loaded_memos(rest).len() as int] == memo);
            }
        }
    } else {
        assert(loaded_memos(files) =~= Seq::<MemoView>::empty());
    }
}

/// Sorting neither adds a memo nor loses one.
proof fn lemma_same_members(sorted: Seq<MemoView>, memos: Seq<MemoView>, memo: MemoView)
    requires
        sorted_newest_first(sorted, memos),
    ensures
        sorted.contains(memo) <==> memos.contains(memo),
{
    sorted.to_multiset_ensures();
    memos.to_multiset_ensures();
    assert(sorted.to_multiset().count(memo) == memos.to_multiset().count(memo));
}

/// A memo that was saved is loaded again: when `memo` has been written to
/// the file that `save_memo` names for it, and the directory is listed and
/// loaded, then the loaded memos hold one that agrees with `memo` in id,
/// title, content and both times, and has that file as its path.
pub proof fn lemma_saved_memo_is_loaded(
    storage_dir: Seq<char>,
    dir: Directory,
    memo: MemoView,
    files: Seq<StoredFileView>,
    memos: Seq<MemoView>,
)
    requires
        dir.written(file_of(storage_dir, memo), memo).listed_by(files),
        sorted_newest_first(memos, loaded_memos(files)),
    ensures
        memos.contains(stored(storage_dir, memo)),
{
    let path = file_of(storage_dir, memo);
    let loaded = stored(storage_dir, memo);
    let after = dir.written(path, memo);
    assert(after.files.contains_key(path));
    let k = choose|k: int| 0 <= k < files.len() && #[trigger] files[k].path == path;
    assert(files[k].memo == Some(memo));
    assert(files[k].loaded() == Some(loaded));
    lemma_loaded_members(files, loaded);
    lemma_same_members(memos, loaded_memos(files), loaded);
}

/// A memo that was deleted is not loaded again: when the file that
/// `delete_memo` names for `memo` has been removed, and no other file of
/// the directory holds a memo with its id, then no memo that is loaded
/// from a listing of the directory has the id of `memo`.
pub proof fn lemma_deleted_memo_is_not_loaded(
    dir: Directory,
    memo: MemoView,
    files: Seq<StoredFileView>,
    memos: Seq<MemoView>,
)
    requires
        dir.holds_id_only_at(memo.id, memo.file_path),
        dir.removed(memo.file_path).listed_by(files),
        sorted_newest_first(memos, loaded_memos(files)),
    ensures
        forall|i: int| 0 <= i < memos.len() ==> (#[trigger] memos[i]).id != memo.id,
{
    let after = dir.removed(memo.file_path);
    assert forall|i: int| 0 <= i < memos.len() implies (#[trigger] memos[i]).id != memo.id by {
        let found = memos[i];
        assert(memos.contains(found));
        lemma_same_members(memos, loaded_memos(files), found);
        lemma_loaded_members(files, found);
        let k = choose|k: int|
            0 <= k < files.len() && (#[trigger] files[k]).loaded() == Some(found);
        let p = files[k].path;
        assert(after.files.contains_key(p) && after.files[p] == files[k].memo);
        assert(dir.files.contains_key(p) && memo.file_path != Some(p));
    }
}

/// Loading passes over the files that hold no memo and loses none of the
/// others: as many memos are loaded as the listed files hold.
pub proof fn lemma_loaded_count(files: Seq<StoredFileView>, memos: Seq<MemoView>)
    requires
        sorted_newest_first(memos, loaded_memos(files)),
    ensures
        memos.len() == loaded_memos(files).len(),
{
    memos.to_multiset_ensures();
    loaded_memos(files).to_multiset_ensures();
}

/// Each loaded memo is what some listed file holds, with that file as its
/// path.
pub proof fn lemma_loaded_from_file(files: Seq<StoredFileView>, memos: Seq<MemoView>, i: int)
    requires
        sorted_newest_first(memos, loaded_memos(files)),
        0 <= i < memos.len(),
    ensures
        exists|k: int| 0 <= k < files.len() && (#[trigger] files[k]).loaded() == Some(memos[i]),
{
    assert(memos.contains(memos[i]));
    lemma_same_members(memos, loaded_memos(files), memos[i]);
    lemma_loaded_members(files, memos[i]);
}

/// What each listed file holds is loaded, with that file as its path.
pub proof fn lemma_file_is_loaded(files: Seq<StoredFileView>, memos: Seq<MemoView>, k: int)
    requires
        sorted_newest_first(memos, loaded_memos(files)),
        0 <= k < files.len(),
        files[k].memo is Some,
    ensures
        memos.contains(files[k].loaded().unwrap()),
{
    let memo = files[k].loaded().unwrap();
    lemma_loaded_members(files, memo);
    lemma_same_members(memos, loaded_memos(files), memo);
}

} // verus!
