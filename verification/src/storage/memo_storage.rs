//! The directory of memo files: one file for each memo, named after the
//! memo's id.

use crate::models::memo::{Memo, MemoView};
use crate::models::timestamp::Timestamp;
use crate::storage::paths::{data_dir, data_dir_in, home_dir, join_path, path_join};
use vstd::prelude::*;

verus! {

/// The directory that holds the memo files.
pub struct MemoStorage {
    storage_dir: String,
}

/// A file that was found in the storage directory: its path, and the memo
/// that its text holds, if the text could be read as a memo.
pub struct StoredFile {
    pub path: String,
    pub memo: Option<Memo>,
}

/// A found file as a mathematical value.
pub struct StoredFileView {
    pub path: Seq<char>,
    pub memo: Option<MemoView>,
}

impl View for StoredFile {
    type V = StoredFileView;

    open spec fn view(&self) -> StoredFileView {
        StoredFileView {
            path: self.path@,
            memo: self.memo.deep_view(),
        }
    }
}

impl DeepView for StoredFile {
    type V = StoredFileView;

    open spec fn deep_view(&self) -> StoredFileView {
        self@
    }
}

impl StoredFileView {
    /// The memo that is loaded from this file: what the text holds, with
    /// this file as its path. `None` for a file that holds no memo.
    pub open spec fn loaded(self) -> Option<MemoView> {
        match self.memo {
            Some(m) => Some(MemoView { file_path: Some(self.path), ..m }),
            None => None,
        }
    }
}

/// The memos that the files of `files` hold, in the order of the files.
pub open spec fn loaded_memos(files: Seq<StoredFileView>) -> Seq<MemoView> {
    files.filter_map(|f: StoredFileView| f.loaded())
}

/// No memo of `memos` stands before one that was changed later.
pub open spec fn newest_first(memos: Seq<MemoView>) -> bool {
    forall|i: int, j: int|
        0 <= i < j < memos.len() ==> !memos[j].updated_at.spec_later_than(memos[i].updated_at)
}

/// The memos of `memos` that were last changed at the instant `at`, in
/// their order.
pub open spec fn changed_at(memos: Seq<MemoView>, at: Timestamp) -> Seq<MemoView> {
    memos.filter(|m: MemoView| m.updated_at.spec_same_instant(at))
}

/// `sorted` holds the memos of `memos`, each as often as `memos` does,
/// newest first, and those of one instant in the order that they have in
/// `memos`.
pub open spec fn sorted_newest_first(sorted: Seq<MemoView>, memos: Seq<MemoView>) -> bool {
    &&& newest_first(sorted)
    &&& sorted.to_multiset() == memos.to_multiset()
    &&& forall|at: Timestamp| #[trigger] changed_at(sorted, at) == changed_at(memos, at)
}

/// No two memos of `memos` were last changed at the same instant.
pub open spec fn distinct_times(memos: Seq<MemoView>) -> bool {
    forall|i: int, j: int|
        0 <= i < j < memos.len() ==> !memos[i].updated_at.spec_same_instant(memos[j].updated_at)
}

/// Each memo of `memos` was changed later than every memo behind it.
pub open spec fn strictly_newest_first(memos: Seq<MemoView>) -> bool {
    forall|i: int, j: int|
        0 <= i < j < memos.len() ==> memos[i].updated_at.spec_later_than(memos[j].updated_at)
}

/// The directory of the memo files below the home directory `home`.
pub open spec fn memos_dir(home: Seq<char>) -> Seq<char> {
    path_join(data_dir(home), "memos"@)
}

/// The file of the memo `id` in the directory `dir`.
pub open spec fn memo_file(dir: Seq<char>, id: Seq<char>) -> Seq<char> {
    path_join(dir, id + ".json"@)
}

/// The file that `memo` is written to by the storage in the directory
/// `dir`: the file it has, or else the one that its id names in `dir`.
pub open spec fn file_of(dir: Seq<char>, memo: MemoView) -> Seq<char> {
    match memo.file_path {
        Some(p) => p,
        None => memo_file(dir, memo.id),
    }
}

/// `memo` as the storage in the directory `dir` writes it: with its file
/// as its path.
pub open spec fn stored(dir: Seq<char>, memo: MemoView) -> MemoView {
    MemoView { file_path: Some(file_of(dir, memo)), ..memo }
}

impl View for MemoStorage {
    type V = Seq<char>;

    /// The path of the directory.
    closed spec fn view(&self) -> Seq<char> {
        self.storage_dir@
    }
}

impl Clone for MemoStorage {
    fn clone(&self) -> (copy: Self)
        ensures
            copy@ == self@,
    {
        MemoStorage { storage_dir: self.storage_dir.clone() }
    }
}

impl MemoStorage {
    /// The storage below the home directory of the user; `None` where no
    /// home directory is known. Whether one is known lies with the
    /// environment alone: `for_home` says what is made of either answer.
    pub fn new() -> (storage: Option<Self>)
        ensures
            storage matches Some(s) ==> exists|home: Seq<char>| s@ == memos_dir(home),
    {
        MemoStorage::for_home(home_dir())
    }

    /// The storage below the home directory `home`.
    pub fn in_home(home: &str) -> (storage: Self)
        ensures
            storage@ == memos_dir(home@),
    {
        let dir = data_dir_in(home);
        MemoStorage { storage_dir: join_path(dir.as_str(), "memos") }
    }

    /// The storage for what is known of the home directory: below `home`
    /// where there is one, and none where there is none.
    pub fn for_home(home: Option<String>) -> (storage: Option<Self>)
        ensures
            home is None ==> storage is None,
            home matches Some(h) ==> storage matches Some(s) && s@ == memos_dir(h@),
    {
        match home {
            Some(h) => Some(MemoStorage::in_home(h.as_str())),
            None => None,
        }
    }

    /// The path of the directory.
    pub fn storage_dir(&self) -> (dir: &str)
        ensures
            dir@ == self@,
    {
        self.storage_dir.as_str()
    }

    /// Gives `memo` its file, if it has none yet, and returns the path that
    /// the memo is to be written to.
    pub fn save_memo(&self, memo: &mut Memo) -> (path: String)
        ensures
            path@ == file_of(self@, old(memo)@),
            final(memo)@ == stored(self@, old(memo)@),
    {
        match &memo.file_path {
            Some(path) => path.clone(),
            None => {
                let mut file_name = memo.id.clone();
                file_name.append(".json");
                let path = join_path(self.storage_dir.as_str(), file_name.as_str());
                memo.file_path = Some(path.clone());
                path
            },
        }
    }

    /// The memos that the files of the directory hold, newest first. A
    /// file that holds no memo is passed over; each memo gets the file it
    /// was found in as its path.
    pub fn load_all_memos(&self, files: Vec<StoredFile>) -> (memos: Vec<Memo>)
        ensures
            sorted_newest_first(memos.deep_view(), loaded_memos(files.deep_view())),
    {
        let ghost listing = files.deep_view();
        let mut memos: Vec<Memo> = Vec::new();
        proof {
            assert(listing.take(0) =~= Seq::<StoredFileView>::empty());
            assert(memos.deep_view() =~= Seq::<MemoView>::empty());
        }
        let iter = files.into_iter();
        for file in it: iter
            invariant
                it.seq().len() == listing.len(),
                forall|k: int|
                    0 <= k < listing.len() ==> (#[trigger] it.seq()[k])@ == listing[k],
                sorted_newest_first(
                    memos.deep_view(),
                    loaded_memos(listing.take(it.index() as int)),
                ),
        {
            let ghost seen = listing.take(it.index() as int);
            proof {
                assert(listing.take(it.index() + 1).drop_last() =~= seen);
                assert(listing.take(it.index() + 1).last() == file@);
            }
            let ghost next = loaded_memos(listing.take(it.index() + 1));
            let ghost sorted = memos.deep_view();
            let StoredFile { path, memo } = file;
            match memo {
                Some(mut m) => {
                    m.file_path = Some(path);
                    proof {
                        assert(file@.loaded() == Some(m@));
                        assert(next =~= loaded_memos(seen).push(m@));
                        lemma_changed_at_push(loaded_memos(seen), m@);
                        lemma_changed_at_push(sorted, m@);
                        vstd::seq_lib::to_multiset_build(loaded_memos(seen), m@);
                    }
                    place(&mut memos, m);
                    proof {
                        assert forall|at: Timestamp| #[trigger]
                            changed_at(memos.deep_view(), at) == changed_at(next, at) by {
                            assert(changed_at(sorted, at) == changed_at(loaded_memos(seen), at));
                            assert(changed_at(memos.deep_view(), at) == changed_at(
                                sorted.push(m@),
                                at,
                            ));
                        }
                    }
                },
                None => {
                    proof {
                        assert(file@.loaded() is None);
                        assert(next =~= loaded_memos(seen));
                    }
                },
            }
        }
        proof {
            assert(listing.take(listing.len() as int) =~= listing);
        }
        memos
    }

    /// The path of the file to remove when `memo` is deleted: the file of
    /// the memo, if it has one.
    pub fn delete_memo(&self, memo: &Memo) -> (path: Option<String>)
        ensures
            path.deep_view() == memo@.file_path,
    {
        match &memo.file_path {
            Some(p) => Some(p.clone()),
            None => None,
        }
    }
}

/// Puts `memo` into `memos`, behind every memo that was not changed
/// earlier than it.
fn place(memos: &mut Vec<Memo>, memo: Memo)
    requires
        newest_first(old(memos).deep_view()),
    ensures
        newest_first(final(memos).deep_view()),
        final(memos).deep_view().to_multiset() == old(memos).deep_view().to_multiset().insert(
            memo@,
        ),
        forall|at: Timestamp| #[trigger]
            changed_at(final(memos).deep_view(), at) == changed_at(
                old(memos).deep_view().push(memo@),
                at,
            ),
{
    let mut at: usize = 0;
    while at < memos.len() && !memo.updated_at.later_than(&memos[at].updated_at)
        invariant
            at <= memos.len(),
            forall|i: int|
                0 <= i < at ==> !memo.updated_at.spec_later_than(#[trigger] memos[i].updated_at),
        decreases memos.len() - at,
    {
        at = at + 1;
    }
    let ghost before = memos.deep_view();
    proof {
        lemma_insert_in_order(before, at as int, memo@);
    }
    memos.insert(at, memo);
    proof {
        assert(memos.deep_view() =~= before.insert(at as int, memo@));
    }
}

/// Filtering by the instant after a push: the pushed memo comes last among
/// those of its instant, and is absent from the others.
proof fn lemma_changed_at_push(memos: Seq<MemoView>, memo: MemoView)
    ensures
        forall|at: Timestamp| #[trigger]
            changed_at(memos.push(memo), at) == if memo.updated_at.spec_same_instant(at) {
                changed_at(memos, at).push(memo)
            } else {
                changed_at(memos, at)
            },
{
    assert forall|at: Timestamp| #[trigger]
        changed_at(memos.push(memo), at) == if memo.updated_at.spec_same_instant(at) {
            changed_at(memos, at).push(memo)
        } else {
            changed_at(memos, at)
        } by {
        reveal(Seq::filter);
        assert(memos.push(memo).drop_last() =~= memos);
    }
}

/// Inserting `memo` at `at`, behind the memos that were not changed earlier
/// and before the first one that was, keeps the order, adds the memo once,
/// and leaves it last among the memos of its instant.
proof fn lemma_insert_in_order(memos: Seq<MemoView>, at: int, memo: MemoView)
    requires
        newest_first(memos),
        0 <= at <= memos.len(),
        forall|i: int|
            0 <= i < at ==> !memo.updated_at.spec_later_than(#[trigger] memos[i].updated_at),
        at < memos.len() ==> memo.updated_at.spec_later_than(memos[at].updated_at),
    ensures
        newest_first(memos.insert(at, memo)),
        memos.insert(at, memo).to_multiset() == memos.to_multiset().insert(memo),
        forall|t: Timestamp| #[trigger]
            changed_at(memos.insert(at, memo), t) == changed_at(memos.push(memo), t),
{
    let grown = memos.insert(at, memo);
    assert forall|i: int, j: int| 0 <= i < j < grown.len() implies !grown[j]
        .updated_at.spec_later_than(grown[i].updated_at) by {
        if j == at {
        } else if i == at {
            assert(grown[j] == memos[j - 1]);
            if j - 1 > at {
                assert(!memos[j - 1].updated_at.spec_later_than(memos[at].updated_at));
            }
        } else {
        }
    }
    assert(grown.to_multiset() =~= memos.to_multiset().insert(memo)) by {
        grown.to_multiset_ensures();
        assert(grown.remove(at) =~= memos);
        assert(grown[at] == memo);
    }
    lemma_changed_at_push(memos, memo);
    let head = memos.take(at);
    let tail = memos.skip(at);
    assert(memos =~= head + tail);
    assert(grown =~= head + seq![memo] + tail);
    assert forall|t: Timestamp| #[trigger]
        changed_at(grown, t) == changed_at(memos.push(memo), t) by {
        let same = |m: MemoView| m.updated_at.spec_same_instant(t);
        Seq::filter_distributes_over_add(head, tail, same);
        Seq::filter_distributes_over_add(head + seq![memo], tail, same);
        Seq::filter_distributes_over_add(head, seq![memo], same);
        assert(seq![memo].filter(same) =~= if same(memo) {
            seq![memo]
        } else {
            Seq::empty()
        }) by {
            reveal_with_fuel(Seq::filter, 2);
            assert(seq![memo].drop_last() =~= Seq::<MemoView>::empty());
        }
        if same(memo) {
            assert forall|i: int| 0 <= i < tail.len() implies !same(#[trigger] tail[i]) by {
                assert(tail[i] == memos[at + i]);
                assert(memo.updated_at.spec_later_than(memos[at].updated_at));
                if i > 0 {
                    assert(!memos[at + i].updated_at.spec_later_than(memos[at].updated_at));
                }
            }
            tail.lemma_all_neg_filter_empty(same);
            assert(tail.filter(same) =~= Seq::<MemoView>::empty());
            assert(changed_at(grown, t) =~= changed_at(memos, t).push(memo));
        } else {
            assert(changed_at(grown, t) =~= changed_at(memos, t));
        }
    }
}

/// The file of a memo stays: a memo that was stored once is stored in the
/// same file ever after, whatever becomes of its id, its text and its
/// times, and whichever directory the storage has.
pub proof fn lemma_file_stays(dir: Seq<char>, memo: MemoView, later_dir: Seq<char>, later: MemoView)
    requires
        later.file_path == stored(dir, memo).file_path,
    ensures
        file_of(later_dir, later) == file_of(dir, memo),
        stored(later_dir, later) == later,
{
}

/// Two places of a sequence that meet `pred` leave at least two items
/// after filtering by it.
proof fn lemma_two_pass_filter<A>(s: Seq<A>, pred: spec_fn(A) -> bool, i: int, j: int)
    requires
        0 <= i < j < s.len(),
        pred(s[i]),
        pred(s[j]),
    ensures
        s.filter(pred).len() >= 2,
    decreases s.len(),
{
    reveal(Seq::filter);
    let rest = s.drop_last();
    if j == s.len() - 1 {
        assert(rest[i] == s[i]);
        rest.lemma_filter_contains(pred, i);
    } else {
        assert(rest[i] == s[i] && rest[j] == s[j]);
        lemma_two_pass_filter(rest, pred, i, j);
    }
}

/// Where filtering by `pred` leaves at least two items, two places of the
/// sequence meet `pred`.
proof fn lemma_filter_passed_two<A>(s: Seq<A>, pred: spec_fn(A) -> bool)
    requires
        s.filter(pred).len() >= 2,
    ensures
        exists|i: int, j: int|
            0 <= i < j < s.len() && pred(#[trigger] s[i]) && pred(#[trigger] s[j]),
    decreases s.len(),
{
    reveal(Seq::filter);
    if s.len() > 0 {
        let rest = s.drop_last();
        let last = s.len() - 1;
        if pred(s.last()) {
            let passed = rest.filter(pred);
            rest.lemma_filter_pred(pred, 0);
            assert(passed.contains(passed[0]));
            rest.lemma_filter_contains_rev(pred, passed[0]);
            let i = choose|i: int| 0 <= i < rest.len() && rest[i] == passed[0];
            assert(pred(s[i]) && pred(s[last]));
        } else {
            lemma_filter_passed_two(rest, pred);
            let (i, j) = choose|i: int, j: int|
                0 <= i < j < rest.len() && pred(#[trigger] rest[i]) && pred(#[trigger] rest[j]);
            assert(pred(s[i]) && pred(s[j]));
        }
    }
}

/// Memos of distinct times are sorted strictly: where no two of the memos
/// were last changed at the same instant, each memo of the sorted list was
/// changed later than every memo behind it.
pub proof fn lemma_distinct_times_sort_strictly(sorted: Seq<MemoView>, memos: Seq<MemoView>)
    requires
        sorted_newest_first(sorted, memos),
        distinct_times(memos),
    ensures
        strictly_newest_first(sorted),
{
    assert forall|i: int, j: int| 0 <= i < j < sorted.len() implies sorted[i]
        .updated_at.spec_later_than(sorted[j].updated_at) by {
        let at = sorted[i].updated_at;
        if at.spec_same_instant(sorted[j].updated_at) {
            let same = |m: MemoView| m.updated_at.spec_same_instant(at);
            lemma_two_pass_filter(sorted, same, i, j);
            assert(changed_at(sorted, at) == changed_at(memos, at));
            lemma_filter_passed_two(memos, same);
            let (a, b) = choose|a: int, b: int|
                0 <= a < b < memos.len() && same(#[trigger] memos[a]) && same(#[trigger] memos[b]);
            assert(memos[a].updated_at.spec_same_instant(memos[b].updated_at));
        }
        assert(!sorted[j].updated_at.spec_later_than(sorted[i].updated_at));
    }
}

} // verus!
