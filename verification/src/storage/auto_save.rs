//! The scratch backup of the editor: one file that holds the text being
//! edited, written at most once per interval while there are changes.

use crate::storage::paths::{data_dir, data_dir_in, home_dir, join_path, path_join};
use std::time::Instant;
use vstd::prelude::*;

verus! {

/// `std::time::Instant`: a reading of the monotonic clock. Nothing inside
/// it is seen here.
#[verifier::external_type_specification]
#[verifier::external_body]
pub struct ExInstant(std::time::Instant);

/// `Instant::now` of std: the current reading of the monotonic clock.
/// Nothing is claimed of it.
#[verifier::external_body]
fn clock_now() -> Instant {
    Instant::now()
}

/// `Instant::elapsed` of std, in nanoseconds (`Duration::as_nanos`): the
/// time that has passed since `start`. Nothing is claimed of it.
#[verifier::external_body]
fn nanos_since(start: &Instant) -> u128 {
    start.elapsed().as_nanos()
}

/// When the scratch file was last written, how often it may be written,
/// whether there is anything new to write, and where the file lies.
pub struct AutoSave {
    last_save: Instant,
    save_interval: u64,
    is_dirty: bool,
    file_path: String,
}

/// The state of the scratch backup as a mathematical value.
pub struct AutoSaveView {
    /// The clock reading of the last write, or of the start.
    pub last_save: Instant,
    /// The least time between two writes, in seconds.
    pub save_interval: u64,
    /// Whether the text has changed since the last write.
    pub is_dirty: bool,
    /// The path of the scratch file.
    pub file_path: Seq<char>,
}

/// A write of the scratch file that is to be made: the path and the text.
pub struct ScratchWrite {
    pub path: String,
    pub content: String,
}

/// A write of the scratch file as a mathematical value.
pub struct ScratchWriteView {
    pub path: Seq<char>,
    pub content: Seq<char>,
}

impl View for ScratchWrite {
    type V = ScratchWriteView;

    open spec fn view(&self) -> ScratchWriteView {
        ScratchWriteView { path: self.path@, content: self.content@ }
    }
}

impl DeepView for ScratchWrite {
    type V = ScratchWriteView;

    open spec fn deep_view(&self) -> ScratchWriteView {
        self@
    }
}

impl View for AutoSave {
    type V = AutoSaveView;

    closed spec fn view(&self) -> AutoSaveView {
        AutoSaveView {
            last_save: self.last_save,
            save_interval: self.save_interval,
            is_dirty: self.is_dirty,
            file_path: self.file_path@,
        }
    }
}

/// The scratch file below the home directory `home`.
pub open spec fn scratch_file(home: Seq<char>) -> Seq<char> {
    path_join(data_dir(home), "autosave.txt"@)
}

/// A write is due: there are changes, and at least `interval_secs` seconds
/// have passed, `elapsed_nanos` being the nanoseconds since the last write.
pub open spec fn is_due(is_dirty: bool, elapsed_nanos: int, interval_secs: int) -> bool {
    is_dirty && elapsed_nanos >= interval_secs * 1_000_000_000
}

impl AutoSaveView {
    /// The write of `content` to the scratch file.
    pub open spec fn write_of(self, content: Seq<char>) -> ScratchWriteView {
        ScratchWriteView { path: self.file_path, content }
    }

    /// What is to be written when `elapsed_nanos` nanoseconds have passed
    /// since the last write: `content`, if a write is due, else nothing.
    pub open spec fn planned_write(
        self,
        content: Seq<char>,
        elapsed_nanos: int,
    ) -> Option<ScratchWriteView> {
        if is_due(self.is_dirty, elapsed_nanos, self.save_interval as int) {
            Some(self.write_of(content))
        } else {
            None
        }
    }
}

/// Whether a write is due.
pub fn save_is_due(is_dirty: bool, elapsed_nanos: u128, interval_secs: u64) -> (due: bool)
    ensures
        due == is_due(is_dirty, elapsed_nanos as int, interval_secs as int),
{
    let interval_nanos: u128 = (interval_secs as u128) * 1_000_000_000;
    is_dirty && elapsed_nanos >= interval_nanos
}

impl AutoSaveView {
    /// The backup at its start at the clock reading `now`: nothing to
    /// write, the interval `save_interval_secs`, and the scratch file below
    /// the home directory `home`.
    pub open spec fn started(
        home: Seq<char>,
        save_interval_secs: u64,
        now: Instant,
    ) -> AutoSaveView {
        AutoSaveView {
            last_save: now,
            save_interval: save_interval_secs,
            is_dirty: false,
            file_path: scratch_file(home),
        }
    }

    /// The backup after a write that was made at the clock reading `now`:
    /// nothing is left to write, and the interval starts at `now`.
    pub open spec fn saved_at(self, now: Instant) -> AutoSaveView {
        AutoSaveView { is_dirty: false, last_save: now, ..self }
    }

    /// `write` is what is to be written of `content` after some time
    /// since the last write, whatever that time is.
    pub open spec fn plans(self, content: Seq<char>, write: Option<ScratchWriteView>) -> bool {
        exists|elapsed_nanos: nat| write == self.planned_write(content, elapsed_nanos as int)
    }
}

impl AutoSave {
    /// A backup with nothing to write, whose interval starts now, in the
    /// home directory of the user; `None` where no home directory is known.
    /// Whether one is known lies with the environment alone: `for_home`
    /// says what is made of either answer.
    pub fn new(save_interval_secs: u64) -> (auto_save: Option<Self>)
        ensures
            auto_save matches Some(a) ==> {
                &&& !a@.is_dirty
                &&& a@.save_interval == save_interval_secs
                &&& exists|home: Seq<char>| a@.file_path == scratch_file(home)
            },
    {
        AutoSave::for_home(home_dir(), save_interval_secs)
    }

    /// A backup with nothing to write, whose interval starts now, in the
    /// home directory `home`.
    pub fn in_home(home: &str, save_interval_secs: u64) -> (auto_save: Self)
        ensures
            auto_save@ == AutoSaveView::started(
                home@,
                save_interval_secs,
                auto_save@.last_save,
            ),
    {
        AutoSave::in_home_at(home, save_interval_secs, clock_now())
    }

    /// A backup with nothing to write, whose interval starts at the clock
    /// reading `now`, in the home directory `home`.
    pub fn in_home_at(home: &str, save_interval_secs: u64, now: Instant) -> (auto_save: Self)
        ensures
            auto_save@ == AutoSaveView::started(home@, save_interval_secs, now),
    {
        let dir = data_dir_in(home);
        AutoSave {
            last_save: now,
            save_interval: save_interval_secs,
            is_dirty: false,
            file_path: join_path(dir.as_str(), "autosave.txt"),
        }
    }

    /// The backup for what is known of the home directory: one with
    /// nothing to write, whose interval starts now, below `home` where there
    /// is one, and none where there is none.
    pub fn for_home(home: Option<String>, save_interval_secs: u64) -> (auto_save: Option<Self>)
        ensures
            home is None ==> auto_save is None,
            home matches Some(h) ==> auto_save matches Some(a) && !a@.is_dirty
                && a@.save_interval == save_interval_secs && a@.file_path == scratch_file(h@),
    {
        match home {
            Some(h) => Some(AutoSave::in_home(h.as_str(), save_interval_secs)),
            None => None,
        }
    }

    /// The clock reading of the last write, or of the start where nothing
    /// was written yet.
    pub fn last_save(&self) -> (at: Instant)
        ensures
            at == self@.last_save,
    {
        self.last_save
    }

    /// The path of the scratch file.
    pub fn file_path(&self) -> (path: &str)
        ensures
            path@ == self@.file_path,
    {
        self.file_path.as_str()
    }

    /// Whether the text has changed since the last write.
    pub fn is_dirty(&self) -> (dirty: bool)
        ensures
            dirty == self@.is_dirty,
    {
        self.is_dirty
    }

    /// The least time between two writes, in seconds.
    pub fn save_interval_secs(&self) -> (secs: u64)
        ensures
            secs == self@.save_interval,
    {
        self.save_interval
    }

    /// Notes that the text has changed.
    pub fn mark_dirty(&mut self)
        ensures
            final(self)@ == (AutoSaveView { is_dirty: true, ..old(self)@ }),
    {
        self.is_dirty = true;
    }

    /// The write to make now, if one is due: `content` goes to the scratch
    /// file when there are changes and the interval has passed since the
    /// last write, by the clock. Without changes nothing is written,
    /// whatever the clock says. Nothing is noted here: `finish_save`
    /// does that, once the write has been tried.
    pub fn check_and_save(&self, content: &str) -> (write: Option<ScratchWrite>)
        ensures
            !self@.is_dirty ==> write is None,
            self@.plans(content@, write.deep_view()),
    {
        let elapsed_nanos = nanos_since(&self.last_save);
        let write = self.check_and_save_after(content, elapsed_nanos);
        proof {
            let elapsed = elapsed_nanos as nat;
            assert(write.deep_view() == self@.planned_write(content@, elapsed as int));
        }
        write
    }

    /// The write to make when `elapsed_nanos` nanoseconds have passed since
    /// the last write: `content` goes to the scratch file exactly when
    /// there are changes and the interval has passed.
    pub fn check_and_save_after(
        &self,
        content: &str,
        elapsed_nanos: u128,
    ) -> (write: Option<ScratchWrite>)
        ensures
            write.deep_view() == self@.planned_write(content@, elapsed_nanos as int),
    {
        if save_is_due(self.is_dirty, elapsed_nanos, self.save_interval) {
            Some(self.save(content))
        } else {
            None
        }
    }

    /// The write that puts `content` into the scratch file, whether or not
    /// there are changes or the interval has passed.
    pub fn save(&self, content: &str) -> (write: ScratchWrite)
        ensures
            write@ == self@.write_of(content@),
    {
        ScratchWrite { path: self.file_path.clone(), content: String::from_str(content) }
    }

    /// Notes how a write of the scratch file went, by the clock. After a
    /// write that was made nothing is left to write, and the interval
    /// starts anew, at the reading that the clock gives now. After one that
    /// failed everything is as before, so that the write comes up again.
    pub fn finish_save(&mut self, written: bool)
        ensures
            !written ==> final(self)@ == old(self)@,
            written ==> final(self)@ == old(self)@.saved_at(final(self)@.last_save),
    {
        self.finish_save_at(written, clock_now());
    }

    /// Notes how a write of the scratch file went that was tried at the
    /// clock reading `now`. After a write that was made nothing is left to
    /// write, and the interval starts at `now`. After one that failed
    /// everything is as before, so that the write comes up again.
    pub fn finish_save_at(&mut self, written: bool, now: Instant)
        ensures
            !written ==> final(self)@ == old(self)@,
            written ==> final(self)@ == old(self)@.saved_at(now),
    {
        if written {
            self.last_save = now;
            self.is_dirty = false;
        }
    }
}

} // verus!
