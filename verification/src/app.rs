//! The decisions of the window: what the buttons ask for, what is done about
//! it at the start of a frame, and what has to be written when the text in
//! the editor changes. The window itself reads and writes the files and
//! hands the results in.

use crate::components::editor::{Editor, EditorView};
use crate::components::memo_list::{MemoList, MemoListView};
use crate::models::memo::{Memo, MemoView};
use crate::models::timestamp::{local_now, Timestamp};
use crate::state::AppScreen;
use crate::storage::auto_save::{AutoSave, AutoSaveView, ScratchWrite};
use crate::storage::memo_storage::{
    loaded_memos, sorted_newest_first, stored, MemoStorage, StoredFile,
};
use vstd::prelude::*;

verus! {

/// The seconds between two writes of the scratch file.
pub const SAVE_INTERVAL_SECS: u64 = 2;

/// What the user asks for with a button or a click.
#[derive(Clone, Copy, Debug, PartialEq, Eq, Structural)]
pub enum Intent {
    /// The toolbar's button for a new memo.
    New,
    /// The toolbar's button for the list.
    List,
    /// The toolbar's button that deletes the memo in the editor.
    Delete,
    /// The list's button that leads back to the editor.
    Back,
    /// A click on the memo with this index in the list.
    Select(usize),
}

/// What is to be done next at the start of a frame.
#[derive(Clone, Copy, Debug, PartialEq, Eq, Structural)]
pub enum Task {
    /// Delete the memo in the editor: `QuickMemoApp::delete_current_memo`.
    DeleteCurrentMemo,
    /// Store the memo in the editor and start a new one:
    /// `QuickMemoApp::create_new_memo`.
    CreateNewMemo,
    /// Show the list: `QuickMemoApp::show_list`.
    ShowList,
    /// List the storage directory and load the memos:
    /// `QuickMemoApp::reload`.
    ReloadList,
    /// Show the editor: `QuickMemoApp::show_editor`.
    ShowEditor,
    /// Nothing is left to do but to draw the pane.
    Render,
}

/// The state of the window.
pub struct QuickMemoApp {
    pub editor: Editor,
    pub auto_save: AutoSave,
    /// The text of the editor as it was last seen.
    pub last_content: String,
    pub current_screen: AppScreen,
    pub memo_list: MemoList,
    pub memo_storage: MemoStorage,
    pub should_switch_to_list: bool,
    pub should_switch_to_editor: bool,
    pub should_create_new_memo: bool,
    pub should_delete_current_memo: bool,
    /// The files have changed since the list was loaded.
    pub should_reload_list: bool,
    /// The memo in the editor.
    pub current_memo: Memo,
}

/// The state of the window as a mathematical value.
pub struct AppView {
    pub editor: EditorView,
    pub auto_save: AutoSaveView,
    pub last_content: Seq<char>,
    pub current_screen: AppScreen,
    pub memo_list: MemoListView,
    pub memo_storage: Seq<char>,
    pub should_switch_to_list: bool,
    pub should_switch_to_editor: bool,
    pub should_create_new_memo: bool,
    pub should_delete_current_memo: bool,
    pub should_reload_list: bool,
    pub current_memo: MemoView,
}

impl View for QuickMemoApp {
    type V = AppView;

    open spec fn view(&self) -> AppView {
        AppView {
            editor: self.editor@,
            auto_save: self.auto_save@,
            last_content: self.last_content@,
            current_screen: self.current_screen,
            memo_list: self.memo_list@,
            memo_storage: self.memo_storage@,
            should_switch_to_list: self.should_switch_to_list,
            should_switch_to_editor: self.should_switch_to_editor,
            should_create_new_memo: self.should_create_new_memo,
            should_delete_current_memo: self.should_delete_current_memo,
            should_reload_list: self.should_reload_list,
            current_memo: self.current_memo@,
        }
    }
}

impl AppView {
    /// The state after the user has asked for `intent`: the request is
    /// noted, and a click on a memo also notes which one was picked.
    pub open spec fn requested(self, intent: Intent) -> AppView {
        match intent {
            Intent::New => AppView { should_create_new_memo: true, ..self },
            Intent::List => AppView { should_switch_to_list: true, ..self },
            Intent::Delete => AppView { should_delete_current_memo: true, ..self },
            Intent::Back => AppView { should_switch_to_editor: true, ..self },
            Intent::Select(index) => AppView {
                should_switch_to_editor: true,
                memo_list: MemoListView { selected_index: Some(index), ..self.memo_list },
                ..self
            },
        }
    }

    /// What is to be done next: the list is loaded as soon as the files
    /// have changed; deleting comes before a new memo, that before the
    /// list, and that before the editor.
    pub open spec fn next_task(self) -> Task {
        if self.should_reload_list {
            Task::ReloadList
        } else if self.should_delete_current_memo {
            Task::DeleteCurrentMemo
        } else if self.should_create_new_memo {
            Task::CreateNewMemo
        } else if self.should_switch_to_list {
            Task::ShowList
        } else if self.should_switch_to_editor {
            Task::ShowEditor
        } else {
            Task::Render
        }
    }

    /// How much is left to do before the pane is drawn. Each task that is
    /// asked for counts, and counts for more than the tasks that it asks
    /// for in turn, so that doing the next task always leaves less.
    pub open spec fn pending(self) -> nat {
        let delete: nat = if self.should_delete_current_memo {
            4
        } else {
            0
        };
        let create: nat = if self.should_create_new_memo {
            2
        } else {
            0
        };
        let list: nat = if self.should_switch_to_list {
            2
        } else {
            0
        };
        let editor: nat = if self.should_switch_to_editor {
            1
        } else {
            0
        };
        let reload: nat = if self.should_reload_list {
            1
        } else {
            0
        };
        delete + create + list + editor + reload
    }

    /// The state with `memo` in the editor: the editor shows its title and
    /// content, and that text counts as seen.
    pub open spec fn opened(self, memo: MemoView) -> AppView {
        let editor = EditorView { title: memo.title, content: memo.content };
        AppView { current_memo: memo, editor, last_content: editor.save_content(), ..self }
    }

    /// The text of the editor differs from the text last seen.
    pub open spec fn has_changes(self) -> bool {
        self.editor.save_content() != self.last_content
    }

    /// The memo in the editor as it is written to its file: with the file
    /// it has, or else the one that its id names in the storage directory.
    pub open spec fn stored_memo(self) -> MemoView {
        stored(self.memo_storage, self.current_memo)
    }

    /// The state after a change of the text in the editor was noted at the
    /// time `now`: the scratch backup has something to write, the text of
    /// the editor counts as seen, and the memo in the editor has its file,
    /// the title and content of the editor, and `now` as the time of its
    /// last change.
    pub open spec fn changed(self, now: Timestamp) -> AppView {
        AppView {
            auto_save: AutoSaveView { is_dirty: true, ..self.auto_save },
            last_content: self.editor.save_content(),
            current_memo: self.stored_memo().updated(self.editor.title, self.editor.content, now),
            ..self
        }
    }

    /// The memo to write when the list is opened or the window closes: the
    /// memo in the editor, if it has a file and `file_exists` says that the
    /// file is there.
    pub open spec fn memo_to_keep(self, file_exists: bool) -> Option<MemoView> {
        if self.current_memo.file_path is Some && file_exists {
            Some(self.current_memo)
        } else {
            None
        }
    }
}

impl QuickMemoApp {
    /// The state at the start, by the clock: as `new_at` gives it for the
    /// current time.
    pub fn new(
        auto_save: AutoSave,
        memo_storage: MemoStorage,
        saved_content: Option<String>,
        files: Vec<StoredFile>,
    ) -> (app: Self)
        ensures
            app@.editor == match saved_content {
                Some(text) => EditorView::restored(text@),
                None => EditorView::blank(),
            },
            app@.last_content == app@.editor.save_content(),
            app@.auto_save == auto_save@,
            app@.memo_storage == memo_storage@,
            app@.current_screen == AppScreen::Editor,
            sorted_newest_first(app@.memo_list.memos, loaded_memos(files.deep_view())),
            app@.memo_list.selected_index is None,
            app@.memo_list.search_query == Seq::<char>::empty(),
            !app@.should_switch_to_list,
            !app@.should_switch_to_editor,
            !app@.should_create_new_memo,
            !app@.should_delete_current_memo,
            !app@.should_reload_list,
            app@.current_memo == (MemoView {
                title: app@.editor.title,
                content: app@.editor.content,
                ..MemoView::fresh(app@.current_memo.created_at)
            }),
    {
        QuickMemoApp::new_at(auto_save, memo_storage, saved_content, files, local_now())
    }

    /// The state at the start, at the time `now`: the editor shows the text
    /// of the scratch file, `saved_content`, if there was one, and is empty
    /// under the default title if not; a memo made at `now` with that title
    /// and content is in the editor; the list holds the memos of `files`,
    /// newest first; nothing has been asked for.
    pub fn new_at(
        auto_save: AutoSave,
        memo_storage: MemoStorage,
        saved_content: Option<String>,
        files: Vec<StoredFile>,
        now: Timestamp,
    ) -> (app: Self)
        ensures
            app@.editor == match saved_content {
                Some(text) => EditorView::restored(text@),
                None => EditorView::blank(),
            },
            app@.last_content == app@.editor.save_content(),
            app@.auto_save == auto_save@,
            app@.memo_storage == memo_storage@,
            app@.current_screen == AppScreen::Editor,
            sorted_newest_first(app@.memo_list.memos, loaded_memos(files.deep_view())),
            app@.memo_list.selected_index is None,
            app@.memo_list.search_query == Seq::<char>::empty(),
            !app@.should_switch_to_list,
            !app@.should_switch_to_editor,
            !app@.should_create_new_memo,
            !app@.should_delete_current_memo,
            !app@.should_reload_list,
            app@.current_memo == (MemoView {
                title: app@.editor.title,
                content: app@.editor.content,
                ..MemoView::fresh(now)
            }),
    {
        let editor = match saved_content {
            Some(text) => Editor::from_content(text),
            None => Editor::new(String::from_str("non title")),
        };
        let last_content = editor.get_save_content();
        let mut memo_list = MemoList::new();
        memo_list.memos = memo_storage.load_all_memos(files);
        let mut current_memo = Memo::new_at(now);
        current_memo.title = editor.title.clone();
        current_memo.content = editor.content.clone();
        QuickMemoApp {
            editor,
            auto_save,
            last_content,
            current_screen: AppScreen::Editor,
            memo_list,
            memo_storage,
            should_switch_to_list: false,
            should_switch_to_editor: false,
            should_create_new_memo: false,
            should_delete_current_memo: false,
            should_reload_list: false,
            current_memo,
        }
    }

    /// Notes what the user has asked for. It is done at the start of the
    /// next frame.
    pub fn request(&mut self, intent: Intent)
        ensures
            final(self)@ == old(self)@.requested(intent),
    {
        match intent {
            Intent::New => {
                self.should_create_new_memo = true;
            },
            Intent::List => {
                self.should_switch_to_list = true;
            },
            Intent::Delete => {
                self.should_delete_current_memo = true;
            },
            Intent::Back => {
                self.should_switch_to_editor = true;
            },
            Intent::Select(index) => {
                self.memo_list.selected_index = Some(index);
                self.should_switch_to_editor = true;
            },
        }
    }

    /// What is to be done next at the start of a frame. The window does it
    /// and asks again, until the answer is `Task::Render`.
    pub fn next_task(&self) -> (task: Task)
        ensures
            task == self@.next_task(),
            task == Task::Render <==> self@.pending() == 0,
    {
        if self.should_reload_list {
            Task::ReloadList
        } else if self.should_delete_current_memo {
            Task::DeleteCurrentMemo
        } else if self.should_create_new_memo {
            Task::CreateNewMemo
        } else if self.should_switch_to_list {
            Task::ShowList
        } else if self.should_switch_to_editor {
            Task::ShowEditor
        } else {
            Task::Render
        }
    }

    /// Notes a change of the text in the editor, by the clock: as
    /// `check_changes_at` does for the current time.
    pub fn check_changes(&mut self) -> (write: Option<Memo>)
        ensures
            !old(self)@.has_changes() ==> write is None && final(self)@ == old(self)@,
            old(self)@.has_changes() ==> write.deep_view() == Some(final(self)@.current_memo)
                && final(self)@ == old(self)@.changed(final(self)@.current_memo.updated_at),
    {
        self.check_changes_at(local_now())
    }

    /// Notes a change of the text in the editor at the time `now`: the
    /// scratch backup has something to write, the text counts as seen, and
    /// the memo in the editor takes title and content and `now` as the time
    /// of its last change. Returns the memo to write to its file; `None`,
    /// with nothing noted, where the text is as it was last seen.
    pub fn check_changes_at(&mut self, now: Timestamp) -> (write: Option<Memo>)
        ensures
            !old(self)@.has_changes() ==> write is None && final(self)@ == old(self)@,
            old(self)@.has_changes() ==> write.deep_view() == Some(final(self)@.current_memo)
                && final(self)@ == old(self)@.changed(now),
    {
        let current_content = self.editor.get_save_content();
        if current_content == self.last_content {
            return None;
        }
        self.auto_save.mark_dirty();
        self.last_content = current_content;
        self.current_memo.update_content_at(
            self.editor.title.clone(),
            self.editor.content.clone(),
            now,
        );
        let _ = self.memo_storage.save_memo(&mut self.current_memo);
        Some(self.current_memo.clone())
    }

    /// Stores the memo in the editor and starts a new one, by the clock: as
    /// `create_new_memo_at` does for the current time.
    pub fn create_new_memo(&mut self) -> (write: Memo)
        ensures
            write@ == old(self)@.stored_memo(),
            final(self)@.current_memo.is_fresh(),
            final(self)@ == (AppView {
                should_create_new_memo: false,
                should_reload_list: true,
                ..old(self)@.opened(final(self)@.current_memo)
            }),
            old(self)@.next_task() == Task::CreateNewMemo ==> final(self)@.pending()
                < old(self)@.pending(),
    {
        self.create_new_memo_at(local_now())
    }

    /// Stores the memo in the editor and starts a new one, made at the time
    /// `now`. Returns the memo to write to its file; the list is to be
    /// loaded again after that.
    pub fn create_new_memo_at(&mut self, now: Timestamp) -> (write: Memo)
        ensures
            write@ == old(self)@.stored_memo(),
            final(self)@ == (AppView {
                should_create_new_memo: false,
                should_reload_list: true,
                ..old(self)@.opened(MemoView::fresh(now))
            }),
            old(self)@.next_task() == Task::CreateNewMemo ==> final(self)@.pending()
                < old(self)@.pending(),
    {
        let _ = self.memo_storage.save_memo(&mut self.current_memo);
        let write = self.current_memo.clone();
        self.clear_current_memo_at(now);
        self.should_create_new_memo = false;
        self.should_reload_list = true;
        write
    }

    /// Deletes the memo in the editor, starts a new one and asks for the
    /// list, by the clock: as `delete_current_memo_at` does for the current
    /// time.
    pub fn delete_current_memo(&mut self) -> (remove: Option<String>)
        ensures
            remove.deep_view() == old(self)@.current_memo.file_path,
            final(self)@.current_memo.is_fresh(),
            final(self)@ == (AppView {
                should_delete_current_memo: false,
                should_switch_to_list: true,
                ..old(self)@.opened(final(self)@.current_memo)
            }),
            old(self)@.next_task() == Task::DeleteCurrentMemo ==> final(self)@.pending()
                < old(self)@.pending(),
    {
        self.delete_current_memo_at(local_now())
    }

    /// Deletes the memo in the editor, starts a new one, made at the time
    /// `now`, and asks for the list. Returns the path of the file to
    /// remove, if the memo had one.
    pub fn delete_current_memo_at(&mut self, now: Timestamp) -> (remove: Option<String>)
        ensures
            remove.deep_view() == old(self)@.current_memo.file_path,
            final(self)@ == (AppView {
                should_delete_current_memo: false,
                should_switch_to_list: true,
                ..old(self)@.opened(MemoView::fresh(now))
            }),
            old(self)@.next_task() == Task::DeleteCurrentMemo ==> final(self)@.pending()
                < old(self)@.pending(),
    {
        let remove = self.memo_storage.delete_memo(&self.current_memo);
        self.clear_current_memo_at(now);
        self.should_switch_to_list = true;
        self.should_delete_current_memo = false;
        remove
    }

    /// Puts a new memo into the editor, by the clock: as
    /// `clear_current_memo_at` does for the current time.
    pub fn clear_current_memo(&mut self)
        ensures
            final(self)@.current_memo.is_fresh(),
            final(self)@ == old(self)@.opened(final(self)@.current_memo),
    {
        self.clear_current_memo_at(local_now());
    }

    /// Puts a new memo, made at the time `now`, into the editor.
    pub fn clear_current_memo_at(&mut self, now: Timestamp)
        ensures
            final(self)@ == old(self)@.opened(MemoView::fresh(now)),
    {
        self.current_memo = Memo::new_at(now);
        self.editor.title = String::from_str("non title");
        self.editor.content = String::new();
        self.last_content = self.editor.get_save_content();
    }

    /// Shows the list. `file_exists` says whether the file of the memo in
    /// the editor is there. Returns the memo to write to its file, which is
    /// the memo in the editor if it has a file that is there; the list is
    /// to be loaded again after that.
    pub fn show_list(&mut self, file_exists: bool) -> (write: Option<Memo>)
        ensures
            write.deep_view() == old(self)@.memo_to_keep(file_exists),
            final(self)@ == (AppView {
                current_screen: AppScreen::MemoList,
                should_switch_to_list: false,
                should_reload_list: true,
                ..old(self)@
            }),
            old(self)@.next_task() == Task::ShowList ==> final(self)@.pending()
                < old(self)@.pending(),
    {
        self.current_screen = AppScreen::MemoList;
        self.should_switch_to_list = false;
        self.should_reload_list = true;
        self.memo_to_keep(file_exists)
    }

    /// Puts the memos of `files`, the listing of the storage directory,
    /// into the list, newest first.
    pub fn reload(&mut self, files: Vec<StoredFile>)
        ensures
            sorted_newest_first(final(self)@.memo_list.memos, loaded_memos(files.deep_view())),
            final(self)@ == (AppView {
                should_reload_list: false,
                memo_list: MemoListView {
                    memos: final(self)@.memo_list.memos,
                    ..old(self)@.memo_list
                },
                ..old(self)@
            }),
            old(self)@.next_task() == Task::ReloadList ==> final(self)@.pending()
                < old(self)@.pending(),
    {
        self.memo_list.memos = self.memo_storage.load_all_memos(files);
        self.should_reload_list = false;
    }

    /// Shows the editor, with the memo that was picked in the list, if one
    /// was picked and the list has it. Nothing is picked afterwards.
    pub fn show_editor(&mut self)
        ensures
            final(self)@ == ({
                let before = old(self)@;
                let shown = AppView {
                    current_screen: AppScreen::Editor,
                    should_switch_to_editor: false,
                    memo_list: MemoListView { selected_index: None, ..before.memo_list },
                    ..before
                };
                match before.memo_list.selected_index {
                    Some(index) if index < before.memo_list.memos.len() => shown.opened(
                        before.memo_list.memos[index as int],
                    ),
                    _ => shown,
                }
            }),
            old(self)@.next_task() == Task::ShowEditor ==> final(self)@.pending()
                < old(self)@.pending(),
    {
        let picked = self.memo_list.selected_index;
        self.memo_list.selected_index = None;
        match picked {
            Some(index) => {
                if index < self.memo_list.memos.len() {
                    self.current_memo = self.memo_list.memos[index].clone();
                    self.editor.title = self.current_memo.title.clone();
                    self.editor.content = self.current_memo.content.clone();
                    self.last_content = self.editor.get_save_content();
                }
            },
            None => {},
        }
        self.current_screen = AppScreen::Editor;
        self.should_switch_to_editor = false;
    }

    /// The write of the scratch file to make in this frame, if one is due
    /// by the clock: the text of the editor.
    pub fn scratch_backup(&self) -> (write: Option<ScratchWrite>)
        ensures
            !self@.auto_save.is_dirty ==> write is None,
            self@.auto_save.plans(self@.editor.save_content(), write.deep_view()),
    {
        let content = self.editor.get_save_content();
        self.auto_save.check_and_save(content.as_str())
    }

    /// What is written when the window closes. `file_exists` says whether
    /// the file of the memo in the editor is there. Returns the memo to
    /// write to its file, which is the memo in the editor if it has a file
    /// that is there, and the write of the scratch file, which is made in
    /// any case.
    pub fn on_exit(&self, file_exists: bool) -> (writes: (Option<Memo>, ScratchWrite))
        ensures
            writes.0.deep_view() == self@.memo_to_keep(file_exists),
            writes.1@ == self@.auto_save.write_of(self@.editor.save_content()),
    {
        let content = self.editor.get_save_content();
        (self.memo_to_keep(file_exists), self.auto_save.save(content.as_str()))
    }

    fn memo_to_keep(&self, file_exists: bool) -> (write: Option<Memo>)
        ensures
            write.deep_view() == self@.memo_to_keep(file_exists),
    {
        if self.current_memo.file_path.is_some() && file_exists {
            Some(self.current_memo.clone())
        } else {
            None
        }
    }
}

} // verus!
