//! Which pane the window shows.

use vstd::prelude::*;

verus! {

/// The pane that fills the window.
#[derive(Clone, Copy, Debug, PartialEq, Eq, Structural)]
pub enum AppScreen {
    /// The editor with the toolbar below it.
    Editor,
    /// The list of the stored memos.
    MemoList,
}

} // verus!
