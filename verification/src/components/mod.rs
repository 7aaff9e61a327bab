//! What the panes of the window hold.

pub mod editor;
pub mod memo_list;
