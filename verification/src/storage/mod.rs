//! Where the memos and the scratch backup of the editor are kept.

pub mod auto_save;
pub mod directory;
pub mod memo_storage;
pub mod paths;
