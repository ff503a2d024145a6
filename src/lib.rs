//! Generation of freedesktop `.desktop` launcher files: the entry model and
//! its text rendering, the rules that decide where an entry's fields come
//! from, and the choice of the directory that receives the file.

pub mod text;
pub mod desktop_entry;
pub mod flags;
pub mod args;
pub mod install;
pub mod platform;
