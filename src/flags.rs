//! The command-line tokens the tool recognises.
use vstd::prelude::*;

verus! {

/// Install under the user's home directory.
pub const LOCAL: &'static str = "--local";

/// Install under the system-wide applications directory.
pub const GLOBAL: &'static str = "--global";

/// The application's name; its presence selects flag-driven input.
pub const NAME: &'static str = "--name";

/// The comment, which may span several tokens.
pub const COMMENT: &'static str = "--comment";

/// The command to execute.
pub const EXEC_PATH: &'static str = "--exec-path";

/// The icon to show.
pub const ICON_PATH: &'static str = "--icon-path";

/// Whether the application runs in a terminal.
pub const TERMINAL_APP: &'static str = "--terminal-app";

/// The entry's type (`Application`, `Link`, ...).
pub const APP_TYPE: &'static str = "--app-type";

/// The entry's categories.
pub const CATEGORIES: &'static str = "--categories";

/// Print usage information and stop.
pub const HELP: &'static str = "--help";

/// Print the version and stop.
pub const VERSION: &'static str = "--version";

} // verus!
