//! Where an entry is written: the install directory for a local or a
//! system-wide install, and the file name derived from the entry's name.
use vstd::prelude::*;
use crate::args::{
    flag_fields, has_detail_flag, has_token, resolve_fields, tokens, CliError,
};
use crate::desktop_entry::DesktopEntry;
use crate::flags;
use crate::text::{trim_white_space, trimmed};

verus! {

/// The per-user applications directory, relative to the home directory.
pub const LOCAL_SHARE_APPLICATIONS: &'static str = ".local/share/applications/";

/// The system-wide applications directory.
pub const GLOBAL_SHARE_APPLICATIONS: &'static str = "/usr/share/applications/";

/// `rel` appended to `base` as a path: an absolute `rel` replaces `base`;
/// otherwise a `/` separates the two unless `base` is empty or already ends
/// with one.
pub open spec fn path_join(base: Seq<char>, rel: Seq<char>) -> Seq<char> {
    if rel.len() > 0 && rel[0] == '/' {
        rel
    } else if base.len() == 0 || base.last() == '/' {
        base + rel
    } else {
        base + seq!['/'] + rel
    }
}

/// Relies on `std::path::PathBuf::push` on Unix: an absolute path replaces the
/// current one, a relative one is appended after a separator, which is added
/// only when the current path is not empty and does not end with one.
#[verifier::external_body]
fn push_path(base: &str, rel: &str) -> (r: String)
    ensures
        r@ == path_join(base@, rel@),
{
    let mut path = std::path::PathBuf::from(base);
    path.push(rel);
    path.to_string_lossy().into_owned()
}

/// Relies on `dirs::home_dir`: the current user's home directory, when one
/// can be found; one that is not valid UTF-8 is taken as not found. What it
/// is depends on the environment.
#[verifier::external_body]
fn home_directory() -> (r: Option<String>) {
    match dirs::home_dir() {
        Some(p) => p.into_os_string().into_string().ok(),
        None => None,
    }
}

/// Relies on `nix::unistd::getuid`: the real user id of the calling process.
#[verifier::external_body]
fn real_user_id() -> (r: u32) {
    nix::unistd::getuid().as_raw()
}

/// Whether `uid` is the root user's id.
pub fn is_root_uid(uid: u32) -> (r: bool)
    ensures
        r == (uid == 0),
{
    uid == 0
}

/// The directory suffix that the install kind selects.
pub open spec fn target_suffix(is_global: bool, local: Seq<char>, global: Seq<char>) -> Seq<char> {
    if is_global {
        global
    } else {
        local
    }
}

/// The directory that receives the file: `global` or `local` appended to
/// `home`. A system-wide install needs privileges: without them it fails,
/// with them it succeeds; a local install always succeeds.
pub fn install_dir(is_global: bool, privileged: bool, home: &str, local: &str, global: &str) -> (r:
    Result<String, CliError>)
    ensures
        match r {
            Ok(d) => !(is_global && !privileged) && d@ == path_join(
                home@,
                target_suffix(is_global, local@, global@),
            ),
            Err(e) => is_global && !privileged && e == CliError::NotPrivileged,
        },
{
    if is_global {
        if !privileged {
            return Err(CliError::NotPrivileged);
        }
        Ok(push_path(home, global))
    } else {
        Ok(push_path(home, local))
    }
}

/// The path of the file for `entry` in `dir`: the trimmed name followed by
/// `.desktop`.
pub fn desktop_file_path(dir: &str, entry: &DesktopEntry) -> (r: String)
    ensures
        r@ == path_join(dir@, trimmed(entry@.name) + ".desktop"@),
{
    let mut file_name = String::from_str(trim_white_space(entry.name()));
    file_name.append(".desktop");
    push_path(dir, file_name.as_str())
}

/// What a command-line invocation writes: the directory, and the entry when
/// the flags give it (`None`: it is to be asked for interactively).
pub struct CliPlan {
    pub dir: String,
    pub entry: Option<DesktopEntry>,
}

/// The entry part of a plan matches the flags.
pub open spec fn planned_entry(ts: Seq<Seq<char>>, entry: Option<DesktopEntry>) -> bool {
    match entry {
        Some(e) => has_token(ts, flags::NAME@) && e@ == flag_fields(ts),
        None => !has_token(ts, flags::NAME@),
    }
}

/// Detail flags given without the name flag.
pub open spec fn is_usage_error(ts: Seq<Seq<char>>) -> bool {
    has_detail_flag(ts) && !has_token(ts, flags::NAME@)
}

/// The error of a command-line invocation, checked in this order: usage,
/// home directory, privileges.
pub open spec fn cli_error(
    ts: Seq<Seq<char>>,
    has_home: bool,
    is_global: bool,
    privileged: bool,
) -> Option<CliError> {
    if is_usage_error(ts) {
        Some(CliError::MissingName)
    } else if !has_home {
        Some(CliError::NoHomeDirectory)
    } else if is_global && !privileged {
        Some(CliError::NotPrivileged)
    } else {
        None
    }
}

/// Plans a command-line invocation from its arguments, the home directory
/// and whether the user is privileged.
pub fn plan_cli(
    is_global: bool,
    args: &Vec<String>,
    home: Option<String>,
    privileged: bool,
    local: &str,
    global: &str,
) -> (r: Result<CliPlan, CliError>)
    ensures
        match r {
            Ok(plan) => cli_error(tokens(args@), home is Some, is_global, privileged) is None
                && plan.dir@ == path_join(
                home->Some_0@,
                target_suffix(is_global, local@, global@),
            ) && planned_entry(tokens(args@), plan.entry),
            Err(e) => cli_error(tokens(args@), home is Some, is_global, privileged) == Some(e),
        },
{
    let fields = resolve_fields(args);
    let entry = match fields {
        Err(e) => {
            return Err(e);
        },
        Ok(entry) => entry,
    };
    let home = match home {
        None => {
            return Err(CliError::NoHomeDirectory);
        },
        Some(h) => h,
    };
    match install_dir(is_global, privileged, home.as_str(), local, global) {
        Err(e) => Err(e),
        Ok(dir) => Ok(CliPlan { dir, entry }),
    }
}

/// Plans a command-line invocation for the current user: the home directory
/// and the user id are read from the system. Detail flags without the name
/// flag fail whatever the system gives; a plan holds a directory under some
/// home directory and the entry that the flags give.
pub fn prepare_cli(is_global: bool, args: &Vec<String>, local: &str, global: &str) -> (r: Result<
    CliPlan,
    CliError,
>)
    ensures
        match r {
            Ok(plan) => !is_usage_error(tokens(args@)) && (exists|h: Seq<char>|
                plan.dir@ == path_join(h, target_suffix(is_global, local@, global@)))
                && planned_entry(tokens(args@), plan.entry),
            Err(e) => (e == CliError::MissingName <==> is_usage_error(tokens(args@))) && (e
                == CliError::NotPrivileged ==> is_global),
        },
{
    let home = home_directory();
    let privileged = is_root_uid(real_user_id());
    plan_cli(is_global, args, home, privileged, local, global)
}

/// The directory that the graphical form writes to, for a given home
/// directory: `local` under it; no home directory is an environment error.
pub fn gui_dir(home: Option<String>, local: &str) -> (r: Result<String, CliError>)
    ensures
        match home {
            Some(h) => r is Ok && r->Ok_0@ == path_join(h@, local@),
            None => r == Err::<String, CliError>(CliError::NoHomeDirectory),
        },
{
    match home {
        Some(h) => Ok(push_path(h.as_str(), local)),
        None => Err(CliError::NoHomeDirectory),
    }
}

/// The directory that the graphical form writes to: `local` under the
/// current user's home directory, which is read from the system.
pub fn prepare_gui(local: &str) -> (r: Result<String, CliError>)
    ensures
        match r {
            Ok(d) => exists|h: Seq<char>| d@ == path_join(h, local@),
            Err(e) => e == CliError::NoHomeDirectory,
        },
{
    gui_dir(home_directory(), local)
}

/// A system-wide install without privileges never goes through: once the
/// home directory is found, it fails with the usage error when detail flags
/// come without the name flag, and with the permission error otherwise,
/// whatever the other arguments are.
pub proof fn lemma_global_without_privilege_fails(ts: Seq<Seq<char>>)
    ensures
        cli_error(ts, true, true, false) == Some(
            if is_usage_error(ts) {
                CliError::MissingName
            } else {
                CliError::NotPrivileged
            },
        ),
{
}

/// A system-wide install with privileges fails only on a usage error or a
/// missing home directory.
pub proof fn lemma_global_with_privilege_passes(ts: Seq<Seq<char>>, has_home: bool)
    ensures
        cli_error(ts, has_home, true, true) != Some(CliError::NotPrivileged),
{
}

} // verus!
