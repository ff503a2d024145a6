//! Where an entry's fields come from: flags on the command line, or the
//! interactive prompt.
use vstd::prelude::*;
use crate::desktop_entry::{DesktopEntry, EntryFields};
use crate::flags;
use crate::text::{is_flag, is_flag_token, join_words, join_with, same_text};

verus! {

/// The tokens of an argument list as character sequences.
pub open spec fn tokens(args: Seq<String>) -> Seq<Seq<char>> {
    args.map_values(|s: String| s@)
}

/// Some token equals `flag`.
pub open spec fn has_token(ts: Seq<Seq<char>>, flag: Seq<char>) -> bool {
    exists|i: int| 0 <= i < ts.len() && ts[i] == flag
}

/// `i` is where `flag` occurs first.
pub open spec fn is_first_position(ts: Seq<Seq<char>>, flag: Seq<char>, i: int) -> bool {
    &&& 0 <= i < ts.len()
    &&& ts[i] == flag
    &&& forall|j: int| 0 <= j < i ==> ts[j] != flag
}

/// Where `flag` occurs first (meaningful when it occurs).
pub open spec fn first_position(ts: Seq<Seq<char>>, flag: Seq<char>) -> int {
    choose|i: int| is_first_position(ts, flag, i)
}

/// The value of a single-token flag: the token right after its first
/// occurrence, unless that token is missing or is itself a flag; empty
/// otherwise, and empty when the flag is absent.
pub open spec fn flag_value(ts: Seq<Seq<char>>, flag: Seq<char>) -> Seq<char> {
    let p = first_position(ts, flag);
    if has_token(ts, flag) && p + 1 < ts.len() && !is_flag_token(ts[p + 1]) {
        ts[p + 1]
    } else {
        Seq::empty()
    }
}

/// The tokens from `i` on, up to the first one that is a flag.
pub open spec fn run_from(ts: Seq<Seq<char>>, i: int) -> Seq<Seq<char>>
    decreases ts.len() - i,
{
    if 0 <= i < ts.len() && !is_flag_token(ts[i]) {
        seq![ts[i]] + run_from(ts, i + 1)
    } else {
        Seq::empty()
    }
}

/// The comment: every token after the first comment flag up to the next
/// flag, joined by single spaces; empty when the flag is absent.
pub open spec fn comment_value(ts: Seq<Seq<char>>) -> Seq<char> {
    if has_token(ts, flags::COMMENT@) {
        join_words(run_from(ts, first_position(ts, flags::COMMENT@) + 1))
    } else {
        Seq::empty()
    }
}

/// One of the six flags that carry details other than the name is present.
pub open spec fn has_detail_flag(ts: Seq<Seq<char>>) -> bool {
    ||| has_token(ts, flags::COMMENT@)
    ||| has_token(ts, flags::EXEC_PATH@)
    ||| has_token(ts, flags::ICON_PATH@)
    ||| has_token(ts, flags::TERMINAL_APP@)
    ||| has_token(ts, flags::APP_TYPE@)
    ||| has_token(ts, flags::CATEGORIES@)
}

/// The fields that the flags give.
pub open spec fn flag_fields(ts: Seq<Seq<char>>) -> EntryFields {
    EntryFields {
        name: flag_value(ts, flags::NAME@),
        comment: comment_value(ts),
        exec_path: flag_value(ts, flags::EXEC_PATH@),
        icon_path: flag_value(ts, flags::ICON_PATH@),
        terminal_app: flag_value(ts, flags::TERMINAL_APP@),
        app_type: flag_value(ts, flags::APP_TYPE@),
        categories: flag_value(ts, flags::CATEGORIES@),
    }
}

/// Why an invocation cannot go on.
#[derive(Debug, PartialEq, Eq, Structural)]
pub enum CliError {
    /// Detail flags were given without the name flag.
    MissingName,
    /// A system-wide install was asked for without root privileges.
    NotPrivileged,
    /// The user's home directory could not be determined.
    NoHomeDirectory,
}

impl CliError {
    /// The message to show for this error.
    pub fn message(&self) -> (r: String)
        ensures
            r@ == error_message(*self),
    {
        match self {
            CliError::MissingName => String::from_str(
                "Need to specify --name alongside passing details. Try again. Exiting.",
            ),
            CliError::NotPrivileged => String::from_str(
                "Global installation requires root privileges. Please run with sudo.",
            ),
            CliError::NoHomeDirectory => String::from_str("Failed to get home directory"),
        }
    }
}

/// The message shown for each error.
pub open spec fn error_message(e: CliError) -> Seq<char> {
    match e {
        CliError::MissingName => "Need to specify --name alongside passing details. Try again. Exiting."@,
        CliError::NotPrivileged => "Global installation requires root privileges. Please run with sudo."@,
        CliError::NoHomeDirectory => "Failed to get home directory"@,
    }
}

/// The first index of `flag` in `args`, if it occurs.
pub fn position_of(args: &Vec<String>, flag: &str) -> (r: Option<usize>)
    ensures
        match r {
            Some(i) => is_first_position(tokens(args@), flag@, i as int),
            None => !has_token(tokens(args@), flag@),
        },
{
    let ghost ts = tokens(args@);
    let mut i: usize = 0;
    while i < args.len()
        invariant
            i <= args.len(),
            ts == tokens(args@),
            forall|j: int| 0 <= j < i ==> ts[j] != flag@,
        decreases args.len() - i,
    {
        if same_text(args[i].as_str(), flag) {
            return Some(i);
        }
        i += 1;
    }
    None
}

/// Whether `flag` occurs in `args`.
pub fn has_flag(args: &Vec<String>, flag: &str) -> (r: bool)
    ensures
        r == has_token(tokens(args@), flag@),
{
    position_of(args, flag).is_some()
}

proof fn lemma_first_position(ts: Seq<Seq<char>>, flag: Seq<char>, i: int)
    requires
        is_first_position(ts, flag, i),
    ensures
        first_position(ts, flag) == i,
        has_token(ts, flag),
{
    let k = first_position(ts, flag);
    assert(is_first_position(ts, flag, k));
    if k < i {
        assert(ts[k] == flag);
    } else if k > i {
        assert(ts[i] == flag);
    }
}

/// The value that the single-token flag `flag` gives.
pub fn value_of(args: &Vec<String>, flag: &str) -> (r: String)
    ensures
        r@ == flag_value(tokens(args@), flag@),
{
    match position_of(args, flag) {
        Some(p) => {
            proof {
                lemma_first_position(tokens(args@), flag@, p as int);
                assert(tokens(args@).len() == args@.len());
            }
            let n: usize = args.len();
            if p + 1 < n && !is_flag(args[p + 1].as_str()) {
                args[p + 1].clone()
            } else {
                String::new()
            }
        },
        None => String::new(),
    }
}

proof fn lemma_run_from(ts: Seq<Seq<char>>, start: int, end: int)
    requires
        0 <= start <= end <= ts.len(),
        forall|k: int| start <= k < end ==> !is_flag_token(#[trigger] ts[k]),
        end == ts.len() || is_flag_token(ts[end]),
    ensures
        run_from(ts, start) == ts.subrange(start, end),
    decreases end - start,
{
    if start < end {
        lemma_run_from(ts, start + 1, end);
        assert(run_from(ts, start) =~= ts.subrange(start, end));
    } else {
        assert(ts.subrange(start, end) =~= Seq::<Seq<char>>::empty());
    }
}

/// The comment that the comment flag gives.
pub fn comment_of(args: &Vec<String>) -> (r: String)
    ensures
        r@ == comment_value(tokens(args@)),
{
    let ghost ts = tokens(args@);
    match position_of(args, flags::COMMENT) {
        Some(p) => {
            proof {
                lemma_first_position(ts, flags::COMMENT@, p as int);
                assert(ts.len() == args@.len());
            }
            let n: usize = args.len();
            let start: usize = p + 1;
            let mut i: usize = start;
            let mut out = String::new();
            while i < n && !is_flag(args[i].as_str())
                invariant
                    start <= i <= n,
                    n == args.len(),
                    ts == tokens(args@),
                    forall|k: int| start <= k < i ==> !is_flag_token(#[trigger] ts[k]),
                    out@ == join_words(ts.subrange(start as int, i as int)),
                decreases args.len() - i,
            {
                let ghost before = out@;
                if i > start {
                    out.append(" ");
                }
                out.append(args[i].as_str());
                proof {
                    reveal_strlit(" ");
                    let next = ts.subrange(start as int, i + 1);
                    assert(next.drop_last() =~= ts.subrange(start as int, i as int));
                    assert(next.last() == args@[i as int]@);
                    if i == start {
                        assert(next =~= seq![ts[i as int]]);
                        assert(join_with(next, ' ') == next[0]);
                        assert(before =~= Seq::<char>::empty());
                        assert(out@ =~= next[0]);
                    } else {
                        assert(join_with(next, ' ') == join_with(next.drop_last(), ' ') + seq![' ']
                            + next.last());
                        assert(out@ =~= before + seq![' '] + next.last());
                    }
                }
                i += 1;
            }
            proof {
                lemma_run_from(ts, start as int, i as int);
            }
            out
        },
        None => String::new(),
    }
}

/// With the name flag present, a comment flag whose first occurrence at `i`
/// is followed by `n` tokens that are not flags (and then by a flag or by the
/// end of the arguments) gives as comment exactly those `n` tokens joined by
/// single spaces.
pub proof fn lemma_comment_joins_following_words(ts: Seq<Seq<char>>, i: int, n: int)
    requires
        has_token(ts, flags::NAME@),
        is_first_position(ts, flags::COMMENT@, i),
        0 <= n,
        i + 1 + n <= ts.len(),
        forall|k: int| i + 1 <= k < i + 1 + n ==> !is_flag_token(#[trigger] ts[k]),
        i + 1 + n == ts.len() || is_flag_token(ts[i + 1 + n]),
    ensures
        flag_fields(ts).comment == join_words(ts.subrange(i + 1, i + 1 + n)),
{
    lemma_first_position(ts, flags::COMMENT@, i);
    lemma_run_from(ts, i + 1, i + 1 + n);
}

/// Where the fields come from: `Ok(Some(..))` holds the fields that the flags
/// give, when the name flag is present; `Ok(None)` means that they are to be
/// asked for interactively, when no flag of an entry is present; detail flags
/// without the name flag are a usage error.
pub fn resolve_fields(args: &Vec<String>) -> (r: Result<Option<DesktopEntry>, CliError>)
    ensures
        match r {
            Ok(Some(e)) => has_token(tokens(args@), flags::NAME@) && e@ == flag_fields(
                tokens(args@),
            ),
            Ok(None) => !has_token(tokens(args@), flags::NAME@) && !has_detail_flag(
                tokens(args@),
            ),
            Err(e) => e == CliError::MissingName && !has_token(tokens(args@), flags::NAME@)
                && has_detail_flag(tokens(args@)),
        },
{
    let has_name = has_flag(args, flags::NAME);
    let has_details = has_flag(args, flags::COMMENT) || has_flag(args, flags::EXEC_PATH)
        || has_flag(args, flags::ICON_PATH) || has_flag(args, flags::TERMINAL_APP) || has_flag(
        args,
        flags::APP_TYPE,
    ) || has_flag(args, flags::CATEGORIES);
    if has_details && !has_name {
        return Err(CliError::MissingName);
    }
    if !has_name {
        return Ok(None);
    }
    let name = value_of(args, flags::NAME);
    let comment = comment_of(args);
    let exec_path = value_of(args, flags::EXEC_PATH);
    let icon_path = value_of(args, flags::ICON_PATH);
    let terminal_app = value_of(args, flags::TERMINAL_APP);
    let app_type = value_of(args, flags::APP_TYPE);
    let categories = value_of(args, flags::CATEGORIES);
    Ok(
        Some(
            DesktopEntry::new(
                name,
                comment,
                exec_path,
                icon_path,
                terminal_app,
                app_type,
                categories,
            ),
        ),
    )
}

/// The entry that the graphical form submits: nothing when the name is
/// empty; otherwise the values typed in, with `Application` as its type.
pub fn form_entry(
    name: String,
    comment: String,
    exec_path: String,
    icon_path: String,
    terminal_app: String,
    categories: String,
) -> (r: Option<DesktopEntry>)
    ensures
        match r {
            Some(e) => name@.len() > 0 && e@ == (EntryFields {
                name: name@,
                comment: comment@,
                exec_path: exec_path@,
                icon_path: icon_path@,
                terminal_app: terminal_app@,
                app_type: "Application"@,
                categories: categories@,
            }),
            None => name@.len() == 0,
        },
{
    if name.as_str().is_empty() {
        return None;
    }
    Some(
        DesktopEntry::new(
            name,
            comment,
            exec_path,
            icon_path,
            terminal_app,
            String::from_str("Application"),
            categories,
        ),
    )
}

/// What an invocation does.
#[derive(Debug, PartialEq, Eq, Structural)]
pub enum Mode {
    /// Print usage information.
    Help,
    /// Print the version.
    Version,
    /// Work from the command line, installing system-wide when `global`.
    Cli { global: bool },
    /// Open the graphical form.
    Gui,
}

/// The mode that the arguments select: help first, then version; any of the
/// local, global or name flags select the command line, installing
/// system-wide when the global flag is present; the form otherwise.
pub open spec fn mode_of(ts: Seq<Seq<char>>) -> Mode {
    if has_token(ts, flags::HELP@) {
        Mode::Help
    } else if has_token(ts, flags::VERSION@) {
        Mode::Version
    } else if has_token(ts, flags::LOCAL@) || has_token(ts, flags::GLOBAL@) || has_token(
        ts,
        flags::NAME@,
    ) {
        Mode::Cli { global: has_token(ts, flags::GLOBAL@) }
    } else {
        Mode::Gui
    }
}

/// The mode that `args` select.
pub fn select_mode(args: &Vec<String>) -> (r: Mode)
    ensures
        r == mode_of(tokens(args@)),
{
    if has_flag(args, flags::HELP) {
        Mode::Help
    } else if has_flag(args, flags::VERSION) {
        Mode::Version
    } else if has_flag(args, flags::LOCAL) || has_flag(args, flags::GLOBAL) || has_flag(
        args,
        flags::NAME,
    ) {
        Mode::Cli { global: has_flag(args, flags::GLOBAL) }
    } else {
        Mode::Gui
    }
}

} // verus!
