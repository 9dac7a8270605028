//! Command-line arguments of a launch: which of them names a file to open.

use vstd::prelude::*;

verus! {

/// An argument is flag-shaped when it starts with `-`.
pub open spec fn flag_shaped(arg: Seq<char>) -> bool {
    arg.len() > 0 && arg[0] == '-'
}

/// The file that a launch with arguments `args` asks to open: the second
/// argument (the first is the executable), unless it is flag-shaped.
pub open spec fn requested_file(args: Seq<String>) -> Option<String> {
    if args.len() > 1 && !flag_shaped(args[1]@) {
        Some(args[1])
    } else {
        None
    }
}

/// Whether `arg` is flag-shaped rather than a path.
pub fn is_flag(arg: &str) -> (r: bool)
    ensures
        r == flag_shaped(arg@),
{
    !arg.is_empty() && arg.get_char(0) == '-'
}

/// The candidate file path of a launch: element 1 of `args`, if present and
/// not flag-shaped.
pub fn candidate_path(args: &Vec<String>) -> (r: Option<String>)
    ensures
        r == requested_file(args@),
{
    if args.len() > 1 && !is_flag(args[1].as_str()) {
        Some(args[1].clone())
    } else {
        None
    }
}

/// The name under which an open-file request reaches the running UI.
pub const OPEN_FILE_REQUEST_EVENT: &'static str = "open-file-request";

/// What the running instance does when a second launch hands it its
/// arguments.
pub struct RelayAction {
    /// Bring the main window to the foreground.
    pub focus_main_window: bool,
    /// Publish an open-file request for this path to the running UI.
    pub open_file_request: Option<String>,
}

/// The reaction of the running instance to a second launch with `args`: the
/// main window is always focused, and the candidate path, if any, is
/// forwarded at once as an open-file request.
pub fn relay_second_launch(args: &Vec<String>) -> (r: RelayAction)
    ensures
        r.focus_main_window,
        r.open_file_request == requested_file(args@),
{
    RelayAction { focus_main_window: true, open_file_request: candidate_path(args) }
}

} // verus!
