use vstd::prelude::*;
use crate::pending::{PendingOpen, opt_view};
use crate::resolve::{resolve_file_path, resolved};
use crate::router::{Target, WindowState, is_route, select_target};

verus! {

/// What the shell has to do after a launch has been handled.
#[derive(Debug)]
pub enum LaunchAction {
    /// Emit a file-open notification carrying `path` to the window at position
    /// `window` of the window list, then focus that window.
    Deliver { window: usize, path: String },
    /// Create a new window; a path meant for it waits in the pending slot.
    CreateWindow,
    /// Nothing beyond what was done to the pending slot.
    Nothing,
}

/// The file named by launch arguments: the second argument, when it is there
/// and not empty (the first is the executable).
pub open spec fn file_arg_of(args: Seq<String>) -> Option<Seq<char>> {
    if args.len() > 1 && args[1]@.len() > 0 {
        Some(args[1]@)
    } else {
        None
    }
}

/// The view of an optional borrowed string.
pub open spec fn opt_str_view(o: Option<&str>) -> Option<Seq<char>> {
    match o {
        Some(s) => Some(s@),
        None => None,
    }
}

/// `a` delivers `path` to the window that routing picks among `ws`.
pub open spec fn delivers(a: LaunchAction, ws: Seq<WindowState>, path: Seq<char>) -> bool {
    match a {
        LaunchAction::Deliver { window, path: p } => is_route(ws, Target::Existing(window))
            && p@ == path,
        _ => false,
    }
}

/// Reads the file argument out of launch arguments.
pub fn file_arg(args: &Vec<String>) -> (r: Option<String>)
    ensures
        opt_view(r) == file_arg_of(args@),
{
    if args.len() > 1 && !args[1].as_str().is_empty() {
        Some(args[1].clone())
    } else {
        None
    }
}

/// Handles the arguments this process was started with. A file argument goes
/// to an existing window if there is one; otherwise it waits in `pending` for
/// the first window to show. `cwd` is the working directory, if it could be
/// read.
pub fn handle_file_arg(
    pending: &mut PendingOpen,
    args: &Vec<String>,
    cwd: Option<&str>,
    windows: &Vec<WindowState>,
) -> (r: LaunchAction)
    ensures
        match file_arg_of(args@) {
            None => r is Nothing && final(pending)@ == old(pending)@,
            Some(f) => if windows@.len() > 0 {
                delivers(r, windows@, resolved(f, opt_str_view(cwd)))
                    && final(pending)@ == old(pending)@
            } else {
                r is Nothing && final(pending)@ == Some(resolved(f, opt_str_view(cwd)))
            },
        },
{
    match file_arg(args) {
        None => LaunchAction::Nothing,
        Some(f) => {
            let path = resolve_file_path(f.as_str(), cwd);
            match select_target(windows) {
                Target::Existing(i) => LaunchAction::Deliver { window: i, path },
                Target::CreateNew => {
                    pending.set(path);
                    LaunchAction::Nothing
                },
            }
        },
    }
}

/// Handles a second launch that was redirected into this process. A file
/// argument goes to the routed window, or, when no window exists, waits in
/// `pending` for a window that is to be created. Without a file argument a
/// new window is created.
pub fn handle_single_instance(
    pending: &mut PendingOpen,
    args: &Vec<String>,
    cwd: Option<&str>,
    windows: &Vec<WindowState>,
) -> (r: LaunchAction)
    ensures
        match file_arg_of(args@) {
            None => r is CreateWindow && final(pending)@ == old(pending)@,
            Some(f) => if windows@.len() > 0 {
                delivers(r, windows@, resolved(f, opt_str_view(cwd)))
                    && final(pending)@ == old(pending)@
            } else {
                r is CreateWindow && final(pending)@ == Some(resolved(f, opt_str_view(cwd)))
            },
        },
{
    match file_arg(args) {
        None => LaunchAction::CreateWindow,
        Some(f) => {
            let path = resolve_file_path(f.as_str(), cwd);
            match select_target(windows) {
                Target::Existing(i) => LaunchAction::Deliver { window: i, path },
                Target::CreateNew => {
                    pending.set(path);
                    LaunchAction::CreateWindow
                },
            }
        },
    }
}

/// Called once a window has been shown and focused: hands back the path that
/// was waiting, to be sent to that window, and leaves the slot empty.
pub fn flush_on_show(pending: &mut PendingOpen) -> (r: Option<String>)
    ensures
        opt_view(r) == old(pending)@,
        final(pending)@ is None,
{
    pending.take()
}

} // verus!
