//! What holds of every session, whatever the disk does.
//!
//! The statements are over `SessionView`, the values that the contracts of
//! `Session`'s methods speak of. A modification time "seen" is what the
//! caller observed on disk and handed to the command.

use vstd::prelude::*;
use crate::dialog::markdown_filter;
use crate::markdown::is_markdown_extension;
use crate::session::SessionView;

verus! {

/// A stored modification time always belongs to an active file: the empty
/// session and every session at startup are consistent, and reading and
/// dismissing keep a session so.
pub proof fn sessions_stay_consistent(
    s: SessionView,
    path: Seq<char>,
    observed: Option<int>,
    candidate: Option<Seq<char>>,
    exists: bool,
    extension: Option<Seq<char>>,
)
    requires
        s.consistent(),
    ensures
        SessionView::empty().consistent(),
        SessionView::at_startup(candidate, exists, extension).consistent(),
        s.after_read(path, observed).consistent(),
        s.after_dismiss(observed).consistent(),
{
}

/// After a file is read, it is the session's file, and a check that sees the
/// modification time the read saw reports no change.
pub proof fn read_then_check_is_quiet(s: SessionView, path: Seq<char>, observed: Option<int>)
    ensures
        s.after_read(path, observed).active_path == Some(path),
        !s.after_read(path, observed).changed(observed),
{
}

/// Once a read has stored the time `at_read`, every check that sees another
/// time `now` reports a change, in whichever direction the time moved. After
/// a dismissal that sees `now`, or another read of the file that sees `now`,
/// a check that still sees `now` reports none.
pub proof fn change_is_reported_until_acknowledged(
    s: SessionView,
    path: Seq<char>,
    at_read: int,
    now: int,
)
    requires
        at_read != now,
    ensures
        s.after_read(path, Some(at_read)).changed(Some(now)),
        !s.after_read(path, Some(at_read)).after_dismiss(Some(now)).changed(Some(now)),
        !s.after_read(path, Some(at_read)).after_read(path, Some(now)).changed(Some(now)),
{
}

/// Right after a dismissal no change is reported, whatever the session held
/// and whether or not the file could be examined.
pub proof fn dismiss_then_check_is_quiet(s: SessionView, observed: Option<int>)
    ensures
        !s.after_dismiss(observed).changed(observed),
{
}

/// A session in which no file was ever read reports no change.
pub proof fn empty_session_reports_no_change(observed: Option<int>)
    ensures
        !SessionView::empty().changed(observed),
        SessionView::empty().watched_path() is None,
{
}

/// Dismissing a change in a session in which no file was ever read does
/// nothing.
pub proof fn dismiss_on_empty_session_is_noop(observed: Option<int>)
    ensures
        SessionView::empty().after_dismiss(observed) == SessionView::empty(),
{
}

/// A file that can no longer be examined is never reported as changed, and
/// dismissing then leaves the session as it is.
pub proof fn unexaminable_file_is_left_alone(s: SessionView)
    ensures
        !s.changed(None),
        s.after_dismiss(None) == s,
{
}

/// A session that starts with a file has no modification time for it yet, so
/// it reports no change until the file is first read.
pub proof fn startup_stores_no_time(
    candidate: Option<Seq<char>>,
    exists: bool,
    extension: Option<Seq<char>>,
    observed: Option<int>,
)
    ensures
        SessionView::at_startup(candidate, exists, extension).last_known_modified is None,
        !SessionView::at_startup(candidate, exists, extension).changed(observed),
{
}

/// The dialog's markdown filter lets through exactly the extensions that the
/// startup rule accepts.
pub proof fn markdown_filter_agrees_with_startup(ext: Seq<char>)
    ensures
        markdown_filter().extensions.contains(ext) <==> is_markdown_extension(ext),
{
    let offered = markdown_filter().extensions;
    if is_markdown_extension(ext) {
        if ext == "md"@ {
            assert(offered[0] == ext);
        } else {
            assert(offered[1] == ext);
        }
    }
}

} // verus!
