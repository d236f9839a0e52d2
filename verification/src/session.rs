//! The session: at most one active file, and the modification time last
//! seen for it.

use vstd::prelude::*;
use vstd::string::*;
use crate::error::{read_failure_text, CommandError};
use crate::markdown::{extension_of, markdown_extension, names_markdown, path_extension};
use crate::timestamp::Timestamp;

verus! {

/// A session as a mathematical value: the active path as text, and the
/// stored modification time as nanoseconds from the Unix epoch.
pub struct SessionView {
    pub active_path: Option<Seq<char>>,
    pub last_known_modified: Option<int>,
}

/// An observed modification time as nanoseconds from the Unix epoch; nothing
/// where the file could not be examined.
pub open spec fn instant_of(observed: Option<Timestamp>) -> Option<int> {
    match observed {
        Some(t) => Some(t@),
        None => None,
    }
}

/// The extension of the startup candidate, where there is a candidate.
pub open spec fn candidate_extension(candidate: Option<Seq<char>>) -> Option<Seq<char>> {
    match candidate {
        Some(path) => extension_of(path),
        None => None,
    }
}

impl SessionView {
    /// The session with no file loaded.
    pub open spec fn empty() -> SessionView {
        SessionView { active_path: None, last_known_modified: None }
    }

    /// A modification time is stored only for an active file.
    pub open spec fn consistent(self) -> bool {
        self.last_known_modified is Some ==> self.active_path is Some
    }

    /// The session a process starts with. The candidate path is taken as the
    /// active file when it exists on disk and has a markdown extension; no
    /// modification time is stored yet. Anything else starts empty.
    pub open spec fn at_startup(
        candidate: Option<Seq<char>>,
        exists: bool,
        extension: Option<Seq<char>>,
    ) -> SessionView {
        if candidate is Some && exists && names_markdown(extension) {
            SessionView { active_path: candidate, last_known_modified: None }
        } else {
            SessionView::empty()
        }
    }

    /// The session after `path` was read: whatever was active before is
    /// replaced by `path` and the modification time observed for it.
    pub open spec fn after_read(self, path: Seq<char>, observed: Option<int>) -> SessionView {
        SessionView { active_path: Some(path), last_known_modified: observed }
    }

    /// The path whose modification time a change check compares: the active
    /// path, once a modification time is stored for it.
    pub open spec fn watched_path(self) -> Option<Seq<char>> {
        if self.last_known_modified is Some {
            self.active_path
        } else {
            None
        }
    }

    /// Whether the file counts as changed when `observed` is what the disk
    /// says now. Any difference counts, also a step back in time; a file
    /// that cannot be examined counts as unchanged.
    pub open spec fn changed(self, observed: Option<int>) -> bool {
        &&& self.active_path is Some
        &&& self.last_known_modified is Some
        &&& observed is Some
        &&& observed != self.last_known_modified
    }

    /// The session after a change was dismissed: the stored modification
    /// time becomes the observed one. Without an active file, or where the
    /// file could not be examined, nothing changes.
    pub open spec fn after_dismiss(self, observed: Option<int>) -> SessionView {
        if self.active_path is Some && observed is Some {
            SessionView { active_path: self.active_path, last_known_modified: observed }
        } else {
            self
        }
    }
}

/// The one stateful value of the viewer. It lives as long as the process and
/// is never cleared: a read replaces its file, a dismissal refreshes the
/// stored modification time.
#[derive(Debug, PartialEq, Eq)]
pub struct Session {
    active_path: Option<String>,
    last_known_modified: Option<Timestamp>,
}

impl View for Session {
    type V = SessionView;

    closed spec fn view(&self) -> SessionView {
        SessionView {
            active_path: self.active_path.deep_view(),
            last_known_modified: instant_of(self.last_known_modified),
        }
    }
}

impl Clone for Session {
    fn clone(&self) -> (s: Session)
        ensures
            s@ == self@,
            s@.consistent(),
    {
        proof {
            use_type_invariant(self);
        }
        Session {
            active_path: self.get_initial_file(),
            last_known_modified: self.last_known_modified,
        }
    }
}

impl Session {
    #[verifier::type_invariant]
    spec fn stored_time_has_a_file(self) -> bool {
        self.last_known_modified is Some ==> self.active_path is Some
    }

    /// The session with no file loaded.
    pub fn new() -> (s: Session)
        ensures
            s@ == SessionView::empty(),
            s@.consistent(),
    {
        Session { active_path: None, last_known_modified: None }
    }

    /// The session to start with, given the candidate path from the command
    /// line, whether that path exists on disk, and the extension found in it.
    pub fn starting_with(
        candidate: Option<String>,
        exists: bool,
        extension: Option<String>,
    ) -> (s: Session)
        ensures
            s@ == SessionView::at_startup(candidate.deep_view(), exists, extension.deep_view()),
            s@.consistent(),
    {
        let markdown = match &extension {
            Some(ext) => markdown_extension(ext.as_str()),
            None => false,
        };
        match candidate {
            Some(path) => {
                if exists && markdown {
                    Session { active_path: Some(path), last_known_modified: None }
                } else {
                    Session::new()
                }
            },
            None => Session::new(),
        }
    }

    /// The session to start with, given the candidate path from the command
    /// line and whether that path exists on disk. The candidate's extension
    /// is read as std reads it. Invalid candidates are not reported: the
    /// session then starts empty.
    pub fn at_startup(candidate: Option<String>, exists: bool) -> (s: Session)
        ensures
            s@ == SessionView::at_startup(
                candidate.deep_view(),
                exists,
                candidate_extension(candidate.deep_view()),
            ),
            s@.consistent(),
    {
        let extension = match &candidate {
            Some(path) => path_extension(path.as_str()),
            None => None,
        };
        Session::starting_with(candidate, exists, extension)
    }

    /// Records the outcome of reading `path`.
    ///
    /// `outcome` is the file's text, or the cause of the failure in the
    /// operating system's words. `observed` is the file's modification time
    /// taken after a successful read, if it could be had. On success the
    /// session now holds `path` and `observed`, whatever it held before, and
    /// the text is handed back. On failure the session is left as it was.
    pub fn read_file(
        &mut self,
        path: String,
        outcome: Result<String, String>,
        observed: Option<Timestamp>,
    ) -> (r: Result<String, CommandError>)
        ensures
            outcome matches Ok(contents) ==> r == Ok::<String, CommandError>(contents),
            outcome is Ok ==> final(self)@ == old(self)@.after_read(path@, instant_of(observed)),
            outcome matches Err(cause) ==> (r matches Err(e) && e is FileAccess && e.text()
                == read_failure_text(cause@)),
            outcome is Err ==> final(self)@ == old(self)@,
            final(self)@.consistent(),
    {
        proof {
            use_type_invariant(&*self);
        }
        match outcome {
            Ok(contents) => {
                self.active_path = Some(path);
                self.last_known_modified = observed;
                Ok(contents)
            },
            Err(cause) => Err(CommandError::read_failure(cause.as_str())),
        }
    }

    /// The path to examine before `check_file_changed`: present once a file
    /// is active and a modification time is stored for it.
    pub fn watched_path(&self) -> (path: Option<String>)
        ensures
            path.deep_view() == self@.watched_path(),
            self@.consistent(),
    {
        proof {
            use_type_invariant(self);
        }
        match (&self.active_path, &self.last_known_modified) {
            (Some(path), Some(_)) => Some(path.clone()),
            _ => None,
        }
    }

    /// Whether the active file has changed since its modification time was
    /// stored, `observed` being its modification time now, if it could be
    /// had. The session is not updated.
    pub fn check_file_changed(&self, observed: Option<Timestamp>) -> (changed: bool)
        ensures
            changed == self@.changed(instant_of(observed)),
            self@.consistent(),
    {
        proof {
            use_type_invariant(self);
        }
        match (&self.active_path, &self.last_known_modified, &observed) {
            (Some(_), Some(stored), Some(seen)) => !stored.same_instant(seen),
            _ => false,
        }
    }

    /// Acknowledges a change without reading the file again: `observed`, the
    /// file's modification time now, becomes the stored one.
    pub fn dismiss_file_change(&mut self, observed: Option<Timestamp>)
        ensures
            final(self)@ == old(self)@.after_dismiss(instant_of(observed)),
            final(self)@.consistent(),
    {
        proof {
            use_type_invariant(&*self);
        }
        if self.active_path.is_some() {
            if let Some(seen) = observed {
                self.last_known_modified = Some(seen);
            }
        }
    }

    /// The active path, if a file is loaded.
    pub fn get_initial_file(&self) -> (path: Option<String>)
        ensures
            path.deep_view() == self@.active_path,
            self@.consistent(),
    {
        proof {
            use_type_invariant(self);
        }
        match &self.active_path {
            Some(path) => Some(path.clone()),
            None => None,
        }
    }

    /// The stored modification time, if there is one.
    pub fn last_known_modified(&self) -> (stored: Option<Timestamp>)
        ensures
            instant_of(stored) == self@.last_known_modified,
            self@.consistent(),
    {
        proof {
            use_type_invariant(self);
        }
        self.last_known_modified
    }
}

} // verus!
