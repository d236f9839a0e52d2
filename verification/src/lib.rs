//! The file session of a markdown viewer: which file is open, when it was
//! last seen modified, and what each command of the viewer answers.
//!
//! The library never touches the disk or the screen. Its caller reads files,
//! asks for modification times and shows dialogs, and hands the outcomes in
//! as plain values; every decision taken on them is made, and proved, here.

pub mod dialog;
pub mod error;
pub mod laws;
pub mod markdown;
pub mod session;
pub mod startup;
pub mod timestamp;

pub use dialog::{dialog_filters, open_file_dialog, DialogFilter, DialogOutcome};
pub use error::CommandError;
pub use session::{Session, SessionView};
pub use startup::startup_candidate;
pub use timestamp::Timestamp;
