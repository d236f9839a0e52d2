//! The file dialog: what it offers, and what the command answers once the
//! user is done with it.

use vstd::prelude::*;
use vstd::string::*;
use crate::error::CommandError;

verus! {

/// One selectable filter of the file dialog.
#[derive(Debug, PartialEq, Eq)]
pub struct DialogFilter {
    /// The label shown to the user.
    pub name: String,
    /// The extensions the filter lets through, without the dot.
    pub extensions: Vec<String>,
}

/// A filter as a mathematical value.
pub struct DialogFilterView {
    pub name: Seq<char>,
    pub extensions: Seq<Seq<char>>,
}

impl DeepView for DialogFilter {
    type V = DialogFilterView;

    open spec fn deep_view(&self) -> DialogFilterView {
        DialogFilterView { name: self.name@, extensions: self.extensions.deep_view() }
    }
}

/// The filter for markdown files.
pub open spec fn markdown_filter() -> DialogFilterView {
    DialogFilterView { name: "Markdown"@, extensions: seq!["md"@, "markdown"@] }
}

/// The filter that lets every file through.
pub open spec fn all_files_filter() -> DialogFilterView {
    DialogFilterView { name: "All Files"@, extensions: seq!["*"@] }
}

/// The filters of the dialog, in the order they are offered.
pub open spec fn offered_filters() -> Seq<DialogFilterView> {
    seq![markdown_filter(), all_files_filter()]
}

/// The filters to set the file dialog up with: markdown files first, then
/// all files.
pub fn dialog_filters() -> (filters: Vec<DialogFilter>)
    ensures
        filters.deep_view() == offered_filters(),
{
    let mut markdown: Vec<String> = Vec::new();
    markdown.push(String::from_str("md"));
    markdown.push(String::from_str("markdown"));
    let mut all: Vec<String> = Vec::new();
    all.push(String::from_str("*"));
    assert(markdown.deep_view() =~= seq!["md"@, "markdown"@]);
    assert(all.deep_view() =~= seq!["*"@]);
    let mut filters: Vec<DialogFilter> = Vec::new();
    filters.push(DialogFilter { name: String::from_str("Markdown"), extensions: markdown });
    filters.push(DialogFilter { name: String::from_str("All Files"), extensions: all });
    assert(filters.deep_view() =~= offered_filters());
    filters
}

/// How a file dialog ended.
#[derive(Debug, PartialEq, Eq)]
pub enum DialogOutcome {
    /// The user chose this one file.
    Picked(String),
    /// The user closed the dialog without choosing.
    Cancelled,
    /// The host could not present the dialog.
    Unavailable,
}

/// The answer of the open-file command for a dialog that ended with
/// `outcome`: the chosen path, nothing after a cancellation, an error where
/// no dialog could be shown. The session is not involved; the caller follows
/// up with a read of the chosen path.
pub fn open_file_dialog(outcome: DialogOutcome) -> (r: Result<Option<String>, CommandError>)
    ensures
        outcome matches DialogOutcome::Picked(path) ==> r == Ok::<Option<String>, CommandError>(
            Some(path),
        ),
        outcome is Cancelled ==> r == Ok::<Option<String>, CommandError>(None),
        outcome is Unavailable ==> r == Err::<Option<String>, CommandError>(
            CommandError::DialogUnavailable,
        ),
{
    match outcome {
        DialogOutcome::Picked(path) => Ok(Some(path)),
        DialogOutcome::Cancelled => Ok(None),
        DialogOutcome::Unavailable => Err(CommandError::DialogUnavailable),
    }
}

} // verus!
