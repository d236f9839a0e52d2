//! What counts as a markdown file: the rule on a path's extension.

use vstd::prelude::*;
use vstd::string::*;

verus! {

/// What `std::path::Path::extension` returns for a path, both taken as text:
/// the part of the path's final component after its last dot, or nothing
/// where std finds no extension.
///
/// std's rules for splitting a path into components are not restated here.
/// Contracts speak of their outcome under this name.
pub uninterp spec fn extension_of(path: Seq<char>) -> Option<Seq<char>>;

/// The extension of `path`, found by `std::path::Path::extension`.
///
/// Trusted, not proved: the text returned is what that call returns for
/// `path`, which is what `extension_of` names. Every part of a `str` path is
/// valid UTF-8, so turning the extension into a `String` changes nothing.
#[verifier::external_body]
pub(crate) fn path_extension(path: &str) -> (ext: Option<String>)
    ensures
        ext.deep_view() == extension_of(path@),
{
    match std::path::Path::new(path).extension() {
        Some(ext) => Some(ext.to_string_lossy().into_owned()),
        None => None,
    }
}

/// The extensions of markdown files. The match is exact and case-sensitive.
pub open spec fn is_markdown_extension(ext: Seq<char>) -> bool {
    ext == "md"@ || ext == "markdown"@
}

/// Whether a path with this extension, if it has one, is a markdown file.
pub open spec fn names_markdown(extension: Option<Seq<char>>) -> bool {
    extension matches Some(ext) && is_markdown_extension(ext)
}

/// Whether `ext` is one of the markdown extensions.
pub fn markdown_extension(ext: &str) -> (markdown: bool)
    ensures
        markdown == is_markdown_extension(ext@),
{
    let ext = String::from_str(ext);
    ext == String::from_str("md") || ext == String::from_str("markdown")
}

} // verus!
