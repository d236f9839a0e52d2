use file_session::{dialog_filters, open_file_dialog, CommandError, DialogFilter, DialogOutcome};

#[test]
fn dialog_offers_markdown_then_all_files() {
    let filters = dialog_filters();
    assert_eq!(
        filters,
        vec![
            DialogFilter {
                name: "Markdown".to_string(),
                extensions: vec!["md".to_string(), "markdown".to_string()],
            },
            DialogFilter { name: "All Files".to_string(), extensions: vec!["*".to_string()] },
        ]
    );
}

#[test]
fn markdown_filter_lists_the_startup_extensions() {
    let filters = dialog_filters();
    for ext in &filters[0].extensions {
        assert!(file_session::markdown::markdown_extension(ext));
    }
    assert_eq!(filters[0].extensions.len(), 2);
}

#[test]
fn picked_file_is_returned() {
    assert_eq!(
        open_file_dialog(DialogOutcome::Picked("/docs/readme.md".to_string())),
        Ok(Some("/docs/readme.md".to_string()))
    );
    assert_eq!(
        open_file_dialog(DialogOutcome::Picked("/docs/picture.png".to_string())),
        Ok(Some("/docs/picture.png".to_string()))
    );
}

#[test]
fn cancelled_dialog_returns_nothing() {
    assert_eq!(open_file_dialog(DialogOutcome::Cancelled), Ok(None));
}

#[test]
fn unavailable_dialog_is_an_error() {
    assert_eq!(open_file_dialog(DialogOutcome::Unavailable), Err(CommandError::DialogUnavailable));
}
