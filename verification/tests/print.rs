use uniform::print::{authors, ManifestError};

#[test]
fn authors_with_single_author_works() {
    let names = vec![String::from("First Last <first.last@example.com>")];
    let actual = authors(&names).unwrap();
    assert_eq!(actual, String::from("First Last"));
}

#[test]
fn authors_with_multiple_authors_works() {
    let names = vec![
        String::from("1 Author <first.last@example.com>"),
        String::from("2 Author <2.author@example.com>"),
        String::from("3 author <3.author@example.com>"),
    ];
    let actual = authors(&names).unwrap();
    assert_eq!(actual, String::from("1 Author; 2 Author; 3 author"));
}

#[test]
fn authors_without_entries_fails() {
    let names: Vec<String> = Vec::new();
    assert_eq!(authors(&names).unwrap_err(), ManifestError::Authors);
}

#[test]
fn authors_with_only_an_email_fails() {
    let names = vec![String::from("  <someone@example.com>  ")];
    assert_eq!(authors(&names).unwrap_err(), ManifestError::Authors);
}

#[test]
fn authors_without_email_is_kept_whole() {
    let names = vec![String::from("  Plain Name  ")];
    assert_eq!(authors(&names).unwrap(), String::from("Plain Name"));
}

#[test]
fn authors_joins_empty_entries_with_separator() {
    // Two entries that clean to nothing still join to a separator, which
    // counts as text: only a list whose joined form is empty fails.
    let names = vec![String::from("<a@b>"), String::from("<c@d>")];
    assert_eq!(authors(&names).unwrap(), String::from("; "));
}
