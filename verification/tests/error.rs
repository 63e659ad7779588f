use material::error::MaterialError;

#[test]
fn messages_of_the_failures() {
    assert_eq!(
        MaterialError::IncompleteImportSet.message(),
        "Will not wait any longer for .import files"
    );
    assert_eq!(
        MaterialError::IncompleteMapping.message(),
        "UID mapping does not match number of files."
    );
    assert_eq!(
        MaterialError::MissingExtension.message(),
        "Cannot pair a file without an extension with an .import file"
    );
    assert_eq!(
        MaterialError::InvalidPattern.message(),
        "Cannot search .import files: a pattern was not accepted"
    );
}
