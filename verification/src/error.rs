//! The ways in which the synthesis of a material can fail.

use vstd::prelude::*;
use vstd::string::StringExecFns;

verus! {

/// Why no material was produced. Every failure ends the whole run: a material
/// that refers to fewer textures than were converted is never written.
#[derive(Clone, Copy, Debug, PartialEq, Eq, Structural)]
pub enum MaterialError {
    /// A candidate file has no extension, so that no `.import` file can be
    /// paired with it.
    MissingExtension,
    /// Fewer `.import` files appeared than there are candidate files, and the
    /// time to wait for them is over.
    IncompleteImportSet,
    /// Some `.import` file did not yield a UID, a source path and a property.
    IncompleteMapping,
    /// The search patterns for the `.import` files were not accepted.
    InvalidPattern,
}

impl MaterialError {
    /// The message for the user, as a sequence of characters.
    pub open spec fn text(self) -> Seq<char> {
        match self {
            MaterialError::MissingExtension => "Cannot pair a file without an extension with an .import file"@,
            MaterialError::IncompleteImportSet => "Will not wait any longer for .import files"@,
            MaterialError::IncompleteMapping => "UID mapping does not match number of files."@,
            MaterialError::InvalidPattern => "Cannot search .import files: a pattern was not accepted"@,
        }
    }

    /// The message for the user.
    pub fn message(&self) -> (out: String)
        ensures
            out@ == self.text(),
    {
        match self {
            MaterialError::MissingExtension => String::from_str(
                "Cannot pair a file without an extension with an .import file",
            ),
            MaterialError::IncompleteImportSet => String::from_str(
                "Will not wait any longer for .import files",
            ),
            MaterialError::IncompleteMapping => String::from_str(
                "UID mapping does not match number of files.",
            ),
            MaterialError::InvalidPattern => String::from_str(
                "Cannot search .import files: a pattern was not accepted",
            ),
        }
    }
}

} // verus!
