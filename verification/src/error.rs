//! The kinds of failure that a command can end with, and how a failure is
//! named to the user.

use vstd::prelude::*;
use vstd::string::*;

verus! {

/// What went wrong, by the part of the system that failed.
#[derive(Clone, Copy, PartialEq, Eq, Debug, Structural)]
pub enum Category {
    /// The remote service: no connection, a status that is no success, or an
    /// answer that cannot be read.
    Remote,
    /// A local file or directory could not be made, read, written or removed.
    Filesystem,
    /// The registry: a transaction failed, or a record cannot be written or
    /// read.
    Storage,
    /// A compressed stream or an archive is corrupt.
    Archive,
    /// The command was given up: the archive holds more than one entry, or
    /// the user chose an asset that is not there.
    UserAbort,
}

/// The words that name a kind of failure to the user.
pub open spec fn label(kind: Category) -> Seq<char> {
    match kind {
        Category::Remote => "HTTP Error"@,
        Category::Filesystem => "I/O Error"@,
        Category::Storage => "Database Error"@,
        Category::Archive => "Archive Error"@,
        Category::UserAbort => "Aborted"@,
    }
}

/// The line that reports a failure: the name of its kind, a colon, and what
/// is known of it.
pub fn handle_error(kind: Category, detail: &str) -> (line: String)
    ensures
        line@ == label(kind) + ": "@ + detail@,
{
    let name = match kind {
        Category::Remote => "HTTP Error",
        Category::Filesystem => "I/O Error",
        Category::Storage => "Database Error",
        Category::Archive => "Archive Error",
        Category::UserAbort => "Aborted",
    };
    String::from_str(name).concat(": ").concat(detail)
}

} // verus!
