//! Uninstalling a package: what is to be removed, and what the registry
//! forgets once it was removed.

use vstd::prelude::*;
use vstd::string::*;
use crate::database::{
    Database,
    Lookup,
    PackageView,
    StorageError,
    lemma_remove_then_get,
    lookup,
    without_record,
};
use crate::text::{join_path, joined};

verus! {

/// The file that an install of `package` has put on disk: its binary, in its
/// install directory.
pub open spec fn installed_file(package: PackageView) -> Seq<char> {
    joined(package.path, package.binary)
}

/// The file that must be removed to uninstall the package `name` from a
/// registry that holds `records`; none where the registry holds no record that
/// can be read under that name.
pub open spec fn file_to_remove(records: Map<Seq<u8>, Seq<u8>>, name: Seq<char>) -> Option<
    Seq<char>,
> {
    match lookup(records, name) {
        Lookup::Found(package) => Some(installed_file(package)),
        _ => None,
    }
}

/// An uninstall that waits for the package's file to be removed.
#[derive(Debug)]
pub struct Removing {
    name: String,
    file: String,
}

/// What a `Removing` holds, as plain values.
pub struct RemovingView {
    /// The name of the package that is uninstalled.
    pub name: Seq<char>,
    /// The file to remove.
    pub file: Seq<char>,
}

impl View for Removing {
    type V = RemovingView;

    closed spec fn view(&self) -> RemovingView {
        RemovingView { name: self.name@, file: self.file@ }
    }
}

impl Removing {
    /// The name of the package that is uninstalled.
    pub fn name(&self) -> (name: &str)
        ensures
            name@ == self@.name,
    {
        self.name.as_str()
    }

    /// The file to remove.
    pub fn file(&self) -> (path: &str)
        ensures
            path@ == self@.file,
    {
        self.file.as_str()
    }
}

/// Looks the package up. Where the registry does not hold it there is nothing
/// to do, and that is no failure; else its file is to be removed next. The
/// registry is only read.
pub fn uninstall(database: &Database, package_name: &str) -> (r: Result<
    Option<Removing>,
    StorageError,
>)
    ensures
        match r {
            Ok(None) => lookup(database@, package_name@) == Lookup::Absent,
            Ok(Some(removing)) => removing@.name == package_name@ && file_to_remove(
                database@,
                package_name@,
            ) == Some(removing@.file),
            Err(StorageError::Corrupt(_)) => lookup(database@, package_name@)
                == Lookup::Unreadable,
            Err(StorageError::Store(_)) => true,
            Err(StorageError::Encoding(_)) => false,
        },
{
    match database.get(package_name) {
        Err(e) => Err(e),
        Ok(None) => Ok(None),
        Ok(Some(package)) => Ok(
            Some(
                Removing {
                    name: String::from_str(package_name),
                    file: join_path(package.path.as_str(), package.binary.as_str()),
                },
            ),
        ),
    }
}

/// Takes the news that the file was removed, and removes the package's record.
/// A caller that could not remove the file does not come here, so the record
/// stays.
pub fn removed(removing: Removing, database: &mut Database) -> (r: Result<(), StorageError>)
    ensures
        match r {
            Ok(()) => final(database)@ == without_record(old(database)@, removing@.name),
            Err(StorageError::Store(_)) => final(database)@ == old(database)@ || final(database)@
                == without_record(old(database)@, removing@.name),
            Err(_) => false,
        },
        final(database).has_namespace() == old(database).has_namespace(),
        old(database)@.dom().finite() ==> final(database)@.dom().finite(),
{
    database.remove(removing.name.as_str())
}

/// Once a package was uninstalled, uninstalling it again finds nothing to do:
/// no file is to be removed, and the registry stays as it is.
pub proof fn lemma_second_uninstall_finds_nothing(records: Map<Seq<u8>, Seq<u8>>, name: Seq<char>)
    ensures
        lookup(without_record(records, name), name) == Lookup::Absent,
        file_to_remove(without_record(records, name), name) is None,
        without_record(without_record(records, name), name) == without_record(records, name),
{
    lemma_remove_then_get(records, name);
    lemma_remove_then_get(without_record(records, name), name);
}

} // verus!
