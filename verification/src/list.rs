//! Listing what is installed.

use vstd::prelude::*;
use vstd::string::*;
use crate::database::{Database, Package, PackageView, StorageError, decoded, lists, views};
use crate::print::{Block, BlockView, block_views, packages_table, print_packages};

verus! {

/// What is shown for a listing of the registry: the list of the packages, or
/// one line where nothing is installed.
pub open spec fn list_shown(listed: Seq<PackageView>) -> Seq<BlockView> {
    if listed.len() == 0 {
        seq![BlockView::Line("No packages installed yet"@)]
    } else {
        seq![BlockView::Table(packages_table(listed))]
    }
}

/// What is shown for these installed packages. That there are none is told
/// in a line of its own, and is no failure.
pub fn list_report(packages: &Vec<Package>) -> (shown: Vec<Block>)
    ensures
        block_views(shown@) == list_shown(views(packages@)),
{
    if packages.len() == 0 {
        let mut shown: Vec<Block> = Vec::new();
        shown.push(Block::Line(String::from_str("No packages installed yet")));
        assert(block_views(shown@) =~= seq![BlockView::Line("No packages installed yet"@)]);
        shown
    } else {
        print_packages(packages)
    }
}

/// Reads every record of the registry and gives what is shown for them.
pub fn list(database: &Database) -> (r: Result<Vec<Block>, StorageError>)
    ensures
        match r {
            Ok(shown) => exists|listed: Seq<PackageView>|
                lists(database@, listed) && block_views(shown@) == #[trigger] list_shown(listed),
            Err(StorageError::Corrupt(_)) => exists|key: Seq<u8>|
                database@.contains_key(key) && decoded(#[trigger] database@[key]) is None,
            Err(StorageError::Store(_)) => true,
            Err(StorageError::Encoding(_)) => false,
        },
{
    match database.get_all() {
        Err(e) => Err(e),
        Ok(packages) => {
            let shown = list_report(&packages);
            assert(lists(database@, views(packages@)) && block_views(shown@) == list_shown(
                views(packages@),
            ));
            Ok(shown)
        },
    }
}

} // verus!
