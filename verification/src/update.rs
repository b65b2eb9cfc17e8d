//! Checking for updates: which installed packages have a release whose tag is
//! not the one that was installed.

use vstd::prelude::*;
use vstd::string::*;
use crate::database::{Package, PackageView};
use crate::print::{Block, BlockView, block_views, print_updates, update_table, update_views};
use crate::repo::{Repoinfo, RepoinfoView};

verus! {

/// Whether a package is out of date against a release: the tag it was
/// installed with is not the release's tag. Tags are compared as text, letter
/// for letter.
pub open spec fn outdated(update: (PackageView, RepoinfoView)) -> bool {
    update.0.version != update.1.version
}

/// Those of some pairs of installed package and release in which the package
/// is out of date, in the order given.
pub open spec fn updates_among(resolved: Seq<(PackageView, RepoinfoView)>) -> Seq<
    (PackageView, RepoinfoView),
> {
    resolved.filter(|update: (PackageView, RepoinfoView)| outdated(update))
}

/// Whether `package` is out of date against `release`.
pub fn needs_update(package: &Package, release: &Repoinfo) -> (needed: bool)
    ensures
        needed == outdated((package@, release@)),
{
    package.version != release.version
}

/// Picks the packages that are out of date, each with its release.
pub fn find_updates(resolved: &Vec<(Package, Repoinfo)>) -> (updates: Vec<(Package, Repoinfo)>)
    ensures
        update_views(updates@) == updates_among(update_views(resolved@)),
{
    let ghost pick = |update: (PackageView, RepoinfoView)| outdated(update);
    let mut updates: Vec<(Package, Repoinfo)> = Vec::new();
    let mut at: usize = 0;
    proof {
        reveal(Seq::filter);
        assert(update_views(resolved@).take(0) =~= Seq::empty());
        assert(update_views(updates@) =~= Seq::empty());
    }
    while at < resolved.len()
        invariant
            at <= resolved.len(),
            pick == |update: (PackageView, RepoinfoView)| outdated(update),
            update_views(updates@) == update_views(resolved@).take(at as int).filter(pick),
        decreases resolved.len() - at,
    {
        let ghost before = update_views(updates@);
        let pair = &resolved[at];
        let needed = needs_update(&pair.0, &pair.1);
        if needed {
            updates.push((pair.0.clone(), pair.1.clone()));
        }
        proof {
            reveal(Seq::filter);
            let seen = update_views(resolved@).take(at as int);
            let next = update_views(resolved@).take(at + 1);
            assert(next.drop_last() =~= seen);
            assert(next.last() == (pair.0@, pair.1@));
            if needed {
                assert(update_views(updates@) =~= before.push((pair.0@, pair.1@)));
            }
        }
        at += 1;
    }
    assert(update_views(resolved@).take(at as int) =~= update_views(resolved@));
    updates
}

/// What is shown for an update check over these pairs of installed package
/// and freshly resolved release: one line where nothing is installed, one
/// line where nothing is out of date, else the list of the updates.
pub open spec fn update_shown(resolved: Seq<(PackageView, RepoinfoView)>) -> Seq<BlockView> {
    if resolved.len() == 0 {
        seq![BlockView::Line("No packages installed yet"@)]
    } else if updates_among(resolved).len() == 0 {
        seq![BlockView::Line("No updates available"@)]
    } else {
        seq![BlockView::Table(update_table(updates_among(resolved)))]
    }
}

/// Gives what is shown for an update check, once the release of every
/// installed package was resolved.
pub fn update(resolved: &Vec<(Package, Repoinfo)>) -> (shown: Vec<Block>)
    ensures
        block_views(shown@) == update_shown(update_views(resolved@)),
{
    if resolved.len() == 0 {
        let mut shown: Vec<Block> = Vec::new();
        shown.push(Block::Line(String::from_str("No packages installed yet")));
        assert(block_views(shown@) =~= seq![BlockView::Line("No packages installed yet"@)]);
        return shown;
    }
    let updates = find_updates(resolved);
    if updates.len() == 0 {
        let mut shown: Vec<Block> = Vec::new();
        shown.push(Block::Line(String::from_str("No updates available")));
        assert(block_views(shown@) =~= seq![BlockView::Line("No updates available"@)]);
        shown
    } else {
        print_updates(&updates)
    }
}

} // verus!
