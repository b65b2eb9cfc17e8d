//! Installing a release, one decision at a time.
//!
//! An install goes through four decisions, each taken when the caller has
//! done the work before it: the release was resolved (`resolved`), the user
//! has chosen an asset (`chosen`), the asset was downloaded (`downloaded`),
//! its single entry was unpacked (`extracted`). Each decision hands out the
//! value that the next one takes, so none can be skipped: only an archive
//! that passed `downloaded` can be unpacked, and only `extracted` writes to
//! the registry.

use vstd::prelude::*;
use vstd::string::*;
use crate::archive::{
    ArchiveError,
    TarInfo,
    TarInfoView,
    decompress_file,
    decompressed,
    entry_views,
    get_tar_infos,
    tar_entries,
};
use crate::database::{Database, Package, PackageView, StorageError, with_record};
use crate::error::Category;
use crate::print::{
    Block,
    BlockView,
    asset_table,
    block_views,
    print_index_question,
    print_repo_info,
    repo_table,
};
use crate::repo::{
    AssetInfo,
    AssetInfoView,
    Query,
    QueryView,
    Repoinfo,
    RepoinfoView,
    client_header,
    download_asset,
};

verus! {

/// Why an install stopped.
#[derive(Debug)]
pub enum InstallError {
    /// The user's number names no asset: it is not between one and `count`.
    InvalidChoice { choice: usize, count: usize },
    /// The download cannot be decompressed or is no archive.
    Archive(ArchiveError),
    /// The archive holds nothing.
    EmptyArchive,
    /// The archive holds this many entries, more than the one that can be
    /// installed.
    MultipleEntries(usize),
    /// The registry could not take the record.
    Storage(StorageError),
}

impl InstallError {
    /// The kind of failure that this is.
    pub open spec fn category(self) -> Category {
        match self {
            InstallError::InvalidChoice { .. } => Category::UserAbort,
            InstallError::Archive(_) => Category::Archive,
            InstallError::EmptyArchive => Category::Archive,
            InstallError::MultipleEntries(_) => Category::UserAbort,
            InstallError::Storage(_) => Category::Storage,
        }
    }

    /// The kind of failure that this is.
    pub fn kind(&self) -> (kind: Category)
        ensures
            kind == self.category(),
    {
        match self {
            InstallError::InvalidChoice { .. } => Category::UserAbort,
            InstallError::Archive(_) => Category::Archive,
            InstallError::EmptyArchive => Category::Archive,
            InstallError::MultipleEntries(_) => Category::UserAbort,
            InstallError::Storage(_) => Category::Storage,
        }
    }
}

/// An install that waits for the user to choose one of the release's assets.
#[derive(Debug)]
pub struct Choosing {
    release: Repoinfo,
}

impl View for Choosing {
    type V = RepoinfoView;

    /// The release that is being installed.
    closed spec fn view(&self) -> RepoinfoView {
        self.release@
    }
}

impl Choosing {
    /// The release that is being installed.
    pub fn release(&self) -> (release: &Repoinfo)
        ensures
            release@ == self@,
    {
        &self.release
    }

    /// What is shown to the user before the choice: the release and its
    /// assets, numbered from one.
    pub fn shown(&self) -> (shown: Vec<Block>)
        ensures
            block_views(shown@) == seq![
                BlockView::Table(repo_table(self@)),
                BlockView::Line(""@),
                BlockView::Table(asset_table(self@.assets)),
                BlockView::Line(""@),
            ],
    {
        print_repo_info(&self.release)
    }

    /// The prompt for the choice.
    pub fn question(&self) -> (prompt: String)
        ensures
            prompt@ == "Choose an asset to download"@ + ": "@,
    {
        print_index_question("Choose an asset to download")
    }
}

/// An install that waits for the chosen asset to be downloaded.
#[derive(Debug)]
pub struct Downloading {
    release: Repoinfo,
    asset: AssetInfo,
}

/// What a `Downloading` holds, as plain values.
pub struct DownloadingView {
    /// The release that is being installed.
    pub release: RepoinfoView,
    /// The asset that was chosen.
    pub asset: AssetInfoView,
}

impl View for Downloading {
    type V = DownloadingView;

    closed spec fn view(&self) -> DownloadingView {
        DownloadingView { release: self.release@, asset: self.asset@ }
    }
}

impl Downloading {
    /// The release that is being installed.
    pub fn release(&self) -> (release: &Repoinfo)
        ensures
            release@ == self@.release,
    {
        &self.release
    }

    /// The asset that was chosen.
    pub fn asset(&self) -> (asset: &AssetInfo)
        ensures
            asset@ == self@.asset,
    {
        &self.asset
    }

    /// The request for the asset's bytes.
    pub fn query(&self) -> (query: Query)
        ensures
            query@ == (QueryView {
                url: self@.asset.url,
                bearer: None,
                headers: seq![client_header()],
            }),
    {
        download_asset(&self.asset)
    }

    /// The line that tells the user what is downloaded.
    pub fn message(&self) -> (line: String)
        ensures
            line@ == "Downloading "@ + self@.asset.name + "..."@,
    {
        String::from_str("Downloading ").concat(self.asset.name.as_str()).concat("...")
    }
}

/// An install that waits for the archive's single entry to be unpacked into
/// the install directory.
#[derive(Debug)]
pub struct Extracting {
    package: Package,
    archive: Vec<u8>,
}

/// What an `Extracting` holds, as plain values.
pub struct ExtractingView {
    /// The record that the registry gets once the entry is unpacked.
    pub package: PackageView,
    /// The tar stream to unpack.
    pub archive: Seq<u8>,
}

impl View for Extracting {
    type V = ExtractingView;

    closed spec fn view(&self) -> ExtractingView {
        ExtractingView { package: self.package@, archive: self.archive@ }
    }
}

impl Extracting {
    /// The record that the registry gets once the entry is unpacked.
    pub fn package(&self) -> (package: &Package)
        ensures
            package@ == self@.package,
    {
        &self.package
    }

    /// The tar stream to unpack.
    pub fn archive(&self) -> (archive: &Vec<u8>)
        ensures
            archive@ == self@.archive,
    {
        &self.archive
    }

    /// The directory to unpack into.
    pub fn destination(&self) -> (path: &str)
        ensures
            path@ == self@.package.path,
    {
        self.package.path.as_str()
    }

    /// The line that tells the user what is installed, and where.
    pub fn message(&self) -> (line: String)
        ensures
            line@ == "Installing "@ + self@.package.binary + " to "@ + self@.package.path,
    {
        String::from_str("Installing ").concat(self.package.binary.as_str()).concat(" to ").concat(
            self.package.path.as_str(),
        )
    }
}

/// Takes the release that was resolved. A release without assets ends the
/// install: there is nothing to choose, and that is no failure.
pub fn resolved(release: Repoinfo) -> (next: Option<Choosing>)
    ensures
        match next {
            Some(choosing) => release@.assets.len() > 0 && choosing@ == release@,
            None => release@.assets.len() == 0,
        },
{
    if release.assets.len() == 0 {
        None
    } else {
        Some(Choosing { release })
    }
}

/// Takes the user's choice, a number from one to the number of assets, as
/// the assets are numbered where they are shown.
pub fn chosen(choosing: Choosing, choice: usize) -> (next: Result<Downloading, InstallError>)
    ensures
        match next {
            Ok(downloading) => 1 <= choice <= choosing@.assets.len()
                && downloading@.release == choosing@ && downloading@.asset
                == choosing@.assets[choice - 1],
            Err(InstallError::InvalidChoice { choice: refused, count }) => refused == choice
                && count == choosing@.assets.len() && !(1 <= choice <= count),
            Err(_) => false,
        },
{
    let count = choosing.release.assets.len();
    if 1 <= choice && choice <= count {
        let asset = choosing.release.assets[choice - 1].clone();
        Ok(Downloading { release: choosing.release, asset })
    } else {
        Err(InstallError::InvalidChoice { choice, count })
    }
}

/// Lets an archive pass that holds exactly one entry, and hands that entry
/// out.
pub fn single_entry(entries: Vec<TarInfo>) -> (r: Result<TarInfo, InstallError>)
    ensures
        match r {
            Ok(entry) => entries.len() == 1 && entry@ == entries[0]@,
            Err(InstallError::EmptyArchive) => entries.len() == 0,
            Err(InstallError::MultipleEntries(count)) => count == entries.len() && count > 1,
            Err(_) => false,
        },
{
    let mut entries = entries;
    let count = entries.len();
    if count == 1 {
        match entries.pop() {
            Some(entry) => Ok(entry),
            None => Err(InstallError::EmptyArchive),
        }
    } else if count == 0 {
        Err(InstallError::EmptyArchive)
    } else {
        Err(InstallError::MultipleEntries(count))
    }
}

/// What a download turns out to be.
pub enum Inspection {
    /// It cannot be decompressed, or what it holds is no archive.
    Unreadable,
    /// An archive without entries.
    Empty,
    /// An archive with this many entries, more than one.
    Multiple(nat),
    /// An archive with one entry: the tar stream, and the entry.
    Single { archive: Seq<u8>, entry: TarInfoView },
}

/// What a download with this content turns out to be.
pub open spec fn inspection(content: Seq<u8>) -> Inspection {
    match decompressed(content) {
        None => Inspection::Unreadable,
        Some(archive) => match tar_entries(archive) {
            None => Inspection::Unreadable,
            Some(entries) => if entries.len() == 0 {
                Inspection::Empty
            } else if entries.len() == 1 {
                Inspection::Single { archive, entry: entries[0] }
            } else {
                Inspection::Multiple(entries.len())
            },
        },
    }
}

/// The record of a release whose single entry `entry` is installed into
/// `install_path`: the version is the release's tag as it is.
pub open spec fn record_for(
    release: RepoinfoView,
    install_path: Seq<char>,
    entry: TarInfoView,
) -> PackageView {
    PackageView {
        name: release.name,
        version: release.version,
        binary: entry.name,
        path: install_path,
    }
}

/// Takes the bytes that were downloaded: decompresses them, lists the
/// archive, and lets it pass if it holds exactly one entry. An archive with
/// more entries, or with none, stops the install here: nothing is unpacked
/// and the registry is not touched.
pub fn downloaded(downloading: Downloading, content: &[u8], install_path: &str) -> (next: Result<
    Extracting,
    InstallError,
>)
    ensures
        match next {
            Ok(extracting) => match inspection(content@) {
                Inspection::Single { archive, entry } => extracting@ == (ExtractingView {
                    package: record_for(downloading@.release, install_path@, entry),
                    archive,
                }),
                _ => false,
            },
            Err(InstallError::Archive(_)) => inspection(content@) == Inspection::Unreadable,
            Err(InstallError::EmptyArchive) => inspection(content@) == Inspection::Empty,
            Err(InstallError::MultipleEntries(count)) => inspection(content@)
                == Inspection::Multiple(count as nat),
            Err(_) => false,
        },
{
    let archive = match decompress_file(content) {
        Ok(archive) => archive,
        Err(e) => { return Err(InstallError::Archive(e)); },
    };
    let entries = match get_tar_infos(archive.as_slice()) {
        Ok(entries) => entries,
        Err(e) => { return Err(InstallError::Archive(e)); },
    };
    assert(entry_views(entries@).len() == entries@.len());
    assert(entries@.len() > 0 ==> entry_views(entries@)[0] == entries@[0]@);
    let entry = match single_entry(entries) {
        Ok(entry) => entry,
        Err(e) => { return Err(e); },
    };
    let package = Package {
        name: downloading.release.name,
        version: downloading.release.version,
        binary: entry.name,
        path: String::from_str(install_path),
    };
    Ok(Extracting { package, archive })
}

/// Takes the news that the entry was unpacked, and puts the record into the
/// registry under the package's name, in place of an earlier install. This is
/// the one place where an install writes to the registry.
pub fn extracted(extracting: Extracting, database: &mut Database) -> (r: Result<
    Package,
    InstallError,
>)
    ensures
        match r {
            Ok(package) => {
                &&& package@ == extracting@.package
                &&& package@.fits()
                &&& final(database)@ == with_record(old(database)@, package@.name, package@)
            },
            Err(InstallError::Storage(StorageError::Store(_))) => final(database)@ == old(
                database,
            )@ || final(database)@ == with_record(
                old(database)@,
                extracting@.package.name,
                extracting@.package,
            ),
            Err(_) => false,
        },
        final(database).has_namespace() == old(database).has_namespace(),
        old(database)@.dom().finite() ==> final(database)@.dom().finite(),
{
    let package = extracting.package;
    match database.put(package.name.as_str(), &package) {
        Ok(()) => Ok(package),
        Err(e) => Err(InstallError::Storage(e)),
    }
}

} // verus!
