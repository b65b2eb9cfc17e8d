//! What is shown to the user: tables of packages, releases and assets, as
//! values. Drawing them on a terminal is left to the caller.

use vstd::prelude::*;
use vstd::string::*;
use crate::archive::{TarInfo, TarInfoView, entry_views};
use crate::database::{Package, PackageView, views};
use crate::repo::{AssetInfo, AssetInfoView, Repoinfo, RepoinfoView, asset_views};

verus! {

/// How a table is drawn.
#[derive(Clone, Copy, PartialEq, Eq, Debug, Structural)]
pub enum TableFormat {
    /// No borders; a line under the titles and a bar between columns.
    NoBorderLineSeparator,
    /// No borders and no separators.
    Clean,
}

/// What a cell holds. Numbers are kept as numbers: how they are written is
/// the drawer's business.
#[derive(Clone, Copy, PartialEq, Eq, Debug, Structural)]
pub enum Number {
    /// The place of a row in its table, counted from one.
    Place(usize),
    /// A count.
    Count(i64),
    /// A size in bytes, to be shown in megabytes.
    Megabytes(i128),
}

/// What a cell holds.
#[derive(PartialEq, Eq, Debug)]
pub enum Content {
    Text(String),
    Number(Number),
}

/// What a `Content` says, as plain values.
pub enum ContentView {
    Text(Seq<char>),
    Number(Number),
}

impl View for Content {
    type V = ContentView;

    open spec fn view(&self) -> ContentView {
        match self {
            Content::Text(text) => ContentView::Text(text@),
            Content::Number(number) => ContentView::Number(*number),
        }
    }
}

/// One cell of a table: what it holds and the letters that style it (bold,
/// alignment, colour), none for the default.
#[derive(PartialEq, Eq, Debug)]
pub struct Cell {
    pub content: Content,
    pub style: String,
}

/// What a `Cell` says, as plain values.
pub struct CellView {
    pub content: ContentView,
    pub style: Seq<char>,
}

impl View for Cell {
    type V = CellView;

    open spec fn view(&self) -> CellView {
        CellView { content: self.content@, style: self.style@ }
    }
}

/// A table: how it is drawn, its titles if it has any, and its rows.
#[derive(PartialEq, Eq, Debug)]
pub struct Table {
    pub format: TableFormat,
    pub titles: Option<Vec<Cell>>,
    pub rows: Vec<Vec<Cell>>,
}

/// What a `Table` says, as plain values.
pub struct TableView {
    pub format: TableFormat,
    pub titles: Option<Seq<CellView>>,
    pub rows: Seq<Seq<CellView>>,
}

/// The views of the cells of a row, in order.
pub open spec fn row_view(row: Seq<Cell>) -> Seq<CellView> {
    row.map_values(|cell: Cell| cell@)
}

impl View for Table {
    type V = TableView;

    open spec fn view(&self) -> TableView {
        TableView {
            format: self.format,
            titles: match self.titles {
                Some(titles) => Some(row_view(titles@)),
                None => None,
            },
            rows: self.rows@.map_values(|row: Vec<Cell>| row_view(row@)),
        }
    }
}

/// A cell that holds `text`, styled by `style`.
pub open spec fn text_cell(text: Seq<char>, style: Seq<char>) -> CellView {
    CellView { content: ContentView::Text(text), style }
}

/// A cell that holds `number`, styled by `style`.
pub open spec fn number_cell(number: Number, style: Seq<char>) -> CellView {
    CellView { content: ContentView::Number(number), style }
}

impl Cell {
    /// A cell that holds `text`, styled by `style`.
    pub fn text(text: &str, style: &str) -> (cell: Cell)
        ensures
            cell@ == text_cell(text@, style@),
    {
        Cell { content: Content::Text(String::from_str(text)), style: String::from_str(style) }
    }

    /// A cell that holds `number`, styled by `style`.
    pub fn number(number: Number, style: &str) -> (cell: Cell)
        ensures
            cell@ == number_cell(number, style@),
    {
        Cell { content: Content::Number(number), style: String::from_str(style) }
    }
}

/// The row of the list of packages that shows `package`.
pub open spec fn package_row(package: PackageView) -> Seq<CellView> {
    seq![
        text_cell(package.name, ""@),
        text_cell(package.version, ""@),
        text_cell(package.path, ""@),
    ]
}

/// The list of installed packages: name, version and install directory of
/// each, in the order given.
pub open spec fn packages_table(packages: Seq<PackageView>) -> TableView {
    TableView {
        format: TableFormat::NoBorderLineSeparator,
        titles: Some(
            seq![text_cell("Package"@, ""@), text_cell("Version"@, ""@), text_cell("Path"@, ""@)],
        ),
        rows: packages.map_values(|package: PackageView| package_row(package)),
    }
}

/// Builds the list of installed packages.
pub fn create_packages_table(packages: &Vec<Package>) -> (table: Table)
    ensures
        table@ == packages_table(views(packages@)),
{
    let mut titles: Vec<Cell> = Vec::new();
    titles.push(Cell::text("Package", ""));
    titles.push(Cell::text("Version", ""));
    titles.push(Cell::text("Path", ""));
    let mut rows: Vec<Vec<Cell>> = Vec::new();
    let mut at: usize = 0;
    while at < packages.len()
        invariant
            at <= packages.len(),
            rows.len() == at,
            forall|i: int| 0 <= i < at ==> row_view((#[trigger] rows[i])@) == package_row(packages[i]@),
        decreases packages.len() - at,
    {
        let package = &packages[at];
        let mut row: Vec<Cell> = Vec::new();
        row.push(Cell::text(package.name.as_str(), ""));
        row.push(Cell::text(package.version.as_str(), ""));
        row.push(Cell::text(package.path.as_str(), ""));
        assert(row_view(row@) =~= package_row(package@));
        rows.push(row);
        at += 1;
    }
    let table = Table { format: TableFormat::NoBorderLineSeparator, titles: Some(titles), rows };
    assert(table@.titles->0 =~= packages_table(views(packages@)).titles->0);
    assert(table@.rows =~= packages_table(views(packages@)).rows);
    table
}

/// What is shown of a release itself: its name, its version tag and, where it
/// has one, its description.
pub open spec fn repo_table(repo: RepoinfoView) -> TableView {
    let head = seq![
        seq![text_cell("Package:"@, ""@), text_cell(repo.name, "Fcb"@)],
        seq![text_cell("Version:"@, ""@), text_cell(repo.version, "Fgb"@)],
    ];
    TableView {
        format: TableFormat::Clean,
        titles: None,
        rows: match repo.description {
            Some(description) => head.push(
                seq![text_cell("Description:"@, ""@), text_cell(description, "b"@)],
            ),
            None => head,
        },
    }
}

/// Builds what is shown of a release itself.
pub fn create_repo_table(repo: &Repoinfo) -> (table: Table)
    ensures
        table@ == repo_table(repo@),
{
    let mut rows: Vec<Vec<Cell>> = Vec::new();
    let mut repo_row: Vec<Cell> = Vec::new();
    repo_row.push(Cell::text("Package:", ""));
    repo_row.push(Cell::text(repo.name.as_str(), "Fcb"));
    let mut version_row: Vec<Cell> = Vec::new();
    version_row.push(Cell::text("Version:", ""));
    version_row.push(Cell::text(repo.version.as_str(), "Fgb"));
    rows.push(repo_row);
    rows.push(version_row);
    match &repo.description {
        Some(description) => {
            let mut description_row: Vec<Cell> = Vec::new();
            description_row.push(Cell::text("Description:", ""));
            description_row.push(Cell::text(description.as_str(), "b"));
            rows.push(description_row);
        },
        None => {},
    }
    let table = Table { format: TableFormat::Clean, titles: None, rows };
    assert(table@.rows =~~= repo_table(repo@).rows);
    table
}

/// The row of the list of assets that shows `asset` at place `at`, counted
/// from zero; it is numbered from one, as the user chooses.
pub open spec fn asset_row(at: int, asset: AssetInfoView) -> Seq<CellView> {
    seq![
        number_cell(Number::Place((at + 1) as usize), ""@),
        text_cell(asset.name, ""@),
        number_cell(Number::Megabytes(asset.size as i128), "r"@),
        number_cell(Number::Count(asset.download_count), "r"@),
    ]
}

/// The list of the assets of a release: number, name, size and download
/// count of each, in the order given.
pub open spec fn asset_table(assets: Seq<AssetInfoView>) -> TableView {
    TableView {
        format: TableFormat::NoBorderLineSeparator,
        titles: Some(
            seq![
                text_cell("#"@, "b"@),
                text_cell("Name"@, "b"@),
                text_cell("Size (MB)"@, "br"@),
                text_cell("Downloads"@, "br"@),
            ],
        ),
        rows: Seq::new(assets.len(), |at: int| asset_row(at, assets[at])),
    }
}

/// Builds the list of the assets of a release.
pub fn create_asset_table(assets: &Vec<AssetInfo>) -> (table: Table)
    ensures
        table@ == asset_table(asset_views(assets@)),
{
    let mut titles: Vec<Cell> = Vec::new();
    titles.push(Cell::text("#", "b"));
    titles.push(Cell::text("Name", "b"));
    titles.push(Cell::text("Size (MB)", "br"));
    titles.push(Cell::text("Downloads", "br"));
    let mut rows: Vec<Vec<Cell>> = Vec::new();
    let mut at: usize = 0;
    while at < assets.len()
        invariant
            at <= assets.len(),
            rows.len() == at,
            forall|i: int| 0 <= i < at ==> row_view((#[trigger] rows[i])@) == asset_row(i, assets[i]@),
        decreases assets.len() - at,
    {
        let asset = &assets[at];
        let mut row: Vec<Cell> = Vec::new();
        row.push(Cell::number(Number::Place(at + 1), ""));
        row.push(Cell::text(asset.name.as_str(), ""));
        row.push(Cell::number(Number::Megabytes(asset.size as i128), "r"));
        row.push(Cell::number(Number::Count(asset.download_count), "r"));
        assert(row_view(row@) =~= asset_row(at as int, asset@));
        rows.push(row);
        at += 1;
    }
    let table = Table { format: TableFormat::NoBorderLineSeparator, titles: Some(titles), rows };
    assert(table@.titles->0 =~= asset_table(asset_views(assets@)).titles->0);
    assert(table@.rows =~= asset_table(asset_views(assets@)).rows);
    table
}

/// The row of the list of archive entries that shows `entry` at place `at`,
/// counted from zero.
pub open spec fn binary_row(at: int, entry: TarInfoView) -> Seq<CellView> {
    seq![
        number_cell(Number::Place((at + 1) as usize), ""@),
        text_cell(entry.name, ""@),
        number_cell(Number::Megabytes(entry.size as i128), "r"@),
    ]
}

/// The list of the entries of an archive: number, path and size of each, in
/// the order given.
pub open spec fn binaries_table(entries: Seq<TarInfoView>) -> TableView {
    TableView {
        format: TableFormat::NoBorderLineSeparator,
        titles: Some(
            seq![text_cell("#"@, "b"@), text_cell("Name"@, "b"@), text_cell("Size (MB)"@, "br"@)],
        ),
        rows: Seq::new(entries.len(), |at: int| binary_row(at, entries[at])),
    }
}

/// Builds the list of the entries of an archive.
pub fn create_binaries_table(tar_infos: &Vec<TarInfo>) -> (table: Table)
    ensures
        table@ == binaries_table(entry_views(tar_infos@)),
{
    let mut titles: Vec<Cell> = Vec::new();
    titles.push(Cell::text("#", "b"));
    titles.push(Cell::text("Name", "b"));
    titles.push(Cell::text("Size (MB)", "br"));
    let mut rows: Vec<Vec<Cell>> = Vec::new();
    let mut at: usize = 0;
    while at < tar_infos.len()
        invariant
            at <= tar_infos.len(),
            rows.len() == at,
            forall|i: int|
                0 <= i < at ==> row_view((#[trigger] rows[i])@) == binary_row(i, tar_infos[i]@),
        decreases tar_infos.len() - at,
    {
        let entry = &tar_infos[at];
        let mut row: Vec<Cell> = Vec::new();
        row.push(Cell::number(Number::Place(at + 1), ""));
        row.push(Cell::text(entry.name.as_str(), ""));
        row.push(Cell::number(Number::Megabytes(entry.size as i128), "r"));
        assert(row_view(row@) =~= binary_row(at as int, entry@));
        rows.push(row);
        at += 1;
    }
    let table = Table { format: TableFormat::NoBorderLineSeparator, titles: Some(titles), rows };
    assert(table@.titles->0 =~= binaries_table(entry_views(tar_infos@)).titles->0);
    assert(table@.rows =~= binaries_table(entry_views(tar_infos@)).rows);
    table
}

/// The row of the list of updates that shows an installed package and the
/// release that is available for it.
pub open spec fn update_row(update: (PackageView, RepoinfoView)) -> Seq<CellView> {
    seq![
        text_cell(update.0.name, ""@),
        text_cell(update.0.version, ""@),
        text_cell(update.1.version, ""@),
    ]
}

/// The views of some pairs of package and release, in order.
pub open spec fn update_views(updates: Seq<(Package, Repoinfo)>) -> Seq<(PackageView, RepoinfoView)> {
    updates.map_values(|update: (Package, Repoinfo)| (update.0@, update.1@))
}

/// The list of available updates: name, installed version and available
/// version of each package, in the order given.
pub open spec fn update_table(updates: Seq<(PackageView, RepoinfoView)>) -> TableView {
    TableView {
        format: TableFormat::NoBorderLineSeparator,
        titles: Some(
            seq![
                text_cell("Package"@, ""@),
                text_cell("Current version"@, ""@),
                text_cell("Available version"@, ""@),
            ],
        ),
        rows: updates.map_values(|update: (PackageView, RepoinfoView)| update_row(update)),
    }
}

/// Builds the list of available updates.
pub fn create_update_table(updatable_packages: &Vec<(Package, Repoinfo)>) -> (table: Table)
    ensures
        table@ == update_table(update_views(updatable_packages@)),
{
    let mut titles: Vec<Cell> = Vec::new();
    titles.push(Cell::text("Package", ""));
    titles.push(Cell::text("Current version", ""));
    titles.push(Cell::text("Available version", ""));
    let mut rows: Vec<Vec<Cell>> = Vec::new();
    let mut at: usize = 0;
    while at < updatable_packages.len()
        invariant
            at <= updatable_packages.len(),
            rows.len() == at,
            forall|i: int|
                0 <= i < at ==> row_view((#[trigger] rows[i])@) == update_row(
                    (updatable_packages[i].0@, updatable_packages[i].1@),
                ),
        decreases updatable_packages.len() - at,
    {
        let update = &updatable_packages[at];
        let mut row: Vec<Cell> = Vec::new();
        row.push(Cell::text(update.0.name.as_str(), ""));
        row.push(Cell::text(update.0.version.as_str(), ""));
        row.push(Cell::text(update.1.version.as_str(), ""));
        assert(row_view(row@) =~= update_row((update.0@, update.1@)));
        rows.push(row);
        at += 1;
    }
    let table = Table { format: TableFormat::NoBorderLineSeparator, titles: Some(titles), rows };
    assert(table@.titles->0 =~= update_table(update_views(updatable_packages@)).titles->0);
    assert(table@.rows =~= update_table(update_views(updatable_packages@)).rows);
    table
}

/// One piece of what is shown: a table, or a line of text.
#[derive(PartialEq, Eq, Debug)]
pub enum Block {
    Table(Table),
    Line(String),
}

/// What a `Block` says, as plain values.
pub enum BlockView {
    Table(TableView),
    Line(Seq<char>),
}

impl View for Block {
    type V = BlockView;

    open spec fn view(&self) -> BlockView {
        match self {
            Block::Table(table) => BlockView::Table(table@),
            Block::Line(line) => BlockView::Line(line@),
        }
    }
}

/// The views of some blocks, in order.
pub open spec fn block_views(blocks: Seq<Block>) -> Seq<BlockView> {
    blocks.map_values(|block: Block| block@)
}

/// What is shown of a release before the user chooses an asset: the release,
/// an empty line, its assets, an empty line.
pub fn print_repo_info(repo: &Repoinfo) -> (shown: Vec<Block>)
    ensures
        block_views(shown@) == seq![
            BlockView::Table(repo_table(repo@)),
            BlockView::Line(""@),
            BlockView::Table(asset_table(repo@.assets)),
            BlockView::Line(""@),
        ],
{
    let mut shown: Vec<Block> = Vec::new();
    shown.push(Block::Table(create_repo_table(repo)));
    shown.push(Block::Line(String::from_str("")));
    shown.push(Block::Table(create_asset_table(&repo.assets)));
    shown.push(Block::Line(String::from_str("")));
    assert(block_views(shown@) =~= seq![
        BlockView::Table(repo_table(repo@)),
        BlockView::Line(""@),
        BlockView::Table(asset_table(repo@.assets)),
        BlockView::Line(""@),
    ]);
    shown
}

/// What is shown for the installed packages: their list.
pub fn print_packages(packages: &Vec<Package>) -> (shown: Vec<Block>)
    ensures
        block_views(shown@) == seq![BlockView::Table(packages_table(views(packages@)))],
{
    let mut shown: Vec<Block> = Vec::new();
    shown.push(Block::Table(create_packages_table(packages)));
    assert(block_views(shown@) =~= seq![BlockView::Table(packages_table(views(packages@)))]);
    shown
}

/// What is shown for the entries of an archive: their list and an empty line.
pub fn print_binaries(tar_infos: &Vec<TarInfo>) -> (shown: Vec<Block>)
    ensures
        block_views(shown@) == seq![
            BlockView::Table(binaries_table(entry_views(tar_infos@))),
            BlockView::Line(""@),
        ],
{
    let mut shown: Vec<Block> = Vec::new();
    shown.push(Block::Table(create_binaries_table(tar_infos)));
    shown.push(Block::Line(String::from_str("")));
    assert(block_views(shown@) =~= seq![
        BlockView::Table(binaries_table(entry_views(tar_infos@))),
        BlockView::Line(""@),
    ]);
    shown
}

/// What is shown for the available updates: their list.
pub fn print_updates(updateable_packages: &Vec<(Package, Repoinfo)>) -> (shown: Vec<Block>)
    ensures
        block_views(shown@) == seq![
            BlockView::Table(update_table(update_views(updateable_packages@))),
        ],
{
    let mut shown: Vec<Block> = Vec::new();
    shown.push(Block::Table(create_update_table(updateable_packages)));
    assert(block_views(shown@) =~= seq![
        BlockView::Table(update_table(update_views(updateable_packages@))),
    ]);
    shown
}

/// The prompt that asks the user for a number: the question, a colon and a
/// space.
pub fn print_index_question(question: &str) -> (prompt: String)
    ensures
        prompt@ == question@ + ": "@,
{
    String::from_str(question).concat(": ")
}

} // verus!
