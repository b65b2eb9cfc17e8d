use grpm::archive::TarInfo;
use grpm::database::{Database, Package};
use grpm::error::Category;
use grpm::install::{chosen, downloaded, extracted, resolved, single_entry, InstallError};
use grpm::list::{list, list_report};
use grpm::print::{create_packages_table, create_update_table, print_repo_info, Block};
use grpm::repo::{AssetInfo, Repoinfo};
use grpm::uninstall::{removed, uninstall};
use grpm::update::{find_updates, needs_update, update};
use std::io::Write;
use tempfile::TempDir;

fn registry() -> (TempDir, Database) {
    let dir = tempfile::tempdir().unwrap();
    let path = dir.path().join("packages.db").to_str().unwrap().to_string();
    let db = Database::new(jammdb::DB::open(&path).unwrap()).unwrap();
    (dir, db)
}

fn gzip(plain: &[u8]) -> Vec<u8> {
    let mut encoder = flate2::write::GzEncoder::new(Vec::new(), flate2::Compression::fast());
    encoder.write_all(plain).unwrap();
    encoder.finish().unwrap()
}

fn bzip2(plain: &[u8]) -> Vec<u8> {
    let mut encoder = bzip2::write::BzEncoder::new(Vec::new(), bzip2::Compression::fast());
    encoder.write_all(plain).unwrap();
    encoder.finish().unwrap()
}

fn tar_of(files: &[(&str, &[u8])]) -> Vec<u8> {
    let mut builder = tar::Builder::new(Vec::new());
    for (name, data) in files {
        let mut header = tar::Header::new_gnu();
        header.set_path(name).unwrap();
        header.set_size(data.len() as u64);
        header.set_mode(0o755);
        header.set_cksum();
        builder.append(&header, *data).unwrap();
    }
    builder.into_inner().unwrap()
}

fn asset(name: &str, size: i64) -> AssetInfo {
    AssetInfo {
        name: name.to_string(),
        url: format!("https://downloads.example/{}", name),
        size,
        download_count: 3,
    }
}

fn release(assets: Vec<AssetInfo>) -> Repoinfo {
    Repoinfo {
        name: "tool".to_string(),
        full_name: "acme/tool".to_string(),
        description: Some("A tool".to_string()),
        version: "v2.0.0".to_string(),
        assets,
    }
}

fn package(name: &str, version: &str) -> Package {
    Package {
        name: name.to_string(),
        version: version.to_string(),
        binary: name.to_string(),
        path: "/opt/grpm".to_string(),
    }
}

fn line(text: &str) -> Vec<Block> {
    vec![Block::Line(text.to_string())]
}

#[test]
fn installing_the_single_entry_of_a_release_asset_records_it() {
    let (dir, mut db) = registry();
    let install_dir = dir.path().join("install");
    let install_path = install_dir.to_str().unwrap().to_string();
    let binary = vec![0x5au8; 3_000_000];
    let content = gzip(&tar_of(&[("tool", &binary)]));

    let info = release(vec![asset("tool-linux-x86_64.tar.gz", 1_048_576)]);
    let choosing = resolved(info).unwrap();
    assert_eq!(choosing.release().version, "v2.0.0");
    assert_eq!(choosing.release().assets.len(), 1);
    assert_eq!(choosing.release().assets[0].size, 1_048_576);
    assert_eq!(choosing.question(), "Choose an asset to download: ");

    let downloading = chosen(choosing, 1).unwrap();
    assert_eq!(downloading.asset(), &asset("tool-linux-x86_64.tar.gz", 1_048_576));
    assert_eq!(downloading.message(), "Downloading tool-linux-x86_64.tar.gz...");
    assert_eq!(downloading.query().url, "https://downloads.example/tool-linux-x86_64.tar.gz");
    assert_eq!(downloading.query().bearer, None);

    let extracting = downloaded(downloading, &content, &install_path).unwrap();
    assert_eq!(extracting.destination(), install_path);
    assert_eq!(extracting.message(), format!("Installing tool to {}", install_path));
    assert_eq!(extracting.archive(), &tar_of(&[("tool", &binary)]));
    assert!(db.get("tool").unwrap().is_none());

    tar::Archive::new(extracting.archive().as_slice()).unpack(extracting.destination()).unwrap();
    let stored = extracted(extracting, &mut db).unwrap();

    let expected = Package {
        name: "tool".to_string(),
        version: "v2.0.0".to_string(),
        path: install_path,
        binary: "tool".to_string(),
    };
    assert_eq!(stored, expected);
    assert_eq!(db.get("tool").unwrap(), Some(expected));
    assert_eq!(db.get_all().unwrap().len(), 1);
    let on_disk = install_dir.join("tool");
    assert!(on_disk.exists());
    assert_eq!(on_disk.metadata().unwrap().len(), 3_000_000);
}

#[test]
fn a_release_without_assets_ends_the_install() {
    assert!(resolved(release(vec![])).is_none());
}

#[test]
fn the_choice_is_counted_from_one() {
    let assets = vec![asset("a.tar.gz", 1), asset("b.tar.gz", 2), asset("c.tar.gz", 3)];
    let first = chosen(resolved(release(assets.clone())).unwrap(), 1).unwrap();
    assert_eq!(first.asset().name, "a.tar.gz");
    assert_eq!(first.release(), &release(assets.clone()));
    let last = chosen(resolved(release(assets.clone())).unwrap(), 3).unwrap();
    assert_eq!(last.asset().name, "c.tar.gz");
}

#[test]
fn a_choice_that_names_no_asset_aborts() {
    let assets = vec![asset("a.tar.gz", 1), asset("b.tar.gz", 2)];
    for choice in [0usize, 3, usize::MAX] {
        let refused = chosen(resolved(release(assets.clone())).unwrap(), choice);
        match refused {
            Err(e) => {
                assert!(matches!(e, InstallError::InvalidChoice { choice: c, count: 2 } if c == choice));
                assert_eq!(e.kind(), Category::UserAbort);
            }
            Ok(_) => panic!("choice {} was accepted", choice),
        }
    }
}

#[test]
fn an_archive_with_one_entry_passes() {
    let entries = vec![TarInfo { name: "tool".to_string(), size: 9 }];
    assert_eq!(single_entry(entries).unwrap(), TarInfo { name: "tool".to_string(), size: 9 });
}

#[test]
fn an_archive_with_more_entries_aborts() {
    let two = vec![
        TarInfo { name: "tool".to_string(), size: 9 },
        TarInfo { name: "README".to_string(), size: 1 },
    ];
    assert!(matches!(single_entry(two), Err(InstallError::MultipleEntries(2))));
    let mut five = Vec::new();
    for i in 0..5 {
        five.push(TarInfo { name: format!("f{}", i), size: i });
    }
    let refused = single_entry(five).unwrap_err();
    assert!(matches!(refused, InstallError::MultipleEntries(5)));
    assert_eq!(refused.kind(), Category::UserAbort);
}

#[test]
fn an_archive_without_entries_cannot_be_installed() {
    let refused = single_entry(Vec::new()).unwrap_err();
    assert!(matches!(refused, InstallError::EmptyArchive));
    assert_eq!(refused.kind(), Category::Archive);
}

fn downloading_one() -> grpm::install::Downloading {
    chosen(resolved(release(vec![asset("tool.tar.gz", 10)])).unwrap(), 1).unwrap()
}

#[test]
fn a_download_with_two_entries_leaves_registry_and_disk_alone() {
    let (dir, db) = registry();
    let install_dir = dir.path().join("install");
    let content = gzip(&tar_of(&[("tool", b"binary"), ("LICENSE", b"text")]));
    let refused = downloaded(downloading_one(), &content, install_dir.to_str().unwrap());
    assert!(matches!(refused, Err(InstallError::MultipleEntries(2))));
    assert_eq!(db.get_all().unwrap(), Vec::<Package>::new());
    assert!(!install_dir.exists());
}

#[test]
fn a_download_without_entries_is_refused() {
    let content = gzip(&tar_of(&[]));
    assert!(matches!(
        downloaded(downloading_one(), &content, "/opt/grpm"),
        Err(InstallError::EmptyArchive)
    ));
}

#[test]
fn a_bzip2_download_is_installed_like_a_gzip_one() {
    let content = bzip2(&tar_of(&[("bin/tool", b"binary")]));
    let extracting = downloaded(downloading_one(), &content, "/opt/grpm").unwrap();
    assert_eq!(extracting.package(), &Package {
        name: "tool".to_string(),
        version: "v2.0.0".to_string(),
        binary: "bin/tool".to_string(),
        path: "/opt/grpm".to_string(),
    });
    assert_eq!(extracting.archive(), &tar_of(&[("bin/tool", b"binary")]));
}

#[test]
fn a_plain_tar_download_passes_through() {
    let content = tar_of(&[("tool", b"binary")]);
    let extracting = downloaded(downloading_one(), &content, "/opt/grpm").unwrap();
    assert_eq!(extracting.archive(), &content);
    assert_eq!(extracting.package().binary, "tool");
}

#[test]
fn a_corrupt_download_is_an_archive_error() {
    let mut cut = gzip(&tar_of(&[("tool", &[1u8; 5000])]));
    cut.truncate(cut.len() - 10);
    let refused = downloaded(downloading_one(), &cut, "/opt/grpm").unwrap_err();
    assert!(matches!(refused, InstallError::Archive(grpm::archive::ArchiveError::Gzip(_))));
    assert_eq!(refused.kind(), Category::Archive);
    let no_tar = gzip(&vec![b'x'; 2048]);
    assert!(matches!(
        downloaded(downloading_one(), &no_tar, "/opt/grpm"),
        Err(InstallError::Archive(grpm::archive::ArchiveError::Tar(_)))
    ));
}

#[test]
fn a_second_install_replaces_the_record() {
    let (_dir, mut db) = registry();
    let content = tar_of(&[("tool", b"binary")]);
    let first = downloaded(downloading_one(), &content, "/opt/old").unwrap();
    extracted(first, &mut db).unwrap();
    let second = downloaded(downloading_one(), &content, "/opt/new").unwrap();
    extracted(second, &mut db).unwrap();
    let listed = db.get_all().unwrap();
    assert_eq!(listed.len(), 1);
    assert_eq!(listed[0].path, "/opt/new");
}

#[test]
fn uninstalling_what_is_not_installed_is_nothing_to_do() {
    let (_dir, mut db) = registry();
    db.put("kept", &package("kept", "v1")).unwrap();
    assert!(uninstall(&db, "absent").unwrap().is_none());
    assert_eq!(db.get_all().unwrap(), vec![package("kept", "v1")]);
}

#[test]
fn uninstalling_names_the_file_and_then_forgets_the_record() {
    let (_dir, mut db) = registry();
    db.put("tool", &package("tool", "v1")).unwrap();
    db.put("kept", &package("kept", "v1")).unwrap();
    let removing = uninstall(&db, "tool").unwrap().unwrap();
    assert_eq!(removing.name(), "tool");
    assert_eq!(removing.file(), "/opt/grpm/tool");
    assert_eq!(db.get("tool").unwrap(), Some(package("tool", "v1")));
    removed(removing, &mut db).unwrap();
    assert!(db.get("tool").unwrap().is_none());
    assert_eq!(db.get_all().unwrap(), vec![package("kept", "v1")]);
}

#[test]
fn uninstalling_twice_is_safe() {
    let (_dir, mut db) = registry();
    db.put("tool", &package("tool", "v1")).unwrap();
    let removing = uninstall(&db, "tool").unwrap().unwrap();
    removed(removing, &mut db).unwrap();
    assert!(uninstall(&db, "tool").unwrap().is_none());
    assert!(uninstall(&db, "tool").unwrap().is_none());
    assert_eq!(db.get_all().unwrap().len(), 0);
}

#[test]
fn a_record_stays_while_its_file_is_not_removed() {
    let (_dir, mut db) = registry();
    db.put("tool", &package("tool", "v1")).unwrap();
    let removing = uninstall(&db, "tool").unwrap().unwrap();
    drop(removing);
    assert_eq!(db.get("tool").unwrap(), Some(package("tool", "v1")));
}

#[test]
fn an_empty_registry_is_listed_as_one_line() {
    let (_dir, db) = registry();
    assert_eq!(list(&db).unwrap(), line("No packages installed yet"));
    assert_eq!(list_report(&Vec::new()), line("No packages installed yet"));
}

#[test]
fn installed_packages_are_listed_as_a_table() {
    let (_dir, mut db) = registry();
    db.put("a", &package("a", "v1")).unwrap();
    db.put("b", &package("b", "v2")).unwrap();
    let packages = db.get_all().unwrap();
    assert_eq!(packages.len(), 2);
    assert_eq!(list(&db).unwrap(), vec![Block::Table(create_packages_table(&packages))]);
}

#[test]
fn a_package_needs_an_update_when_the_tags_differ() {
    assert!(needs_update(&package("tool", "v1.0.0"), &release(vec![])));
    assert!(!needs_update(&package("tool", "v2.0.0"), &release(vec![])));
    assert!(needs_update(&package("tool", "2.0.0"), &release(vec![])));
    assert!(needs_update(&package("tool", "v3.0.0"), &release(vec![])));
}

#[test]
fn updates_are_the_packages_whose_tag_differs_in_the_order_given() {
    let resolved = vec![
        (package("a", "v1.0.0"), release(vec![])),
        (package("b", "v2.0.0"), release(vec![])),
        (package("c", "v0.9"), release(vec![asset("c.tar.gz", 1)])),
    ];
    let expected = vec![
        (package("a", "v1.0.0"), release(vec![])),
        (package("c", "v0.9"), release(vec![asset("c.tar.gz", 1)])),
    ];
    assert_eq!(find_updates(&resolved), expected);
    assert_eq!(update(&resolved), vec![Block::Table(create_update_table(&expected))]);
}

#[test]
fn an_update_check_without_packages_or_without_updates_is_one_line() {
    assert_eq!(update(&Vec::new()), line("No packages installed yet"));
    let current = vec![(package("b", "v2.0.0"), release(vec![]))];
    assert_eq!(find_updates(&current), Vec::new());
    assert_eq!(update(&current), line("No updates available"));
}

#[test]
fn the_release_is_shown_before_the_choice() {
    let info = release(vec![asset("a.tar.gz", 1)]);
    let choosing = resolved(release(vec![asset("a.tar.gz", 1)])).unwrap();
    assert_eq!(choosing.shown(), print_repo_info(&info));
}
