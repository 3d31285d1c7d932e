//! Store-level behavior against a real embedded database: upsert, lookup,
//! removal, backup rotation, corruption surfacing, and the export/import
//! round trip.

use media_library::types::{
    ArchiveInfo, ContentType, DeployInfo, DistributionPlatform, Metadata, MetadataError,
    MetadataOptional,
};
use media_library::archiver::{PackRequest, ToolError, UnpackRequest};
use media_library::store::{
    lib_clear, lib_deploy, lib_deploy_off, lib_get, lib_get_all, lib_import_records, lib_init,
    lib_remove, lib_update, LibraryError,
};
use std::path::Path;

fn scratch(name: &str) -> String {
    let dir = format!("/tmp/media_library_tests/store_{name}");
    let _ = fs_extra::dir::remove(&dir);
    dir
}

fn no_pack(_req: PackRequest) -> Result<(), ToolError> {
    Err(ToolError::NotFound)
}

fn no_unpack(_req: UnpackRequest) -> Result<(), ToolError> {
    Err(ToolError::NotFound)
}

#[test]
fn create_then_get_round_trips() {
    let root = scratch("create_get");
    let mut store = lib_init(&root, 1).expect("open store");
    let mut opt = MetadataOptional::empty();
    opt.title = Some("X".to_owned());
    opt.alias = Some(vec!["other name".to_owned()]);
    opt.content_type = Some(ContentType::Novel);
    let id = lib_update(&mut store, opt, &root, 100, &no_pack).expect("create");
    assert!(!id.is_empty());
    let m = lib_get(&store, &id).expect("get");
    assert_eq!(m.id, id);
    assert_eq!(m.title, "X");
    assert_eq!(m.alias, vec!["other name".to_owned()]);
    assert_eq!(m.content_type, ContentType::Novel);
    assert_eq!(m.version, "1.0.0");
    assert_eq!(m.archive_info, ArchiveInfo::Unset);
    assert_eq!(m.deploy_info, DeployInfo::Unset);
    // a second creation gets its own identifier
    let id2 = lib_update(&mut store, MetadataOptional::empty(), &root, 101, &no_pack)
        .expect("create two");
    assert_ne!(id, id2);
}

#[test]
fn get_missing_is_not_found() {
    let root = scratch("missing");
    let store = lib_init(&root, 1).expect("open store");
    let r = lib_get(&store, "nobody");
    assert!(matches!(r, Err(LibraryError::NotFound(_))));
}

#[test]
fn update_patches_existing_record() {
    let root = scratch("patch");
    let mut store = lib_init(&root, 1).expect("open store");
    let mut opt = MetadataOptional::empty();
    opt.title = Some("before".to_owned());
    opt.developer = Some("dev".to_owned());
    let id = lib_update(&mut store, opt, &root, 100, &no_pack).expect("create");
    let first = lib_get(&store, &id).expect("get");

    let mut patch = MetadataOptional::empty();
    patch.id = Some(id.clone());
    patch.title = Some("after".to_owned());
    let id_again = lib_update(&mut store, patch, &root, 200, &no_pack).expect("patch");
    assert_eq!(id_again, id);
    let m = lib_get(&store, &id).expect("get");
    assert_eq!(m.title, "after");
    assert_eq!(m.developer, first.developer);
    assert_eq!(m.time_created, first.time_created);
    assert!(m.time_updated > first.time_updated);
}

#[test]
fn update_with_unknown_id_creates_fresh_record() {
    let root = scratch("upsert_unknown");
    let mut store = lib_init(&root, 1).expect("open store");
    let mut opt = MetadataOptional::empty();
    opt.id = Some("no-such-id".to_owned());
    opt.title = Some("Y".to_owned());
    let id = lib_update(&mut store, opt, &root, 100, &no_pack).expect("upsert");
    // the supplied identifier is discarded, a fresh one generated
    assert_ne!(id, "no-such-id");
    assert_eq!(id.len(), 36);
    assert!(matches!(lib_get(&store, "no-such-id"), Err(LibraryError::NotFound(_))));
    assert_eq!(lib_get(&store, &id).expect("get").title, "Y");
}

#[test]
fn remove_reports_presence() {
    let root = scratch("remove");
    let mut store = lib_init(&root, 1).expect("open store");
    let id = lib_update(&mut store, MetadataOptional::empty(), &root, 1, &no_pack)
        .expect("create");
    assert!(lib_remove(&mut store, &id).expect("remove"));
    assert!(!lib_remove(&mut store, &id).expect("remove again"));
    assert!(matches!(lib_get(&store, &id), Err(LibraryError::NotFound(_))));
}

#[test]
fn deploy_and_deploy_off_persist_outcomes() {
    let root = scratch("deploy_cycle");
    let mut store = lib_init(&root, 1).expect("open store");
    fs_extra::dir::create_all(format!("{root}/src"), false).expect("src");
    fs_extra::file::write_all(format!("{root}/src/game.bin"), "content").expect("write");
    let target = format!("{root}/live");
    fs_extra::dir::create_all(&target, false).expect("target");

    let mut opt = MetadataOptional::empty();
    opt.archive_info = Some(ArchiveInfo::CommonFile { path: "src/game.bin".to_owned() });
    let id = lib_update(&mut store, opt, &root, 100, &no_pack).expect("create");

    lib_deploy(&mut store, &id, &target, &root, 200, &no_unpack).expect("deploy");
    let deployed = lib_get(&store, &id).expect("get");
    assert_eq!(deployed.deploy_info, DeployInfo::File {
        path: format!("{target}/game.bin"),
    });
    assert!(Path::new(&format!("{target}/game.bin")).exists());

    lib_deploy_off(&mut store, &id, &root, 300).expect("deploy off");
    let off = lib_get(&store, &id).expect("get");
    assert_eq!(off.deploy_info, DeployInfo::Unset);
    assert!(!Path::new(&format!("{target}/game.bin")).exists());
}

#[test]
fn deploy_of_stale_reference_persists_correction() {
    let root = scratch("deploy_stale");
    let mut store = lib_init(&root, 1).expect("open store");
    let target = format!("{root}/live");
    fs_extra::dir::create_all(&target, false).expect("target");
    let mut opt = MetadataOptional::empty();
    opt.archive_info = Some(ArchiveInfo::CommonFile { path: "vanished.bin".to_owned() });
    let id = lib_update(&mut store, opt, &root, 100, &no_pack).expect("create");

    let r = lib_deploy(&mut store, &id, &target, &root, 200, &no_unpack);
    assert!(matches!(r, Err(LibraryError::DeployError)));
    // the corrected record was persisted even though the call failed
    let m = lib_get(&store, &id).expect("get");
    assert_eq!(m.archive_info, ArchiveInfo::Unset);
}

#[test]
fn deploy_off_unset_reports_invalid_operation() {
    let root = scratch("deploy_off_unset");
    let mut store = lib_init(&root, 1).expect("open store");
    let id = lib_update(&mut store, MetadataOptional::empty(), &root, 1, &no_pack)
        .expect("create");
    let before = lib_get(&store, &id).expect("get");
    let r = lib_deploy_off(&mut store, &id, &root, 2);
    assert!(matches!(
        r,
        Err(LibraryError::MetadataError(MetadataError::InvalidDeployOperation)),
    ));
    // the record is untouched
    assert_eq!(lib_get(&store, &id).expect("get"), before);
}

#[test]
fn export_import_reproduces_records() {
    let root = scratch("export_import");
    let mut store = lib_init(&root, 1).expect("open store");
    for i in 0..3u64 {
        let mut opt = MetadataOptional::empty();
        opt.title = Some(format!("title {i}"));
        opt.tags = Some(vec![format!("tag{i}")]);
        opt.platform = Some(DistributionPlatform::Other {
            name: format!("shop{i}"),
            id: None,
        });
        lib_update(&mut store, opt, &root, 100 + i, &no_pack).expect("create");
    }
    let mut exported = lib_get_all(&store).expect("export");
    lib_clear(&mut store).expect("clear");
    assert_eq!(lib_get_all(&store).expect("empty").len(), 0);
    lib_import_records(&mut store, &exported).expect("import");
    let mut back = lib_get_all(&store).expect("reread");
    exported.sort_by(|a, b| a.id.cmp(&b.id));
    back.sort_by(|a, b| a.id.cmp(&b.id));
    assert_eq!(exported, back);
}

#[test]
fn backup_rotation_keeps_five_newest() {
    let root = scratch("backups");
    for run in 0..8u64 {
        let store = lib_init(&root, 1000 + run).expect("open store");
        drop(store);
    }
    // seven backups were written (none on the very first run); only the
    // five newest remain, the oldest were removed first
    let mut options = fs_extra::dir::DirOptions::new();
    options.depth = 1;
    let content = fs_extra::dir::get_dir_content2(format!("{root}/backup"), &options)
        .expect("list backups");
    let mut names: Vec<String> = content.files;
    names.sort();
    assert_eq!(names.len(), 5);
    assert!(names[0].ends_with("library.1003.bin"));
    assert!(names[4].ends_with("library.1007.bin"));
    // the store still opens and works
    let mut store = lib_init(&root, 2000).expect("open store");
    lib_update(&mut store, MetadataOptional::empty(), &root, 1, &no_pack).expect("create");
}

#[test]
fn corrupt_bytes_surface_as_deserialization_error() {
    let root = scratch("corrupt");
    {
        let mut store = lib_init(&root, 1).expect("open store");
        lib_update(&mut store, MetadataOptional::empty(), &root, 1, &no_pack).expect("create");
    }
    // plant garbage bytes under a key, beneath the library
    {
        let db = redb::Database::create(format!("{root}/library.bin")).expect("reopen raw");
        let write = db.begin_write().expect("txn");
        {
            let mut table = write
                .open_table(redb::TableDefinition::<&str, Vec<u8>>::new("LIBRARY"))
                .expect("table");
            table.insert("bad", vec![1u8, 2, 3]).expect("insert");
        }
        write.commit().expect("commit");
    }
    let store = lib_init(&root, 2).expect("open store");
    let r = lib_get(&store, "bad");
    assert!(matches!(r, Err(LibraryError::DeserializationError(_))));
    let all = lib_get_all(&store);
    assert!(matches!(all, Err(LibraryError::DeserializationError(_))));
}

#[test]
fn records_survive_reopening() {
    let root = scratch("reopen");
    let id;
    {
        let mut store = lib_init(&root, 1).expect("open store");
        let mut opt = MetadataOptional::empty();
        opt.title = Some("persistent".to_owned());
        id = lib_update(&mut store, opt, &root, 5, &no_pack).expect("create");
    }
    let store = lib_init(&root, 2).expect("reopen");
    assert_eq!(lib_get(&store, &id).expect("get").title, "persistent");
}
