//! Deploy and deploy-off against a real filesystem: copies, demotions on
//! stale references, and target-directory checks.

use media_library::types::{
    ArchiveInfo, ContentType, DeployInfo, DistributionPlatform, Metadata, MetadataError,
    MetadataOptional,
};
use media_library::archiver::{ToolError, UnpackRequest};
use std::path::Path;

fn scratch(name: &str) -> String {
    let dir = format!("/tmp/media_library_tests/{name}");
    let _ = fs_extra::dir::remove(&dir);
    fs_extra::dir::create_all(&dir, false).expect("scratch dir");
    dir
}

fn plain_record(archive_info: ArchiveInfo, deploy_info: DeployInfo) -> Metadata {
    Metadata {
        id: "r1".to_owned(),
        title: "t".to_owned(),
        alias: vec![],
        tags: vec![],
        content_type: ContentType::Other,
        platform: DistributionPlatform::Unknown,
        description: None,
        developer: None,
        publisher: None,
        version: "1.0.0".to_owned(),
        archive_info,
        archive_size: 0,
        deploy_info,
        time_created: 10,
        time_updated: 10,
    }
}

fn no_unpack(_req: UnpackRequest) -> Result<(), ToolError> {
    Err(ToolError::NotFound)
}

#[test]
fn deploy_common_file_copies_into_target() {
    let root = scratch("common_deploy");
    fs_extra::dir::create_all(format!("{root}/src"), false).expect("src dir");
    fs_extra::file::write_all(format!("{root}/src/content.txt"), "payload").expect("write");
    let target = format!("{root}/target_dir");
    fs_extra::dir::create_all(&target, false).expect("target dir");

    let mut m = plain_record(
        ArchiveInfo::CommonFile { path: "src/content.txt".to_owned() },
        DeployInfo::Unset,
    );
    let r = m.deploy(&target, &root, 99, &no_unpack).expect("deploy");
    assert!(r);
    let deployed = format!("{target}/content.txt");
    assert_eq!(m.deploy_info, DeployInfo::File { path: deployed.clone() });
    assert_eq!(fs_extra::file::read_to_string(&deployed).expect("read copy"), "payload");
    // the source is untouched: a copy, not a move
    assert_eq!(
        fs_extra::file::read_to_string(format!("{root}/src/content.txt")).expect("read source"),
        "payload",
    );
    assert!(m.time_updated > 10);
}

#[test]
fn deploy_directory_requires_empty_target() {
    let root = scratch("dir_deploy_nonempty");
    fs_extra::dir::create_all(format!("{root}/srcdir"), false).expect("src dir");
    fs_extra::file::write_all(format!("{root}/srcdir/a.txt"), "a").expect("write");
    let target = format!("{root}/busy");
    fs_extra::dir::create_all(&target, false).expect("target");
    fs_extra::file::write_all(format!("{target}/existing.txt"), "here").expect("write");

    let mut m = plain_record(
        ArchiveInfo::Directory { path: "srcdir".to_owned() },
        DeployInfo::File { path: "old".to_owned() },
    );
    let before = m.clone();
    let r = m.deploy(&target, &root, 99, &no_unpack);
    assert!(matches!(r, Err(MetadataError::TargetPathError(_))));
    // the record, its deploy reference included, is unchanged
    assert_eq!(m, before);
}

#[test]
fn deploy_archive_requires_empty_target() {
    let root = scratch("archive_deploy_nonempty");
    fs_extra::file::write_all(format!("{root}/pack.7z"), "not really").expect("write");
    let target = format!("{root}/busy");
    fs_extra::dir::create_all(&target, false).expect("target");
    fs_extra::file::write_all(format!("{target}/existing.txt"), "here").expect("write");

    let mut m = plain_record(
        ArchiveInfo::ArchiveFile { path: "pack.7z".to_owned(), password: None },
        DeployInfo::Unset,
    );
    let before = m.clone();
    let r = m.deploy(&target, &root, 99, &no_unpack);
    assert!(matches!(r, Err(MetadataError::TargetPathError(_))));
    assert_eq!(m, before);
}

#[test]
fn deploy_directory_copies_tree() {
    let root = scratch("dir_deploy_ok");
    fs_extra::dir::create_all(format!("{root}/srcdir/inner"), false).expect("src dir");
    fs_extra::file::write_all(format!("{root}/srcdir/inner/deep.txt"), "deep").expect("write");
    let target = format!("{root}/empty_target");
    fs_extra::dir::create_all(&target, false).expect("target");

    let mut m = plain_record(ArchiveInfo::Directory { path: "srcdir".to_owned() }, DeployInfo::Unset);
    let r = m.deploy(&target, &root, 99, &no_unpack).expect("deploy");
    assert!(r);
    assert_eq!(m.deploy_info, DeployInfo::Directory { path: target.clone() });
    assert_eq!(
        fs_extra::file::read_to_string(format!("{target}/inner/deep.txt")).expect("read"),
        "deep",
    );
}

#[test]
fn deploy_missing_target_fails() {
    let root = scratch("missing_target");
    let mut m = plain_record(ArchiveInfo::Directory { path: "srcdir".to_owned() }, DeployInfo::Unset);
    let before = m.clone();
    let r = m.deploy(&format!("{root}/nowhere"), &root, 99, &no_unpack);
    assert!(matches!(r, Err(MetadataError::TargetPathError(_))));
    assert_eq!(m, before);
}

#[test]
fn stale_archive_reference_demotes_on_deploy() {
    let root = scratch("stale_archive");
    let target = format!("{root}/t");
    fs_extra::dir::create_all(&target, false).expect("target");
    let mut m = plain_record(
        ArchiveInfo::CommonFile { path: "deleted/file.bin".to_owned() },
        DeployInfo::Unset,
    );
    let r = m.deploy(&target, &root, 99, &no_unpack).expect("deploy reports no-op");
    assert!(!r);
    // the failed resolution corrected the field in place
    assert_eq!(m.archive_info, ArchiveInfo::Unset);
    // nothing else moved, the no-op is not a successful mutation
    assert_eq!(m.time_updated, 10);
}

#[test]
fn stale_deploy_reference_demotes_on_deploy_off() {
    let root = scratch("stale_deploy");
    let mut m = plain_record(
        ArchiveInfo::Unset,
        DeployInfo::File { path: "gone/away.txt".to_owned() },
    );
    let r = m.deploy_off(&root, 99).expect("no-op");
    assert!(!r);
    assert_eq!(m.deploy_info, DeployInfo::Unset);
}

#[test]
fn deploy_off_removes_file() {
    let root = scratch("deploy_off_file");
    fs_extra::file::write_all(format!("{root}/live.txt"), "x").expect("write");
    let mut m = plain_record(ArchiveInfo::Unset, DeployInfo::File { path: "live.txt".to_owned() });
    let r = m.deploy_off(&root, 99).expect("deploy off");
    assert!(r);
    assert_eq!(m.deploy_info, DeployInfo::Unset);
    assert!(!Path::new(&format!("{root}/live.txt")).exists());
    assert!(m.time_updated > 10);
}

#[test]
fn deploy_off_clears_directory_but_keeps_it() {
    let root = scratch("deploy_off_dir");
    let live = format!("{root}/live");
    fs_extra::dir::create_all(format!("{live}/sub"), false).expect("dirs");
    fs_extra::file::write_all(format!("{live}/a.txt"), "a").expect("write");
    fs_extra::file::write_all(format!("{live}/sub/b.txt"), "b").expect("write");
    let mut m = plain_record(ArchiveInfo::Unset, DeployInfo::Directory { path: "live".to_owned() });
    let r = m.deploy_off(&root, 99).expect("deploy off");
    assert!(r);
    assert_eq!(m.deploy_info, DeployInfo::Unset);
    // the directory itself remains; its contents are gone
    assert!(Path::new(&live).is_dir());
    assert!(!Path::new(&format!("{live}/a.txt")).exists());
    assert!(!Path::new(&format!("{live}/sub")).exists());
}

#[test]
fn unpack_failure_reports_tool_error_and_keeps_record() {
    let root = scratch("unpack_fails");
    fs_extra::file::write_all(format!("{root}/pack.7z"), "bytes").expect("write");
    let target = format!("{root}/t");
    fs_extra::dir::create_all(&target, false).expect("target");
    let mut m = plain_record(
        ArchiveInfo::ArchiveFile { path: "pack.7z".to_owned(), password: None },
        DeployInfo::Unset,
    );
    let before = m.clone();
    let failing = |_req: UnpackRequest| -> Result<(), ToolError> {
        Err(ToolError::Failure("boom".to_owned()))
    };
    let r = m.deploy(&target, &root, 99, &failing);
    assert!(matches!(r, Err(MetadataError::ToolFailure(_))));
    assert_eq!(m, before);
}

#[test]
fn unpack_success_sets_directory_deploy() {
    let root = scratch("unpack_ok");
    fs_extra::file::write_all(format!("{root}/pack.7z"), "bytes").expect("write");
    let target = format!("{root}/t");
    fs_extra::dir::create_all(&target, false).expect("target");
    let mut m = plain_record(
        ArchiveInfo::ArchiveFile { path: "pack.7z".to_owned(), password: None },
        DeployInfo::Unset,
    );
    let extracting = |req: UnpackRequest| -> Result<(), ToolError> {
        fs_extra::file::write_all(format!("{}/extracted.txt", req.dest), "data")
            .map_err(|e| ToolError::Failure(e.to_string()))
    };
    let r = m.deploy(&target, &root, 99, &extracting).expect("deploy");
    assert!(r);
    assert_eq!(m.deploy_info, DeployInfo::Directory { path: target.clone() });
    assert_eq!(
        fs_extra::file::read_to_string(format!("{target}/extracted.txt")).expect("read"),
        "data",
    );
}

#[test]
fn calculate_size_of_references() {
    let root = scratch("calc_size");
    fs_extra::file::write_all(format!("{root}/f.bin"), "12345").expect("write");
    let unset = ArchiveInfo::Unset;
    assert_eq!(unset.calculate_size(&root), 0);
    let file_ref = ArchiveInfo::CommonFile { path: "f.bin".to_owned() };
    assert_eq!(file_ref.calculate_size(&root), 5);
    let stale = ArchiveInfo::CommonFile { path: "missing.bin".to_owned() };
    assert_eq!(stale.calculate_size(&root), 0);
}

#[test]
fn archive_creation_packs_to_platform_destination() {
    let root = scratch("archive_create");
    let source = format!("{root}/game_src");
    fs_extra::dir::create_all(&source, false).expect("src");
    fs_extra::file::write_all(format!("{source}/bin.dat"), "binary data").expect("write");

    let mut opt = MetadataOptional::empty();
    opt.title = Some("X".to_owned());
    opt.platform = Some(DistributionPlatform::Steam { id: "123".to_owned() });
    opt.flag_create_archive = true;
    opt.archive_info = Some(ArchiveInfo::ArchiveFile { path: source.clone(), password: None });

    let packer = |req: media_library::archiver::PackRequest| -> Result<(), ToolError> {
        fs_extra::file::write_all(&req.dest, "compressed!").map_err(
            |e| ToolError::Failure(e.to_string()),
        )
    };
    let m = Metadata::init(opt, &root, 777, &packer).expect("init");
    assert_eq!(m.archive_info, ArchiveInfo::ArchiveFile {
        path: "archive/Steam/123.7z".to_owned(),
        password: None,
    });
    assert!(m.archive_size > 0);
    assert_eq!(m.deploy_info, DeployInfo::Unset);
    // the source is unchanged
    assert_eq!(
        fs_extra::file::read_to_string(format!("{source}/bin.dat")).expect("read"),
        "binary data",
    );
    // the archive landed under the root
    assert_eq!(
        fs_extra::file::read_to_string(format!("{root}/archive/Steam/123.7z")).expect("read"),
        "compressed!",
    );
}

#[test]
fn archive_creation_missing_source_is_validation_error() {
    let root = scratch("archive_missing_src");
    let mut opt = MetadataOptional::empty();
    opt.flag_create_archive = true;
    opt.archive_info = Some(ArchiveInfo::ArchiveFile {
        path: format!("{root}/not_there"),
        password: None,
    });
    let ok_pack = |_req: media_library::archiver::PackRequest| -> Result<(), ToolError> { Ok(()) };
    let r = Metadata::init(opt, &root, 1, &ok_pack);
    assert!(matches!(r, Err(MetadataError::MapConversionError)));
}

#[test]
fn archive_creation_pack_failure_demotes_instead_of_failing() {
    let root = scratch("archive_pack_fail");
    let source = format!("{root}/src");
    fs_extra::dir::create_all(&source, false).expect("src");
    let mut opt = MetadataOptional::empty();
    opt.flag_create_archive = true;
    opt.archive_info = Some(ArchiveInfo::ArchiveFile { path: source, password: None });
    let failing_pack = |_req: media_library::archiver::PackRequest| -> Result<(), ToolError> {
        Err(ToolError::NotFound)
    };
    let m = Metadata::init(opt, &root, 1, &failing_pack).expect("init");
    assert_eq!(m.archive_info, ArchiveInfo::Unset);
    assert_eq!(m.archive_size, 0);
}
