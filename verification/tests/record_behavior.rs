//! Record-level behavior: creation defaults, patch semantics, and the
//! archiver argument lists.

use media_library::types::{
    ArchiveInfo, ContentType, DeployInfo, DistributionPlatform, Metadata, MetadataError,
    MetadataOptional,
};
use media_library::archiver::{pack_args, unpack_args, PackRequest, ToolError, UnpackRequest};
use media_library::text::u64_to_dec;
use media_library::paths::{file_name_of, join_path_str, Config, ConfigRaw};
use media_library::dlsite::Language;

fn no_pack(_req: PackRequest) -> Result<(), ToolError> {
    Err(ToolError::NotFound)
}

fn sample_record(now: u64) -> Metadata {
    Metadata {
        id: "id-1".to_owned(),
        title: "A Title".to_owned(),
        alias: vec!["alias one".to_owned()],
        tags: vec!["tag".to_owned()],
        content_type: ContentType::Game,
        platform: DistributionPlatform::Steam { id: "42".to_owned() },
        description: Some("desc".to_owned()),
        developer: None,
        publisher: None,
        version: "2.0.0".to_owned(),
        archive_info: ArchiveInfo::CommonFile { path: "some/file.bin".to_owned() },
        archive_size: 7,
        deploy_info: DeployInfo::Unset,
        time_created: now,
        time_updated: now,
    }
}

#[test]
fn create_fills_defaults() {
    let mut opt = MetadataOptional::empty();
    opt.title = Some("X".to_owned());
    let m = Metadata::init(opt, "root", 1000, &no_pack).expect("init");
    assert_eq!(m.title, "X");
    assert!(!m.id.is_empty());
    assert_eq!(m.id.len(), 36);
    assert_eq!(m.alias, Vec::<String>::new());
    assert_eq!(m.tags, Vec::<String>::new());
    assert_eq!(m.content_type, ContentType::Other);
    assert_eq!(m.platform, DistributionPlatform::Unknown);
    assert_eq!(m.description, None);
    assert_eq!(m.developer, None);
    assert_eq!(m.publisher, None);
    assert_eq!(m.version, "1.0.0");
    assert_eq!(m.archive_info, ArchiveInfo::Unset);
    assert_eq!(m.archive_size, 0);
    assert_eq!(m.deploy_info, DeployInfo::Unset);
    assert_eq!(m.time_created, 1000);
    assert_eq!(m.time_updated, 1000);
}

#[test]
fn create_keeps_supplied_id_and_fields() {
    let mut opt = MetadataOptional::empty();
    opt.id = Some("given-id".to_owned());
    opt.platform = Some(DistributionPlatform::DLSite { id: "RJ1".to_owned() });
    opt.version = Some("3.1".to_owned());
    let m = Metadata::init(opt, "root", 5, &no_pack).expect("init");
    assert_eq!(m.id, "given-id");
    assert_eq!(m.platform, DistributionPlatform::DLSite { id: "RJ1".to_owned() });
    assert_eq!(m.version, "3.1");
}

#[test]
fn fresh_ids_differ_across_calls() {
    let a = Metadata::init(MetadataOptional::empty(), "root", 1, &no_pack).expect("init");
    let b = Metadata::init(MetadataOptional::empty(), "root", 1, &no_pack).expect("init");
    assert_ne!(a.id, b.id);
}

#[test]
fn patch_overwrites_present_and_keeps_absent() {
    let base = sample_record(1000);
    let mut opt = MetadataOptional::empty();
    opt.title = Some("New Title".to_owned());
    opt.tags = Some(vec!["a".to_owned(), "b".to_owned()]);
    let m = base.clone().patch(opt, "root", 2000, &no_pack).expect("patch");
    // present fields carry the payload's values
    assert_eq!(m.title, "New Title");
    assert_eq!(m.tags, vec!["a".to_owned(), "b".to_owned()]);
    // absent fields are identical to the pre-patch values
    assert_eq!(m.id, base.id);
    assert_eq!(m.alias, base.alias);
    assert_eq!(m.content_type, base.content_type);
    assert_eq!(m.platform, base.platform);
    assert_eq!(m.description, base.description);
    assert_eq!(m.developer, base.developer);
    assert_eq!(m.publisher, base.publisher);
    assert_eq!(m.version, base.version);
    assert_eq!(m.archive_info, base.archive_info);
    assert_eq!(m.archive_size, base.archive_size);
    assert_eq!(m.deploy_info, base.deploy_info);
    assert_eq!(m.time_created, base.time_created);
    // the update time strictly increases
    assert!(m.time_updated > base.time_updated);
    assert_eq!(m.time_updated, 2000);
}

#[test]
fn patch_time_strictly_increases_even_on_stale_clock() {
    let base = sample_record(1000);
    let m = base.clone().patch(MetadataOptional::empty(), "root", 1000, &no_pack).expect("patch");
    assert_eq!(m.time_updated, 1001);
    assert!(m.time_updated > base.time_updated);
}

#[test]
fn deploy_off_on_unset_fails_and_keeps_record() {
    let mut m = sample_record(50);
    let before = m.clone();
    let r = m.deploy_off("root", 60);
    assert!(matches!(r, Err(MetadataError::InvalidDeployOperation)));
    assert_eq!(m, before);
}

#[test]
fn archive_flag_without_archive_file_resets_fields() {
    let mut opt = MetadataOptional::empty();
    opt.flag_create_archive = true;
    opt.archive_info = Some(ArchiveInfo::Directory { path: "somewhere".to_owned() });
    let m = Metadata::init(opt, "root", 9, &no_pack).expect("init");
    assert_eq!(m.archive_info, ArchiveInfo::Unset);
    assert_eq!(m.archive_size, 0);
}

#[test]
fn pack_args_exact_sequence_with_password() {
    let req = PackRequest {
        source: "src-dir".to_owned(),
        dest: "out.7z".to_owned(),
        password: Some("pw".to_owned()),
        level: Some(12),
    };
    let args = pack_args(&req);
    assert_eq!(args, vec!["a", "-mx=9", "-ppw", "-mhe=on", "out.7z", "*"]);
}

#[test]
fn pack_args_default_level_without_password() {
    let req = PackRequest {
        source: "s".to_owned(),
        dest: "d.7z".to_owned(),
        password: None,
        level: None,
    };
    let args = pack_args(&req);
    assert_eq!(args, vec!["a", "-mx=9", "d.7z", "*"]);
    let req2 = PackRequest {
        source: "s".to_owned(),
        dest: "d.7z".to_owned(),
        password: None,
        level: Some(3),
    };
    assert_eq!(pack_args(&req2)[1], "-mx=3");
}

#[test]
fn unpack_args_exact_sequence() {
    let req = UnpackRequest {
        archive: "a.7z".to_owned(),
        dest: "outdir".to_owned(),
        password: Some("secret".to_owned()),
    };
    assert_eq!(unpack_args(&req), vec!["x", "a.7z", "-ooutdir", "-aoa", "-psecret"]);
    let req2 = UnpackRequest {
        archive: "a.7z".to_owned(),
        dest: "outdir".to_owned(),
        password: None,
    };
    assert_eq!(unpack_args(&req2), vec!["x", "a.7z", "-ooutdir", "-aoa"]);
}

#[test]
fn decimal_rendering() {
    assert_eq!(u64_to_dec(0), "0");
    assert_eq!(u64_to_dec(7), "7");
    assert_eq!(u64_to_dec(1234567890), "1234567890");
}

#[test]
fn path_joining_and_file_names() {
    assert_eq!(join_path_str("root", "a/b"), "root/a/b");
    assert_eq!(join_path_str("root/", "a"), "root/a");
    assert_eq!(join_path_str("root", "/abs/path"), "/abs/path");
    assert_eq!(join_path_str("", "rel"), "rel");
    assert_eq!(file_name_of("a/b/c.txt"), "c.txt");
    assert_eq!(file_name_of("plain"), "plain");
    assert_eq!(file_name_of("dir/"), "");
}

#[test]
fn config_resolution() {
    let raw = ConfigRaw { root: "data".to_owned() };
    let cfg = Config::new(&raw, "/app");
    assert_eq!(cfg.get_root(), "/app/data");
    assert_eq!(cfg.resolve_to_root("x/y"), "/app/data/x/y");
    assert_eq!(cfg.resolve_to_root("/already/abs"), "/already/abs");
    let abs = ConfigRaw { root: "/data".to_owned() };
    assert_eq!(Config::new(&abs, "/app").get_root(), "/data");
    let d = ConfigRaw::default();
    assert_eq!(d.root, "data");
}

#[test]
fn language_codes_and_labels() {
    assert_eq!(Language::EnUs.as_lang_code(), "en_US");
    assert_eq!(Language::ZhCn.as_lang_code(), "zh_CN");
    assert_eq!(Language::JaJp.as_lang_code(), "ja_JP");
    assert_eq!(Language::EnUs.tag_scenario(), "Scenario");
    assert_eq!(Language::ZhCn.tag_scenario(), "\u{5267}\u{60c5}");
    assert_eq!(Language::JaJp.tag_scenario(), "\u{30b7}\u{30ca}\u{30ea}\u{30aa}");
    assert_eq!(Language::EnUs.tag_illustration(), "Illustration");
    assert_eq!(Language::ZhCn.tag_illustration(), "\u{63d2}\u{753b}");
    assert_eq!(Language::JaJp.tag_illustration(), "\u{30a4}\u{30e9}\u{30b9}\u{30c8}");
}
