//! The record wire format: encoding round trips, including every variant
//! and non-ASCII text, and the refusal of malformed bytes.

use media_library::codec::{decode_meta, encode_meta};
use media_library::types::{
    ArchiveInfo, ContentType, DeployInfo, DistributionPlatform, Metadata,
};
use media_library::Whether;

fn full_record() -> Metadata {
    Metadata {
        id: "some-id".to_owned(),
        title: "T\u{00ee}tle \u{5267}\u{60c5} \u{1F600}".to_owned(),
        alias: vec!["\u{30b7}\u{30ca}\u{30ea}\u{30aa}".to_owned(), String::new()],
        tags: vec!["a".to_owned(), "b".to_owned(), "c".to_owned()],
        content_type: ContentType::Music,
        platform: DistributionPlatform::Other {
            name: "shop".to_owned(),
            id: Some("x-9".to_owned()),
        },
        description: Some("multi\nline".to_owned()),
        developer: None,
        publisher: Some(String::new()),
        version: "0.0.1".to_owned(),
        archive_info: ArchiveInfo::ArchiveFile {
            path: "archive/Other/shop-x-9.7z".to_owned(),
            password: Some("p\u{00e4}ss".to_owned()),
        },
        archive_size: u64::MAX,
        deploy_info: DeployInfo::File { path: "/live/file".to_owned() },
        time_created: 0,
        time_updated: u64::MAX,
    }
}

#[test]
fn encode_decode_round_trips_every_field() {
    let m = full_record();
    let bytes = encode_meta(&m);
    let back = decode_meta(&bytes).expect("decode");
    assert_eq!(back, m);
}

#[test]
fn decode_refuses_truncated_and_extended_bytes() {
    let m = full_record();
    let bytes = encode_meta(&m);
    let mut truncated = bytes.clone();
    truncated.pop();
    assert!(decode_meta(&truncated).is_none());
    let mut extended = bytes.clone();
    extended.push(0);
    assert!(decode_meta(&extended).is_none());
    assert!(decode_meta(&vec![9u8, 9, 9]).is_none());
    assert!(decode_meta(&Vec::new()).is_none());
}

#[test]
fn decode_refuses_corrupted_tag() {
    let m = full_record();
    let mut bytes = encode_meta(&m);
    // the first byte after the id and title is deep inside string data;
    // corrupt the very first length prefix instead so the parse must fail
    let last = bytes.len() - 1;
    bytes[0] = 0xFF;
    bytes[last] = bytes[last].wrapping_add(1);
    assert!(decode_meta(&bytes).is_none());
}

#[test]
fn try_resolve_passes_existing_paths_and_demotes_missing() {
    let root = "/tmp/media_library_tests/resolve";
    let _ = fs_extra::dir::remove(root);
    fs_extra::dir::create_all(root, false).expect("root");
    fs_extra::file::write_all(format!("{root}/here.bin"), "x").expect("write");

    let present = ArchiveInfo::CommonFile { path: "here.bin".to_owned() };
    match present.try_resolve(root) {
        Whether::This(p) => assert_eq!(p, format!("{root}/here.bin")),
        Whether::That(_) => panic!("existing path must resolve"),
    }
    let absent = ArchiveInfo::CommonFile { path: "not-here.bin".to_owned() };
    match absent.try_resolve(root) {
        Whether::This(_) => panic!("missing path must not resolve"),
        Whether::That(u) => assert_eq!(u, ArchiveInfo::Unset),
    }
    match ArchiveInfo::Unset.try_resolve(root) {
        Whether::This(_) => panic!("unset never resolves"),
        Whether::That(u) => assert_eq!(u, ArchiveInfo::Unset),
    }
    let deploy_present = DeployInfo::File { path: format!("{root}/here.bin") };
    match deploy_present.try_resolve(root) {
        Whether::This(p) => assert_eq!(p, format!("{root}/here.bin")),
        Whether::That(_) => panic!("existing absolute path must resolve"),
    }
}
