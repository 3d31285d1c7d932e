//! The record wire format: every record is stored and exchanged as a byte
//! sequence in a fixed little-endian layout — length-prefixed UTF-8 for
//! strings, a tag byte for enums, eight-byte integers. Decoding either
//! recovers exactly the encoded record or refuses the bytes; corrupt bytes
//! are surfaced to the caller, never repaired.

use vstd::prelude::*;
use vstd::bytes::{spec_u64_to_le_bytes, spec_u64_from_le_bytes, lemma_auto_spec_u64_to_from_le_bytes};
use vstd::utf8::{encode_utf8, decode_utf8, valid_utf8, encode_utf8_valid_utf8, encode_utf8_decode_utf8};
use crate::types::{
    ContentType, PlatformView, ArchiveInfoView, DeployInfoView, MetaView, Metadata,
    DistributionPlatform, ArchiveInfo, DeployInfo,
};

verus! {

/// The eight-byte little-endian encoding of an integer.
pub open spec fn enc_u64(x: u64) -> Seq<u8> {
    spec_u64_to_le_bytes(x)
}

/// The encoding of a string: its UTF-8 byte length, then its UTF-8 bytes.
pub open spec fn enc_str(s: Seq<char>) -> Seq<u8> {
    enc_u64(encode_utf8(s).len() as u64) + encode_utf8(s)
}

/// The encoding of an optional string: a presence byte, then the string
/// when present.
pub open spec fn enc_opt_str(o: Option<Seq<char>>) -> Seq<u8> {
    match o {
        None => seq![0u8],
        Some(s) => seq![1u8] + enc_str(s),
    }
}

/// The encodings of a string sequence's items, in order.
pub open spec fn enc_str_items(v: Seq<Seq<char>>) -> Seq<u8>
    decreases v.len(),
{
    if v.len() == 0 {
        Seq::<u8>::empty()
    } else {
        enc_str(v[0]) + enc_str_items(v.drop_first())
    }
}

/// The encoding of a string sequence: its item count, then its items.
pub open spec fn enc_str_seq(v: Seq<Seq<char>>) -> Seq<u8> {
    enc_u64(v.len() as u64) + enc_str_items(v)
}

/// The tag byte of a content type.
pub open spec fn content_type_tag(c: ContentType) -> u8 {
    match c {
        ContentType::Other => 0u8,
        ContentType::Game => 1u8,
        ContentType::Novel => 2u8,
        ContentType::Comic => 3u8,
        ContentType::Anime => 4u8,
        ContentType::Music => 5u8,
        ContentType::Movie => 6u8,
        ContentType::Software => 7u8,
    }
}

/// The encoding of a content type: its tag byte.
pub open spec fn enc_content_type(c: ContentType) -> Seq<u8> {
    seq![content_type_tag(c)]
}

/// The encoding of a distribution platform: a tag byte, then the variant's
/// fields.
pub open spec fn enc_platform(p: PlatformView) -> Seq<u8> {
    match p {
        PlatformView::Unknown => seq![0u8],
        PlatformView::Steam { id } => seq![1u8] + enc_str(id),
        PlatformView::DLSite { id } => seq![2u8] + enc_str(id),
        PlatformView::Other { name, id } => seq![3u8] + enc_str(name) + enc_opt_str(id),
    }
}

/// The encoding of an archive reference: a tag byte, then the variant's
/// fields.
pub open spec fn enc_archive_info(a: ArchiveInfoView) -> Seq<u8> {
    match a {
        ArchiveInfoView::Unset => seq![0u8],
        ArchiveInfoView::ArchiveFile { path, password } => seq![1u8] + enc_str(path)
            + enc_opt_str(password),
        ArchiveInfoView::CommonFile { path } => seq![2u8] + enc_str(path),
        ArchiveInfoView::Directory { path } => seq![3u8] + enc_str(path),
    }
}

/// The encoding of a deploy reference: a tag byte, then the variant's
/// fields.
pub open spec fn enc_deploy_info(d: DeployInfoView) -> Seq<u8> {
    match d {
        DeployInfoView::Unset => seq![0u8],
        DeployInfoView::Directory { path } => seq![1u8] + enc_str(path),
        DeployInfoView::File { path } => seq![2u8] + enc_str(path),
    }
}

/// The encoding of a whole record: its fields in declaration order.
#[verifier::opaque]
pub open spec fn enc_meta(v: MetaView) -> Seq<u8> {
    enc_str(v.id) + enc_str(v.title) + enc_str_seq(v.alias) + enc_str_seq(v.tags)
        + enc_content_type(v.content_type) + enc_platform(v.platform) + enc_opt_str(v.description)
        + enc_opt_str(v.developer) + enc_opt_str(v.publisher) + enc_str(v.version)
        + enc_archive_info(v.archive_info) + enc_u64(v.archive_size) + enc_deploy_info(
        v.deploy_info,
    ) + enc_u64(v.time_created) + enc_u64(v.time_updated)
}

/// Whether a string's UTF-8 byte length fits the length prefix.
pub open spec fn str_fits(s: Seq<char>) -> bool {
    encode_utf8(s).len() <= u64::MAX
}

/// Whether an optional string fits.
pub open spec fn opt_str_fits(o: Option<Seq<char>>) -> bool {
    match o {
        None => true,
        Some(s) => str_fits(s),
    }
}

/// Whether a string sequence and each of its items fit.
pub open spec fn str_seq_fits(v: Seq<Seq<char>>) -> bool {
    &&& v.len() <= u64::MAX
    &&& forall|i: int| 0 <= i < v.len() ==> str_fits(#[trigger] v[i])
}

/// Whether a platform's fields fit.
pub open spec fn platform_fits(p: PlatformView) -> bool {
    match p {
        PlatformView::Unknown => true,
        PlatformView::Steam { id } => str_fits(id),
        PlatformView::DLSite { id } => str_fits(id),
        PlatformView::Other { name, id } => str_fits(name) && opt_str_fits(id),
    }
}

/// Whether an archive reference's fields fit.
pub open spec fn archive_info_fits(a: ArchiveInfoView) -> bool {
    match a {
        ArchiveInfoView::Unset => true,
        ArchiveInfoView::ArchiveFile { path, password } => str_fits(path) && opt_str_fits(
            password,
        ),
        ArchiveInfoView::CommonFile { path } => str_fits(path),
        ArchiveInfoView::Directory { path } => str_fits(path),
    }
}

/// Whether a deploy reference's fields fit.
pub open spec fn deploy_info_fits(d: DeployInfoView) -> bool {
    match d {
        DeployInfoView::Unset => true,
        DeployInfoView::Directory { path } => str_fits(path),
        DeployInfoView::File { path } => str_fits(path),
    }
}

/// Whether every string in a record fits its length prefix. Every record
/// the library builds fits, since its strings live in memory.
pub open spec fn meta_fits(v: MetaView) -> bool {
    &&& str_fits(v.id)
    &&& str_fits(v.title)
    &&& str_seq_fits(v.alias)
    &&& str_seq_fits(v.tags)
    &&& platform_fits(v.platform)
    &&& opt_str_fits(v.description)
    &&& opt_str_fits(v.developer)
    &&& opt_str_fits(v.publisher)
    &&& str_fits(v.version)
    &&& archive_info_fits(v.archive_info)
    &&& deploy_info_fits(v.deploy_info)
}

/// Reads an eight-byte integer at the position.
pub open spec fn parse_u64(b: Seq<u8>, i: int) -> Option<(u64, int)> {
    if 0 <= i && i + 8 <= b.len() {
        Some((spec_u64_from_le_bytes(b.subrange(i, i + 8)), i + 8))
    } else {
        None
    }
}

/// Reads one byte at the position.
pub open spec fn parse_byte(b: Seq<u8>, i: int) -> Option<(u8, int)> {
    if 0 <= i && i < b.len() {
        Some((b[i], i + 1))
    } else {
        None
    }
}

/// Reads a length-prefixed UTF-8 string at the position.
pub open spec fn parse_str(b: Seq<u8>, i: int) -> Option<(Seq<char>, int)> {
    match parse_u64(b, i) {
        None => None,
        Some((n, j)) => if j + n <= b.len() && valid_utf8(b.subrange(j, j + n)) {
            Some((decode_utf8(b.subrange(j, j + n)), j + n))
        } else {
            None
        },
    }
}

/// Reads an optional string at the position.
pub open spec fn parse_opt_str(b: Seq<u8>, i: int) -> Option<(Option<Seq<char>>, int)> {
    match parse_byte(b, i) {
        None => None,
        Some((t, j)) => if t == 0u8 {
            Some((None, j))
        } else if t == 1u8 {
            match parse_str(b, j) {
                None => None,
                Some((s, k)) => Some((Some(s), k)),
            }
        } else {
            None
        },
    }
}

/// Reads a given number of strings at the position.
pub open spec fn parse_str_items(b: Seq<u8>, i: int, n: nat) -> Option<(Seq<Seq<char>>, int)>
    decreases n,
{
    if n == 0 {
        Some((Seq::<Seq<char>>::empty(), i))
    } else {
        match parse_str(b, i) {
            None => None,
            Some((s, j)) => match parse_str_items(b, j, (n - 1) as nat) {
                None => None,
                Some((rest, k)) => Some((seq![s] + rest, k)),
            },
        }
    }
}

/// Reads a count-prefixed string sequence at the position.
pub open spec fn parse_str_seq(b: Seq<u8>, i: int) -> Option<(Seq<Seq<char>>, int)> {
    match parse_u64(b, i) {
        None => None,
        Some((n, j)) => parse_str_items(b, j, n as nat),
    }
}

/// Reads a content type at the position.
pub open spec fn parse_content_type(b: Seq<u8>, i: int) -> Option<(ContentType, int)> {
    match parse_byte(b, i) {
        None => None,
        Some((t, j)) => if t == 0u8 {
            Some((ContentType::Other, j))
        } else if t == 1u8 {
            Some((ContentType::Game, j))
        } else if t == 2u8 {
            Some((ContentType::Novel, j))
        } else if t == 3u8 {
            Some((ContentType::Comic, j))
        } else if t == 4u8 {
            Some((ContentType::Anime, j))
        } else if t == 5u8 {
            Some((ContentType::Music, j))
        } else if t == 6u8 {
            Some((ContentType::Movie, j))
        } else if t == 7u8 {
            Some((ContentType::Software, j))
        } else {
            None
        },
    }
}

/// Reads a distribution platform at the position.
pub open spec fn parse_platform(b: Seq<u8>, i: int) -> Option<(PlatformView, int)> {
    match parse_byte(b, i) {
        None => None,
        Some((t, j)) => if t == 0u8 {
            Some((PlatformView::Unknown, j))
        } else if t == 1u8 {
            match parse_str(b, j) {
                None => None,
                Some((id, k)) => Some((PlatformView::Steam { id }, k)),
            }
        } else if t == 2u8 {
            match parse_str(b, j) {
                None => None,
                Some((id, k)) => Some((PlatformView::DLSite { id }, k)),
            }
        } else if t == 3u8 {
            match parse_str(b, j) {
                None => None,
                Some((name, k)) => match parse_opt_str(b, k) {
                    None => None,
                    Some((id, l)) => Some((PlatformView::Other { name, id }, l)),
                },
            }
        } else {
            None
        },
    }
}

/// Reads an archive reference at the position.
pub open spec fn parse_archive_info(b: Seq<u8>, i: int) -> Option<(ArchiveInfoView, int)> {
    match parse_byte(b, i) {
        None => None,
        Some((t, j)) => if t == 0u8 {
            Some((ArchiveInfoView::Unset, j))
        } else if t == 1u8 {
            match parse_str(b, j) {
                None => None,
                Some((path, k)) => match parse_opt_str(b, k) {
                    None => None,
                    Some((password, l)) => Some(
                        (ArchiveInfoView::ArchiveFile { path, password }, l),
                    ),
                },
            }
        } else if t == 2u8 {
            match parse_str(b, j) {
                None => None,
                Some((path, k)) => Some((ArchiveInfoView::CommonFile { path }, k)),
            }
        } else if t == 3u8 {
            match parse_str(b, j) {
                None => None,
                Some((path, k)) => Some((ArchiveInfoView::Directory { path }, k)),
            }
        } else {
            None
        },
    }
}

/// Reads a deploy reference at the position.
pub open spec fn parse_deploy_info(b: Seq<u8>, i: int) -> Option<(DeployInfoView, int)> {
    match parse_byte(b, i) {
        None => None,
        Some((t, j)) => if t == 0u8 {
            Some((DeployInfoView::Unset, j))
        } else if t == 1u8 {
            match parse_str(b, j) {
                None => None,
                Some((path, k)) => Some((DeployInfoView::Directory { path }, k)),
            }
        } else if t == 2u8 {
            match parse_str(b, j) {
                None => None,
                Some((path, k)) => Some((DeployInfoView::File { path }, k)),
            }
        } else {
            None
        },
    }
}

/// Reads a whole record at the position.
pub open spec fn parse_meta(b: Seq<u8>, i: int) -> Option<(MetaView, int)> {
    match parse_str(b, i) {
        None => None,
        Some((id, i)) => match parse_str(b, i) {
            None => None,
            Some((title, i)) => match parse_str_seq(b, i) {
                None => None,
                Some((alias, i)) => match parse_str_seq(b, i) {
                    None => None,
                    Some((tags, i)) => match parse_content_type(b, i) {
                        None => None,
                        Some((content_type, i)) => match parse_platform(b, i) {
                            None => None,
                            Some((platform, i)) => match parse_opt_str(b, i) {
                                None => None,
                                Some((description, i)) => match parse_opt_str(b, i) {
                                    None => None,
                                    Some((developer, i)) => match parse_opt_str(b, i) {
                                        None => None,
                                        Some((publisher, i)) => match parse_str(b, i) {
                                            None => None,
                                            Some((version, i)) => match parse_archive_info(b, i) {
                                                None => None,
                                                Some((archive_info, i)) => match parse_u64(b, i) {
                                                    None => None,
                                                    Some((archive_size, i)) => match parse_deploy_info(
                                                        b,
                                                        i,
                                                    ) {
                                                        None => None,
                                                        Some((deploy_info, i)) => match parse_u64(
                                                            b,
                                                            i,
                                                        ) {
                                                            None => None,
                                                            Some((time_created, i)) => match parse_u64(
                                                                b,
                                                                i,
                                                            ) {
                                                                None => None,
                                                                Some((time_updated, i)) => Some(
                                                                    (
                                                                        MetaView {
                                                                            id,
                                                                            title,
                                                                            alias,
                                                                            tags,
                                                                            content_type,
                                                                            platform,
                                                                            description,
                                                                            developer,
                                                                            publisher,
                                                                            version,
                                                                            archive_info,
                                                                            archive_size,
                                                                            deploy_info,
                                                                            time_created,
                                                                            time_updated,
                                                                        },
                                                                        i,
                                                                    ),
                                                                ),
                                                            },
                                                        },
                                                    },
                                                },
                                            },
                                        },
                                    },
                                },
                            },
                        },
                    },
                },
            },
        },
    }
}

/// The record a byte sequence holds: the parse must consume every byte.
pub open spec fn decode_meta_spec(b: Seq<u8>) -> Option<MetaView> {
    match parse_meta(b, 0) {
        None => None,
        Some((v, end)) => if end == b.len() {
            Some(v)
        } else {
            None
        },
    }
}

/// Splitting a known window into its head encoding and its tail.
proof fn lemma_split_head(b: Seq<u8>, i: int, e: Seq<u8>, t: Seq<u8>)
    requires
        0 <= i,
        i + e.len() + t.len() <= b.len(),
        b.subrange(i, i + e.len() + t.len()) == e + t,
    ensures
        b.subrange(i, i + e.len()) == e,
        b.subrange(i + e.len(), i + e.len() + t.len()) == t,
{
    let w = b.subrange(i, i + e.len() + t.len());
    assert(b.subrange(i, i + e.len()) =~= e);
    assert forall|k: int| 0 <= k < t.len() implies b.subrange(
        i + e.len(),
        i + e.len() + t.len(),
    )[k] == t[k] by {
        assert(w[e.len() + k] == b[i + e.len() + k]);
        assert((e + t)[e.len() + k] == t[k]);
    }
    assert(b.subrange(i + e.len(), i + e.len() + t.len()) =~= t);
}

/// An integer parses back from its own encoding.
proof fn lemma_parse_u64_enc(x: u64, b: Seq<u8>, i: int)
    requires
        0 <= i,
        i + enc_u64(x).len() <= b.len(),
        b.subrange(i, i + enc_u64(x).len() as int) == enc_u64(x),
    ensures
        enc_u64(x).len() == 8,
        parse_u64(b, i) == Some((x, i + 8)),
{
    lemma_auto_spec_u64_to_from_le_bytes();
}

/// A byte parses back from its own encoding.
proof fn lemma_parse_byte_enc(x: u8, b: Seq<u8>, i: int)
    requires
        0 <= i,
        i + 1 <= b.len(),
        b.subrange(i, i + 1) == seq![x],
    ensures
        parse_byte(b, i) == Some((x, i + 1)),
{
    assert(b[i] == b.subrange(i, i + 1)[0]);
}

/// A string parses back from its own encoding.
proof fn lemma_parse_str_enc(s: Seq<char>, b: Seq<u8>, i: int)
    requires
        str_fits(s),
        0 <= i,
        i + enc_str(s).len() <= b.len(),
        b.subrange(i, i + enc_str(s).len() as int) == enc_str(s),
    ensures
        parse_str(b, i) == Some((s, i + enc_str(s).len() as int)),
{
    let u = encode_utf8(s);
    let n: u64 = u.len() as u64;
    lemma_auto_spec_u64_to_from_le_bytes();
    lemma_split_head(b, i, enc_u64(n), u);
    lemma_parse_u64_enc(n, b, i);
    encode_utf8_valid_utf8(s);
    encode_utf8_decode_utf8(s);
}

/// An optional string parses back from its own encoding.
proof fn lemma_parse_opt_str_enc(o: Option<Seq<char>>, b: Seq<u8>, i: int)
    requires
        opt_str_fits(o),
        0 <= i,
        i + enc_opt_str(o).len() <= b.len(),
        b.subrange(i, i + enc_opt_str(o).len() as int) == enc_opt_str(o),
    ensures
        parse_opt_str(b, i) == Some((o, i + enc_opt_str(o).len() as int)),
{
    match o {
        None => {
            lemma_parse_byte_enc(0u8, b, i);
        },
        Some(s) => {
            lemma_split_head(b, i, seq![1u8], enc_str(s));
            lemma_parse_byte_enc(1u8, b, i);
            lemma_parse_str_enc(s, b, i + 1);
        },
    }
}

/// A string sequence's items parse back from their own encodings.
proof fn lemma_parse_str_items_enc(v: Seq<Seq<char>>, b: Seq<u8>, i: int)
    requires
        forall|k: int| 0 <= k < v.len() ==> str_fits(#[trigger] v[k]),
        0 <= i,
        i + enc_str_items(v).len() <= b.len(),
        b.subrange(i, i + enc_str_items(v).len() as int) == enc_str_items(v),
    ensures
        parse_str_items(b, i, v.len()) == Some((v, i + enc_str_items(v).len() as int)),
    decreases v.len(),
{
    if v.len() == 0 {
        assert(parse_str_items(b, i, 0) == Some((Seq::<Seq<char>>::empty(), i)));
        assert(v =~= Seq::<Seq<char>>::empty());
    } else {
        let rest = v.drop_first();
        lemma_split_head(b, i, enc_str(v[0]), enc_str_items(rest));
        lemma_parse_str_enc(v[0], b, i);
        let j = i + enc_str(v[0]).len() as int;
        assert(forall|k: int| 0 <= k < rest.len() ==> str_fits(#[trigger] rest[k])) by {
            assert(forall|k: int| 0 <= k < rest.len() ==> rest[k] == v[k + 1]);
        }
        lemma_parse_str_items_enc(rest, b, j);
        assert(seq![v[0]] + rest =~= v);
    }
}

/// A string sequence parses back from its own encoding.
proof fn lemma_parse_str_seq_enc(v: Seq<Seq<char>>, b: Seq<u8>, i: int)
    requires
        str_seq_fits(v),
        0 <= i,
        i + enc_str_seq(v).len() <= b.len(),
        b.subrange(i, i + enc_str_seq(v).len() as int) == enc_str_seq(v),
    ensures
        parse_str_seq(b, i) == Some((v, i + enc_str_seq(v).len() as int)),
{
    let n: u64 = v.len() as u64;
    lemma_split_head(b, i, enc_u64(n), enc_str_items(v));
    lemma_parse_u64_enc(n, b, i);
    lemma_parse_str_items_enc(v, b, i + 8);
}

/// A content type parses back from its own encoding.
proof fn lemma_parse_content_type_enc(c: ContentType, b: Seq<u8>, i: int)
    requires
        0 <= i,
        i + 1 <= b.len(),
        b.subrange(i, i + 1) == enc_content_type(c),
    ensures
        parse_content_type(b, i) == Some((c, i + 1)),
{
    lemma_parse_byte_enc(content_type_tag(c), b, i);
}

/// A distribution platform parses back from its own encoding.
proof fn lemma_parse_platform_enc(p: PlatformView, b: Seq<u8>, i: int)
    requires
        platform_fits(p),
        0 <= i,
        i + enc_platform(p).len() <= b.len(),
        b.subrange(i, i + enc_platform(p).len() as int) == enc_platform(p),
    ensures
        parse_platform(b, i) == Some((p, i + enc_platform(p).len() as int)),
{
    match p {
        PlatformView::Unknown => {
            lemma_parse_byte_enc(0u8, b, i);
        },
        PlatformView::Steam { id } => {
            lemma_split_head(b, i, seq![1u8], enc_str(id));
            lemma_parse_byte_enc(1u8, b, i);
            lemma_parse_str_enc(id, b, i + 1);
        },
        PlatformView::DLSite { id } => {
            lemma_split_head(b, i, seq![2u8], enc_str(id));
            lemma_parse_byte_enc(2u8, b, i);
            lemma_parse_str_enc(id, b, i + 1);
        },
        PlatformView::Other { name, id } => {
            assert(enc_platform(p) == (seq![3u8] + enc_str(name)) + enc_opt_str(id));
            lemma_split_head(b, i, seq![3u8] + enc_str(name), enc_opt_str(id));
            lemma_split_head(b, i, seq![3u8], enc_str(name));
            lemma_parse_byte_enc(3u8, b, i);
            lemma_parse_str_enc(name, b, i + 1);
            lemma_parse_opt_str_enc(id, b, i + 1 + enc_str(name).len() as int);
        },
    }
}

/// An archive reference parses back from its own encoding.
proof fn lemma_parse_archive_info_enc(a: ArchiveInfoView, b: Seq<u8>, i: int)
    requires
        archive_info_fits(a),
        0 <= i,
        i + enc_archive_info(a).len() <= b.len(),
        b.subrange(i, i + enc_archive_info(a).len() as int) == enc_archive_info(a),
    ensures
        parse_archive_info(b, i) == Some((a, i + enc_archive_info(a).len() as int)),
{
    match a {
        ArchiveInfoView::Unset => {
            lemma_parse_byte_enc(0u8, b, i);
        },
        ArchiveInfoView::ArchiveFile { path, password } => {
            assert(enc_archive_info(a) == (seq![1u8] + enc_str(path)) + enc_opt_str(password));
            lemma_split_head(b, i, seq![1u8] + enc_str(path), enc_opt_str(password));
            lemma_split_head(b, i, seq![1u8], enc_str(path));
            lemma_parse_byte_enc(1u8, b, i);
            lemma_parse_str_enc(path, b, i + 1);
            lemma_parse_opt_str_enc(password, b, i + 1 + enc_str(path).len() as int);
        },
        ArchiveInfoView::CommonFile { path } => {
            lemma_split_head(b, i, seq![2u8], enc_str(path));
            lemma_parse_byte_enc(2u8, b, i);
            lemma_parse_str_enc(path, b, i + 1);
        },
        ArchiveInfoView::Directory { path } => {
            lemma_split_head(b, i, seq![3u8], enc_str(path));
            lemma_parse_byte_enc(3u8, b, i);
            lemma_parse_str_enc(path, b, i + 1);
        },
    }
}

/// A deploy reference parses back from its own encoding.
proof fn lemma_parse_deploy_info_enc(d: DeployInfoView, b: Seq<u8>, i: int)
    requires
        deploy_info_fits(d),
        0 <= i,
        i + enc_deploy_info(d).len() <= b.len(),
        b.subrange(i, i + enc_deploy_info(d).len() as int) == enc_deploy_info(d),
    ensures
        parse_deploy_info(b, i) == Some((d, i + enc_deploy_info(d).len() as int)),
{
    match d {
        DeployInfoView::Unset => {
            lemma_parse_byte_enc(0u8, b, i);
        },
        DeployInfoView::Directory { path } => {
            lemma_split_head(b, i, seq![1u8], enc_str(path));
            lemma_parse_byte_enc(1u8, b, i);
            lemma_parse_str_enc(path, b, i + 1);
        },
        DeployInfoView::File { path } => {
            lemma_split_head(b, i, seq![2u8], enc_str(path));
            lemma_parse_byte_enc(2u8, b, i);
            lemma_parse_str_enc(path, b, i + 1);
        },
    }
}

/// A whole record parses back from its own encoding.
#[verifier::rlimit(100)]
#[verifier::spinoff_prover]
proof fn lemma_parse_meta_enc(v: MetaView, b: Seq<u8>, i: int)
    requires
        meta_fits(v),
        0 <= i,
        i + enc_meta(v).len() <= b.len(),
        b.subrange(i, i + enc_meta(v).len() as int) == enc_meta(v),
    ensures
        parse_meta(b, i) == Some((v, i + enc_meta(v).len() as int)),
{
    reveal(enc_meta);
    let e1 = enc_str(v.id);
    let e2 = enc_str(v.title);
    let e3 = enc_str_seq(v.alias);
    let e4 = enc_str_seq(v.tags);
    let e5 = enc_content_type(v.content_type);
    let e6 = enc_platform(v.platform);
    let e7 = enc_opt_str(v.description);
    let e8 = enc_opt_str(v.developer);
    let e9 = enc_opt_str(v.publisher);
    let e10 = enc_str(v.version);
    let e11 = enc_archive_info(v.archive_info);
    let e12 = enc_u64(v.archive_size);
    let e13 = enc_deploy_info(v.deploy_info);
    let e14 = enc_u64(v.time_created);
    let e15 = enc_u64(v.time_updated);
    let p1 = e1;
    let p2 = p1 + e2;
    let p3 = p2 + e3;
    let p4 = p3 + e4;
    let p5 = p4 + e5;
    let p6 = p5 + e6;
    let p7 = p6 + e7;
    let p8 = p7 + e8;
    let p9 = p8 + e9;
    let p10 = p9 + e10;
    let p11 = p10 + e11;
    let p12 = p11 + e12;
    let p13 = p12 + e13;
    let p14 = p13 + e14;
    let p15 = p14 + e15;
    assert(enc_meta(v) == p15);
    lemma_split_head(b, i, p14, e15);
    lemma_split_head(b, i, p13, e14);
    lemma_split_head(b, i, p12, e13);
    lemma_split_head(b, i, p11, e12);
    lemma_split_head(b, i, p10, e11);
    lemma_split_head(b, i, p9, e10);
    lemma_split_head(b, i, p8, e9);
    lemma_split_head(b, i, p7, e8);
    lemma_split_head(b, i, p6, e7);
    lemma_split_head(b, i, p5, e6);
    lemma_split_head(b, i, p4, e5);
    lemma_split_head(b, i, p3, e4);
    lemma_split_head(b, i, p2, e3);
    lemma_split_head(b, i, p1, e2);
    lemma_parse_str_enc(v.id, b, i);
    lemma_parse_str_enc(v.title, b, i + p1.len() as int);
    lemma_parse_str_seq_enc(v.alias, b, i + p2.len() as int);
    lemma_parse_str_seq_enc(v.tags, b, i + p3.len() as int);
    lemma_parse_content_type_enc(v.content_type, b, i + p4.len() as int);
    lemma_parse_platform_enc(v.platform, b, i + p5.len() as int);
    lemma_parse_opt_str_enc(v.description, b, i + p6.len() as int);
    lemma_parse_opt_str_enc(v.developer, b, i + p7.len() as int);
    lemma_parse_opt_str_enc(v.publisher, b, i + p8.len() as int);
    lemma_parse_str_enc(v.version, b, i + p9.len() as int);
    lemma_parse_archive_info_enc(v.archive_info, b, i + p10.len() as int);
    lemma_parse_u64_enc(v.archive_size, b, i + p11.len() as int);
    lemma_parse_deploy_info_enc(v.deploy_info, b, i + p12.len() as int);
    lemma_parse_u64_enc(v.time_created, b, i + p13.len() as int);
    lemma_parse_u64_enc(v.time_updated, b, i + p14.len() as int);
}

/// The round trip: a record that fits decodes back from its own encoding.
pub proof fn lemma_decode_encode(v: MetaView)
    requires
        meta_fits(v),
    ensures
        decode_meta_spec(enc_meta(v)) == Some(v),
{
    let b = enc_meta(v);
    assert(b.subrange(0, b.len() as int) =~= b);
    lemma_parse_meta_enc(v, b, 0);
}

/// Relies on `String::from_utf8`: builds the string exactly when the bytes
/// are a valid UTF-8 encoding, and refuses them otherwise.
#[verifier::external_body]
fn string_from_utf8(v: Vec<u8>) -> (r: Option<String>)
    ensures
        r matches Some(s) ==> valid_utf8(v@) && s@ == decode_utf8(v@),
        r is None ==> !valid_utf8(v@),
{
    match String::from_utf8(v) {
        Ok(s) => Some(s),
        Err(_) => None,
    }
}

fn push_u64(out: &mut Vec<u8>, x: u64)
    ensures
        final(out)@ == old(out)@ + enc_u64(x),
{
    let mut bytes = vstd::bytes::u64_to_le_bytes(x);
    out.append(&mut bytes);
}

fn push_str(out: &mut Vec<u8>, s: &str)
    ensures
        final(out)@ == old(out)@ + enc_str(s@),
        str_fits(s@),
{
    let mut bytes = s.as_bytes_vec();
    push_u64(out, bytes.len() as u64);
    out.append(&mut bytes);
}

fn push_opt_str(out: &mut Vec<u8>, o: &Option<String>)
    ensures
        final(out)@ == old(out)@ + enc_opt_str(o.deep_view()),
        opt_str_fits(o.deep_view()),
{
    match o {
        None => {
            out.push(0u8);
            assert(final(out)@ =~= old(out)@ + enc_opt_str(o.deep_view()));
        },
        Some(s) => {
            out.push(1u8);
            push_str(out, s.as_str());
            assert(final(out)@ =~= old(out)@ + enc_opt_str(o.deep_view()));
        },
    }
}

/// Appending one more item extends the item encoding by that item.
proof fn lemma_enc_str_items_snoc(v: Seq<Seq<char>>, i: int)
    requires
        0 <= i < v.len(),
    ensures
        enc_str_items(v.take(i + 1)) == enc_str_items(v.take(i)) + enc_str(v[i]),
    decreases i,
{
    if i == 0 {
        assert(v.take(1) =~= seq![v[0]]);
        assert(v.take(0) =~= Seq::<Seq<char>>::empty());
        assert(enc_str_items(seq![v[0]]) == enc_str(v[0]) + enc_str_items(
            seq![v[0]].drop_first(),
        ));
        assert(seq![v[0]].drop_first() =~= Seq::<Seq<char>>::empty());
        assert(enc_str_items(v.take(0)) + enc_str(v[0]) =~= enc_str(v[0]));
    } else {
        let w = v.drop_first();
        lemma_enc_str_items_snoc(w, i - 1);
        assert(v.take(i + 1).drop_first() =~= w.take(i));
        assert(v.take(i).drop_first() =~= w.take(i - 1));
        assert(enc_str_items(v.take(i + 1)) == enc_str(v[0]) + enc_str_items(w.take(i)));
        assert(enc_str_items(v.take(i)) == enc_str(v[0]) + enc_str_items(w.take(i - 1)));
        assert(enc_str_items(v.take(i)) + enc_str(v[i]) =~= enc_str(v[0]) + (enc_str_items(
            w.take(i - 1),
        ) + enc_str(w[i - 1])));
    }
}

fn push_str_vec(out: &mut Vec<u8>, v: &Vec<String>)
    ensures
        final(out)@ == old(out)@ + enc_str_seq(v.deep_view()),
        str_seq_fits(v.deep_view()),
{
    push_u64(out, v.len() as u64);
    let ghost base = out@;
    let ghost w = v.deep_view();
    let mut i: usize = 0;
    while i < v.len()
        invariant
            i <= v.len(),
            w == v.deep_view(),
            w.len() == v.len(),
            out@ == base + enc_str_items(w.take(i as int)),
            forall|k: int| 0 <= k < i ==> str_fits(#[trigger] w[k]),
        decreases v.len() - i,
    {
        proof {
            lemma_enc_str_items_snoc(w, i as int);
        }
        push_str(out, v[i].as_str());
        proof {
            assert(w[i as int] == v[i as int]@);
        }
        i = i + 1;
    }
    proof {
        assert(w.take(w.len() as int) =~= w);
    }
}

fn push_content_type(out: &mut Vec<u8>, c: &ContentType)
    ensures
        final(out)@ == old(out)@ + enc_content_type(*c),
{
    let tag: u8 = match c {
        ContentType::Other => 0u8,
        ContentType::Game => 1u8,
        ContentType::Novel => 2u8,
        ContentType::Comic => 3u8,
        ContentType::Anime => 4u8,
        ContentType::Music => 5u8,
        ContentType::Movie => 6u8,
        ContentType::Software => 7u8,
    };
    out.push(tag);
    assert(final(out)@ =~= old(out)@ + enc_content_type(*c));
}

fn push_platform(out: &mut Vec<u8>, p: &DistributionPlatform)
    ensures
        final(out)@ == old(out)@ + enc_platform(p@),
        platform_fits(p@),
{
    match p {
        DistributionPlatform::Unknown => {
            out.push(0u8);
            assert(final(out)@ =~= old(out)@ + enc_platform(p@));
        },
        DistributionPlatform::Steam { id } => {
            out.push(1u8);
            push_str(out, id.as_str());
            assert(final(out)@ =~= old(out)@ + enc_platform(p@));
        },
        DistributionPlatform::DLSite { id } => {
            out.push(2u8);
            push_str(out, id.as_str());
            assert(final(out)@ =~= old(out)@ + enc_platform(p@));
        },
        DistributionPlatform::Other { name, id } => {
            out.push(3u8);
            push_str(out, name.as_str());
            push_opt_str(out, id);
            assert(final(out)@ =~= old(out)@ + enc_platform(p@));
        },
    }
}

fn push_archive_info(out: &mut Vec<u8>, a: &ArchiveInfo)
    ensures
        final(out)@ == old(out)@ + enc_archive_info(a@),
        archive_info_fits(a@),
{
    match a {
        ArchiveInfo::Unset => {
            out.push(0u8);
            assert(final(out)@ =~= old(out)@ + enc_archive_info(a@));
        },
        ArchiveInfo::ArchiveFile { path, password } => {
            out.push(1u8);
            push_str(out, path.as_str());
            push_opt_str(out, password);
            assert(final(out)@ =~= old(out)@ + enc_archive_info(a@));
        },
        ArchiveInfo::CommonFile { path } => {
            out.push(2u8);
            push_str(out, path.as_str());
            assert(final(out)@ =~= old(out)@ + enc_archive_info(a@));
        },
        ArchiveInfo::Directory { path } => {
            out.push(3u8);
            push_str(out, path.as_str());
            assert(final(out)@ =~= old(out)@ + enc_archive_info(a@));
        },
    }
}

fn push_deploy_info(out: &mut Vec<u8>, d: &DeployInfo)
    ensures
        final(out)@ == old(out)@ + enc_deploy_info(d@),
        deploy_info_fits(d@),
{
    match d {
        DeployInfo::Unset => {
            out.push(0u8);
            assert(final(out)@ =~= old(out)@ + enc_deploy_info(d@));
        },
        DeployInfo::Directory { path } => {
            out.push(1u8);
            push_str(out, path.as_str());
            assert(final(out)@ =~= old(out)@ + enc_deploy_info(d@));
        },
        DeployInfo::File { path } => {
            out.push(2u8);
            push_str(out, path.as_str());
            assert(final(out)@ =~= old(out)@ + enc_deploy_info(d@));
        },
    }
}

/// Encodes a record into its byte form. Every record held in memory fits
/// the format's length prefixes.
pub fn encode_meta(m: &Metadata) -> (out: Vec<u8>)
    ensures
        out@ == enc_meta(m@),
        meta_fits(m@),
{
    proof {
        reveal(enc_meta);
    }
    let mut out: Vec<u8> = Vec::new();
    push_str(&mut out, m.id.as_str());
    push_str(&mut out, m.title.as_str());
    push_str_vec(&mut out, &m.alias);
    push_str_vec(&mut out, &m.tags);
    push_content_type(&mut out, &m.content_type);
    push_platform(&mut out, &m.platform);
    push_opt_str(&mut out, &m.description);
    push_opt_str(&mut out, &m.developer);
    push_opt_str(&mut out, &m.publisher);
    push_str(&mut out, m.version.as_str());
    push_archive_info(&mut out, &m.archive_info);
    push_u64(&mut out, m.archive_size);
    push_deploy_info(&mut out, &m.deploy_info);
    push_u64(&mut out, m.time_created);
    push_u64(&mut out, m.time_updated);
    assert(out@ =~= enc_meta(m@));
    out
}

fn take_u64(b: &Vec<u8>, i: usize) -> (r: Option<(u64, usize)>)
    requires
        i <= b@.len(),
    ensures
        r matches Some(p) ==> {
            &&& parse_u64(b@, i as int) == Some((p.0, p.1 as int))
            &&& i <= p.1 <= b@.len()
        },
        r is None ==> parse_u64(b@, i as int) is None,
{
    if b.len() - i >= 8 {
        let x = vstd::bytes::u64_from_le_bytes(vstd::slice::slice_subrange(b.as_slice(), i, i + 8));
        Some((x, i + 8))
    } else {
        None
    }
}

fn take_byte(b: &Vec<u8>, i: usize) -> (r: Option<(u8, usize)>)
    requires
        i <= b@.len(),
    ensures
        r matches Some(p) ==> {
            &&& parse_byte(b@, i as int) == Some((p.0, p.1 as int))
            &&& i <= p.1 <= b@.len()
        },
        r is None ==> parse_byte(b@, i as int) is None,
{
    if i < b.len() {
        Some((b[i], i + 1))
    } else {
        None
    }
}

fn take_str(b: &Vec<u8>, i: usize) -> (r: Option<(String, usize)>)
    requires
        i <= b@.len(),
    ensures
        r matches Some(p) ==> {
            &&& parse_str(b@, i as int) == Some((p.0@, p.1 as int))
            &&& i <= p.1 <= b@.len()
        },
        r is None ==> parse_str(b@, i as int) is None,
{
    match take_u64(b, i) {
        None => None,
        Some((n, j)) => {
            let remaining = b.len() - j;
            if n <= remaining as u64 {
                let end = j + (n as usize);
                let bytes = vstd::slice::slice_to_vec(
                    vstd::slice::slice_subrange(b.as_slice(), j, end),
                );
                match string_from_utf8(bytes) {
                    Some(s) => Some((s, end)),
                    None => None,
                }
            } else {
                None
            }
        },
    }
}

fn take_opt_str(b: &Vec<u8>, i: usize) -> (r: Option<(Option<String>, usize)>)
    requires
        i <= b@.len(),
    ensures
        r matches Some(p) ==> {
            &&& parse_opt_str(b@, i as int) == Some((p.0.deep_view(), p.1 as int))
            &&& i <= p.1 <= b@.len()
        },
        r is None ==> parse_opt_str(b@, i as int) is None,
{
    match take_byte(b, i) {
        None => None,
        Some((t, j)) => {
            if t == 0u8 {
                Some((None, j))
            } else if t == 1u8 {
                match take_str(b, j) {
                    None => None,
                    Some((s, k)) => Some((Some(s), k)),
                }
            } else {
                None
            }
        },
    }
}

fn take_str_vec(b: &Vec<u8>, i: usize) -> (r: Option<(Vec<String>, usize)>)
    requires
        i <= b@.len(),
    ensures
        r matches Some(p) ==> {
            &&& parse_str_seq(b@, i as int) == Some((p.0.deep_view(), p.1 as int))
            &&& i <= p.1 <= b@.len()
        },
        r is None ==> parse_str_seq(b@, i as int) is None,
{
    match take_u64(b, i) {
        None => None,
        Some((n, j)) => {
            let mut acc: Vec<String> = Vec::new();
            let mut pos: usize = j;
            let mut k: u64 = 0;
            loop
                invariant
                    k <= n,
                    i <= j <= pos <= b@.len(),
                    parse_u64(b@, i as int) == Some((n, j as int)),
                    acc.deep_view().len() == k,
                    parse_str_items(b@, j as int, n as nat) == match parse_str_items(
                        b@,
                        pos as int,
                        (n - k) as nat,
                    ) {
                        None => None::<(Seq<Seq<char>>, int)>,
                        Some((rest, end)) => Some((acc.deep_view() + rest, end)),
                    },
                decreases n - k,
            {
                if k == n {
                    proof {
                        assert(acc.deep_view() + Seq::<Seq<char>>::empty() =~= acc.deep_view());
                    }
                    return Some((acc, pos));
                }
                let ghost acc0 = acc.deep_view();
                match take_str(b, pos) {
                    None => {
                        return None;
                    },
                    Some((s, next)) => {
                        acc.push(s);
                        proof {
                            assert(acc.deep_view() =~= acc0.push(s@));
                            assert forall|rest: Seq<Seq<char>>|
                                true implies acc0 + (seq![s@] + rest) =~= acc0.push(s@)
                                + rest by {}
                        }
                        pos = next;
                        k = k + 1;
                    },
                }
            }
        },
    }
}

fn take_content_type(b: &Vec<u8>, i: usize) -> (r: Option<(ContentType, usize)>)
    requires
        i <= b@.len(),
    ensures
        r matches Some(p) ==> {
            &&& parse_content_type(b@, i as int) == Some((p.0, p.1 as int))
            &&& i <= p.1 <= b@.len()
        },
        r is None ==> parse_content_type(b@, i as int) is None,
{
    match take_byte(b, i) {
        None => None,
        Some((t, j)) => {
            if t == 0u8 {
                Some((ContentType::Other, j))
            } else if t == 1u8 {
                Some((ContentType::Game, j))
            } else if t == 2u8 {
                Some((ContentType::Novel, j))
            } else if t == 3u8 {
                Some((ContentType::Comic, j))
            } else if t == 4u8 {
                Some((ContentType::Anime, j))
            } else if t == 5u8 {
                Some((ContentType::Music, j))
            } else if t == 6u8 {
                Some((ContentType::Movie, j))
            } else if t == 7u8 {
                Some((ContentType::Software, j))
            } else {
                None
            }
        },
    }
}

fn take_platform(b: &Vec<u8>, i: usize) -> (r: Option<(DistributionPlatform, usize)>)
    requires
        i <= b@.len(),
    ensures
        r matches Some(p) ==> {
            &&& parse_platform(b@, i as int) == Some((p.0@, p.1 as int))
            &&& i <= p.1 <= b@.len()
        },
        r is None ==> parse_platform(b@, i as int) is None,
{
    match take_byte(b, i) {
        None => None,
        Some((t, j)) => {
            if t == 0u8 {
                Some((DistributionPlatform::Unknown, j))
            } else if t == 1u8 {
                match take_str(b, j) {
                    None => None,
                    Some((id, k)) => Some((DistributionPlatform::Steam { id }, k)),
                }
            } else if t == 2u8 {
                match take_str(b, j) {
                    None => None,
                    Some((id, k)) => Some((DistributionPlatform::DLSite { id }, k)),
                }
            } else if t == 3u8 {
                match take_str(b, j) {
                    None => None,
                    Some((name, k)) => match take_opt_str(b, k) {
                        None => None,
                        Some((id, l)) => Some((DistributionPlatform::Other { name, id }, l)),
                    },
                }
            } else {
                None
            }
        },
    }
}

fn take_archive_info(b: &Vec<u8>, i: usize) -> (r: Option<(ArchiveInfo, usize)>)
    requires
        i <= b@.len(),
    ensures
        r matches Some(p) ==> {
            &&& parse_archive_info(b@, i as int) == Some((p.0@, p.1 as int))
            &&& i <= p.1 <= b@.len()
        },
        r is None ==> parse_archive_info(b@, i as int) is None,
{
    match take_byte(b, i) {
        None => None,
        Some((t, j)) => {
            if t == 0u8 {
                Some((ArchiveInfo::Unset, j))
            } else if t == 1u8 {
                match take_str(b, j) {
                    None => None,
                    Some((path, k)) => match take_opt_str(b, k) {
                        None => None,
                        Some((password, l)) => Some((ArchiveInfo::ArchiveFile { path, password }, l)),
                    },
                }
            } else if t == 2u8 {
                match take_str(b, j) {
                    None => None,
                    Some((path, k)) => Some((ArchiveInfo::CommonFile { path }, k)),
                }
            } else if t == 3u8 {
                match take_str(b, j) {
                    None => None,
                    Some((path, k)) => Some((ArchiveInfo::Directory { path }, k)),
                }
            } else {
                None
            }
        },
    }
}

fn take_deploy_info(b: &Vec<u8>, i: usize) -> (r: Option<(DeployInfo, usize)>)
    requires
        i <= b@.len(),
    ensures
        r matches Some(p) ==> {
            &&& parse_deploy_info(b@, i as int) == Some((p.0@, p.1 as int))
            &&& i <= p.1 <= b@.len()
        },
        r is None ==> parse_deploy_info(b@, i as int) is None,
{
    match take_byte(b, i) {
        None => None,
        Some((t, j)) => {
            if t == 0u8 {
                Some((DeployInfo::Unset, j))
            } else if t == 1u8 {
                match take_str(b, j) {
                    None => None,
                    Some((path, k)) => Some((DeployInfo::Directory { path }, k)),
                }
            } else if t == 2u8 {
                match take_str(b, j) {
                    None => None,
                    Some((path, k)) => Some((DeployInfo::File { path }, k)),
                }
            } else {
                None
            }
        },
    }
}

/// Decodes a record from its byte form: exactly the record the bytes
/// encode, or nothing when the bytes are not a whole, well-formed encoding.
#[verifier::rlimit(60)]
#[verifier::spinoff_prover]
pub fn decode_meta(b: &Vec<u8>) -> (r: Option<Metadata>)
    ensures
        r matches Some(m) ==> decode_meta_spec(b@) == Some(m@),
        r is None ==> decode_meta_spec(b@) is None,
{
    let (id, i) = match take_str(b, 0) {
        Some(p) => p,
        None => {
            return None;
        },
    };
    let (title, i) = match take_str(b, i) {
        Some(p) => p,
        None => {
            return None;
        },
    };
    let (alias, i) = match take_str_vec(b, i) {
        Some(p) => p,
        None => {
            return None;
        },
    };
    let (tags, i) = match take_str_vec(b, i) {
        Some(p) => p,
        None => {
            return None;
        },
    };
    let (content_type, i) = match take_content_type(b, i) {
        Some(p) => p,
        None => {
            return None;
        },
    };
    let (platform, i) = match take_platform(b, i) {
        Some(p) => p,
        None => {
            return None;
        },
    };
    let (description, i) = match take_opt_str(b, i) {
        Some(p) => p,
        None => {
            return None;
        },
    };
    let (developer, i) = match take_opt_str(b, i) {
        Some(p) => p,
        None => {
            return None;
        },
    };
    let (publisher, i) = match take_opt_str(b, i) {
        Some(p) => p,
        None => {
            return None;
        },
    };
    let (version, i) = match take_str(b, i) {
        Some(p) => p,
        None => {
            return None;
        },
    };
    let (archive_info, i) = match take_archive_info(b, i) {
        Some(p) => p,
        None => {
            return None;
        },
    };
    let (archive_size, i) = match take_u64(b, i) {
        Some(p) => p,
        None => {
            return None;
        },
    };
    let (deploy_info, i) = match take_deploy_info(b, i) {
        Some(p) => p,
        None => {
            return None;
        },
    };
    let (time_created, i) = match take_u64(b, i) {
        Some(p) => p,
        None => {
            return None;
        },
    };
    let (time_updated, i) = match take_u64(b, i) {
        Some(p) => p,
        None => {
            return None;
        },
    };
    if i != b.len() {
        return None;
    }
    let m = Metadata {
        id,
        title,
        alias,
        tags,
        content_type,
        platform,
        description,
        developer,
        publisher,
        version,
        archive_info,
        archive_size,
        deploy_info,
        time_created,
        time_updated,
    };
    Some(m)
}

} // verus!
