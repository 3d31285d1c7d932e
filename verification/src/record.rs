//! Construction and patching of metadata records.
//!
//! A record is created from a partial payload over declared defaults, and
//! patched by field-wise overwrite: fields present in the payload replace
//! the stored value, absent fields leave it untouched. The identifier is
//! immutable and the cached archive size is derived, so neither is patched
//! directly. The one-shot archive-creation flag routes the supplied archive
//! info through the packaging step instead of a plain overwrite.

use vstd::prelude::*;
use crate::types::{
    Metadata, MetadataOptional, MetadataError, MetaView, OptView, ArchiveInfo, ArchiveInfoView,
    ContentType, DeployInfo, DeployInfoView, DistributionPlatform, PlatformView,
};
use crate::archiver::{PackRequest, ToolError};
use crate::paths::join_path_str;
use crate::text::{dec_digits, u64_to_dec};
use crate::fsops::{path_exists, create_dir_all_at, fs_size_of, fresh_id};

verus! {

/// The payload value when present, the base value otherwise.
pub open spec fn or_else<T>(o: Option<T>, d: T) -> T {
    match o {
        Some(v) => v,
        None => d,
    }
}

/// For an optional record field: a present payload value overwrites, an
/// absent one keeps the stored value. A stored value can therefore never be
/// cleared back to absent by a patch.
pub open spec fn or_opt(o: Option<Seq<char>>, d: Option<Seq<char>>) -> Option<Seq<char>> {
    if o is Some {
        o
    } else {
        d
    }
}

/// The field-wise merge of a payload onto a base record. The identifier is
/// immutable, the archive fields are governed by the archive-creation step
/// and keep the base values here, and the cached archive size in the
/// payload is ignored as a derived value.
pub open spec fn merged(b: MetaView, o: OptView) -> MetaView {
    MetaView {
        id: b.id,
        title: or_else(o.title, b.title),
        alias: or_else(o.alias, b.alias),
        tags: or_else(o.tags, b.tags),
        content_type: or_else(o.content_type, b.content_type),
        platform: or_else(o.platform, b.platform),
        description: or_opt(o.description, b.description),
        developer: or_opt(o.developer, b.developer),
        publisher: or_opt(o.publisher, b.publisher),
        version: or_else(o.version, b.version),
        archive_info: b.archive_info,
        archive_size: b.archive_size,
        deploy_info: or_else(o.deploy_info, b.deploy_info),
        time_created: or_else(o.time_created, b.time_created),
        time_updated: or_else(o.time_updated, b.time_updated),
    }
}

/// A freshly created record before the payload is applied: empty title,
/// no aliases or tags, version `1.0.0`, nothing archived or deployed, both
/// times the moment of creation.
pub open spec fn default_record(id: Seq<char>, now: u64) -> MetaView {
    MetaView {
        id: id,
        title: Seq::<char>::empty(),
        alias: Seq::<Seq<char>>::empty(),
        tags: Seq::<Seq<char>>::empty(),
        content_type: ContentType::Other,
        platform: PlatformView::Unknown,
        description: None,
        developer: None,
        publisher: None,
        version: "1.0.0"@,
        archive_info: ArchiveInfoView::Unset,
        archive_size: 0,
        deploy_info: DeployInfoView::Unset,
        time_created: now,
        time_updated: now,
    }
}

/// The update-time stamp after a successful mutation: the clock value when
/// it moved forward, otherwise one past the old stamp, so the stamp
/// strictly increases whenever it has room to.
pub open spec fn advance_time(t: u64, now: u64) -> u64 {
    if now > t {
        now
    } else if t < u64::MAX {
        (t + 1) as u64
    } else {
        t
    }
}

/// Equality on every field except the two archive fields.
pub open spec fn same_but_archive(m: MetaView, c: MetaView) -> bool {
    &&& m.id == c.id
    &&& m.title == c.title
    &&& m.alias == c.alias
    &&& m.tags == c.tags
    &&& m.content_type == c.content_type
    &&& m.platform == c.platform
    &&& m.description == c.description
    &&& m.developer == c.developer
    &&& m.publisher == c.publisher
    &&& m.version == c.version
    &&& m.deploy_info == c.deploy_info
    &&& m.time_created == c.time_created
    &&& m.time_updated == c.time_updated
}

/// The platform the archive destination is named from: the payload's
/// platform, unknown when the payload carries none.
pub open spec fn naming_platform(o: OptView) -> PlatformView {
    or_else(o.platform, PlatformView::Unknown)
}

/// The archive subdirectory for a platform.
pub open spec fn platform_bucket(p: PlatformView) -> Seq<char> {
    match p {
        PlatformView::Steam { .. } => "Steam"@,
        PlatformView::DLSite { .. } => "DLSite"@,
        PlatformView::Other { .. } => "Other"@,
        PlatformView::Unknown => "Unknown"@,
    }
}

/// The archive file stem: the platform's own identifier where it has one,
/// otherwise a name falling back to the given timestamp rendering.
pub open spec fn archive_stem(p: PlatformView, stamp: Seq<char>) -> Seq<char> {
    match p {
        PlatformView::Steam { id } => id,
        PlatformView::DLSite { id } => id,
        PlatformView::Other { name, id } => name + "-"@ + or_else(id, stamp),
        PlatformView::Unknown => "Unknown-"@ + stamp,
    }
}

/// The archive directory for a platform, relative to the content root.
pub open spec fn archive_parent_spec(p: PlatformView) -> Seq<char> {
    "archive/"@ + platform_bucket(p)
}

/// The archive destination for a platform, relative to the content root.
pub open spec fn archive_seg_spec(p: PlatformView, stamp: Seq<char>) -> Seq<char> {
    archive_parent_spec(p) + "/"@ + archive_stem(p, stamp) + ".7z"@
}

/// What holds of the archive fields after an archive-creation request
/// against a given destination segment: either the packaging succeeded and
/// the record points at that destination with the supplied password, or
/// the record was demoted to no archive and size zero — on a request that
/// carries anything but an archive-file reference, always the latter.
pub open spec fn created_at(aio: Option<ArchiveInfoView>, seg: Seq<char>, m: MetaView) -> bool {
    match aio {
        Some(ai) => match ai {
            ArchiveInfoView::ArchiveFile { path, password } => {
                ||| m.archive_info == (ArchiveInfoView::ArchiveFile {
                    path: seg,
                    password: password,
                })
                ||| (m.archive_info is Unset && m.archive_size == 0)
            },
            _ => m.archive_info is Unset && m.archive_size == 0,
        },
        None => m.archive_info is Unset && m.archive_size == 0,
    }
}

/// `created_at` against the destination computed from the payload's
/// platform and the clock.
pub open spec fn created_rel(o: OptView, now: u64, m: MetaView) -> bool {
    created_at(
        o.archive_info,
        archive_seg_spec(naming_platform(o), dec_digits(now as nat)),
        m,
    )
}

/// How the archive fields of an applied payload relate to the base record:
/// untouched when the payload neither carries an archive reference nor asks
/// for creation; overwritten by a supplied reference; and governed by
/// `created_rel` when creation was requested.
pub open spec fn archive_rel(b: MetaView, o: OptView, now: u64, m: MetaView) -> bool {
    &&& (!o.flag_create_archive && o.archive_info is None ==> {
        &&& m.archive_info == b.archive_info
        &&& m.archive_size == b.archive_size
    })
    &&& (!o.flag_create_archive ==> (o.archive_info matches Some(ai) ==> m.archive_info == ai))
    &&& (o.flag_create_archive ==> created_rel(o, now, m))
}

/// What a successful patch returns: the field-wise merge, the update time
/// advanced strictly past its old value, and the archive fields as
/// `archive_rel` says.
pub open spec fn patch_rel(b: MetaView, o: OptView, now: u64, m: MetaView) -> bool {
    &&& same_but_archive(
        m,
        MetaView { time_updated: advance_time(b.time_updated, now), ..merged(b, o) },
    )
    &&& archive_rel(b, o, now, m)
}

/// What a successful creation returns: the payload applied over the
/// declared defaults for the given identifier, with the archive fields of a
/// fresh record as base.
pub open spec fn init_rel(o: OptView, id: Seq<char>, now: u64, m: MetaView) -> bool {
    &&& same_but_archive(m, merged(default_record(id, now), o))
    &&& archive_rel(default_record(id, now), o, now, m)
}

/// The archive directory for the payload's platform, relative to the root.
fn archive_parent_str(p: &Option<DistributionPlatform>) -> (r: String)
    ensures
        r@ == archive_parent_spec(or_else(p.deep_view(), PlatformView::Unknown)),
{
    let bucket: &str = match p {
        Some(DistributionPlatform::Steam { .. }) => "Steam",
        Some(DistributionPlatform::DLSite { .. }) => "DLSite",
        Some(DistributionPlatform::Other { .. }) => "Other",
        _ => "Unknown",
    };
    let r = "archive/".to_owned().concat(bucket);
    assert(r@ =~= archive_parent_spec(or_else(p.deep_view(), PlatformView::Unknown)));
    r
}

/// The archive destination for the payload's platform, relative to the
/// root, stamped with the decimal rendering of the clock.
fn archive_seg_str(p: &Option<DistributionPlatform>, now: u64) -> (r: String)
    ensures
        r@ == archive_seg_spec(
            or_else(p.deep_view(), PlatformView::Unknown),
            dec_digits(now as nat),
        ),
{
    let parent = archive_parent_str(p);
    let stem: String = match p {
        Some(DistributionPlatform::Steam { id }) => id.clone(),
        Some(DistributionPlatform::DLSite { id }) => id.clone(),
        Some(DistributionPlatform::Other { name, id }) => {
            let tail: String = match id {
                Some(i) => i.clone(),
                None => u64_to_dec(now),
            };
            name.clone().concat("-").concat(tail.as_str())
        },
        _ => "Unknown-".to_owned().concat(u64_to_dec(now).as_str()),
    };
    let r = parent.concat("/").concat(stem.as_str()).concat(".7z");
    assert(r@ =~= archive_seg_spec(
        or_else(p.deep_view(), PlatformView::Unknown),
        dec_digits(now as nat),
    ));
    r
}

/// The update-time stamp after a successful mutation, as `advance_time`
/// describes.
pub fn advance_exec(t: u64, now: u64) -> (r: u64)
    ensures
        r == advance_time(t, now),
{
    if now > t {
        now
    } else if t < u64::MAX {
        t + 1
    } else {
        t
    }
}

impl Metadata {
    /// Advances the update time, as `advance_time` describes; every other
    /// field is untouched.
    pub fn mark_update(&mut self, now: u64)
        ensures
            final(self)@ == (MetaView {
                time_updated: advance_time(old(self)@.time_updated, now),
                ..old(self)@
            }),
    {
        self.time_updated = advance_exec(self.time_updated, now);
    }

    /// The field-wise merge of a payload onto this record, leaving the
    /// archive fields untouched and handing back the payload's archive
    /// reference and creation flag for the archive step.
    fn merge_plain(self, opt: MetadataOptional) -> (t: (Metadata, Option<ArchiveInfo>, bool))
        ensures
            same_but_archive(t.0@, merged(self@, opt@)),
            t.0@.archive_info == self@.archive_info,
            t.0@.archive_size == self@.archive_size,
            t.1.deep_view() == opt@.archive_info,
            t.2 == opt@.flag_create_archive,
    {
        let mut m = self;
        if let Some(v) = opt.title {
            m.title = v;
        }
        if let Some(v) = opt.alias {
            m.alias = v;
        }
        if let Some(v) = opt.tags {
            m.tags = v;
        }
        if let Some(v) = opt.content_type {
            m.content_type = v;
        }
        if let Some(v) = opt.platform {
            m.platform = v;
        }
        if let Some(v) = opt.description {
            m.description = Some(v);
        }
        if let Some(v) = opt.developer {
            m.developer = Some(v);
        }
        if let Some(v) = opt.publisher {
            m.publisher = Some(v);
        }
        if let Some(v) = opt.version {
            m.version = v;
        }
        if let Some(v) = opt.deploy_info {
            m.deploy_info = v;
        }
        if let Some(v) = opt.time_created {
            m.time_created = v;
        }
        if let Some(v) = opt.time_updated {
            m.time_updated = v;
        }
        (m, opt.archive_info, opt.flag_create_archive)
    }

    /// The archive step of applying a payload. With the creation flag off,
    /// a supplied archive reference overwrites the field and the cached
    /// size is recomputed from it; with the flag on, the source is packaged
    /// to the given destination segment — a missing source is a validation
    /// error, a failed directory creation a filesystem error, and a failed
    /// packaging run demotes the archive fields instead of failing.
    fn archive_step<F: Fn(PackRequest) -> Result<(), ToolError>>(
        m: Metadata,
        aio: Option<ArchiveInfo>,
        flag: bool,
        parent_rel: String,
        seg_rel: String,
        root: &str,
        pack: &F,
    ) -> (r: Result<Metadata, MetadataError>)
        requires
            forall|req: PackRequest| #[trigger] call_requires(*pack, (req,)),
        ensures
            r matches Ok(res) ==> {
                &&& same_but_archive(res@, m@)
                &&& (!flag && aio is None ==> {
                    &&& res@.archive_info == m@.archive_info
                    &&& res@.archive_size == m@.archive_size
                })
                &&& (!flag ==> (aio.deep_view() matches Some(ai) ==> res@.archive_info == ai))
                &&& (flag ==> created_at(aio.deep_view(), seg_rel@, res@))
            },
            !flag ==> r is Ok,
            r matches Err(e) ==> {
                &&& flag
                &&& (e is MapConversionError || e is FileSystemError)
                &&& (aio.deep_view() matches Some(ai) && ai is ArchiveFile)
            },
    {
        let mut m = m;
        if flag {
            match aio {
                Some(ArchiveInfo::ArchiveFile { path, password }) => {
                    if !path_exists(path.as_str()) {
                        return Err(MetadataError::MapConversionError);
                    }
                    let parent_abs = join_path_str(root, parent_rel.as_str());
                    if let Err(e) = create_dir_all_at(parent_abs.as_str()) {
                        return Err(MetadataError::FileSystemError(e));
                    }
                    let dest_abs = join_path_str(root, seg_rel.as_str());
                    let req = PackRequest {
                        source: path,
                        dest: dest_abs,
                        password: password.clone(),
                        level: None,
                    };
                    match pack(req) {
                        Ok(()) => {
                            let dest_abs = join_path_str(root, seg_rel.as_str());
                            m.archive_size = match fs_size_of(dest_abs.as_str()) {
                                Ok(n) => n,
                                Err(_) => 0,
                            };
                            m.archive_info = ArchiveInfo::ArchiveFile {
                                path: seg_rel,
                                password,
                            };
                        },
                        Err(_) => {
                            m.archive_info = ArchiveInfo::Unset;
                            m.archive_size = 0;
                        },
                    }
                },
                _ => {
                    m.archive_info = ArchiveInfo::Unset;
                    m.archive_size = 0;
                },
            }
        } else {
            if let Some(ai) = aio {
                m.archive_size = ai.calculate_size(root);
                m.archive_info = ai;
            }
        }
        Ok(m)
    }

    /// Applies a payload to a base record: field-wise merge, then the
    /// archive step against the destination computed from the payload's
    /// platform and the clock.
    fn apply_payload<F: Fn(PackRequest) -> Result<(), ToolError>>(
        self,
        opt: MetadataOptional,
        root: &str,
        now: u64,
        pack: &F,
    ) -> (r: Result<Metadata, MetadataError>)
        requires
            forall|req: PackRequest| #[trigger] call_requires(*pack, (req,)),
        ensures
            r matches Ok(m) ==> {
                &&& same_but_archive(m@, merged(self@, opt@))
                &&& (!opt@.flag_create_archive && opt@.archive_info is None ==> {
                    &&& m@.archive_info == self@.archive_info
                    &&& m@.archive_size == self@.archive_size
                })
                &&& (!opt@.flag_create_archive ==> (opt@.archive_info matches Some(ai)
                    ==> m@.archive_info == ai))
                &&& (opt@.flag_create_archive ==> created_rel(opt@, now, m@))
            },
            !opt@.flag_create_archive ==> r is Ok,
            r matches Err(e) ==> {
                &&& opt@.flag_create_archive
                &&& (e is MapConversionError || e is FileSystemError)
                &&& (opt@.archive_info matches Some(ai) && ai is ArchiveFile)
            },
    {
        let parent_rel = archive_parent_str(&opt.platform);
        let seg_rel = archive_seg_str(&opt.platform, now);
        let (m, aio, flag) = self.merge_plain(opt);
        Self::archive_step(m, aio, flag, parent_rel, seg_rel, root, pack)
    }

    /// Creates a record from a payload. The identifier is the payload's
    /// when present, otherwise freshly generated (36 characters, so never
    /// empty); every other field starts from the declared defaults and the
    /// payload is applied over them, the archive step included.
    pub fn init<F: Fn(PackRequest) -> Result<(), ToolError>>(
        opt: MetadataOptional,
        root: &str,
        now: u64,
        pack: &F,
    ) -> (r: Result<Metadata, MetadataError>)
        requires
            forall|req: PackRequest| #[trigger] call_requires(*pack, (req,)),
        ensures
            r matches Ok(m) ==> {
                &&& init_rel(opt@, m@.id, now, m@)
                &&& (opt@.id matches Some(i) ==> m@.id == i)
                &&& (opt@.id is None ==> m@.id.len() == 36)
            },
            !opt@.flag_create_archive ==> r is Ok,
            r matches Err(e) ==> {
                &&& opt@.flag_create_archive
                &&& (e is MapConversionError || e is FileSystemError)
                &&& (opt@.archive_info matches Some(ai) && ai is ArchiveFile)
            },
    {
        let mut opt = opt;
        let id_field = opt.id;
        opt.id = None;
        let id: String = match id_field {
            Some(i) => i,
            None => fresh_id(),
        };
        let base = Metadata {
            id: id,
            title: String::new(),
            alias: Vec::new(),
            tags: Vec::new(),
            content_type: ContentType::Other,
            platform: DistributionPlatform::Unknown,
            description: None,
            developer: None,
            publisher: None,
            version: "1.0.0".to_owned(),
            archive_info: ArchiveInfo::Unset,
            archive_size: 0,
            deploy_info: DeployInfo::Unset,
            time_created: now,
            time_updated: now,
        };
        proof {
            assert(base@.alias =~= Seq::<Seq<char>>::empty());
            assert(base@.tags =~= Seq::<Seq<char>>::empty());
            assert(base@ == default_record(base@.id, now));
        }
        base.apply_payload(opt, root, now, pack)
    }

    /// Patches this record with a payload: field-wise merge and the archive
    /// step as in creation, and then — whatever the payload said — the
    /// update time advances strictly past its previous value (unless
    /// already at the maximum stamp).
    pub fn patch<F: Fn(PackRequest) -> Result<(), ToolError>>(
        self,
        opt: MetadataOptional,
        root: &str,
        now: u64,
        pack: &F,
    ) -> (r: Result<Metadata, MetadataError>)
        requires
            forall|req: PackRequest| #[trigger] call_requires(*pack, (req,)),
        ensures
            r matches Ok(m) ==> {
                &&& patch_rel(self@, opt@, now, m@)
                &&& (m@.time_updated > self@.time_updated || self@.time_updated == u64::MAX)
            },
            !opt@.flag_create_archive ==> r is Ok,
            r matches Err(e) ==> {
                &&& opt@.flag_create_archive
                &&& (e is MapConversionError || e is FileSystemError)
                &&& (opt@.archive_info matches Some(ai) && ai is ArchiveFile)
            },
    {
        let t0 = self.time_updated;
        match self.apply_payload(opt, root, now, pack) {
            Ok(mut m) => {
                m.time_updated = advance_exec(t0, now);
                Ok(m)
            },
            Err(e) => Err(e),
        }
    }
}

} // verus!
