//! The record data model: a metadata record describing one owned title,
//! the tagged variants for where its packaged content lives (`ArchiveInfo`)
//! and where it is currently extracted (`DeployInfo`), the partial-update
//! payload (`MetadataOptional`), and the record-level error type.
//!
//! Every type carries a mathematical view; contracts speak of views.

use vstd::prelude::*;

verus! {

/// The kind of content a record describes.
#[derive(Clone, Copy, Debug, PartialEq, Eq, Structural)]
pub enum ContentType {
    Other,
    Game,
    Novel,
    Comic,
    Anime,
    Music,
    Movie,
    Software,
}

/// The distribution platform a title was obtained from.
#[derive(Clone, Debug, PartialEq, Eq)]
pub enum DistributionPlatform {
    Unknown,
    Steam { id: String },
    DLSite { id: String },
    Other { name: String, id: Option<String> },
}

/// The view of a `DistributionPlatform`: the same shape over character
/// sequences.
pub enum PlatformView {
    Unknown,
    Steam { id: Seq<char> },
    DLSite { id: Seq<char> },
    Other { name: Seq<char>, id: Option<Seq<char>> },
}

impl View for DistributionPlatform {
    type V = PlatformView;

    open spec fn view(&self) -> PlatformView {
        match self {
            DistributionPlatform::Unknown => PlatformView::Unknown,
            DistributionPlatform::Steam { id } => PlatformView::Steam { id: id@ },
            DistributionPlatform::DLSite { id } => PlatformView::DLSite { id: id@ },
            DistributionPlatform::Other { name, id } => PlatformView::Other {
                name: name@,
                id: id.deep_view(),
            },
        }
    }
}

impl DeepView for DistributionPlatform {
    type V = PlatformView;

    open spec fn deep_view(&self) -> PlatformView {
        self.view()
    }
}

/// Where a title's packaged or source content currently resides. The path
/// is a weak reference to the filesystem: it is existence-checked on every
/// use, and a stale one is corrected to `Unset` by resolution.
#[derive(Clone, Debug, PartialEq, Eq)]
pub enum ArchiveInfo {
    Unset,
    ArchiveFile { path: String, password: Option<String> },
    CommonFile { path: String },
    Directory { path: String },
}

/// The view of an `ArchiveInfo`.
pub enum ArchiveInfoView {
    Unset,
    ArchiveFile { path: Seq<char>, password: Option<Seq<char>> },
    CommonFile { path: Seq<char> },
    Directory { path: Seq<char> },
}

impl View for ArchiveInfo {
    type V = ArchiveInfoView;

    open spec fn view(&self) -> ArchiveInfoView {
        match self {
            ArchiveInfo::Unset => ArchiveInfoView::Unset,
            ArchiveInfo::ArchiveFile { path, password } => ArchiveInfoView::ArchiveFile {
                path: path@,
                password: password.deep_view(),
            },
            ArchiveInfo::CommonFile { path } => ArchiveInfoView::CommonFile { path: path@ },
            ArchiveInfo::Directory { path } => ArchiveInfoView::Directory { path: path@ },
        }
    }
}

impl DeepView for ArchiveInfo {
    type V = ArchiveInfoView;

    open spec fn deep_view(&self) -> ArchiveInfoView {
        self.view()
    }
}

/// Where a title's content is currently extracted and active, if anywhere.
/// Like `ArchiveInfo`, a weak reference: revalidated on every use.
#[derive(Clone, Debug, PartialEq, Eq)]
pub enum DeployInfo {
    Unset,
    Directory { path: String },
    File { path: String },
}

/// The view of a `DeployInfo`.
pub enum DeployInfoView {
    Unset,
    Directory { path: Seq<char> },
    File { path: Seq<char> },
}

impl View for DeployInfo {
    type V = DeployInfoView;

    open spec fn view(&self) -> DeployInfoView {
        match self {
            DeployInfo::Unset => DeployInfoView::Unset,
            DeployInfo::Directory { path } => DeployInfoView::Directory { path: path@ },
            DeployInfo::File { path } => DeployInfoView::File { path: path@ },
        }
    }
}

impl DeepView for DeployInfo {
    type V = DeployInfoView;

    open spec fn deep_view(&self) -> DeployInfoView {
        self.view()
    }
}

/// One library entry: a title together with its archive and deployment
/// state. Times are milliseconds. Under the library's own operations the
/// update stamp starts equal to the creation stamp and advances on every
/// successful mutation; since the partial-update payload mirrors every
/// field, a payload carrying explicit stamps can set either one directly,
/// so the ordering of the two stamps is a property of how a record is
/// driven, not an invariant of the type.
#[derive(Clone, Debug, PartialEq)]
pub struct Metadata {
    pub id: String,
    pub title: String,
    pub alias: Vec<String>,
    pub tags: Vec<String>,
    pub content_type: ContentType,
    pub platform: DistributionPlatform,
    pub description: Option<String>,
    pub developer: Option<String>,
    pub publisher: Option<String>,
    pub version: String,
    pub archive_info: ArchiveInfo,
    pub archive_size: u64,
    pub deploy_info: DeployInfo,
    pub time_created: u64,
    pub time_updated: u64,
}

/// The view of a `Metadata` record: every field as a mathematical value.
pub struct MetaView {
    pub id: Seq<char>,
    pub title: Seq<char>,
    pub alias: Seq<Seq<char>>,
    pub tags: Seq<Seq<char>>,
    pub content_type: ContentType,
    pub platform: PlatformView,
    pub description: Option<Seq<char>>,
    pub developer: Option<Seq<char>>,
    pub publisher: Option<Seq<char>>,
    pub version: Seq<char>,
    pub archive_info: ArchiveInfoView,
    pub archive_size: u64,
    pub deploy_info: DeployInfoView,
    pub time_created: u64,
    pub time_updated: u64,
}

impl View for Metadata {
    type V = MetaView;

    open spec fn view(&self) -> MetaView {
        MetaView {
            id: self.id@,
            title: self.title@,
            alias: self.alias.deep_view(),
            tags: self.tags.deep_view(),
            content_type: self.content_type,
            platform: self.platform@,
            description: self.description.deep_view(),
            developer: self.developer.deep_view(),
            publisher: self.publisher.deep_view(),
            version: self.version@,
            archive_info: self.archive_info@,
            archive_size: self.archive_size,
            deploy_info: self.deploy_info@,
            time_created: self.time_created,
            time_updated: self.time_updated,
        }
    }
}

impl DeepView for Metadata {
    type V = MetaView;

    open spec fn deep_view(&self) -> MetaView {
        self.view()
    }
}

/// A partial-update payload: every record field as an optional value, plus
/// a one-shot flag requesting archive creation from the supplied
/// `archive_info`. Absent fields leave the stored value unchanged.
#[derive(Clone, Debug, PartialEq)]
pub struct MetadataOptional {
    pub id: Option<String>,
    pub title: Option<String>,
    pub alias: Option<Vec<String>>,
    pub tags: Option<Vec<String>>,
    pub content_type: Option<ContentType>,
    pub platform: Option<DistributionPlatform>,
    pub description: Option<String>,
    pub developer: Option<String>,
    pub publisher: Option<String>,
    pub version: Option<String>,
    pub archive_info: Option<ArchiveInfo>,
    pub archive_size: Option<u64>,
    pub deploy_info: Option<DeployInfo>,
    pub time_created: Option<u64>,
    pub time_updated: Option<u64>,
    pub flag_create_archive: bool,
}

/// The view of a `MetadataOptional`.
pub struct OptView {
    pub id: Option<Seq<char>>,
    pub title: Option<Seq<char>>,
    pub alias: Option<Seq<Seq<char>>>,
    pub tags: Option<Seq<Seq<char>>>,
    pub content_type: Option<ContentType>,
    pub platform: Option<PlatformView>,
    pub description: Option<Seq<char>>,
    pub developer: Option<Seq<char>>,
    pub publisher: Option<Seq<char>>,
    pub version: Option<Seq<char>>,
    pub archive_info: Option<ArchiveInfoView>,
    pub archive_size: Option<u64>,
    pub deploy_info: Option<DeployInfoView>,
    pub time_created: Option<u64>,
    pub time_updated: Option<u64>,
    pub flag_create_archive: bool,
}

impl View for MetadataOptional {
    type V = OptView;

    open spec fn view(&self) -> OptView {
        OptView {
            id: self.id.deep_view(),
            title: self.title.deep_view(),
            alias: match self.alias {
                Some(ref v) => Some(v.deep_view()),
                None => None,
            },
            tags: match self.tags {
                Some(ref v) => Some(v.deep_view()),
                None => None,
            },
            content_type: self.content_type,
            platform: match self.platform {
                Some(ref p) => Some(p@),
                None => None,
            },
            description: self.description.deep_view(),
            developer: self.developer.deep_view(),
            publisher: self.publisher.deep_view(),
            version: self.version.deep_view(),
            archive_info: match self.archive_info {
                Some(ref a) => Some(a@),
                None => None,
            },
            archive_size: self.archive_size,
            deploy_info: match self.deploy_info {
                Some(ref d) => Some(d@),
                None => None,
            },
            time_created: self.time_created,
            time_updated: self.time_updated,
            flag_create_archive: self.flag_create_archive,
        }
    }
}

impl MetadataOptional {
    /// A payload with every field absent and the archive flag off.
    pub fn empty() -> (r: MetadataOptional)
        ensures
            r@.id is None,
            r@.title is None,
            r@.alias is None,
            r@.tags is None,
            r@.content_type is None,
            r@.platform is None,
            r@.description is None,
            r@.developer is None,
            r@.publisher is None,
            r@.version is None,
            r@.archive_info is None,
            r@.archive_size is None,
            r@.deploy_info is None,
            r@.time_created is None,
            r@.time_updated is None,
            !r@.flag_create_archive,
    {
        MetadataOptional {
            id: None,
            title: None,
            alias: None,
            tags: None,
            content_type: None,
            platform: None,
            description: None,
            developer: None,
            publisher: None,
            version: None,
            archive_info: None,
            archive_size: None,
            deploy_info: None,
            time_created: None,
            time_updated: None,
            flag_create_archive: false,
        }
    }
}

/// A record-level failure.
#[derive(Debug)]
pub enum MetadataError {
    /// A creation or patch payload could not be turned into a complete
    /// record.
    MapConversionError,
    /// A filesystem operation failed; carries its diagnostic text.
    FileSystemError(String),
    /// The deploy target is missing, not a directory, or not empty where
    /// emptiness is required; carries the offending path.
    TargetPathError(String),
    /// A deploy or deploy-off was attempted against an `Unset` field.
    InvalidDeployOperation,
    /// The external archiving tool is not available.
    ToolNotFound,
    /// The external archiving tool ran and failed; carries its diagnostic
    /// output.
    ToolFailure(String),
}

impl MetadataError {
    /// A short description of the failure.
    pub fn message(&self) -> (r: String)
        ensures
            self is MapConversionError ==> r@ == "failed to map payload values into a record"@,
            self is InvalidDeployOperation ==> r@ == "deploy related info is missing or invalid"@,
            self is ToolNotFound ==> r@ == "archiving tool not found"@,
    {
        match self {
            MetadataError::MapConversionError => "failed to map payload values into a record"
                .to_owned(),
            MetadataError::FileSystemError(s) => "filesystem operation failed: ".to_owned().concat(
                s.as_str(),
            ),
            MetadataError::TargetPathError(s) => "target path is not a valid directory: "
                .to_owned().concat(s.as_str()),
            MetadataError::InvalidDeployOperation => "deploy related info is missing or invalid"
                .to_owned(),
            MetadataError::ToolNotFound => "archiving tool not found".to_owned(),
            MetadataError::ToolFailure(s) => "archiving tool failed: ".to_owned().concat(
                s.as_str(),
            ),
        }
    }
}

} // verus!
