//! Resolution of stored filesystem references and the deploy / deploy-off
//! transitions.
//!
//! Stored paths are weak references: every use re-checks existence, and a
//! stale reference is not an error but yields a corrective replacement —
//! the field is reset to unset, the operation reports a no-op, and the
//! caller persists the corrected record.

use vstd::prelude::*;
use crate::Whether;
use crate::types::{
    Metadata, MetadataError, MetaView, ArchiveInfo, ArchiveInfoView, DeployInfo, DeployInfoView,
};
use crate::archiver::{UnpackRequest, ToolError};
use crate::paths::{join_path, join_path_str, file_name_spec, file_name_of};
use crate::record::advance_time;
use crate::fsops::{
    path_exists, path_is_dir, list_dir, copy_file, copy_dir_contents, remove_file_at,
    remove_dir_all_at, fs_size_of,
};

verus! {

/// The stored path of a path-bearing archive reference.
pub open spec fn archive_path_of(a: ArchiveInfoView) -> Seq<char> {
    match a {
        ArchiveInfoView::Unset => Seq::<char>::empty(),
        ArchiveInfoView::ArchiveFile { path, .. } => path,
        ArchiveInfoView::CommonFile { path } => path,
        ArchiveInfoView::Directory { path } => path,
    }
}

/// The stored path of a path-bearing deploy reference.
pub open spec fn deploy_path_of(d: DeployInfoView) -> Seq<char> {
    match d {
        DeployInfoView::Unset => Seq::<char>::empty(),
        DeployInfoView::Directory { path } => path,
        DeployInfoView::File { path } => path,
    }
}

/// What a deploy that reports success did to the record: the deploy
/// reference points at the new content — a deployed file lands in the
/// target under its own name, an extracted archive or copied directory
/// claims the target itself — the update time advances, and everything
/// else is untouched.
pub open spec fn deployed_rel(
    b: MetaView,
    target: Seq<char>,
    root: Seq<char>,
    now: u64,
    m: MetaView,
) -> bool {
    &&& same_but_deploy_time(m, b)
    &&& m.time_updated == advance_time(b.time_updated, now)
    &&& (b.archive_info matches ArchiveInfoView::CommonFile { path } ==> m.deploy_info == (
    DeployInfoView::File { path: join_path(target, file_name_spec(join_path(root, path))) }))
    &&& (b.archive_info is ArchiveFile ==> m.deploy_info == (DeployInfoView::Directory {
        path: target,
    }))
    &&& (b.archive_info is Directory ==> m.deploy_info == (DeployInfoView::Directory {
        path: target,
    }))
    &&& !(b.archive_info is Unset)
}

/// The emptiness decision over a depth-one listing: no files, and no
/// directory entry besides the listed directory itself.
pub fn listing_is_empty(dirs: &Vec<String>, files: &Vec<String>) -> (r: bool)
    ensures
        r == (files@.len() == 0 && dirs@.len() <= 1),
{
    files.len() == 0 && dirs.len() <= 1
}

/// Whether the directory is empty: its listing, when it can be taken,
/// decides as `listing_is_empty` says. A missing path or a non-directory
/// is not an empty directory. Which arm is taken depends on the disk.
pub fn is_dir_empty(p: &str) -> bool {
    match list_dir(p) {
        Ok((dirs, files)) => listing_is_empty(&dirs, &files),
        Err(_) => false,
    }
}

/// The subdirectories to remove when clearing a directory: every listed
/// directory except the first entry, which is the cleared directory itself
/// and is kept.
pub fn subdirs_to_remove(dirs: Vec<String>) -> (r: Vec<String>)
    ensures
        dirs@.len() == 0 ==> r@.len() == 0,
        dirs@.len() > 0 ==> r.deep_view() == dirs.deep_view().skip(1),
{
    let mut out: Vec<String> = Vec::new();
    let mut j: usize = 1;
    while j < dirs.len()
        invariant
            1 <= j,
            dirs@.len() > 0 ==> j <= dirs@.len(),
            dirs@.len() > 0 ==> out.deep_view() =~= dirs.deep_view().subrange(1, j as int),
            dirs@.len() == 0 ==> out.deep_view().len() == 0,
        decreases dirs@.len() - j,
    {
        let ghost out0 = out.deep_view();
        out.push(dirs[j].clone());
        proof {
            assert(out.deep_view() =~= out0.push(dirs.deep_view()[j as int]));
            assert(out.deep_view() =~= dirs.deep_view().subrange(1, j as int + 1));
        }
        j = j + 1;
    }
    proof {
        if dirs@.len() > 0 {
            assert(out.deep_view() =~= dirs.deep_view().skip(1));
        }
    }
    out
}

/// Removes everything inside the directory while keeping the directory
/// itself: every listed file, and recursively every subdirectory that
/// `subdirs_to_remove` selects from the listing.
pub fn clear_dir_contents(p: &str) -> (r: Result<(), String>) {
    let (dirs, files) = match list_dir(p) {
        Ok(pair) => pair,
        Err(e) => {
            return Err(e);
        },
    };
    let mut i: usize = 0;
    while i < files.len()
        decreases files.len() - i,
    {
        if let Err(e) = remove_file_at(files[i].as_str()) {
            return Err(e);
        }
        i = i + 1;
    }
    let doomed = subdirs_to_remove(dirs);
    let mut j: usize = 0;
    while j < doomed.len()
        decreases doomed.len() - j,
    {
        if let Err(e) = remove_dir_all_at(doomed[j].as_str()) {
            return Err(e);
        }
        j = j + 1;
    }
    Ok(())
}

impl ArchiveInfo {
    /// Resolves this archive reference against the content root: an unset
    /// reference never resolves; a path-bearing one resolves to its
    /// root-joined path when that path exists on disk, and otherwise yields
    /// the corrective unset replacement.
    pub fn try_resolve(&self, root: &str) -> (r: Whether<String, ArchiveInfo>)
        ensures
            self@ is Unset ==> (r matches Whether::That(u) && u@ is Unset),
            r matches Whether::This(p) ==> {
                &&& !(self@ is Unset)
                &&& p@ == join_path(root@, archive_path_of(self@))
            },
            r matches Whether::That(u) ==> u@ is Unset,
    {
        match self {
            ArchiveInfo::Unset => Whether::That(ArchiveInfo::Unset),
            ArchiveInfo::ArchiveFile { path, .. } => {
                let abs = join_path_str(root, path.as_str());
                if path_exists(abs.as_str()) {
                    Whether::This(abs)
                } else {
                    Whether::That(ArchiveInfo::Unset)
                }
            },
            ArchiveInfo::CommonFile { path } => {
                let abs = join_path_str(root, path.as_str());
                if path_exists(abs.as_str()) {
                    Whether::This(abs)
                } else {
                    Whether::That(ArchiveInfo::Unset)
                }
            },
            ArchiveInfo::Directory { path } => {
                let abs = join_path_str(root, path.as_str());
                if path_exists(abs.as_str()) {
                    Whether::This(abs)
                } else {
                    Whether::That(ArchiveInfo::Unset)
                }
            },
        }
    }

    /// The size of the referenced content: zero for an unset or unresolved
    /// reference, the file size or recursive directory size otherwise.
    pub fn calculate_size(&self, root: &str) -> (r: u64)
        ensures
            self@ is Unset ==> r == 0,
    {
        match self.try_resolve(root) {
            Whether::This(p) => match fs_size_of(p.as_str()) {
                Ok(n) => n,
                Err(_) => 0,
            },
            Whether::That(_) => 0,
        }
    }
}

impl DeployInfo {
    /// Resolves this deploy reference against the content root, exactly as
    /// the archive reference resolves.
    pub fn try_resolve(&self, root: &str) -> (r: Whether<String, DeployInfo>)
        ensures
            self@ is Unset ==> (r matches Whether::That(u) && u@ is Unset),
            r matches Whether::This(p) ==> {
                &&& !(self@ is Unset)
                &&& p@ == join_path(root@, deploy_path_of(self@))
            },
            r matches Whether::That(u) ==> u@ is Unset,
    {
        match self {
            DeployInfo::Unset => Whether::That(DeployInfo::Unset),
            DeployInfo::File { path } => {
                let abs = join_path_str(root, path.as_str());
                if path_exists(abs.as_str()) {
                    Whether::This(abs)
                } else {
                    Whether::That(DeployInfo::Unset)
                }
            },
            DeployInfo::Directory { path } => {
                let abs = join_path_str(root, path.as_str());
                if path_exists(abs.as_str()) {
                    Whether::This(abs)
                } else {
                    Whether::That(DeployInfo::Unset)
                }
            },
        }
    }
}

impl Metadata {
    /// Deploys this record's content into the target directory.
    ///
    /// The target must exist and be a directory, else the call fails with
    /// a target-path error and the record is untouched. A stale or unset
    /// archive reference demotes the field and reports a no-op. A single
    /// file is copied into the target under its own name; an archive is
    /// extracted and a directory copied into the target, both only when the
    /// target is empty. On success the deploy reference points at the new
    /// content and the update time advances; on any error the record is
    /// exactly as it was.
    pub fn deploy<F: Fn(UnpackRequest) -> Result<(), ToolError>>(
        &mut self,
        target: &str,
        root: &str,
        now: u64,
        unpack: &F,
    ) -> (r: Result<bool, MetadataError>)
        requires
            forall|req: UnpackRequest| #[trigger] call_requires(*unpack, (req,)),
        ensures
            r matches Err(_) ==> final(self)@ == old(self)@,
            r == Ok::<bool, MetadataError>(false) ==> final(self)@ == (MetaView {
                archive_info: ArchiveInfoView::Unset,
                ..old(self)@
            }),
            old(self)@.archive_info is Unset ==> (r == Ok::<bool, MetadataError>(false) || (
            r matches Err(e) && e is TargetPathError)),
            r == Ok::<bool, MetadataError>(true) ==> deployed_rel(
                old(self)@,
                target@,
                root@,
                now,
                final(self)@,
            ),
    {
        if !path_exists(target) || !path_is_dir(target) {
            return Err(MetadataError::TargetPathError(target.to_owned()));
        }
        match self.archive_info.try_resolve(root) {
            Whether::That(update) => {
                self.archive_info = update;
                Ok(false)
            },
            Whether::This(source_abs) => {
                match &self.archive_info {
                    ArchiveInfo::CommonFile { .. } => {
                        let fname = file_name_of(source_abs.as_str());
                        let dest = join_path_str(target, fname.as_str());
                        match copy_file(source_abs.as_str(), dest.as_str()) {
                            Ok(()) => {
                                self.deploy_info = DeployInfo::File { path: dest };
                                self.time_updated = crate::record::advance_exec(
                                    self.time_updated,
                                    now,
                                );
                                Ok(true)
                            },
                            Err(e) => Err(MetadataError::FileSystemError(e)),
                        }
                    },
                    ArchiveInfo::ArchiveFile { password, .. } => {
                        if !is_dir_empty(target) {
                            return Err(MetadataError::TargetPathError(target.to_owned()));
                        }
                        let req = UnpackRequest {
                            archive: source_abs,
                            dest: target.to_owned(),
                            password: password.clone(),
                        };
                        match unpack(req) {
                            Ok(()) => {
                                self.deploy_info = DeployInfo::Directory {
                                    path: target.to_owned(),
                                };
                                self.time_updated = crate::record::advance_exec(
                                    self.time_updated,
                                    now,
                                );
                                Ok(true)
                            },
                            Err(ToolError::NotFound) => Err(MetadataError::ToolNotFound),
                            Err(ToolError::Failure(s)) => Err(MetadataError::ToolFailure(s)),
                        }
                    },
                    ArchiveInfo::Directory { .. } => {
                        if !is_dir_empty(target) {
                            return Err(MetadataError::TargetPathError(target.to_owned()));
                        }
                        match copy_dir_contents(source_abs.as_str(), target) {
                            Ok(()) => {
                                self.deploy_info = DeployInfo::Directory {
                                    path: target.to_owned(),
                                };
                                self.time_updated = crate::record::advance_exec(
                                    self.time_updated,
                                    now,
                                );
                                Ok(true)
                            },
                            Err(e) => Err(MetadataError::FileSystemError(e)),
                        }
                    },
                    ArchiveInfo::Unset => Err(MetadataError::InvalidDeployOperation),
                }
            },
        }
    }

    /// Withdraws this record's deployed content.
    ///
    /// An unset deploy reference is an invalid operation and leaves the
    /// record untouched. A stale reference demotes the field and reports a
    /// no-op. A deployed file is removed; a deployed directory has its
    /// contents removed while the directory itself remains. On success the
    /// deploy reference is unset and the update time advances; on any
    /// error the record is exactly as it was.
    pub fn deploy_off(&mut self, root: &str, now: u64) -> (r: Result<bool, MetadataError>)
        ensures
            r matches Err(_) ==> final(self)@ == old(self)@,
            old(self)@.deploy_info is Unset ==> (r matches Err(e) && e
                is InvalidDeployOperation),
            r == Ok::<bool, MetadataError>(false) ==> {
                &&& final(self)@ == (MetaView { deploy_info: DeployInfoView::Unset, ..old(self)@ })
                &&& !(old(self)@.deploy_info is Unset)
            },
            r == Ok::<bool, MetadataError>(true) ==> {
                &&& final(self)@ == (MetaView {
                    deploy_info: DeployInfoView::Unset,
                    time_updated: advance_time(old(self)@.time_updated, now),
                    ..old(self)@
                })
                &&& !(old(self)@.deploy_info is Unset)
            },
    {
        if let DeployInfo::Unset = self.deploy_info {
            return Err(MetadataError::InvalidDeployOperation);
        }
        match self.deploy_info.try_resolve(root) {
            Whether::That(update) => {
                self.deploy_info = update;
                Ok(false)
            },
            Whether::This(path) => {
                match &self.deploy_info {
                    DeployInfo::Unset => Err(MetadataError::InvalidDeployOperation),
                    DeployInfo::File { .. } => {
                        match remove_file_at(path.as_str()) {
                            Ok(()) => {
                                self.deploy_info = DeployInfo::Unset;
                                self.time_updated = crate::record::advance_exec(
                                    self.time_updated,
                                    now,
                                );
                                Ok(true)
                            },
                            Err(e) => Err(MetadataError::FileSystemError(e)),
                        }
                    },
                    DeployInfo::Directory { .. } => {
                        match clear_dir_contents(path.as_str()) {
                            Ok(()) => {
                                self.deploy_info = DeployInfo::Unset;
                                self.time_updated = crate::record::advance_exec(
                                    self.time_updated,
                                    now,
                                );
                                Ok(true)
                            },
                            Err(e) => Err(MetadataError::FileSystemError(e)),
                        }
                    },
                }
            },
        }
    }
}

/// Equality on every field except the deploy reference and the update time.
pub open spec fn same_but_deploy_time(m: MetaView, c: MetaView) -> bool {
    &&& m.id == c.id
    &&& m.title == c.title
    &&& m.alias == c.alias
    &&& m.tags == c.tags
    &&& m.content_type == c.content_type
    &&& m.platform == c.platform
    &&& m.description == c.description
    &&& m.developer == c.developer
    &&& m.publisher == c.publisher
    &&& m.version == c.version
    &&& m.archive_info == c.archive_info
    &&& m.archive_size == c.archive_size
    &&& m.time_created == c.time_created
}

} // verus!
