//! Trusted boundary to the filesystem and to identifier generation.
//!
//! Every function here wraps one outside call whose outcome depends on the
//! state of the disk (or on randomness), so the contracts state only what
//! holds of every outcome; the verified logic takes the results as inputs
//! and is proved for every value of them.

use vstd::prelude::*;

verus! {

/// Relies on `std::path::Path::exists`: whether the path names anything on
/// disk. The answer depends on the disk, so nothing is promised of it.
#[verifier::external_body]
pub(crate) fn path_exists(p: &str) -> bool {
    std::path::Path::new(p).exists()
}

/// Relies on `std::path::Path::is_dir`: whether the path names an existing
/// directory.
#[verifier::external_body]
pub(crate) fn path_is_dir(p: &str) -> bool {
    std::path::Path::new(p).is_dir()
}

/// Relies on `fs_extra::dir::get_dir_content2` with depth one: returns the
/// directory paths (the listed directory itself first, then its immediate
/// subdirectories) and the immediate file paths.
#[verifier::external_body]
pub(crate) fn list_dir(p: &str) -> (r: Result<(Vec<String>, Vec<String>), String>) {
    let mut options = fs_extra::dir::DirOptions::new();
    options.depth = 1;
    match fs_extra::dir::get_dir_content2(p, &options) {
        Ok(c) => Ok((c.directories, c.files)),
        Err(e) => Err(format!("{e}")),
    }
}

/// Relies on `fs_extra::file::copy` with overwrite: copies the source file
/// to the destination path, leaving the source in place.
#[verifier::external_body]
pub(crate) fn copy_file(src: &str, dst: &str) -> (r: Result<(), String>) {
    let options = fs_extra::file::CopyOptions::new().overwrite(true);
    match fs_extra::file::copy(src, dst, &options) {
        Ok(_) => Ok(()),
        Err(e) => Err(format!("{e}")),
    }
}

/// Relies on `fs_extra::dir::copy` with `content_only` and overwrite:
/// recursively copies the contents of the source directory into the
/// destination directory, leaving the source in place.
#[verifier::external_body]
pub(crate) fn copy_dir_contents(src: &str, dst: &str) -> (r: Result<(), String>) {
    let options = fs_extra::dir::CopyOptions::new().content_only(true).overwrite(true);
    match fs_extra::dir::copy(src, dst, &options) {
        Ok(_) => Ok(()),
        Err(e) => Err(format!("{e}")),
    }
}

/// Relies on `fs_extra::file::remove`: removes the file if it exists.
#[verifier::external_body]
pub(crate) fn remove_file_at(p: &str) -> (r: Result<(), String>) {
    match fs_extra::file::remove(p) {
        Ok(()) => Ok(()),
        Err(e) => Err(format!("{e}")),
    }
}

/// Relies on `fs_extra::dir::remove`: removes the directory and everything
/// under it.
#[verifier::external_body]
pub(crate) fn remove_dir_all_at(p: &str) -> (r: Result<(), String>) {
    match fs_extra::dir::remove(p) {
        Ok(()) => Ok(()),
        Err(e) => Err(format!("{e}")),
    }
}

/// Relies on `fs_extra::dir::create_all`: creates the directory and any
/// missing parents; succeeds when it already exists.
#[verifier::external_body]
pub(crate) fn create_dir_all_at(p: &str) -> (r: Result<(), String>) {
    match fs_extra::dir::create_all(p, false) {
        Ok(()) => Ok(()),
        Err(e) => Err(format!("{e}")),
    }
}

/// Relies on `fs_extra::dir::get_size`: the size of a file in bytes, or the
/// recursive sum of file sizes under a directory.
#[verifier::external_body]
pub(crate) fn fs_size_of(p: &str) -> (r: Result<u64, String>) {
    match fs_extra::dir::get_size(p) {
        Ok(n) => Ok(n),
        Err(e) => Err(format!("{e}")),
    }
}

/// Relies on `std::path::Path::canonicalize`: the absolute, symlink-free
/// form of an existing path, where the platform can render it as text.
#[verifier::external_body]
pub(crate) fn canonicalize_path(p: &str) -> (r: Option<String>) {
    match std::path::Path::new(p).canonicalize() {
        Ok(abs) => match abs.to_str() {
            Some(s) => Some(s.to_owned()),
            None => None,
        },
        Err(_) => None,
    }
}

/// Relies on `uuid::Uuid::new_v4` and its `Display` form: a freshly drawn
/// random identifier rendered as the 36-character hyphenated form. The
/// value is random, so only its length is promised.
#[verifier::external_body]
pub(crate) fn fresh_id() -> (r: String)
    ensures
        r@.len() == 36,
{
    uuid::Uuid::new_v4().to_string()
}

} // verus!
