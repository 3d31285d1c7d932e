//! Path strings and their resolution against the configured content root.
//!
//! Stored paths are plain strings. An absolute path (one starting with the
//! separator) passes through resolution unchanged; a relative path is joined
//! onto the root. The model works on the character sequence alone; whether
//! the named file exists is a separate, filesystem-dependent question.

use vstd::prelude::*;
use vstd::string::StrSliceExecFns;
use crate::text::push_char;

verus! {

/// Whether a path string is absolute: it starts with the separator.
pub open spec fn is_abs(p: Seq<char>) -> bool {
    p.len() > 0 && p[0] == '/'
}

/// The join of a root and a path: an absolute path passes through; a
/// relative one is appended to the root, with a separator unless the root
/// already ends in one. An empty root leaves the path unchanged.
pub open spec fn join_path(root: Seq<char>, p: Seq<char>) -> Seq<char> {
    if is_abs(p) || root.len() == 0 {
        p
    } else if root[root.len() - 1] == '/' {
        root + p
    } else {
        root + seq!['/'] + p
    }
}

/// The part of a path after its last separator; empty when the path ends
/// in a separator.
pub open spec fn file_name_spec(p: Seq<char>) -> Seq<char>
    decreases p.len(),
{
    if p.len() == 0 {
        Seq::<char>::empty()
    } else if p[p.len() - 1] == '/' {
        Seq::<char>::empty()
    } else {
        file_name_spec(p.drop_last()) + seq![p[p.len() - 1]]
    }
}

/// Whether a path string is absolute.
pub fn is_absolute_path(p: &str) -> (r: bool)
    ensures
        r == is_abs(p@),
{
    let n = p.unicode_len();
    n > 0 && p.get_char(0) == '/'
}

/// Joins a path onto a root as `join_path` describes.
pub fn join_path_str(root: &str, p: &str) -> (r: String)
    ensures
        r@ == join_path(root@, p@),
{
    if is_absolute_path(p) {
        p.to_owned()
    } else {
        let rn = root.unicode_len();
        if rn == 0 {
            p.to_owned()
        } else if root.get_char(rn - 1) == '/' {
            let out = root.to_owned().concat(p);
            assert(out@ =~= join_path(root@, p@));
            out
        } else {
            let mut out = root.to_owned();
            push_char(&mut out, '/');
            let out = out.concat(p);
            assert(out@ =~= join_path(root@, p@));
            out
        }
    }
}

/// The file name of a path, as `file_name_spec` describes.
pub fn file_name_of(p: &str) -> (r: String)
    ensures
        r@ == file_name_spec(p@),
    decreases p@.len(),
{
    let n = p.unicode_len();
    if n == 0 {
        String::new()
    } else {
        let last = p.get_char(n - 1);
        if last == '/' {
            String::new()
        } else {
            let head = p.substring_char(0, n - 1);
            assert(head@ =~= p@.drop_last());
            let mut r = file_name_of(head);
            push_char(&mut r, last);
            assert(r@ =~= file_name_spec(p@));
            r
        }
    }
}

/// The configuration as read from the application's config file: the raw
/// root directory, possibly relative.
pub struct ConfigRaw {
    pub root: String,
}

impl Default for ConfigRaw {
    /// The default configuration names the root directory `data`.
    fn default() -> (r: ConfigRaw)
        ensures
            r.root@ == "data"@,
    {
        ConfigRaw { root: "data".to_owned() }
    }
}

/// The resolved configuration: the content root under which all relative
/// stored paths are interpreted.
pub struct Config {
    pub root_path: String,
}

impl Config {
    /// Resolves a raw configuration against the application directory: an
    /// absolute raw root passes through, a relative one is joined onto the
    /// application directory.
    pub fn new(raw: &ConfigRaw, app_dir: &str) -> (c: Config)
        ensures
            c.root_path@ == join_path(app_dir@, raw.root@),
    {
        Config { root_path: join_path_str(app_dir, raw.root.as_str()) }
    }

    /// The configured content root.
    pub fn get_root(&self) -> (r: String)
        ensures
            r@ == self.root_path@,
    {
        self.root_path.clone()
    }

    /// The configured content root in absolute, symlink-free form, where
    /// the root exists on disk and the platform can render the result as
    /// text. The answer depends on the disk, so only presence or absence is
    /// observable here.
    pub fn get_root_absolute(&self) -> Option<String> {
        crate::fsops::canonicalize_path(self.root_path.as_str())
    }

    /// Resolves a stored path against the content root: absolute paths pass
    /// through, relative ones are joined onto the root.
    pub fn resolve_to_root(&self, path: &str) -> (r: String)
        ensures
            r@ == join_path(self.root_path@, path@),
    {
        join_path_str(self.root_path.as_str(), path)
    }
}

} // verus!
