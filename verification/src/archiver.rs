//! The archiving engine's decision surface: requests handed to the external
//! archiving tool, the tool's failure modes, and the exact command-line
//! arguments for packing and extracting. Running the tool is outside work;
//! everything it is told to do is computed and specified here.

use vstd::prelude::*;
use crate::text::{dec_digits, u64_to_dec};

verus! {

/// A request to package a source file or directory into an archive.
pub struct PackRequest {
    pub source: String,
    pub dest: String,
    pub password: Option<String>,
    pub level: Option<u32>,
}

/// A request to extract an archive into a directory, overwriting.
pub struct UnpackRequest {
    pub archive: String,
    pub dest: String,
    pub password: Option<String>,
}

/// How a run of the external archiving tool failed.
pub enum ToolError {
    /// The tool is not installed or not on the search path.
    NotFound,
    /// The tool exited unsuccessfully; carries its diagnostic output.
    Failure(String),
}

/// The compression level actually used: the requested level clamped into
/// zero to nine, nine when none was requested.
pub open spec fn clamped_level(level: Option<u32>) -> u32 {
    match level {
        Some(l) => if l <= 9 {
            l
        } else {
            9
        },
        None => 9,
    }
}

/// The argument list for packing: add to an archive at the destination,
/// at the clamped compression level, everything in the tool's working
/// directory, with header-and-content encryption when a password is given.
pub open spec fn pack_args_spec(req: PackRequest) -> Seq<Seq<char>> {
    let head = seq!["a"@, "-mx="@ + dec_digits(clamped_level(req.level) as nat)];
    let with_pw = match req.password {
        Some(pw) => head + seq!["-p"@ + pw@, "-mhe=on"@],
        None => head,
    };
    with_pw + seq![req.dest@, "*"@]
}

/// The argument list for extracting: extract the archive into the
/// destination directory, overwriting without prompting, with the password
/// when one is given.
pub open spec fn unpack_args_spec(req: UnpackRequest) -> Seq<Seq<char>> {
    let head = seq!["x"@, req.archive@, "-o"@ + req.dest@, "-aoa"@];
    match req.password {
        Some(pw) => head + seq!["-p"@ + pw@],
        None => head,
    }
}

/// Builds the packing argument list, exactly as `pack_args_spec` states.
pub fn pack_args(req: &PackRequest) -> (r: Vec<String>)
    ensures
        r.deep_view() == pack_args_spec(*req),
{
    let mut args: Vec<String> = Vec::new();
    args.push("a".to_owned());
    let level: u32 = match req.level {
        Some(l) => if l <= 9 {
            l
        } else {
            9
        },
        None => 9,
    };
    args.push("-mx=".to_owned().concat(u64_to_dec(level as u64).as_str()));
    match &req.password {
        Some(pw) => {
            args.push("-p".to_owned().concat(pw.as_str()));
            args.push("-mhe=on".to_owned());
        },
        None => {},
    }
    args.push(req.dest.clone());
    args.push("*".to_owned());
    assert(args.deep_view() =~= pack_args_spec(*req));
    args
}

/// Builds the extraction argument list, exactly as `unpack_args_spec`
/// states.
pub fn unpack_args(req: &UnpackRequest) -> (r: Vec<String>)
    ensures
        r.deep_view() == unpack_args_spec(*req),
{
    let mut args: Vec<String> = Vec::new();
    args.push("x".to_owned());
    args.push(req.archive.clone());
    args.push("-o".to_owned().concat(req.dest.as_str()));
    args.push("-aoa".to_owned());
    match &req.password {
        Some(pw) => {
            args.push("-p".to_owned().concat(pw.as_str()));
        },
        None => {},
    }
    assert(args.deep_view() =~= unpack_args_spec(*req));
    args
}

} // verus!
