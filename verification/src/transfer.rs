//! The `Transfer` entity: one URL, its derived staging paths, and the
//! description of the installer invocation that follows a download.

use vstd::prelude::*;

use crate::error::TransferError;
use crate::paths::{
    derive_filename, filename_of, join_path, join_path_spec, staging_dir,
};
use crate::uri::{
    opt_string_view, parse_uri_components, uri_authority, uri_ok,
    uri_path_and_query, uri_scheme, UriParts,
};

verus! {

/// The one-shot object coordinating URL parsing, filename derivation and
/// staging-path resolution for a single URL.  It is immutable once built;
/// the surrounding application shell owns the HTTP client and performs
/// the download it describes.
pub struct Transfer {
    pub uri: UriParts,
    pub filename: String,
    pub temp_dir: String,
    pub file_path: String,
}

/// The external command a staged file is installed with: a program, its
/// arguments, and the working directory to run it in.
pub struct InstallCommand {
    pub program: String,
    pub args: Vec<String>,
    pub working_dir: String,
}

impl Transfer {
    /// Well-formedness: the URI carries a path-and-query, the filename is
    /// derived from it, and the file path is the filename joined onto the
    /// staging directory as a pure string identity.
    pub open spec fn wf(self) -> bool {
        &&& self.uri.path_and_query is Some
        &&& self.filename@ == filename_of(self.uri.path_and_query->0@)
        &&& self.file_path@ == join_path_spec(self.temp_dir@, self.filename@)
    }

    /// The components of `self` agree with what the parser reads from the
    /// input string `s`, and the staging directory sits under `temp_root`.
    pub open spec fn parsed_from(self, s: Seq<char>, temp_root: Seq<char>) -> bool {
        &&& uri_ok(s)
        &&& opt_string_view(self.uri.scheme) == uri_scheme(s)
        &&& opt_string_view(self.uri.authority) == uri_authority(s)
        &&& opt_string_view(self.uri.path_and_query) == uri_path_and_query(s)
        &&& self.temp_dir@ == join_path_spec(temp_root, "archeon"@)
    }

    /// Builds a Transfer from a URL string and the system temp root.
    /// Fails with `UriParse` exactly when the string does not parse as a
    /// URI or parses without a path-and-query portion.  The caller is
    /// expected to create the staging directory `temp_dir` on disk.
    pub fn init(uri: &str, temp_root: &str) -> (r: Result<Transfer, TransferError>)
        ensures
            r is Ok <==> uri_ok(uri@) && uri_path_and_query(uri@) is Some,
            r matches Ok(t) ==> t.wf() && t.parsed_from(uri@, temp_root@),
            r matches Err(e) ==> e == TransferError::UriParse,
    {
        let parts = match parse_uri_components(uri) {
            Some(p) => p,
            None => {
                return Err(TransferError::UriParse);
            },
        };
        let filename = match &parts.path_and_query {
            Some(pq) => Self::init_filename(pq.as_str()),
            None => {
                return Err(TransferError::UriParse);
            },
        };
        let temp_dir = Self::init_temp_dir(temp_root);
        let file_path = Self::init_file_path(temp_dir.as_str(), filename.as_str());
        Ok(Transfer { uri: parts, filename, temp_dir, file_path })
    }

    /// The filename for a path-and-query string: the substring after its
    /// final `/`, or the whole string when it contains no `/`.
    pub fn init_filename(pq: &str) -> (r: String)
        ensures
            r@ == filename_of(pq@),
    {
        derive_filename(pq)
    }

    /// Turns a derived filename into an owned path component, verbatim.
    pub fn init_create_path(filename: &str) -> (r: String)
        ensures
            r@ == filename@,
    {
        String::from_str(filename)
    }

    /// The staging directory under the given system temp root:
    /// `<temp_root>/archeon`.  The caller creates it on disk.
    pub fn init_temp_dir(temp_root: &str) -> (r: String)
        ensures
            r@ == join_path_spec(temp_root@, "archeon"@),
    {
        staging_dir(temp_root)
    }

    /// The full path of the staged file: the filename joined onto the
    /// staging directory.
    pub fn init_file_path(temp_dir: &str, filename: &str) -> (r: String)
        ensures
            r@ == join_path_spec(temp_dir@, filename@),
    {
        join_path(temp_dir, filename)
    }

    /// The installer invocation for the staged file: `dpkg --install
    /// <filename>` with the staging directory as working directory.  The
    /// caller spawns it after a completed download.
    pub fn install_command(&self) -> (r: InstallCommand)
        ensures
            r.program@ == "dpkg"@,
            r.args@.len() == 2,
            r.args@[0]@ == "--install"@,
            r.args@[1]@ == self.filename@,
            r.working_dir@ == self.temp_dir@,
    {
        InstallCommand {
            program: String::from_str("dpkg"),
            args: vec![String::from_str("--install"), self.filename.clone()],
            working_dir: self.temp_dir.clone(),
        }
    }
}

} // verus!
