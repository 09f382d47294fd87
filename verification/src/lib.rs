//! A small package-fetch-and-install library.
//!
//! Given an HTTP(S) URL pointing at a package file, the library parses the
//! URL, derives a local filename and a staging path under the well-known
//! directory `<temp root>/archeon`, and models the download pipeline
//! (HEAD probe for `Content-Length`, GET, write, progress watch) as a
//! state machine whose transitions are fully specified.  The surrounding
//! application shell performs the actual network and filesystem work and
//! drives the state machine with the outcomes it observes.

use vstd::prelude::*;

pub mod error;
pub mod launch;
pub mod paths;
pub mod transfer;
pub mod uri;

pub use error::TransferError;
pub use launch::{
    find_content_length, parse_u64, LaunchAction, LaunchEvent, LaunchPhase,
};
pub use paths::{derive_filename, join_path, staging_dir};
pub use transfer::{InstallCommand, Transfer};
pub use uri::UriParts;

use crate::uri::{uri_ok, uri_path_and_query};

verus! {

/// The top-level handle of the system.  Igniting it initializes a
/// Transfer for the given URL.
pub struct Archeon {
    pub ignited: bool,
}

impl Archeon {
    /// Builds the handle by initializing a Transfer against the given URL
    /// and temp root; fails exactly when that initialization fails.
    pub fn ignite(uri: &str, temp_root: &str) -> (r: Result<Archeon, TransferError>)
        ensures
            r is Ok <==> uri_ok(uri@) && uri_path_and_query(uri@) is Some,
            r matches Ok(a) ==> a.ignited,
            r matches Err(e) ==> e == TransferError::UriParse,
    {
        match Transfer::init(uri, temp_root) {
            Ok(_transfer) => Ok(Archeon { ignited: true }),
            Err(e) => Err(e),
        }
    }
}

} // verus!
