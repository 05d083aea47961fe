//! The editor's bridge to a language-analysis server: positions and ranges,
//! diagnostics, the messages exchanged with the user interface, and the state
//! machines that decide what is sent to the server and when.

use vstd::prelude::*;
use vstd::string::StringExecFns;

pub mod client;
pub mod connect;
pub mod diagnostics;
pub mod document;
pub mod error;
pub mod file_selector;
pub mod fonts;
pub mod message;
pub mod rope;
pub mod sync;
pub mod text;

verus! {

/// The scheme that starts the URI of a file, with the two slashes that follow it.
pub const FILE_SCHEME: &'static str = "file://";

/// The URI of the file that lies at `absolute_path`: the scheme, then the
/// path as it is given.
pub fn file_path(absolute_path: &str) -> (uri: String)
    ensures
        uri@ == FILE_SCHEME@ + absolute_path@,
{
    let mut uri = String::from_str(FILE_SCHEME);
    uri.append(absolute_path);
    uri
}

} // verus!
