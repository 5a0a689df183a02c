//! Where the application is installed.
use vstd::prelude::*;

verus! {

/// The folder that holds the application's data files.
pub const PKGDATADIR: &'static str = "/app/share/packet";

} // verus!
