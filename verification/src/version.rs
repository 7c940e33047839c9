//! Crate metadata.

use vstd::prelude::*;
use vstd::string::StringExecFns;

verus! {

/// The crate's name.
pub open spec fn name_text() -> Seq<char> {
    "alumy"@
}

/// The crate's version.
pub open spec fn version_text() -> Seq<char> {
    "0.1.0"@
}

/// Returns the current version of the crate.
pub fn version() -> (r: &'static str)
    ensures
        r@ == version_text(),
{
    "0.1.0"
}

/// Returns the name of the crate.
pub fn name() -> (r: &'static str)
    ensures
        r@ == name_text(),
{
    "alumy"
}

/// Returns a greeting that holds the crate's name and version.
pub fn hello() -> (r: String)
    ensures
        r@ == "Hello from "@ + name_text() + " "@ + version_text(),
{
    let mut out = String::from_str("Hello from ");
    out.append(name());
    out.append(" ");
    out.append(version());
    out
}

} // verus!
