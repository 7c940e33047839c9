//! Where the application keeps its files.

use vstd::prelude::*;
use vstd::string::StringExecFns;
use crate::version::name_text;

verus! {

/// The path `dir/name/name` followed by `suffix`.
pub open spec fn path_text(dir: Seq<char>, name: Seq<char>, suffix: Seq<char>) -> Seq<char> {
    dir + "/"@ + name + "/"@ + name + suffix
}

/// Builds the path `dir/name/name` followed by `suffix`: the file of an
/// application in the directory that bears its name.
pub fn build_path(dir: &str, name: &str, suffix: &str) -> (r: String)
    ensures
        r@ == path_text(dir@, name@, suffix@),
{
    let mut out = String::from_str(dir);
    out.append("/");
    out.append(name);
    out.append("/");
    out.append(name);
    out.append(suffix);
    out
}

/// Returns the configuration file path for the application.
pub fn config_file() -> (r: &'static str)
    ensures
        r@ == path_text("/etc"@, name_text(), ".conf"@),
{
    proof {
        reveal_strlit("/etc/alumy/alumy.conf");
        reveal_strlit("/etc");
        reveal_strlit("/");
        reveal_strlit("alumy");
        reveal_strlit(".conf");
    }
    assert("/etc/alumy/alumy.conf"@ =~= path_text("/etc"@, name_text(), ".conf"@));
    "/etc/alumy/alumy.conf"
}

/// Returns the log file path for the application.
pub fn log_file() -> (r: &'static str)
    ensures
        r@ == path_text("/var/log"@, name_text(), ".log"@),
{
    proof {
        reveal_strlit("/var/log/alumy/alumy.log");
        reveal_strlit("/var/log");
        reveal_strlit("/");
        reveal_strlit("alumy");
        reveal_strlit(".log");
    }
    assert("/var/log/alumy/alumy.log"@ =~= path_text("/var/log"@, name_text(), ".log"@));
    "/var/log/alumy/alumy.log"
}

} // verus!
