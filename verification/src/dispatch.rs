//! The hook's command surface: which operation an invocation selects, the
//! usage text an unrecognized operation earns, and the decision behind the
//! `configs` probe.

use vstd::prelude::*;
use vstd::string::StringExecFns;
use crate::command::path_join;

verus! {

/// The operations the hook recognizes; anything else is unknown.
#[derive(Clone, Copy, PartialEq, Eq, Structural, Debug)]
pub enum Operation {
    PostBuild,
    Configs,
    Unknown,
}

/// Which operation an operation word selects.
pub open spec fn dispatch_spec(op: Seq<char>) -> Operation {
    if op == "post_build"@ {
        Operation::PostBuild
    } else if op == "configs"@ {
        Operation::Configs
    } else {
        Operation::Unknown
    }
}

/// Selects the operation named by the invocation's operation word.
pub fn dispatch(op: &String) -> (r: Operation)
    ensures
        r == dispatch_spec(op@),
{
    let post_build = String::from_str("post_build");
    let configs_word = String::from_str("configs");
    if *op == post_build {
        Operation::PostBuild
    } else if *op == configs_word {
        Operation::Configs
    } else {
        Operation::Unknown
    }
}

/// The usage text for an unrecognized operation: it names the two
/// recognized operations and echoes what was asked for.
pub open spec fn usage_spec(op: Seq<char>) -> Seq<char> {
    "I only know how to do: \n"@ + "post_build"@ + "\n"@ + "configs"@ + "\n"@
        + "but you wanted me to do: "@ + op
}

/// Builds the usage message for an unrecognized operation word. The caller
/// prints it and exits with a nonzero status, mutating nothing.
pub fn usage_message(op: &str) -> (r: String)
    ensures
        r@ == usage_spec(op@),
{
    let mut r = String::from_str("I only know how to do: \n");
    r.append("post_build");
    r.append("\n");
    r.append("configs");
    r.append("\n");
    r.append("but you wanted me to do: ");
    r.append(op);
    r
}

/// The identifier printed for the installed library variant: the dynamic
/// library if either probed path holds one, the framework otherwise.
pub open spec fn configs_spec(usr_local_exists: bool, usr_lib_exists: bool) -> Seq<char> {
    if usr_local_exists || usr_lib_exists {
        "mac_dylib"@
    } else {
        "mac_framework"@
    }
}

/// Decides the `configs` answer from the two probe results handed in by the
/// caller: whether each of the two candidate paths exists.
pub fn configs(usr_local_exists: bool, usr_lib_exists: bool) -> (r: String)
    ensures
        r@ == configs_spec(usr_local_exists, usr_lib_exists),
{
    if usr_local_exists || usr_lib_exists {
        String::from_str("mac_dylib")
    } else {
        String::from_str("mac_framework")
    }
}

/// The two locations the `configs` operation probes for an installed
/// dynamic library: one under the configurable install prefix, one fixed.
pub fn config_probe_paths(sdl_prefix: &str) -> (r: (String, String))
    ensures
        r.0@ == path_join(sdl_prefix@, "libSDL.dylib"@),
        r.1@ == "/usr/lib/libSDL.dylib"@,
{
    let under_prefix = crate::command::join_path(sdl_prefix, "libSDL.dylib");
    (under_prefix, String::from_str("/usr/lib/libSDL.dylib"))
}

} // verus!
