//! The IDE resolver: maps a free-form editor name to an executable name or
//! path.  Unknown names silently fall back to the default editor — a
//! deliberate policy, never an error.

use vstd::prelude::*;
use vstd::string::StringExecFns;

use crate::platform::Platform;
use crate::text::{contains_seq, str_contains, str_eq};

verus! {

/// What `str::to_lowercase` returns: a fixed function of the characters
/// alone.
pub uninterp spec fn lower_of(s: Seq<char>) -> Seq<char>;

/// Relies on `str::to_lowercase`: the result depends on the characters
/// alone.
#[verifier::external_body]
fn to_lowercase(s: &str) -> (r: String)
    ensures
        r@ == lower_of(s@),
{
    s.to_lowercase()
}

/// The platform's VS Code launcher, the default editor.
pub open spec fn code_launcher(p: Platform) -> Seq<char> {
    if p is Windows {
        "code.cmd"@
    } else {
        "code"@
    }
}

/// The fixed install path of the Visual Studio 2022 IDE.
pub open spec fn vs2022_path() -> Seq<char> {
    "C:\\Program Files\\Microsoft Visual Studio\\2022\\Community\\Common7\\IDE\\devenv.exe"@
}

/// The resolution policy, on the lowercased name: `code` and `vscode` give
/// the platform's VS Code launcher; `idea` gives `idea`; a name containing
/// both `studio` and `2022` gives the fixed Visual Studio path; anything
/// else falls back to the VS Code launcher.
pub open spec fn resolve_spec(l: Seq<char>, p: Platform) -> Seq<char> {
    if l == "code"@ || l == "vscode"@ {
        code_launcher(p)
    } else if l == "idea"@ {
        "idea"@
    } else if contains_seq(l, "studio"@) && contains_seq(l, "2022"@) {
        vs2022_path()
    } else {
        code_launcher(p)
    }
}

fn code_exe(p: Platform) -> (r: String)
    ensures
        r@ == code_launcher(p),
{
    match p {
        Platform::Windows => String::from_str("code.cmd"),
        Platform::Other => String::from_str("code"),
    }
}

/// Resolves an IDE name, case-insensitively, to the executable to launch.
pub fn ide_to_command(ide: &str, p: Platform) -> (r: String)
    ensures
        r@ == resolve_spec(lower_of(ide@), p),
{
    let low = to_lowercase(ide);
    let l = low.as_str();
    if str_eq(l, "code") || str_eq(l, "vscode") {
        code_exe(p)
    } else if str_eq(l, "idea") {
        String::from_str("idea")
    } else if str_contains(l, "studio") && str_contains(l, "2022") {
        String::from_str(
            "C:\\Program Files\\Microsoft Visual Studio\\2022\\Community\\Common7\\IDE\\devenv.exe",
        )
    } else {
        code_exe(p)
    }
}

} // verus!
