//! The platform profile: the few facts about the host operating system that
//! the resolver and the environment composer branch on.

use vstd::prelude::*;

verus! {

/// The family of operating systems the launcher runs on.  The Windows family
/// differs in the VS Code launcher name, the `PATH` list delimiter and the
/// path separator; every other platform behaves alike.
#[derive(Clone, Copy)]
pub enum Platform {
    Windows,
    Other,
}

/// The character that separates entries of a `PATH`-style variable.
pub open spec fn path_list_delimiter(p: Platform) -> char {
    if p is Windows {
        ';'
    } else {
        ':'
    }
}

/// The character that separates components of a file path.
pub open spec fn path_separator(p: Platform) -> char {
    if p is Windows {
        '\\'
    } else {
        '/'
    }
}

/// The `PATH` list delimiter as a string slice.
pub fn delimiter_str(p: Platform) -> (r: &'static str)
    ensures
        r@ == seq![path_list_delimiter(p)],
{
    match p {
        Platform::Windows => {
            proof {
                reveal_strlit(";");
                assert(";"@ =~= seq![';']);
            }
            ";"
        },
        Platform::Other => {
            proof {
                reveal_strlit(":");
                assert(":"@ =~= seq![':']);
            }
            ":"
        },
    }
}

/// The path separator as a string slice.
pub fn separator_str(p: Platform) -> (r: &'static str)
    ensures
        r@ == seq![path_separator(p)],
{
    match p {
        Platform::Windows => {
            proof {
                reveal_strlit("\\");
                assert("\\"@ =~= seq!['\\']);
            }
            "\\"
        },
        Platform::Other => {
            proof {
                reveal_strlit("/");
                assert("/"@ =~= seq!['/']);
            }
            "/"
        },
    }
}

} // verus!
