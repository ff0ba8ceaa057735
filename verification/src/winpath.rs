//! Turning a POSIX path from the shell into one this process can open.
//!
//! plz ships as a native Windows binary, and under Cygwin it is launched from a
//! shell that lives in a POSIX filesystem. MSYS2 and Git Bash rewrite
//! path-shaped arguments and environment variables on the way to a native
//! child; Cygwin, by design, does not. So `/home/name` arrives verbatim,
//! Windows resolves it against the current drive, and the result is
//! `C:\home\name` — a silently wrong location rather than an error.
//!
//! `cygpath` is the authority on the mapping, because only it knows the
//! installation root and the mount table. Running it happens outside; this
//! module decides when to ask and reads its answer.

use vstd::prelude::*;
use crate::text::{chars_of, string_of, trim, trim_ws};

verus! {

/// A leading slash is what a native Windows path never starts with, and what
/// every path needing translation does.
pub open spec fn needs_native_form(path: Seq<char>) -> bool {
    path.len() > 0 && path[0] == '/'
}

/// Whether the path is worth asking `cygpath` about.
pub fn needs_translation(path: &str) -> (r: bool)
    ensures
        r == needs_native_form(path@),
{
    let c = chars_of(path);
    c.len() > 0 && c[0] == '/'
}

/// What `cygpath -w` answered: whether it ran successfully, and what it
/// printed.
pub struct CygpathReply {
    pub success: bool,
    pub stdout: String,
}

/// The native form of a path, given `cygpath`'s reply when there was one to
/// ask: its trimmed output, when the path needs translating, the tool
/// succeeded and printed something.
pub open spec fn native_form(path: Seq<char>, reply: Option<(bool, Seq<char>)>) -> Option<Seq<char>> {
    if !needs_native_form(path) {
        None
    } else {
        match reply {
            Some((true, out)) => if trim(out).len() > 0 {
                Some(trim(out))
            } else {
                None
            },
            _ => None,
        }
    }
}

/// The native form of a POSIX path.
///
/// `None` when the path is already native or relative, when there was no
/// `cygpath` to ask — a plain Windows shell, and every other platform, where
/// paths reach the process the way the shell wrote them — and when it could
/// not answer.
pub fn to_native(path: &str, reply: Option<CygpathReply>) -> (r: Option<String>)
    ensures
        crate::context::opt_text(r) == native_form(
            path@,
            match reply {
                Some(c) => Some((c.success, c.stdout@)),
                None => None,
            },
        ),
{
    if !needs_translation(path) {
        return None;
    }
    match reply {
        Some(c) => {
            if !c.success {
                return None;
            }
            let native = trim_ws(&chars_of(c.stdout.as_str()));
            if native.len() > 0 {
                Some(string_of(&native))
            } else {
                None
            }
        },
        None => None,
    }
}

} // verus!
