//! The host's operating system, and the path and launch quirks that depend on it.

use crate::command::{outcome, strings_view, CommandSpec};
use crate::text::{opt_view, trim_start, trim_start_char};
use vstd::prelude::*;

verus! {

/// An operating system the host can run on.
#[derive(Clone, Copy, Debug, PartialEq, Eq, Structural)]
pub enum Os {
    Mac,
    Linux,
    Windows,
}

/// Relies on `zed_extension_api::current_platform`: the host's operating
/// system, of which nothing is known ahead.
#[verifier::external_body]
pub(crate) fn host_os() -> (r: Os) {
    match zed_extension_api::current_platform().0 {
        zed_extension_api::Os::Mac => Os::Mac,
        zed_extension_api::Os::Linux => Os::Linux,
        zed_extension_api::Os::Windows => Os::Windows,
    }
}

/// A path as it must be written to be used on `os`: on Windows without its
/// leading `/` characters, elsewhere unchanged.
pub open spec fn sanitized(os: Os, path: Seq<char>) -> Seq<char> {
    if os == Os::Windows {
        trim_start(path, '/')
    } else {
        path
    }
}

/// Rewrites `path` for use on `os`.
pub fn sanitize_path_for(os: Os, path: String) -> (r: String)
    ensures
        r@ == sanitized(os, path@),
{
    if os == Os::Windows {
        trim_start_char(path.as_str(), '/')
    } else {
        path
    }
}

/// Rewrites `path` for use on the host's operating system: leading `/`
/// characters are removed on Windows, and the path is kept elsewhere.
pub fn sanitize_windows_path(path: String) -> (r: String)
    ensures
        r@ == path@ || r@ == trim_start(path@, '/'),
{
    let os = host_os();
    sanitize_path_for(os, path)
}

/// Trimming leaves no leading `/`, and keeps a path that has none.
proof fn lemma_trim_start_shape(p: Seq<char>)
    ensures
        trim_start(p, '/').len() == 0 || trim_start(p, '/')[0] != '/',
        p.len() == 0 || p[0] != '/' ==> trim_start(p, '/') == p,
    decreases p.len(),
{
    if p.len() > 0 && p[0] == '/' {
        lemma_trim_start_shape(p.drop_first());
    }
}

/// On Windows a sanitized path never starts with `/`; a path that does not
/// start with `/` is sanitized alike on every system, so the Windows branch
/// differs from the others only in dropping leading separators.
pub proof fn lemma_windows_differs_only_on_leading_separator(path: Seq<char>)
    ensures
        sanitized(Os::Windows, path).len() == 0 || sanitized(Os::Windows, path)[0] != '/',
        sanitized(Os::Linux, path) == path,
        sanitized(Os::Mac, path) == path,
        path.len() == 0 || path[0] != '/' ==> sanitized(Os::Windows, path) == path,
{
    lemma_trim_start_shape(path);
}

/// The invocation of phpactor, or the error, on `os`.
pub open spec fn phpactor_outcome(
    os: Os,
    binary_path: Seq<char>,
    php: Option<Seq<char>>,
    absolute_path: Seq<char>,
) -> Result<(Seq<char>, Seq<Seq<char>>), Seq<char>> {
    if os != Os::Windows {
        Ok((binary_path, seq!["language-server"@]))
    } else {
        match php {
            Some(p) => Ok((p, seq![sanitized(os, absolute_path), "language-server"@])),
            None => Err("php not found"@),
        }
    }
}

/// The command that starts phpactor from the script at `binary_path`.
///
/// On Windows a `.phar` script cannot be run directly: the command is then
/// `php` (when the PATH has one) with the sanitized `absolute_path` of the
/// script as its first argument. Elsewhere the script is run itself.
pub fn phpactor_command(os: Os, binary_path: String, php: Option<String>, absolute_path: String) -> (r: Result<CommandSpec, String>)
    ensures
        outcome(r) == phpactor_outcome(os, binary_path@, opt_view(php), absolute_path@),
        r matches Ok(c) ==> c.env@.len() == 0,
{
    if os == Os::Windows {
        match php {
            Some(p) => {
                let script = sanitize_path_for(os, absolute_path);
                let args = vec![script, String::from_str("language-server")];
                proof {
                    assert(strings_view(args@) =~= seq![sanitized(os, absolute_path@), "language-server"@]);
                }
                Ok(CommandSpec::new(p, args))
            },
            None => Err(String::from_str("php not found")),
        }
    } else {
        let args = vec![String::from_str("language-server")];
        proof {
            assert(strings_view(args@) =~= seq!["language-server"@]);
        }
        Ok(CommandSpec::new(binary_path, args))
    }
}

} // verus!
