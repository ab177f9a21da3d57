//! The entry point the host calls: which tool an identity names, which
//! adapter is served, and the per-instance state kept between calls.

use crate::psalm::Psalm;
use crate::text::concat;
use crate::xdebug::XDebug;
use vstd::prelude::*;

verus! {

/// A language server this extension can start.
#[derive(Clone, Copy, Debug, PartialEq, Eq, Structural)]
pub enum LanguageServer {
    Psalm,
    Phpactor,
}

/// The error for a language server identity this extension does not know.
pub open spec fn unknown_server(id: Seq<char>) -> Seq<char> {
    "unknown language server: "@ + id
}

/// The language server named by `id`.
pub fn language_server_for(id: &String) -> (r: Result<LanguageServer, String>)
    ensures
        id@ == "psalm"@ ==> r == Ok::<LanguageServer, String>(LanguageServer::Psalm),
        id@ == "phpactor"@ ==> r == Ok::<LanguageServer, String>(LanguageServer::Phpactor),
        id@ != "psalm"@ && id@ != "phpactor"@ ==> (r matches Err(e) && e@ == unknown_server(id@)),
{
    proof {
        reveal_strlit("psalm");
        reveal_strlit("phpactor");
        assert("psalm"@.len() != "phpactor"@.len());
    }
    if *id == String::from_str("psalm") {
        Ok(LanguageServer::Psalm)
    } else if *id == String::from_str("phpactor") {
        Ok(LanguageServer::Phpactor)
    } else {
        Err(concat("unknown language server: ", id.as_str()))
    }
}

/// The error when `method` is asked of an adapter other than Xdebug.
pub open spec fn unsupported_adapter(method: Seq<char>, adapter: Seq<char>) -> Seq<char> {
    "PHP extension does not support unknown adapter in `"@ + method + "`: "@ + adapter
        + " (supported: [Xdebug])"@
}

/// The error when `method` is asked of `adapter`, which is not Xdebug.
pub fn unsupported_adapter_error(method: &str, adapter: &String) -> (r: String)
    ensures
        r@ == unsupported_adapter(method@, adapter@),
{
    let a = concat("PHP extension does not support unknown adapter in `", method);
    let b = concat(a.as_str(), "`: ");
    let c = concat(b.as_str(), adapter.as_str());
    concat(c.as_str(), " (supported: [Xdebug])")
}

/// Accepts the Xdebug adapter only, on behalf of `method`.
pub fn check_adapter(method: &str, adapter: &String) -> (r: Result<(), String>)
    ensures
        adapter@ == "Xdebug"@ <==> r is Ok,
        r matches Err(e) ==> e@ == unsupported_adapter(method@, adapter@),
{
    if *adapter == String::from_str("Xdebug") {
        Ok(())
    } else {
        Err(unsupported_adapter_error(method, adapter))
    }
}

/// The extension's state for one host instance: the psalm resolver, made on
/// first demand, and the debug adapter with its committed version.
pub struct PhpExtension {
    pub psalm: Option<Psalm>,
    pub xdebug: XDebug,
}

impl PhpExtension {
    /// The state of a new instance: no resolver made, no version committed.
    pub fn new() -> (r: PhpExtension)
        ensures
            r.psalm is None,
            r.xdebug.version() is None,
    {
        PhpExtension { psalm: None, xdebug: XDebug::new() }
    }

    /// Whether the server named `id` gets a workspace configuration: only
    /// psalm does, and only once its resolver has been made.
    pub fn serves_workspace_configuration(&self, id: &String) -> (r: bool)
        ensures
            r == (id@ == "psalm"@ && self.psalm is Some),
    {
        self.psalm.is_some() && *id == String::from_str("psalm")
    }

    /// Makes the psalm resolver if there is none yet; one made earlier is kept.
    pub fn ensure_psalm(&mut self)
        ensures
            final(self).psalm is Some,
            old(self).psalm is Some ==> final(self).psalm == old(self).psalm,
            final(self).xdebug == old(self).xdebug,
    {
        if self.psalm.is_none() {
            self.psalm = Some(Psalm::new());
        }
    }
}

} // verus!
