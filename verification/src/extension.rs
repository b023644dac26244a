//! What the host plugin system sees: routing by language-server identity, and
//! the launch descriptor built from a resolved binary path.

use vstd::prelude::*;
use vstd::string::StringExecFns;

use crate::error::ErrorView;
use crate::error::ResolveError;
use crate::resolver::DhallLanguageServer;
use crate::strutil::str_equal;

verus! {

/// The identity token under which the host addresses this language server.
pub open spec fn spec_language_server_id() -> Seq<char> {
    "dhall"@
}

/// The launch descriptor handed back to the host: the executable to run, its
/// arguments, and its environment.
#[derive(Debug, PartialEq, Eq)]
pub struct Command {
    pub command: String,
    pub args: Vec<String>,
    pub env: Vec<(String, String)>,
}

/// Whether this library manages the language server the host asked for.
pub fn handles_language_server(id: &str) -> (r: bool)
    ensures
        r == (id@ == spec_language_server_id()),
{
    str_equal(id, "dhall")
}

/// Accepts exactly the one managed identity; any other identity is rejected
/// with an error naming it.
pub fn check_language_server_id(id: &str) -> (r: Result<(), ResolveError>)
    ensures
        r is Ok <==> id@ == spec_language_server_id(),
        r matches Err(e) ==> e@ == (ErrorView::UnknownLanguageServer { id: id@ }),
{
    if handles_language_server(id) {
        Ok(())
    } else {
        Err(ResolveError::UnknownLanguageServer { id: String::from_str(id) })
    }
}

/// The dispatcher the host talks to: it owns at most one resolver, created
/// lazily on first use.
pub struct DhallExtension {
    pub language_server: Option<DhallLanguageServer>,
}

impl DhallExtension {
    /// A fresh dispatcher, with no resolver yet.
    pub fn new() -> (r: Self)
        ensures
            r.language_server is None,
    {
        DhallExtension { language_server: None }
    }

    /// Get-or-insert: after this call a resolver exists; one that already
    /// existed is kept untouched, a fresh one starts with an empty cache slot.
    pub fn ensure_language_server(&mut self)
        ensures
            final(self).language_server is Some,
            old(self).language_server is Some ==> *final(self) == *old(self),
            old(self).language_server is None ==> (match final(self).language_server {
                Some(ls) => ls.cache() is None,
                None => false,
            }),
    {
        if self.language_server.is_none() {
            self.language_server = Some(DhallLanguageServer::new());
        }
    }
}

impl DhallLanguageServer {
    /// Wraps a resolved binary path into the launch descriptor: the path is
    /// the command, with no arguments and no environment entries.
    pub fn language_server_command(&self, binary_path: String) -> (c: Command)
        ensures
            c.command@ == binary_path@,
            c.args@ == Seq::<String>::empty(),
            c.env@ == Seq::<(String, String)>::empty(),
    {
        Command { command: binary_path, args: Vec::new(), env: Vec::new() }
    }
}

} // verus!
