use vstd::prelude::*;
use vstd::string::StringExecFns;

use crate::errors::BackendError;

verus! {

/// The scheme under which documents can be read locally.
pub open spec fn file_scheme() -> Seq<char> {
    "file"@
}

/// The message reported when a document reference uses any other scheme.
pub open spec fn invalid_scheme_message(scheme: Seq<char>) -> Seq<char> {
    "Could not parse document for symbols. URI scheme is: \""@ + scheme
        + "\", only scheme:file is accepted."@
}

/// Accept a document reference's location scheme only when it is the
/// local-file scheme; any other scheme is rejected before any file access,
/// with the offending scheme carried in the error message.
pub fn validate_scheme(scheme: &String) -> (r: Result<(), BackendError>)
    ensures
        r is Ok <==> scheme@ == file_scheme(),
        r matches Err(e) ==> e matches BackendError::InvalidParams(m)
            && m@ == invalid_scheme_message(scheme@),
{
    let file_only = String::from_str("file");
    if *scheme == file_only {
        Ok(())
    } else {
        let mut m = String::from_str("Could not parse document for symbols. URI scheme is: \"");
        m.append(scheme.as_str());
        m.append("\", only scheme:file is accepted.");
        Err(BackendError::InvalidParams(m))
    }
}

/// What the server declares it can do: the document-outline feature and the
/// list of command names it will execute. Built once at initialization.
pub struct ServerConfig {
    pub document_symbol_provider: bool,
    pub commands: Vec<String>,
}

/// The name of the one recognized command.
pub open spec fn recognized_command() -> Seq<char> {
    "custom.notification"@
}

/// The immutable capability declaration made at initialization: document
/// outlines are supported, and exactly one command is executable.
pub fn server_config() -> (c: ServerConfig)
    ensures
        c.document_symbol_provider,
        c.commands@.len() == 1,
        c.commands@[0]@ == recognized_command(),
{
    let mut commands: Vec<String> = Vec::new();
    commands.push(String::from_str("custom.notification"));
    ServerConfig { document_symbol_provider: true, commands }
}

} // verus!
