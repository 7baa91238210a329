//! The error taxonomy surfaced to the transport boundary.
//!
//! Every failure is scoped to the single request or single regeneration
//! attempt that produced it; none is process-fatal. Each kind carries a
//! fixed human-readable message that transport adapters serialize.

use crate::cache::Resource;
use crate::dispatch::Operation;
use vstd::prelude::*;

verus! {

/// The uniform structured error of the core.
#[derive(Clone, Copy, PartialEq, Eq, Structural, Debug)]
pub enum Error {
    /// The execution context for a request could not be acquired.
    ContextCreationFailed,
    /// The inbound payload could not be converted into the operation's
    /// internal request shape.
    RequestConversionFailed,
    /// The provider reported a failure while running the given operation.
    OperationFailed(Operation),
    /// Regeneration of the given metadata resource failed.
    MetadataFetchFailed(Resource),
    /// The snippet store could not create a snippet.
    SnippetCreateFailed,
    /// The snippet store could not load a snippet.
    SnippetLoadFailed,
    /// The diagnostics endpoint rejected the presented credentials.
    AuthorizationFailed,
}

/// The human-readable message of each error kind.
pub open spec fn spec_message(e: Error) -> Seq<char> {
    match e {
        Error::ContextCreationFailed => "unable to create the execution context"@,
        Error::RequestConversionFailed => "unable to convert the request for the backend"@,
        Error::OperationFailed(op) => match op {
            Operation::Compile => "the compile operation failed"@,
            Operation::Execute => "the execute operation failed"@,
            Operation::Format => "the format operation failed"@,
            Operation::Lint => "the lint operation failed"@,
            Operation::Interpret => "the interpret operation failed"@,
            Operation::Expand => "the macro expansion operation failed"@,
        },
        Error::MetadataFetchFailed(r) => match r {
            Resource::Crates => "unable to fetch the crate list"@,
            Resource::VersionStable => "unable to fetch the stable channel version"@,
            Resource::VersionBeta => "unable to fetch the beta channel version"@,
            Resource::VersionNightly => "unable to fetch the nightly channel version"@,
            Resource::VersionRustfmt => "unable to fetch the formatter version"@,
            Resource::VersionClippy => "unable to fetch the linter version"@,
            Resource::VersionMiri => "unable to fetch the interpreter version"@,
        },
        Error::SnippetCreateFailed => "unable to create the shared snippet"@,
        Error::SnippetLoadFailed => "unable to load the shared snippet"@,
        Error::AuthorizationFailed => "wrong credentials"@,
    }
}

impl Error {
    /// The error's message, as transport adapters report it.
    pub fn message(&self) -> (r: String)
        ensures
            r@ == spec_message(*self),
    {
        match self {
            Error::ContextCreationFailed => "unable to create the execution context".to_owned(),
            Error::RequestConversionFailed => "unable to convert the request for the backend".to_owned(),
            Error::OperationFailed(op) => match op {
                Operation::Compile => "the compile operation failed".to_owned(),
                Operation::Execute => "the execute operation failed".to_owned(),
                Operation::Format => "the format operation failed".to_owned(),
                Operation::Lint => "the lint operation failed".to_owned(),
                Operation::Interpret => "the interpret operation failed".to_owned(),
                Operation::Expand => "the macro expansion operation failed".to_owned(),
            },
            Error::MetadataFetchFailed(r) => match r {
                Resource::Crates => "unable to fetch the crate list".to_owned(),
                Resource::VersionStable => "unable to fetch the stable channel version".to_owned(),
                Resource::VersionBeta => "unable to fetch the beta channel version".to_owned(),
                Resource::VersionNightly => "unable to fetch the nightly channel version".to_owned(),
                Resource::VersionRustfmt => "unable to fetch the formatter version".to_owned(),
                Resource::VersionClippy => "unable to fetch the linter version".to_owned(),
                Resource::VersionMiri => "unable to fetch the interpreter version".to_owned(),
            },
            Error::SnippetCreateFailed => "unable to create the shared snippet".to_owned(),
            Error::SnippetLoadFailed => "unable to load the shared snippet".to_owned(),
            Error::AuthorizationFailed => "wrong credentials".to_owned(),
        }
    }
}

} // verus!
