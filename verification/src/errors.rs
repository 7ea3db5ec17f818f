//! The uniform error shape of the adapter layer.
//!
//! Every entry point reports failures through [`ContractError`], so a caller
//! never sees a wrapped contract's own error type.

use vstd::prelude::*;

verus! {

/// The six operations of the uniform contract interface.
#[derive(Clone, Copy, Debug, PartialEq, Eq, Structural)]
pub enum EntryPoint {
    Execute,
    Instantiate,
    Query,
    Sudo,
    Reply,
    Migrate,
}

impl EntryPoint {
    /// The operation's name, as it appears in error messages.
    pub fn label(&self) -> (s: &'static str)
        ensures
            self is Execute ==> s@ == "execute"@,
            self is Instantiate ==> s@ == "instantiate"@,
            self is Query ==> s@ == "query"@,
            self is Sudo ==> s@ == "sudo"@,
            self is Reply ==> s@ == "reply"@,
            self is Migrate ==> s@ == "migrate"@,
    {
        match self {
            EntryPoint::Execute => "execute",
            EntryPoint::Instantiate => "instantiate",
            EntryPoint::Query => "query",
            EntryPoint::Sudo => "sudo",
            EntryPoint::Reply => "reply",
            EntryPoint::Migrate => "migrate",
        }
    }
}

/// What can go wrong while dispatching one call through the adapter.
///
/// The taxonomy is fixed: a byte envelope that does not decode, an optional
/// operation that was never populated, or the wrapped callback's own failure
/// carried as its display text.
#[derive(Clone, Debug, PartialEq, Eq)]
pub enum ContractError {
    /// The byte envelope did not decode into the message type the stored
    /// callback expects; `detail` carries the decoder's diagnostic verbatim.
    MessageFormat { operation: EntryPoint, detail: String },
    /// The invoked optional operation was never populated on this wrapper.
    NotImplemented { operation: EntryPoint },
    /// The stored callback itself failed; `detail` is its display text.
    Callback { detail: String },
}

impl ContractError {
    /// True for errors that report a malformed byte envelope.
    pub fn is_message_format(&self) -> (b: bool)
        ensures
            b == (self is MessageFormat),
    {
        match self {
            ContractError::MessageFormat { .. } => true,
            _ => false,
        }
    }

    /// True for errors that report an unpopulated optional operation.
    pub fn is_not_implemented(&self) -> (b: bool)
        ensures
            b == (self is NotImplemented),
    {
        match self {
            ContractError::NotImplemented { .. } => true,
            _ => false,
        }
    }
}

} // verus!
