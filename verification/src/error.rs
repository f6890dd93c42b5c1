use vstd::prelude::*;

verus! {

/// Every failure the protocol can report. Each invocation either fully
/// succeeds or aborts with exactly one of these; no partial mutation is
/// ever committed on an error path.
#[derive(Clone, Copy, PartialEq, Eq, Structural, Debug)]
pub enum EchoError {
    /// The instruction payload could not be decoded, or the account list
    /// is shorter than the decoded request needs.
    MalformedInput,
    /// A required signer's signature flag is not set.
    MissingSignature,
    /// A derived address does not match the account actually supplied,
    /// or a declared collaborator-program identity is not the genuine one.
    AddressMismatch,
    /// The buffer account's data region has zero length.
    UnallocatedBuffer,
    /// An open write was attempted on a buffer that is not all zeroes.
    NotVirgin,
    /// An external facility (address derivation search, allocation, burn)
    /// reported failure.
    CollaboratorFailure,
}

impl EchoError {
    /// A short diagnostic name for the error; advisory only.
    pub fn describe(&self) -> (r: &'static str)
    {
        match self {
            EchoError::MalformedInput => "malformed instruction input",
            EchoError::MissingSignature => "required signature is missing",
            EchoError::AddressMismatch => "derived address does not match",
            EchoError::UnallocatedBuffer => "buffer has no data allocated",
            EchoError::NotVirgin => "buffer already holds nonzero bytes",
            EchoError::CollaboratorFailure => "external facility failed",
        }
    }
}

} // verus!
