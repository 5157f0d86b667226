use vstd::prelude::*;

verus! {

/// Why an operation of the governance engine was refused.
#[derive(Clone, Copy, Debug, PartialEq, Eq, Structural)]
pub enum Error {
    /// The authorized action could not be carried out.
    DispatchFailed,
    /// The caller is already in the membership list.
    AlreadyMember,
    /// The caller is not in the membership list.
    NotMember,
    /// No active proposal has this identifier.
    ProposalNotFound,
    /// The voting window of the proposal is still open.
    NotYetExpired,
    /// Stored bytes are not an encoding of the expected structure.
    MalformedEncoding,
}

} // verus!
