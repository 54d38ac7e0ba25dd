use vstd::prelude::*;

verus! {

/// Why a provisioning request ended without a server.
#[derive(Clone, Copy, Debug, PartialEq, Eq, Structural)]
pub enum ProvisionError {
    /// A server with the requested name already exists.
    DuplicateName,
    /// Every port in the configured range is taken.
    NoPortAvailable,
    /// The requested version is not in the list of known versions.
    InvalidVersion,
    /// The upload broker answered with an unexpected status or not at all.
    BrokerUnavailable,
    /// The requester did not send the follow-up value in time.
    NoInputProvided,
    /// A directory or file of the instance could not be written.
    StorageFailure,
    /// A collaborator failed: the store, the transport to the requester, the
    /// configuration data or the serializer. The requester is told no detail.
    Internal,
}

} // verus!
