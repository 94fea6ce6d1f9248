use vstd::prelude::*;

verus! {

/// Why the pipeline refused to emit keys, or failed to finish.
///
/// Every failure is terminal: none is retried, and each collapses to
/// "deny, emit nothing" at the boundary of the program.
#[derive(Clone, Copy, Debug, PartialEq, Eq, Structural)]
pub enum Reason {
    /// Transport failure while talking to the metadata service.
    NetworkError,
    /// The requested metadata path does not exist.
    NotFound,
    /// The instance identifier does not have the expected shape.
    InvalidIdentity,
    /// The platform evidence surfaces do not corroborate the identifier.
    UntrustedPlatform,
    /// The availability zone does not have the expected shape.
    InvalidZone,
    /// The service domain is not on the fixed allow-list of partitions.
    UntrustedDomain,
    /// No leading letter-group run ending in digits was found in the zone.
    InvalidRegion,
    /// The invocation named no resolvable local user.
    UnknownUser,
    /// The external deadline elapsed before the checks completed.
    Timeout,
}

} // verus!
