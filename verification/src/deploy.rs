use vstd::prelude::*;

use crate::builder::BuildArtifact;
use crate::identity::Identity;

verus! {

/// A deployment-time failure, surfaced to the caller unmodified; there is
/// no silent retry.
#[derive(Clone, Debug, PartialEq, Eq)]
pub enum DeployError {
    /// The ledger endpoint was unreachable; the payload is the transport's
    /// diagnostic text.
    ConnectionFailure(String),
    /// The ledger rejected the payload (funds, signature, size); the
    /// payload is the ledger's diagnostic text.
    SubmissionRejected(String),
}

/// Decide the deployment outcome: when the endpoint accepted the
/// submission, the returned identity equals the artifact's, and a failed
/// submission is handed back unchanged. The network round-trip happens at
/// the caller; this function judges its result.
pub fn confirm_deployment(artifact: &BuildArtifact, submission: Result<(), DeployError>) -> (r:
    Result<Identity, DeployError>)
    requires
        artifact.wf(),
    ensures
        submission is Ok ==> (r matches Ok(id) && id@ == artifact.program_id@),
        submission matches Err(e) ==> r == Err::<Identity, DeployError>(e),
{
    match submission {
        Ok(()) => Ok(artifact.program_id),
        Err(e) => Err(e),
    }
}

} // verus!
