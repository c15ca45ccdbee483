//! Outcome classification for the migration executor.
//!
//! The external migration operation is an opaque collaborator: it reports a
//! primitive success/failure status plus arbitrary diagnostic text. The
//! verified part of the executor maps that report onto an `Outcome`, keyed by
//! the job's non-secret identity (its source email address), so that one
//! job's failure can never abort the batch: every execution path terminates
//! in an `Outcome` value.

use vstd::prelude::*;
use crate::job::Job;

verus! {

/// The terminal result of executing one job. `job_identity` is the job's
/// source email address: a non-secret label safe for logging; a failure
/// carries the external operation's diagnostic text verbatim.
pub enum Outcome {
    Success { job_identity: String },
    Failure { job_identity: String, diagnostic: String },
}

impl Clone for Outcome {
    fn clone(&self) -> (r: Self)
        ensures
            r == *self,
    {
        match self {
            Outcome::Success { job_identity } => Outcome::Success {
                job_identity: job_identity.clone(),
            },
            Outcome::Failure { job_identity, diagnostic } => Outcome::Failure {
                job_identity: job_identity.clone(),
                diagnostic: diagnostic.clone(),
            },
        }
    }
}

impl Outcome {
    /// The identity of the job this outcome belongs to, whichever way the
    /// execution went.
    pub open spec fn spec_identity(self) -> String {
        match self {
            Outcome::Success { job_identity } => job_identity,
            Outcome::Failure { job_identity, .. } => job_identity,
        }
    }

    /// Whether this outcome reports a successful migration.
    pub fn is_success(&self) -> (b: bool)
        ensures
            b == (self is Success),
    {
        match self {
            Outcome::Success { .. } => true,
            Outcome::Failure { .. } => false,
        }
    }

    /// The identity of the job this outcome belongs to.
    pub fn identity(&self) -> (id: &String)
        ensures
            id == self.spec_identity(),
    {
        match self {
            Outcome::Success { job_identity } => job_identity,
            Outcome::Failure { job_identity, .. } => job_identity,
        }
    }
}

/// The non-secret identity a job is reported under: its source email.
pub fn job_identity(job: &Job) -> (id: String)
    ensures
        id == job.source_credential.email,
{
    job.source_credential.email.clone()
}

/// Classifies one execution of the external migration operation: a reported
/// success becomes `Outcome::Success`; any non-success becomes
/// `Outcome::Failure` carrying the diagnostic text verbatim. Never an error:
/// every execution of a job ends in exactly one `Outcome`.
pub fn classify(job: &Job, succeeded: bool, diagnostic: String) -> (o: Outcome)
    ensures
        succeeded ==> o == (Outcome::Success { job_identity: job.source_credential.email }),
        !succeeded ==> o == (Outcome::Failure {
            job_identity: job.source_credential.email,
            diagnostic,
        }),
        o.spec_identity() == job.source_credential.email,
{
    let id = job_identity(job);
    if succeeded {
        Outcome::Success { job_identity: id }
    } else {
        Outcome::Failure { job_identity: id, diagnostic }
    }
}

} // verus!
