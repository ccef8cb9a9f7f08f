use vstd::prelude::*;
use crate::context::{HiveMemory, Tagged};
use crate::journey::HiveJourney;

verus! {

#[verifier::external_type_specification]
#[verifier::external_body]
pub struct ExDieselError(diesel::result::Error);

#[verifier::external_type_specification]
#[verifier::external_body]
pub struct ExIoError(std::io::Error);

/// A classified job failure: a stable kind for business logic to branch on.
/// External failures keep their underlying cause for diagnostics.
#[derive(Debug)]
pub enum WorkerError {
    /// A storage-layer failure, wrapping the database's own error.
    DatabaseError(diesel::result::Error),
    /// A transport or network failure, wrapping the I/O error.
    NetworkError(std::io::Error),
    /// The caller supplied invalid input, with the caller's reason.
    InvalidInput(String),
    /// Permission denied, with no detail.
    PermissionDenied,
    /// An unexpected internal failure, with the caller's reason.
    InternalError(String),
    /// The job's time budget ran out.
    Timeout,
}

impl From<diesel::result::Error> for WorkerError {
    /// Wraps a database failure as its classified kind.
    fn from(e: diesel::result::Error) -> (r: Self) {
        WorkerError::DatabaseError(e)
    }
}

impl vstd::std_specs::convert::FromSpecImpl<diesel::result::Error> for WorkerError {
    open spec fn obeys_from_spec() -> bool {
        true
    }

    open spec fn from_spec(e: diesel::result::Error) -> Self {
        WorkerError::DatabaseError(e)
    }
}

impl From<std::io::Error> for WorkerError {
    /// Wraps a network failure as its classified kind.
    fn from(e: std::io::Error) -> (r: Self) {
        WorkerError::NetworkError(e)
    }
}

impl vstd::std_specs::convert::FromSpecImpl<std::io::Error> for WorkerError {
    open spec fn obeys_from_spec() -> bool {
        true
    }

    open spec fn from_spec(e: std::io::Error) -> Self {
        WorkerError::NetworkError(e)
    }
}

/// A unit of work: a pure computation over a read-only view of the shared
/// context memory, producing a typed output or a classified error. A job
/// never touches a journey.
pub trait Job<V: Tagged> {
    type Output;

    fn execute_job(&self, mem: &HiveMemory<V>) -> Result<Self::Output, WorkerError>;
}

/// Orchestrates one step of a workflow: runs a forward job and, exactly when
/// the step is reported as having succeeded, registers its paired rollback
/// job in the journey. On failure the journey is left untouched — there is
/// no half-registered compensation.
pub trait Worker<V: Tagged, J> {
    type Output;

    fn execute_job(
        &self,
        journey: &mut HiveJourney<V>,
        mem: &HiveMemory<V>,
        job: J,
        rollback: V,
    ) -> (r: Result<Self::Output, WorkerError>)
        ensures
            r is Err ==> *final(journey) == *old(journey),
            r is Ok ==> final(journey).completed@
                == old(journey).completed@.push(rollback.tag_spec()),
            r is Ok ==> final(journey).mem.contents()
                == old(journey).mem.contents().insert(rollback.tag_spec(), rollback),
            r is Ok ==> final(journey).transactional == old(journey).transactional,
            old(journey).wf() ==> final(journey).wf(),
    ;
}

/// A worker with no policy of its own: it runs the forward job, registers
/// the rollback job on success, and propagates the job's error unchanged.
pub struct DirectWorker;

impl<V: Tagged, J: Job<V>> Worker<V, J> for DirectWorker {
    type Output = J::Output;

    fn execute_job(
        &self,
        journey: &mut HiveJourney<V>,
        mem: &HiveMemory<V>,
        job: J,
        rollback: V,
    ) -> (r: Result<Self::Output, WorkerError>) {
        match job.execute_job(mem) {
            Ok(resp) => {
                journey.add_rollback(rollback);
                Ok(resp)
            },
            Err(err) => Err(err),
        }
    }
}

} // verus!
