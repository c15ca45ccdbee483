//! Bounded-parallel mailbox migration runner.
//!
//! Turns an ordered list of migration records into validated jobs, schedules
//! their execution under a concurrency bound, and accounts for every record
//! in a final summary.

use vstd::prelude::*;

mod aggregate;
mod concurrency;
mod executor;
mod job;
mod scheduler;

pub use concurrency::available_execution_units;
pub use concurrency::default_concurrency;
pub use concurrency::effective_concurrency;
pub use job::Credential;
pub use job::Job;
pub use job::SkippedRecord;
pub use job::build_job;
pub use job::job_of;
pub use job::job_wf;
pub use job::rec_field;
pub use job::record_valid;
pub use job::skip_reason;
pub use job::invalid_records;
pub use job::lemma_all_jobs_wf;
pub use job::lemma_every_record_accounted;
pub use job::lemma_invalid_record_skipped;
pub use job::make_jobs;
pub use job::valid_jobs;
pub use executor::Outcome;
pub use executor::classify;
pub use executor::job_identity;
pub use scheduler::Scheduler;
pub use aggregate::FailureEntry;
pub use aggregate::Summary;
pub use aggregate::aggregate;
pub use aggregate::count_failures;
pub use aggregate::count_successes;
pub use aggregate::entry_of;
pub use aggregate::failures_of;
pub use aggregate::lemma_aggregation_order_independent;

verus! {

} // verus!
