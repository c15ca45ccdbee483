//! Jobs and the job source: turning raw input records into validated
//! migration jobs, and accounting for every record that fails validation.
//!
//! A raw record is an ordered list of fields; the four required fields sit
//! at fixed positions: source email, source password, destination email,
//! destination password. A record with any required field absent or empty
//! never becomes a `Job`; it becomes a `SkippedRecord` instead.

use vstd::prelude::*;

verus! {

/// One account's login: an email address and its password.
///
/// The password must never appear in diagnostics or reports; only the email
/// address is a safe identifier.
pub struct Credential {
    pub email: String,
    pub password: String,
}

impl Clone for Credential {
    fn clone(&self) -> (r: Self)
        ensures
            r == *self,
    {
        Credential { email: self.email.clone(), password: self.password.clone() }
    }
}

/// One migration unit: where to read a mailbox from and where to write it.
/// Immutable once constructed; every constructed `Job` satisfies `job_wf`.
pub struct Job {
    pub source_host: String,
    pub source_credential: Credential,
    pub dest_host: String,
    pub dest_credential: Credential,
}

impl Clone for Job {
    fn clone(&self) -> (r: Self)
        ensures
            r == *self,
    {
        Job {
            source_host: self.source_host.clone(),
            source_credential: self.source_credential.clone(),
            dest_host: self.dest_host.clone(),
            dest_credential: self.dest_credential.clone(),
        }
    }
}

/// A record that failed validation, kept whole for the report, with the
/// reason it was skipped.
pub struct SkippedRecord {
    pub raw_record: Vec<String>,
    pub reason: String,
}

/// The four required field positions of a raw record.
pub const FIELD_SOURCE_EMAIL: usize = 0;

pub const FIELD_SOURCE_PASSWORD: usize = 1;

pub const FIELD_DEST_EMAIL: usize = 2;

pub const FIELD_DEST_PASSWORD: usize = 3;

/// The field of a record at position `i`; a missing field reads as empty,
/// so short records are treated as all-fields-empty.
pub open spec fn rec_field(r: Seq<String>, i: int) -> Seq<char> {
    if 0 <= i < r.len() {
        r[i]@
    } else {
        Seq::<char>::empty()
    }
}

/// A record is valid when all four required fields are present and non-empty.
pub open spec fn record_valid(r: Seq<String>) -> bool {
    &&& rec_field(r, FIELD_SOURCE_EMAIL as int).len() > 0
    &&& rec_field(r, FIELD_SOURCE_PASSWORD as int).len() > 0
    &&& rec_field(r, FIELD_DEST_EMAIL as int).len() > 0
    &&& rec_field(r, FIELD_DEST_PASSWORD as int).len() > 0
}

/// Every constructed `Job` has all four credential fields non-empty.
pub open spec fn job_wf(j: Job) -> bool {
    &&& j.source_credential.email@.len() > 0
    &&& j.source_credential.password@.len() > 0
    &&& j.dest_credential.email@.len() > 0
    &&& j.dest_credential.password@.len() > 0
}

/// The job a valid record turns into, given the two hosts.
pub open spec fn job_of(r: Seq<String>, source_host: String, dest_host: String) -> Job {
    Job {
        source_host: source_host,
        source_credential: Credential {
            email: r[FIELD_SOURCE_EMAIL as int],
            password: r[FIELD_SOURCE_PASSWORD as int],
        },
        dest_host: dest_host,
        dest_credential: Credential {
            email: r[FIELD_DEST_EMAIL as int],
            password: r[FIELD_DEST_PASSWORD as int],
        },
    }
}

/// The diagnostic an invalid record is skipped with: it names the first
/// required field that is absent or empty. The password fields' contents
/// never appear in it.
pub open spec fn skip_reason(r: Seq<String>) -> Seq<char> {
    if rec_field(r, FIELD_SOURCE_EMAIL as int).len() == 0 {
        "source email missing or empty"@
    } else if rec_field(r, FIELD_SOURCE_PASSWORD as int).len() == 0 {
        "source password missing or empty"@
    } else if rec_field(r, FIELD_DEST_EMAIL as int).len() == 0 {
        "destination email missing or empty"@
    } else {
        "destination password missing or empty"@
    }
}

/// Whether the field of `record` at position `i` is absent or empty.
fn field_is_empty(record: &Vec<String>, i: usize) -> (b: bool)
    ensures
        b == (rec_field(record@, i as int).len() == 0),
{
    if i < record.len() {
        record[i].as_str().is_empty()
    } else {
        true
    }
}

/// Validates one raw record: a valid record becomes a `Job` for the given
/// hosts; an invalid one is returned whole as a `SkippedRecord` with the
/// reason it was skipped.
pub fn build_job(record: Vec<String>, source_host: &String, dest_host: &String) -> (res: Result<
    Job,
    SkippedRecord,
>)
    ensures
        res is Ok <==> record_valid(record@),
        res matches Ok(job) ==> job == job_of(record@, *source_host, *dest_host) && job_wf(job),
        res matches Err(sk) ==> sk.raw_record == record && sk.reason@ == skip_reason(record@),
{
    if field_is_empty(&record, FIELD_SOURCE_EMAIL) {
        Err(SkippedRecord { raw_record: record, reason: "source email missing or empty".to_owned() })
    } else if field_is_empty(&record, FIELD_SOURCE_PASSWORD) {
        Err(
            SkippedRecord {
                raw_record: record,
                reason: "source password missing or empty".to_owned(),
            },
        )
    } else if field_is_empty(&record, FIELD_DEST_EMAIL) {
        Err(
            SkippedRecord {
                raw_record: record,
                reason: "destination email missing or empty".to_owned(),
            },
        )
    } else if field_is_empty(&record, FIELD_DEST_PASSWORD) {
        Err(
            SkippedRecord {
                raw_record: record,
                reason: "destination password missing or empty".to_owned(),
            },
        )
    } else {
        Ok(
            Job {
                source_host: source_host.clone(),
                source_credential: Credential {
                    email: record[FIELD_SOURCE_EMAIL].clone(),
                    password: record[FIELD_SOURCE_PASSWORD].clone(),
                },
                dest_host: dest_host.clone(),
                dest_credential: Credential {
                    email: record[FIELD_DEST_EMAIL].clone(),
                    password: record[FIELD_DEST_PASSWORD].clone(),
                },
            },
        )
    }
}

/// The jobs that the valid records of `rs` turn into, in input order.
pub open spec fn valid_jobs(rs: Seq<Vec<String>>, source_host: String, dest_host: String) -> Seq<
    Job,
>
    decreases rs.len(),
{
    if rs.len() == 0 {
        Seq::<Job>::empty()
    } else {
        valid_jobs(rs.drop_last(), source_host, dest_host) + (if record_valid(rs.last()@) {
            seq![job_of(rs.last()@, source_host, dest_host)]
        } else {
            Seq::<Job>::empty()
        })
    }
}

/// The records of `rs` that fail validation, in input order.
pub open spec fn invalid_records(rs: Seq<Vec<String>>) -> Seq<Vec<String>>
    decreases rs.len(),
{
    if rs.len() == 0 {
        Seq::<Vec<String>>::empty()
    } else {
        invalid_records(rs.drop_last()) + (if record_valid(rs.last()@) {
            Seq::<Vec<String>>::empty()
        } else {
            seq![rs.last()]
        })
    }
}

/// Unfolds `valid_jobs` and `invalid_records` one record at a time.
proof fn lemma_source_push(rs: Seq<Vec<String>>, x: Vec<String>, sh: String, dh: String)
    ensures
        record_valid(x@) ==> valid_jobs(rs.push(x), sh, dh) == valid_jobs(rs, sh, dh).push(
            job_of(x@, sh, dh),
        ) && invalid_records(rs.push(x)) == invalid_records(rs),
        !record_valid(x@) ==> valid_jobs(rs.push(x), sh, dh) == valid_jobs(rs, sh, dh)
            && invalid_records(rs.push(x)) == invalid_records(rs).push(x),
{
    let e = rs.push(x);
    assert(e.drop_last() =~= rs);
    assert(e.last() == x);
    if record_valid(x@) {
        assert(valid_jobs(e, sh, dh) =~= valid_jobs(rs, sh, dh).push(job_of(x@, sh, dh)));
        assert(invalid_records(e) =~= invalid_records(rs));
    } else {
        assert(valid_jobs(e, sh, dh) =~= valid_jobs(rs, sh, dh));
        assert(invalid_records(e) =~= invalid_records(rs).push(x));
    }
}

/// Law: every raw input record is accounted for exactly once — the number
/// of jobs plus the number of skipped records equals the number of records.
pub proof fn lemma_every_record_accounted(rs: Seq<Vec<String>>, sh: String, dh: String)
    ensures
        valid_jobs(rs, sh, dh).len() + invalid_records(rs).len() == rs.len(),
    decreases rs.len(),
{
    if rs.len() > 0 {
        lemma_every_record_accounted(rs.drop_last(), sh, dh);
    }
}

/// Law: a record with any required field absent or empty is skipped — it
/// appears among the invalid records and no job is made from it.
pub proof fn lemma_invalid_record_skipped(rs: Seq<Vec<String>>, i: int)
    requires
        0 <= i < rs.len(),
        !record_valid(rs[i]@),
    ensures
        invalid_records(rs).contains(rs[i]),
    decreases rs.len(),
{
    if i == rs.len() - 1 {
        let tail = invalid_records(rs.drop_last());
        assert(invalid_records(rs)[tail.len() as int] == rs[i]);
    } else {
        lemma_invalid_record_skipped(rs.drop_last(), i);
        let prev = invalid_records(rs.drop_last());
        let j = choose|j: int| 0 <= j < prev.len() && prev[j] == rs.drop_last()[i];
        assert(rs.drop_last()[i] == rs[i]);
        assert(invalid_records(rs)[j] == rs[i]);
    }
}

/// Law: no job is ever constructed from an invalid record — every job the
/// job source produces satisfies the `Job` invariant.
pub proof fn lemma_all_jobs_wf(rs: Seq<Vec<String>>, sh: String, dh: String)
    ensures
        forall|k: int|
            0 <= k < valid_jobs(rs, sh, dh).len() ==> #[trigger] job_wf(valid_jobs(rs, sh, dh)[k]),
    decreases rs.len(),
{
    if rs.len() > 0 {
        lemma_all_jobs_wf(rs.drop_last(), sh, dh);
        let prev = valid_jobs(rs.drop_last(), sh, dh);
        let whole = valid_jobs(rs, sh, dh);
        assert forall|k: int| 0 <= k < whole.len() implies #[trigger] job_wf(whole[k]) by {
            if k < prev.len() {
                assert(whole[k] == prev[k]);
            } else {
                assert(record_valid(rs.last()@));
                assert(whole[k] == job_of(rs.last()@, sh, dh));
            }
        }
    }
}

/// Turns an ordered sequence of raw records into the jobs of its valid
/// records (in input order, for the given hosts) and one skipped record per
/// invalid record (also in input order, each with its diagnostic).
pub fn make_jobs(records: Vec<Vec<String>>, source_host: &String, dest_host: &String) -> (out: (
    Vec<Job>,
    Vec<SkippedRecord>,
))
    ensures
        out.0@ == valid_jobs(records@, *source_host, *dest_host),
        out.1@.len() == invalid_records(records@).len(),
        forall|k: int|
            0 <= k < out.1@.len() ==> #[trigger] out.1@[k].raw_record == invalid_records(records@)[k]
                && out.1@[k].reason@ == skip_reason(invalid_records(records@)[k]@),
        out.0@.len() + out.1@.len() == records@.len(),
{
    let ghost orig: Seq<Vec<String>> = records@;
    let mut remaining = records;
    let mut jobs: Vec<Job> = Vec::new();
    let mut skipped: Vec<SkippedRecord> = Vec::new();
    let ghost mut done: int = 0;
    while remaining.len() > 0
        invariant
            0 <= done <= orig.len(),
            remaining@ == orig.skip(done),
            jobs@ == valid_jobs(orig.take(done), *source_host, *dest_host),
            skipped@.len() == invalid_records(orig.take(done)).len(),
            forall|k: int|
                0 <= k < skipped@.len() ==> #[trigger] skipped@[k].raw_record == invalid_records(
                    orig.take(done),
                )[k] && skipped@[k].reason@ == skip_reason(invalid_records(orig.take(done))[k]@),
        decreases remaining@.len(),
    {
        assert(remaining@[0] == orig[done]);
        let record = remaining.remove(0);
        proof {
            assert(remaining@ =~= orig.skip(done + 1));
            assert(orig.take(done + 1) =~= orig.take(done).push(record));
            lemma_source_push(orig.take(done), record, *source_host, *dest_host);
        }
        match build_job(record, source_host, dest_host) {
            Ok(job) => {
                jobs.push(job);
            },
            Err(sk) => {
                skipped.push(sk);
            },
        }
        proof {
            done = done + 1;
        }
    }
    proof {
        assert(orig.take(done) =~= orig);
        lemma_every_record_accounted(orig, *source_host, *dest_host);
    }
    (jobs, skipped)
}

} // verus!
