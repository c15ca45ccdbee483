use mail_migrate::FailureEntry;
use mail_migrate::Outcome;
use mail_migrate::Scheduler;
use mail_migrate::Summary;
use mail_migrate::aggregate;
use mail_migrate::build_job;
use mail_migrate::classify;
use mail_migrate::default_concurrency;
use mail_migrate::effective_concurrency;
use mail_migrate::job_identity;
use mail_migrate::make_jobs;

fn rec(fields: &[&str]) -> Vec<String> {
    fields.iter().map(|f| f.to_string()).collect()
}

fn hosts() -> (String, String) {
    ("old.example.com".to_string(), "new.example.com".to_string())
}

fn valid_record(n: usize) -> Vec<String> {
    rec(&[
        &format!("user{}@old.example.com", n),
        &format!("oldpw{}", n),
        &format!("user{}@new.example.com", n),
        &format!("newpw{}", n),
    ])
}

/// Drives a whole batch through the scheduler, deciding each job's outcome
/// with `succeed`, and checks the concurrency bound is never exceeded.
fn run_batch(jobs: Vec<mail_migrate::Job>, max_concurrency: usize, succeed: &dyn Fn(&str) -> (bool, String)) -> Vec<Outcome> {
    let total = jobs.len();
    let mut sched = Scheduler::new(jobs, max_concurrency);
    let mut in_flight: Vec<mail_migrate::Job> = Vec::new();
    while !sched.is_finished() {
        while sched.can_dispatch() {
            let job = sched.dispatch();
            in_flight.push(job);
            assert!(in_flight.len() <= max_concurrency);
        }
        assert!(in_flight.len() <= max_concurrency);
        let job = in_flight.remove(0);
        let (ok, diag) = succeed(job.source_credential.email.as_str());
        sched.complete(classify(&job, ok, diag));
    }
    assert_eq!(sched.outcomes.len(), total);
    sched.outcomes
}

#[test]
fn three_valid_one_missing_password() {
    // Three valid records and one missing its source password: one record
    // is skipped and three jobs are dispatched.
    let (old_host, new_host) = hosts();
    let records = vec![
        valid_record(1),
        rec(&["user2@old.example.com", "", "user2@new.example.com", "newpw2"]),
        valid_record(3),
        valid_record(4),
    ];
    let (jobs, skipped) = make_jobs(records, &old_host, &new_host);
    assert_eq!(jobs.len(), 3);
    assert_eq!(skipped.len(), 1);
    assert_eq!(skipped[0].reason, "source password missing or empty");
    assert_eq!(skipped[0].raw_record[0], "user2@old.example.com");
    let outcomes = run_batch(jobs, 2, &|_| (true, String::new()));
    assert_eq!(outcomes.len(), 3);
}

#[test]
fn all_three_jobs_succeed() {
    // All three dispatched jobs succeed: the summary counts 3 successes,
    // 0 failures, 1 skipped, and retains no failure entries.
    let (old_host, new_host) = hosts();
    let records = vec![
        valid_record(1),
        rec(&["user2@old.example.com", "", "user2@new.example.com", "newpw2"]),
        valid_record(3),
        valid_record(4),
    ];
    let (jobs, skipped) = make_jobs(records, &old_host, &new_host);
    let outcomes = run_batch(jobs, 2, &|_| (true, String::new()));
    let summary = aggregate(&skipped, &outcomes);
    assert_eq!(summary.success_count, 3);
    assert_eq!(summary.failure_count, 0);
    assert_eq!(summary.skipped_count, 1);
    assert!(summary.failures.is_empty());
}

#[test]
fn one_failure_does_not_affect_others() {
    // One job's external operation exits non-zero with stderr "AUTH FAILED":
    // that job's outcome is a failure whose diagnostic contains the text,
    // and the other two jobs still produce outcomes.
    let (old_host, new_host) = hosts();
    let records = vec![valid_record(1), valid_record(2), valid_record(3)];
    let (jobs, skipped) = make_jobs(records, &old_host, &new_host);
    assert_eq!(jobs.len(), 3);
    let outcomes = run_batch(jobs, 1, &|email| {
        if email == "user2@old.example.com" {
            (false, "AUTH FAILED".to_string())
        } else {
            (true, String::new())
        }
    });
    assert_eq!(outcomes.len(), 3);
    let summary = aggregate(&skipped, &outcomes);
    assert_eq!(summary.success_count, 2);
    assert_eq!(summary.failure_count, 1);
    assert_eq!(summary.failures.len(), 1);
    assert_eq!(summary.failures[0].job_identity, "user2@old.example.com");
    assert!(summary.failures[0].diagnostic.contains("AUTH FAILED"));
}

#[test]
fn empty_record_source() {
    // Zero records: zero jobs, zero skipped records, an all-zero summary.
    let (old_host, new_host) = hosts();
    let (jobs, skipped) = make_jobs(Vec::new(), &old_host, &new_host);
    assert_eq!(jobs.len(), 0);
    assert_eq!(skipped.len(), 0);
    let outcomes = run_batch(jobs, 4, &|_| (true, String::new()));
    let summary = aggregate(&skipped, &outcomes);
    assert_eq!(summary.success_count, 0);
    assert_eq!(summary.failure_count, 0);
    assert_eq!(summary.skipped_count, 0);
    assert!(summary.failures.is_empty());
}

#[test]
fn every_record_accounted() {
    // Jobs plus skipped records always add up to the number of raw records.
    let (old_host, new_host) = hosts();
    let records = vec![
        valid_record(1),
        rec(&[]),
        rec(&["a@b", "pw"]),
        valid_record(2),
        rec(&["", "pw", "c@d", "pw2"]),
    ];
    let n = records.len();
    let (jobs, skipped) = make_jobs(records, &old_host, &new_host);
    assert_eq!(jobs.len() + skipped.len(), n);
    assert_eq!(jobs.len(), 2);
    assert_eq!(skipped.len(), 3);
}

#[test]
fn invalid_records_are_skipped_never_jobs() {
    // A record with any required field empty or absent lands in skipped,
    // whole, and no job carries its fields.
    let (old_host, new_host) = hosts();
    let bad = rec(&["solo@old.example.com", "pw", "", "pw2"]);
    let records = vec![valid_record(1), bad.clone()];
    let (jobs, skipped) = make_jobs(records, &old_host, &new_host);
    assert_eq!(skipped.len(), 1);
    assert_eq!(skipped[0].raw_record, bad);
    assert_eq!(skipped[0].reason, "destination email missing or empty");
    assert_eq!(jobs.len(), 1);
    assert_eq!(jobs[0].source_credential.email, "user1@old.example.com");
}

#[test]
fn build_job_fills_all_fields() {
    let (old_host, new_host) = hosts();
    let res = build_job(valid_record(7), &old_host, &new_host);
    let job = res.ok().expect("a valid record must become a job");
    assert_eq!(job.source_host, "old.example.com");
    assert_eq!(job.source_credential.email, "user7@old.example.com");
    assert_eq!(job.source_credential.password, "oldpw7");
    assert_eq!(job.dest_host, "new.example.com");
    assert_eq!(job.dest_credential.email, "user7@new.example.com");
    assert_eq!(job.dest_credential.password, "newpw7");
    assert_eq!(job_identity(&job), "user7@old.example.com");
}

#[test]
fn build_job_reports_first_missing_field() {
    let (old_host, new_host) = hosts();
    let cases: Vec<(Vec<String>, &str)> = vec![
        (rec(&["", "pw", "c@d", "pw2"]), "source email missing or empty"),
        (rec(&["a@b", "", "c@d", "pw2"]), "source password missing or empty"),
        (rec(&["a@b", "pw", "", "pw2"]), "destination email missing or empty"),
        (rec(&["a@b", "pw", "c@d", ""]), "destination password missing or empty"),
        (rec(&["a@b", "pw", "c@d"]), "destination password missing or empty"),
        (rec(&[]), "source email missing or empty"),
    ];
    for (record, want) in cases {
        let res = build_job(record.clone(), &old_host, &new_host);
        match res {
            Ok(_) => panic!("record {:?} must be skipped", record),
            Err(sk) => {
                assert_eq!(sk.reason, want);
                assert_eq!(sk.raw_record, record);
            },
        }
    }
}

#[test]
fn classify_maps_status_to_outcome() {
    let (old_host, new_host) = hosts();
    let job = build_job(valid_record(9), &old_host, &new_host).ok().unwrap();
    match classify(&job, true, String::new()) {
        Outcome::Success { job_identity } => assert_eq!(job_identity, "user9@old.example.com"),
        Outcome::Failure { .. } => panic!("a reported success must classify as Success"),
    }
    match classify(&job, false, "connection refused".to_string()) {
        Outcome::Success { .. } => panic!("a reported failure must classify as Failure"),
        Outcome::Failure { job_identity, diagnostic } => {
            assert_eq!(job_identity, "user9@old.example.com");
            assert_eq!(diagnostic, "connection refused");
        },
    }
    assert!(classify(&job, true, String::new()).is_success());
    assert!(!classify(&job, false, String::new()).is_success());
    assert_eq!(classify(&job, true, String::new()).identity(), "user9@old.example.com");
}

#[test]
fn concurrency_default_is_clamped() {
    // A computed default of 0 is clamped to 1 before scheduling begins.
    assert_eq!(effective_concurrency(0), 1);
    assert_eq!(effective_concurrency(1), 1);
    assert_eq!(effective_concurrency(3), 1);
    assert_eq!(effective_concurrency(4), 1);
    assert_eq!(effective_concurrency(8), 2);
    assert_eq!(effective_concurrency(17), 4);
    assert!(default_concurrency() >= 1);
}

#[test]
fn scheduler_never_exceeds_bound() {
    // With a bound of 2 over 5 jobs, at most 2 executions are ever in
    // flight, every job is dispatched exactly once, and one outcome per job
    // comes back.
    let (old_host, new_host) = hosts();
    let records = (1..=5).map(valid_record).collect::<Vec<_>>();
    let (jobs, _) = make_jobs(records, &old_host, &new_host);
    let mut sched = Scheduler::new(jobs, 2);
    let mut in_flight: Vec<mail_migrate::Job> = Vec::new();
    let mut dispatched_emails: Vec<String> = Vec::new();
    while !sched.is_finished() {
        while sched.can_dispatch() {
            let job = sched.dispatch();
            dispatched_emails.push(job.source_credential.email.clone());
            in_flight.push(job);
        }
        assert!(in_flight.len() <= 2);
        assert!(sched.in_flight_count() <= 2);
        let job = in_flight.remove(0);
        sched.complete(classify(&job, true, String::new()));
    }
    assert_eq!(sched.outcomes.len(), 5);
    // Dispatch happens exactly once per job, in input order.
    let want: Vec<String> = (1..=5).map(|n| format!("user{}@old.example.com", n)).collect();
    assert_eq!(dispatched_emails, want);
}

#[test]
fn scheduler_with_bound_one_still_finishes() {
    let (old_host, new_host) = hosts();
    let records = vec![valid_record(1), valid_record(2)];
    let (jobs, _) = make_jobs(records, &old_host, &new_host);
    let outcomes = run_batch(jobs, 1, &|_| (true, String::new()));
    assert_eq!(outcomes.len(), 2);
}

#[test]
fn aggregation_is_order_independent() {
    // Permuting the outcomes changes neither count nor the set of failure
    // entries, only possibly their order.
    let s1 = Outcome::Success { job_identity: "a@x".to_string() };
    let f1 = Outcome::Failure { job_identity: "b@x".to_string(), diagnostic: "quota".to_string() };
    let s2 = Outcome::Success { job_identity: "c@x".to_string() };
    let f2 = Outcome::Failure { job_identity: "d@x".to_string(), diagnostic: "auth".to_string() };
    let order_a = vec![s1.clone(), f1.clone(), s2.clone(), f2.clone()];
    let order_b = vec![f2, s2, f1, s1];
    let skipped = Vec::new();
    let sum_a = aggregate(&skipped, &order_a);
    let sum_b = aggregate(&skipped, &order_b);
    assert_eq!(sum_a.success_count, sum_b.success_count);
    assert_eq!(sum_a.failure_count, sum_b.failure_count);
    assert_eq!(sum_a.success_count, 2);
    assert_eq!(sum_a.failure_count, 2);
    let mut ids_a: Vec<(String, String)> =
        sum_a.failures.iter().map(|f| (f.job_identity.clone(), f.diagnostic.clone())).collect();
    let mut ids_b: Vec<(String, String)> =
        sum_b.failures.iter().map(|f| (f.job_identity.clone(), f.diagnostic.clone())).collect();
    ids_a.sort();
    ids_b.sort();
    assert_eq!(ids_a, ids_b);
}

#[test]
fn aggregate_retains_failures_in_arrival_order() {
    let f1 = Outcome::Failure { job_identity: "b@x".to_string(), diagnostic: "quota".to_string() };
    let f2 = Outcome::Failure { job_identity: "d@x".to_string(), diagnostic: "auth".to_string() };
    let s1 = Outcome::Success { job_identity: "a@x".to_string() };
    let outcomes = vec![f1, s1, f2];
    let skipped = Vec::new();
    let summary: Summary = aggregate(&skipped, &outcomes);
    assert_eq!(summary.success_count, 1);
    assert_eq!(summary.failure_count, 2);
    let entries: Vec<&FailureEntry> = summary.failures.iter().collect();
    assert_eq!(entries.len(), 2);
    assert_eq!(entries[0].job_identity, "b@x");
    assert_eq!(entries[0].diagnostic, "quota");
    assert_eq!(entries[1].job_identity, "d@x");
    assert_eq!(entries[1].diagnostic, "auth");
}
