use print_jobs::errors::PrintError;
use print_jobs::options::PrinterJobOptions;
use print_jobs::policy::SubmitEnv;
use print_jobs::registry::PrinterCore;
use print_jobs::state::PrinterJobState;

fn sim_env() -> SubmitEnv {
    SubmitEnv { simulate: true, printer_found: false, file_exists: false }
}

#[test]
fn test_generate_job_id() {
    // Job identifiers are sequential and start from the seed.
    let mut core = PrinterCore::new();
    let id1 = core.generate_job_id();
    let id2 = core.generate_job_id();

    assert!(id1 >= 1000);
    assert_eq!(id2, id1 + 1);
}

#[test]
fn test_cleanup_old_jobs() {
    // The sweep returns the number of evicted records; zero is valid.
    let mut core = PrinterCore::new();
    let result = core.cleanup_old_jobs(3600, 10_000);
    assert_eq!(result, 0);
}

#[test]
fn test_cleanup_old_jobs_ffi() {
    let mut core = PrinterCore::new();
    let result = core.cleanup_old_jobs(3600, 10_000);
    let _ = result;
}

#[test]
fn test_get_job_status_ffi() {
    let core = PrinterCore::new();
    assert!(core.get_job_status(99999).is_none());
}

#[test]
fn test_get_job_status_nonexistent() {
    let core = PrinterCore::new();
    assert!(core.get_job_status(99999).is_none());
}

#[test]
fn test_printer_exists_in_simulation_mode() {
    assert!(PrinterCore::printer_exists("Simulated Printer", &sim_env()));
    assert!(!PrinterCore::printer_exists("NonExistent Printer", &sim_env()));
}

#[test]
fn test_find_printer_by_name_in_simulation_mode() {
    // Resolution under simulation accepts exactly the synthetic printer name.
    assert!(PrinterCore::printer_exists("Simulated Printer", &sim_env()));
    assert!(!PrinterCore::printer_exists("NonExistent Printer", &sim_env()));
}

#[test]
fn test_printer_exists_real_mode_follows_subsystem() {
    let found = SubmitEnv { simulate: false, printer_found: true, file_exists: true };
    let missing = SubmitEnv { simulate: false, printer_found: false, file_exists: true };
    assert!(PrinterCore::printer_exists("Office Printer", &found));
    assert!(!PrinterCore::printer_exists("Office Printer", &missing));
}

#[test]
fn test_get_all_printer_names_in_simulation_mode() {
    let names = PrinterCore::get_all_printer_names(true, Vec::new());
    assert_eq!(names, vec!["Simulated Printer"]);
}

#[test]
fn test_get_all_printer_names_real_mode_passes_through() {
    let reported = vec!["A".to_string(), "B".to_string()];
    let names = PrinterCore::get_all_printer_names(false, reported.clone());
    assert_eq!(names, reported);
}

#[test]
fn test_print_file_error_codes() {
    let mut core = PrinterCore::new();
    let env = sim_env();

    // Successful print job.
    let result = core.print_file("Simulated Printer", "/path/to/file.pdf", None, &env, 100);
    assert!(result.is_ok());

    // A path with the missing-file marker.
    let result = core.print_file(
        "Simulated Printer",
        "/path/that/does_not_exist/file.pdf",
        None,
        &env,
        100,
    );
    assert_eq!(result, Err(PrintError::FileNotFound));

    // A path with the forced-failure marker.
    let result = core.print_file("Simulated Printer", "/path/to/fail-test.pdf", None, &env, 100);
    assert_eq!(result, Err(PrintError::SimulatedFailure));

    // Print bytes.
    let data = b"Hello, printer!";
    let result = core.print_bytes("Simulated Printer", data, None, &env, 100);
    assert!(result.is_ok());

    // Print with job options.
    let job_options = Some(PrinterJobOptions::with_name_and_properties(
        "Test Job".to_string(),
        vec![("copies".to_string(), "2".to_string())],
    ));
    let result = core.print_file("Simulated Printer", "/path/to/file.pdf", job_options, &env, 100);
    assert!(result.is_ok());
}

#[test]
fn test_job_state_tracking() {
    let mut core = PrinterCore::new();
    let env = sim_env();

    let job_id = core
        .print_file("Simulated Printer", "/jobs/state-transition-test.pdf", None, &env, 50)
        .unwrap();

    // Initial state.
    let job = core.get_job_status(job_id).unwrap();
    assert_eq!(job.state, PrinterJobState::PENDING);
    assert!(job.processed_at.is_none());
    assert!(job.completed_at.is_none());

    // Transition to processing.
    core.mark_processing(job_id, 60);
    let job = core.get_job_status(job_id).unwrap();
    assert_eq!(job.state, PrinterJobState::PROCESSING);
    assert!(job.processed_at.is_some());
    assert!(job.completed_at.is_none());

    // Transition to completed.
    core.mark_terminal(job_id, Ok(()), 70);
    let job = core.get_job_status(job_id).unwrap();
    assert_eq!(job.state, PrinterJobState::COMPLETED);
    assert!(job.processed_at.is_some());
    assert!(job.completed_at.is_some());

    // Cleanup.
    core.cleanup_old_jobs(0, 70);
    assert!(core.get_job_status(job_id).is_none());
}

#[test]
fn test_timestamps_ordered_through_lifecycle() {
    let mut core = PrinterCore::new();
    let env = sim_env();

    let id = core.print_file("Simulated Printer", "/jobs/a.txt", None, &env, 500).unwrap();
    core.mark_processing(id, 510);
    core.mark_terminal(id, Ok(()), 530);

    let job = core.get_job_status(id).unwrap();
    let processed = job.processed_at.unwrap();
    let completed = job.completed_at.unwrap();
    assert!(job.created_at <= processed);
    assert!(processed <= completed);
}

#[test]
fn test_timestamps_ordered_under_backwards_clock() {
    // The recorded times stay ordered even when the clock steps backwards.
    let mut core = PrinterCore::new();
    let env = sim_env();

    let id = core.print_file("Simulated Printer", "/jobs/a.txt", None, &env, 500).unwrap();
    core.mark_processing(id, 400);
    core.mark_terminal(id, Ok(()), 300);

    let job = core.get_job_status(id).unwrap();
    let processed = job.processed_at.unwrap();
    let completed = job.completed_at.unwrap();
    assert!(job.created_at <= processed);
    assert!(processed <= completed);
}

#[test]
fn test_error_message_iff_cancelled() {
    let mut core = PrinterCore::new();
    let env = sim_env();

    let ok_id = core.print_file("Simulated Printer", "/jobs/good.pdf", None, &env, 10).unwrap();
    let bad_id = core.print_file("Simulated Printer", "/jobs/bad.pdf", None, &env, 11).unwrap();

    core.mark_processing(ok_id, 12);
    core.mark_processing(bad_id, 12);
    core.mark_terminal(ok_id, Ok(()), 13);
    core.mark_terminal(bad_id, Err("printer on fire".to_string()), 13);

    let ok_job = core.get_job_status(ok_id).unwrap();
    assert_eq!(ok_job.state, PrinterJobState::COMPLETED);
    assert!(ok_job.error_message.is_none());

    let bad_job = core.get_job_status(bad_id).unwrap();
    assert_eq!(bad_job.state, PrinterJobState::CANCELLED);
    assert_eq!(bad_job.error_message, Some("printer on fire".to_string()));

    // Active records never carry a message.
    let pending_id = core.print_file("Simulated Printer", "/jobs/new.pdf", None, &env, 14).unwrap();
    assert!(core.get_job_status(pending_id).unwrap().error_message.is_none());
}

#[test]
fn test_mark_transitions_are_guarded() {
    let mut core = PrinterCore::new();
    let env = sim_env();

    // Marking an absent identifier is a no-op.
    core.mark_processing(424242, 10);
    core.mark_terminal(424242, Ok(()), 10);

    // A terminal transition needs a started record: straight from PENDING it
    // is a no-op.
    let id = core.print_file("Simulated Printer", "/jobs/a.txt", None, &env, 10).unwrap();
    core.mark_terminal(id, Ok(()), 20);
    assert_eq!(core.get_job_status(id).unwrap().state, PrinterJobState::PENDING);

    // A second start transition does not reset the record.
    core.mark_processing(id, 30);
    let first = core.get_job_status(id).unwrap().processed_at;
    core.mark_processing(id, 40);
    assert_eq!(core.get_job_status(id).unwrap().processed_at, first);
}

#[test]
fn test_sweep_zero_removes_terminal_keeps_active() {
    let mut core = PrinterCore::new();
    let env = sim_env();

    let done = core.print_file("Simulated Printer", "/jobs/done.pdf", None, &env, 10).unwrap();
    let failed = core.print_file("Simulated Printer", "/jobs/failing.pdf", None, &env, 10).unwrap();
    let active = core.print_file("Simulated Printer", "/jobs/active.pdf", None, &env, 10).unwrap();

    core.mark_processing(done, 11);
    core.mark_terminal(done, Ok(()), 12);
    core.mark_processing(failed, 11);
    core.mark_terminal(failed, Err("jam".to_string()), 12);
    core.mark_processing(active, 11);

    let removed = core.cleanup_old_jobs(0, 1000);
    assert_eq!(removed, 2);
    assert!(core.get_job_status(done).is_none());
    assert!(core.get_job_status(failed).is_none());
    assert_eq!(core.get_job_status(active).unwrap().state, PrinterJobState::PROCESSING);

    // Idempotent: a second sweep removes nothing.
    let removed_again = core.cleanup_old_jobs(0, 1000);
    assert_eq!(removed_again, 0);
    assert!(core.get_job_status(active).is_some());
}

#[test]
fn test_sweep_respects_age_threshold() {
    let mut core = PrinterCore::new();
    let env = sim_env();

    let old_job = core.print_file("Simulated Printer", "/jobs/old.pdf", None, &env, 100).unwrap();
    let young_job =
        core.print_file("Simulated Printer", "/jobs/young.pdf", None, &env, 950).unwrap();
    for id in [old_job, young_job] {
        core.mark_processing(id, 960);
        core.mark_terminal(id, Ok(()), 970);
    }

    // At time 1000 the first record is 900 seconds old, the second 50.
    let removed = core.cleanup_old_jobs(100, 1000);
    assert_eq!(removed, 1);
    assert!(core.get_job_status(old_job).is_none());
    assert!(core.get_job_status(young_job).is_some());
}

#[test]
fn test_job_ids_distinct_across_submissions() {
    let mut core = PrinterCore::new();
    let env = sim_env();

    let mut ids = Vec::new();
    for i in 0..5u64 {
        let id = core.print_file("Simulated Printer", "/jobs/a.txt", None, &env, i).unwrap();
        ids.push(id);
    }
    // Strictly increasing in issuance order.
    for w in ids.windows(2) {
        assert!(w[0] < w[1]);
    }
    // Identifiers survive eviction: never reused.
    core.cleanup_old_jobs(0, 1000);
    let next = core.print_file("Simulated Printer", "/jobs/b.txt", None, &env, 9).unwrap();
    assert!(next > ids[4]);
}

#[test]
fn test_listings_partition_by_state_and_printer() {
    let mut core = PrinterCore::new();
    let env = sim_env();

    let a = core.print_file("Simulated Printer", "/jobs/a.pdf", None, &env, 1).unwrap();
    let b = core.print_file("Simulated Printer", "/jobs/b.pdf", None, &env, 2).unwrap();
    core.mark_processing(b, 3);
    core.mark_terminal(b, Ok(()), 4);

    let active = core.get_active_jobs();
    assert_eq!(active.len(), 1);
    assert_eq!(active[0].id, a);

    let history = core.get_job_history();
    assert_eq!(history.len(), 1);
    assert_eq!(history[0].id, b);

    assert_eq!(core.get_active_jobs_for_printer("Simulated Printer").len(), 1);
    assert_eq!(core.get_active_jobs_for_printer("Other Printer").len(), 0);
    assert_eq!(core.get_job_history_for_printer("Simulated Printer").len(), 1);
    assert_eq!(core.get_all_jobs_for_printer("Simulated Printer").len(), 2);
    assert_eq!(core.get_all_jobs_for_printer("Other Printer").len(), 0);
}

#[test]
fn test_poll_job_completion_steps() {
    let mut core = PrinterCore::new();
    let env = sim_env();

    // A missing identifier polls as done.
    assert!(core.poll_job_completion(777));

    let id = core.print_file("Simulated Printer", "/jobs/a.txt", None, &env, 1).unwrap();
    assert!(!core.poll_job_completion(id));
    core.mark_processing(id, 2);
    assert!(!core.poll_job_completion(id));
    core.mark_terminal(id, Ok(()), 3);
    assert!(core.poll_job_completion(id));
}

#[test]
fn test_job_history_sorted_most_recent_first() {
    let mut core = PrinterCore::new();
    let env = sim_env();

    let first = core.print_file("Simulated Printer", "/jobs/a.pdf", None, &env, 300).unwrap();
    let second = core.print_file("Simulated Printer", "/jobs/b.pdf", None, &env, 100).unwrap();
    let third = core.print_file("Simulated Printer", "/jobs/c.pdf", None, &env, 200).unwrap();
    for id in [first, second, third] {
        core.mark_processing(id, 400);
        core.mark_terminal(id, Ok(()), 410);
    }

    let history = core.get_job_history_sorted("Simulated Printer");
    assert_eq!(history.len(), 3);
    let ids: Vec<u64> = history.iter().map(|j| j.id).collect();
    assert_eq!(ids, vec![first, third, second]);
    assert!(history[0].created_at >= history[1].created_at);
    assert!(history[1].created_at >= history[2].created_at);
}

#[test]
fn test_legacy_status_names() {
    assert_eq!(PrinterJobState::PENDING.as_legacy_status(), "queued");
    assert_eq!(PrinterJobState::PROCESSING.as_legacy_status(), "printing");
    assert_eq!(PrinterJobState::COMPLETED.as_legacy_status(), "completed");
    assert_eq!(PrinterJobState::CANCELLED.as_legacy_status(), "failed");
    assert_eq!(PrinterJobState::PAUSED.as_legacy_status(), "unknown");
    assert_eq!(PrinterJobState::UNKNOWN.as_legacy_status(), "unknown");
}

#[test]
fn test_get_job_for_printer_checks_ownership() {
    let mut core = PrinterCore::new();
    let env = sim_env();
    let id = core.print_file("Simulated Printer", "/jobs/a.pdf", None, &env, 1).unwrap();

    assert!(core.get_job_for_printer("Simulated Printer", id).is_some());
    assert!(core.get_job_for_printer("Another Printer", id).is_none());
    assert!(core.get_job_for_printer("Simulated Printer", id + 1).is_none());
}

#[test]
fn test_cleanup_scoped_to_one_printer() {
    let mut core = PrinterCore::new();
    let env = sim_env();

    let here = core.print_file("Simulated Printer", "/jobs/here.pdf", None, &env, 10).unwrap();
    core.mark_processing(here, 11);
    core.mark_terminal(here, Ok(()), 12);

    // A terminal record of another printer, submitted in real mode.
    let other_env = SubmitEnv { simulate: false, printer_found: true, file_exists: true };
    let there = core.print_file("Office Printer", "/jobs/there.pdf", None, &other_env, 10).unwrap();
    core.mark_processing(there, 11);
    core.mark_terminal(there, Ok(()), 12);

    let removed = core.cleanup_old_jobs_for_printer("Simulated Printer", 0, 100);
    assert_eq!(removed, 1);
    assert!(core.get_job_status(here).is_none());
    assert!(core.get_job_status(there).is_some());
}
