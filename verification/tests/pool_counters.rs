use raytrace_core::thread_pool::SharedState;

#[test]
fn new_pool_is_finished() {
    let state = SharedState::new();
    assert_eq!(state.jobs_queued(), 0);
    assert_eq!(state.jobs_running(), 0);
    assert_eq!(state.threads_paniced(), 0);
    assert!(state.is_finished());
    assert!(!state.has_paniced());
}

#[test]
fn counters_follow_job_lifecycle() {
    let mut state = SharedState::new();

    state.job_queued();
    state.job_queued();
    state.job_queued();
    assert_eq!(state.jobs_queued(), 3);
    assert_eq!(state.jobs_running(), 0);
    assert!(!state.is_finished());

    state.job_starting();
    assert_eq!(state.jobs_queued(), 2);
    assert_eq!(state.jobs_running(), 1);
    assert!(!state.is_finished());

    state.job_finished();
    assert_eq!(state.jobs_queued(), 2);
    assert_eq!(state.jobs_running(), 0);
    assert!(!state.is_finished());

    state.job_starting();
    state.job_starting();
    assert_eq!(state.jobs_queued(), 0);
    assert_eq!(state.jobs_running(), 2);
    assert!(!state.is_finished());

    state.job_finished();
    state.job_finished();
    assert_eq!(state.jobs_queued(), 0);
    assert_eq!(state.jobs_running(), 0);
    assert!(state.is_finished());
}

#[test]
fn caught_panic_is_counted_without_losing_a_worker() {
    let mut state = SharedState::new();
    state.job_queued();
    state.job_starting();
    // The worker catches the job's panic: the running count still comes back
    // down, and the failure is recorded.
    state.job_finished();
    state.job_paniced();

    assert_eq!(state.threads_paniced(), 1);
    assert!(state.has_paniced());
    assert!(state.is_finished());
}
