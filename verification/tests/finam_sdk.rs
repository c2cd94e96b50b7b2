use finam_sdk::Action;
use finam_sdk::Event;
use finam_sdk::FetchError;
use finam_sdk::FinamSdkError;
use finam_sdk::FinamSdkInterceptor;
use finam_sdk::HeaderEntry;
use finam_sdk::REFRESH_INTERVAL_MS;
use finam_sdk::RETRY_BACKOFF_MS;
use finam_sdk::RefreshConfig;
use finam_sdk::RefreshScheduler;
use finam_sdk::Request;
use finam_sdk::SchedulerState;
use finam_sdk::check_header_value;

fn cache_with(token: &str) -> FinamSdkInterceptor {
    FinamSdkInterceptor::new(Ok(token.to_string())).expect("construction must succeed")
}

#[test]
fn construction_success_returns_first_token() {
    let cache = cache_with("tok-1");
    assert_eq!(cache.get_jwt_token(), Ok("tok-1".to_string()));
}

#[test]
fn construction_transport_failure_is_atomic() {
    let r = FinamSdkInterceptor::new(Err(FetchError::TransportFailure));
    assert_eq!(r.err(), Some(FinamSdkError::Transport));
}

#[test]
fn construction_remote_rejection_is_atomic() {
    let r = FinamSdkInterceptor::new(Err(FetchError::RemoteRejection));
    assert_eq!(r.err(), Some(FinamSdkError::Status));
}

#[test]
fn construction_rejects_empty_token() {
    let r = FinamSdkInterceptor::new(Ok(String::new()));
    assert_eq!(r.err(), Some(FinamSdkError::Status));
}

#[test]
fn token_read_is_never_empty() {
    let mut cache = cache_with("tok-1");
    assert!(!cache.get_jwt_token().unwrap().is_empty());
    cache.store("tok-2".to_string());
    assert!(!cache.get_jwt_token().unwrap().is_empty());
}

#[test]
fn store_replaces_whole_token() {
    let mut cache = cache_with("tok-1");
    cache.store("tok-2".to_string());
    assert_eq!(cache.get_jwt_token(), Ok("tok-2".to_string()));
}

#[test]
fn header_value_rule() {
    assert!(check_header_value("tok-1"));
    assert!(check_header_value("a\tb"));
    assert!(check_header_value(""));
    assert!(!check_header_value("line\nbreak"));
    assert!(!check_header_value("del\u{7f}ete"));
    assert!(!check_header_value("\r"));
}

#[test]
fn decorator_attaches_token_under_authorization_key() {
    let cache = cache_with("Bearer tok-1");
    let mut request = Request::new();
    request.metadata.push(HeaderEntry {
        key: "content-type".to_string(),
        value: "application/grpc".to_string(),
    });
    assert_eq!(cache.call(&mut request), Ok(()));
    assert_eq!(request.metadata.len(), 2);
    assert_eq!(request.metadata[0].key, "content-type");
    assert_eq!(request.metadata[0].value, "application/grpc");
    assert_eq!(request.metadata[1].key, "authorization");
    assert_eq!(request.metadata[1].value, "Bearer tok-1");
}

#[test]
fn decorator_rejects_illegal_token_and_leaves_request_alone() {
    let cache = cache_with("bad\ntoken");
    let mut request = Request::new();
    request.metadata.push(HeaderEntry {
        key: "content-type".to_string(),
        value: "application/grpc".to_string(),
    });
    assert_eq!(cache.call(&mut request), Err(FinamSdkError::InvalidMetadataValue));
    assert_eq!(request.metadata.len(), 1);
    assert_eq!(request.metadata[0].key, "content-type");
    assert_eq!(request.metadata[0].value, "application/grpc");
}

#[test]
fn decorator_accepts_tab_in_token() {
    let cache = cache_with("a\tb");
    let mut request = Request::new();
    assert_eq!(cache.call(&mut request), Ok(()));
    assert_eq!(request.metadata[0].value, "a\tb");
}

#[test]
fn default_config_uses_reference_durations() {
    let config = RefreshConfig::default();
    assert_eq!(config.interval_ms, REFRESH_INTERVAL_MS);
    assert_eq!(config.interval_ms, 600_000);
    assert_eq!(config.backoff_ms, RETRY_BACKOFF_MS);
    assert_eq!(config.backoff_ms, 5_000);
}

#[test]
fn scheduler_starts_waiting_one_interval() {
    let sched = RefreshScheduler::new(RefreshConfig { interval_ms: 50, backoff_ms: 10 });
    assert_eq!(sched.state, SchedulerState::Waiting);
    assert_eq!(sched.initial_action(), Action::Sleep(50));
}

#[test]
fn successful_refresh_stores_token_and_waits_full_interval() {
    let mut cache = cache_with("tok-1");
    let mut sched = RefreshScheduler::new(RefreshConfig { interval_ms: 50, backoff_ms: 10 });
    assert_eq!(sched.on_event(Event::WaitElapsed, &mut cache), Action::Fetch);
    assert_eq!(sched.state, SchedulerState::Refreshing);
    let a = sched.on_event(Event::FetchSucceeded("tok-2".to_string()), &mut cache);
    assert_eq!(a, Action::Sleep(50));
    assert_eq!(sched.state, SchedulerState::Waiting);
    assert_eq!(cache.get_jwt_token(), Ok("tok-2".to_string()));
}

#[test]
fn empty_refresh_result_counts_as_failure() {
    let mut cache = cache_with("tok-1");
    let mut sched = RefreshScheduler::new(RefreshConfig { interval_ms: 50, backoff_ms: 10 });
    sched.on_event(Event::WaitElapsed, &mut cache);
    let a = sched.on_event(Event::FetchSucceeded(String::new()), &mut cache);
    assert_eq!(a, Action::Sleep(10));
    assert_eq!(sched.state, SchedulerState::RetryBackoff);
    assert_eq!(cache.get_jwt_token(), Ok("tok-1".to_string()));
}

#[test]
fn shutdown_preempts_interval_wait() {
    let mut cache = cache_with("tok-1");
    let mut sched = RefreshScheduler::new(RefreshConfig::default());
    let a = sched.on_event(Event::ShutdownRequested, &mut cache);
    assert_eq!(a, Action::Stop);
    assert_eq!(sched.state, SchedulerState::ShuttingDown);
    let a = sched.on_event(Event::ShutdownRequested, &mut cache);
    assert_eq!(a, Action::Stop);
    assert_eq!(sched.state, SchedulerState::Terminated);
}

#[test]
fn shutdown_preempts_backoff_wait() {
    let mut cache = cache_with("tok-1");
    let mut sched = RefreshScheduler::new(RefreshConfig::default());
    sched.on_event(Event::WaitElapsed, &mut cache);
    sched.on_event(Event::FetchFailed(FetchError::TransportFailure), &mut cache);
    assert_eq!(sched.state, SchedulerState::RetryBackoff);
    let a = sched.on_event(Event::ShutdownRequested, &mut cache);
    assert_eq!(a, Action::Stop);
    assert_eq!(sched.state, SchedulerState::ShuttingDown);
}

#[test]
fn terminated_task_writes_no_further_token() {
    let mut cache = cache_with("tok-1");
    let mut sched = RefreshScheduler::new(RefreshConfig::default());
    sched.on_event(Event::ShutdownRequested, &mut cache);
    sched.on_event(Event::ShutdownRequested, &mut cache);
    assert_eq!(sched.state, SchedulerState::Terminated);
    let a = sched.on_event(Event::FetchSucceeded("late".to_string()), &mut cache);
    assert_eq!(a, Action::Stop);
    assert_eq!(sched.state, SchedulerState::Terminated);
    assert_eq!(cache.get_jwt_token(), Ok("tok-1".to_string()));
}

#[test]
fn failed_refreshes_retry_at_backoff_cadence() {
    // Three consecutive failures, then a forced success: four fetch
    // attempts, the last good token served throughout, and only
    // backoff-length waits between the attempts.
    let mut cache = cache_with("tok-1");
    let mut sched = RefreshScheduler::new(RefreshConfig { interval_ms: 50, backoff_ms: 10 });
    let mut fetches = 0;
    assert_eq!(sched.on_event(Event::WaitElapsed, &mut cache), Action::Fetch);
    fetches += 1;
    for _ in 0..3 {
        let a = sched.on_event(Event::FetchFailed(FetchError::RemoteRejection), &mut cache);
        assert_eq!(a, Action::Sleep(10));
        assert_eq!(cache.get_jwt_token(), Ok("tok-1".to_string()));
        let a = sched.on_event(Event::WaitElapsed, &mut cache);
        assert_eq!(a, Action::Fetch);
        fetches += 1;
    }
    let a = sched.on_event(Event::FetchSucceeded("tok-2".to_string()), &mut cache);
    assert_eq!(a, Action::Sleep(50));
    assert_eq!(fetches, 4);
    assert_eq!(cache.get_jwt_token(), Ok("tok-2".to_string()));
}

#[test]
fn cache_refresh_scenario() {
    // Construct against a fake transport returning "tok-1"; the fetcher
    // then fails twice and returns "tok-2"; finally the cache is shut
    // down and the background loop observably stops.
    let mut outcomes = vec![
        Ok("tok-1".to_string()),
        Err(FetchError::TransportFailure),
        Err(FetchError::TransportFailure),
        Ok("tok-2".to_string()),
    ]
    .into_iter();

    let mut cache = FinamSdkInterceptor::new(outcomes.next().unwrap()).expect("first fetch ok");
    assert_eq!(cache.get_jwt_token(), Ok("tok-1".to_string()));

    let config = RefreshConfig { interval_ms: 50, backoff_ms: 10 };
    let mut sched = RefreshScheduler::new(config);
    let mut steps = 0;
    let mut backoff_waits = 0;
    let mut action = sched.initial_action();
    assert_eq!(action, Action::Sleep(50));
    // The driving loop, with the timed waits elided: each wait elapses at
    // once, and the fake transport supplies the fetch outcomes.
    while action != Action::Stop && steps < 100 {
        steps += 1;
        let event = match action {
            Action::Sleep(ms) => {
                if ms == 10 {
                    backoff_waits += 1;
                }
                Event::WaitElapsed
            }
            Action::Fetch => match outcomes.next() {
                Some(Ok(token)) => Event::FetchSucceeded(token),
                Some(Err(e)) => Event::FetchFailed(e),
                None => Event::ShutdownRequested,
            },
            Action::Stop => unreachable!(),
        };
        action = sched.on_event(event, &mut cache);
        if sched.state == SchedulerState::Waiting && outcomes.len() == 0 {
            break;
        }
    }
    assert_eq!(cache.get_jwt_token(), Ok("tok-2".to_string()));
    assert_eq!(backoff_waits, 2);

    // Drop of the last handle delivers the shutdown signal; once the task
    // reaches Terminated every further step asks the loop to stop, so it
    // observably stops running.
    sched.on_event(Event::ShutdownRequested, &mut cache);
    assert_eq!(sched.state, SchedulerState::ShuttingDown);
    sched.on_event(Event::WaitElapsed, &mut cache);
    assert_eq!(sched.state, SchedulerState::Terminated);
    assert_eq!(sched.on_event(Event::WaitElapsed, &mut cache), Action::Stop);
    assert_eq!(cache.get_jwt_token(), Ok("tok-2".to_string()));
}
