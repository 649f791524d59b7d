use ripvid::download::CredentialSource;
use ripvid::errors::{DownloadError, FetchError};
use ripvid::retry::{
    attempt_config, classify_attempt, download_attempt_outcome, exhausted_error,
    fetch_attempt_outcome, smart_retry_step, AttemptOutcome, Backoff, BackoffAction, RetryAction,
    RetryAttemptOutcome, RetryState,
};

fn source(name: &str, usable: bool) -> CredentialSource {
    CredentialSource { name: name.to_string(), usable }
}

/// Runs the backoff against an operation that fails `errors.len()` times
/// in the given ways; returns the attempts made and the delays slept.
fn run_backoff(max_attempts: u32, errors: &[DownloadError]) -> (u32, Vec<u64>) {
    let mut state = Backoff::new(max_attempts);
    let mut attempts = 0;
    let mut delays = Vec::new();
    for error in errors {
        attempts += 1;
        let (next, action) = state.on_failure(error);
        state = next;
        match action {
            BackoffAction::GiveUp => return (attempts, delays),
            BackoffAction::RetryAfter(d) => delays.push(d),
        }
    }
    (attempts, delays)
}

#[test]
fn three_attempts_with_growing_delays() {
    let errors: Vec<DownloadError> =
        (0..10).map(|_| DownloadError::Network("down".to_string())).collect();
    let (attempts, delays) = run_backoff(3, &errors);
    assert_eq!(attempts, 3);
    assert_eq!(delays, vec![1, 2]);
    assert!(delays.windows(2).all(|w| w[0] <= w[1]));
}

#[test]
fn delays_double() {
    let errors: Vec<DownloadError> =
        (0..10).map(|_| DownloadError::RateLimit("slow".to_string())).collect();
    let (attempts, delays) = run_backoff(6, &errors);
    assert_eq!(attempts, 6);
    assert_eq!(delays, vec![1, 2, 4, 8, 16]);
}

#[test]
fn a_failure_that_is_not_transient_ends_the_run() {
    let errors = vec![
        DownloadError::ProcessFailed("x".to_string()),
        DownloadError::InvalidUrl("x".to_string()),
        DownloadError::Network("x".to_string()),
    ];
    let (attempts, delays) = run_backoff(5, &errors);
    assert_eq!(attempts, 2);
    assert_eq!(delays, vec![1]);
}

#[test]
fn one_attempt_is_always_made() {
    let errors = vec![DownloadError::Network("x".to_string()); 3];
    assert_eq!(run_backoff(0, &errors), (1, vec![]));
    assert_eq!(run_backoff(1, &errors), (1, vec![]));
}

#[test]
fn delay_stops_growing_at_the_largest_value() {
    let mut state = Backoff { attempts: 0, delay_secs: u64::MAX / 2 + 1, max_attempts: 10 };
    let (next, action) = state.on_failure(&DownloadError::Network("x".to_string()));
    assert_eq!(action, BackoffAction::RetryAfter(u64::MAX / 2 + 1));
    assert_eq!(next.delay_secs, u64::MAX);
    state = next;
    let (next, action) = state.on_failure(&DownloadError::Network("x".to_string()));
    assert_eq!(action, BackoffAction::RetryAfter(u64::MAX));
    assert_eq!(next.delay_secs, u64::MAX);
}

#[test]
fn attempts_are_classified_by_their_message() {
    assert_eq!(classify_attempt(&Ok("id".to_string())), AttemptOutcome::Succeeded);
    for text in ["Authentication required", "Sign in", "Private video", "login required", "members-only"] {
        let error = DownloadError::ProcessFailed(format!("ERROR: {} now", text));
        assert_eq!(classify_attempt(&Err(error)), AttemptOutcome::NeedsLogin);
    }
    assert_eq!(
        classify_attempt(&Err(DownloadError::ProcessFailed("no such file".to_string()))),
        AttemptOutcome::Failed
    );
    assert_eq!(
        classify_attempt(&Err(DownloadError::Network("This video is only available".to_string()))),
        AttemptOutcome::Failed
    );
    // The label of the error is part of its message.
    assert_eq!(
        classify_attempt(&Err(DownloadError::Authentication("x".to_string()))),
        AttemptOutcome::Failed
    );
}

/// Runs the fallback; returns the sources tried and the final action.
fn run_fallback(sources: &Vec<CredentialSource>, outcomes: &[AttemptOutcome]) -> (Vec<usize>, RetryAction) {
    let mut state = RetryState::NoAuth;
    let mut tried = Vec::new();
    for outcome in outcomes {
        let (next, action) = smart_retry_step(state, sources, *outcome);
        state = next;
        match action {
            RetryAction::Attempt(at) => tried.push(at),
            other => return (tried, other),
        }
    }
    panic!("the outcomes ran out before the fallback ended");
}

#[test]
fn other_failure_without_cookies_ends_at_once() {
    let sources = vec![source("firefox", true), source("chrome", true)];
    let (tried, action) = run_fallback(&sources, &[AttemptOutcome::Failed]);
    assert!(tried.is_empty());
    assert_eq!(action, RetryAction::ReportFailure);
}

#[test]
fn success_with_the_second_usable_source_ends_the_fallback() {
    let sources = vec![source("firefox", true), source("chrome", true), source("edge", true)];
    let outcomes =
        [AttemptOutcome::NeedsLogin, AttemptOutcome::Failed, AttemptOutcome::Succeeded];
    let (tried, action) = run_fallback(&sources, &outcomes);
    assert_eq!(tried, vec![0, 1]);
    assert_eq!(action, RetryAction::ReportSuccess);
    // After the end nothing more is tried.
    let (state, action) = smart_retry_step(RetryState::Done, &sources, AttemptOutcome::NeedsLogin);
    assert_eq!(state, RetryState::Done);
    assert_eq!(action, RetryAction::Nothing);
    let (state, action) = smart_retry_step(RetryState::Exhausted, &sources, AttemptOutcome::NeedsLogin);
    assert_eq!(state, RetryState::Exhausted);
    assert_eq!(action, RetryAction::Nothing);
}

#[test]
fn the_end_of_the_fallback_is_told_apart() {
    let sources = vec![source("firefox", true)];
    let (state, _) = smart_retry_step(RetryState::NoAuth, &sources, AttemptOutcome::Succeeded);
    assert_eq!(state, RetryState::Done);
    let (state, _) = smart_retry_step(RetryState::NoAuth, &sources, AttemptOutcome::Failed);
    assert_eq!(state, RetryState::Done);
    let (state, action) = smart_retry_step(RetryState::NoAuth, &sources, AttemptOutcome::NeedsLogin);
    assert_eq!(state, RetryState::TryCred(0));
    assert_eq!(action, RetryAction::Attempt(0));
    let (state, action) = smart_retry_step(state, &sources, AttemptOutcome::Failed);
    assert_eq!(state, RetryState::Exhausted);
    assert_eq!(action, RetryAction::ReportExhausted);
}

#[test]
fn sources_that_are_not_usable_are_skipped() {
    let sources = vec![source("firefox", false), source("chrome", true), source("edge", false)];
    let outcomes = [AttemptOutcome::NeedsLogin, AttemptOutcome::NeedsLogin];
    let (tried, action) = run_fallback(&sources, &outcomes);
    assert_eq!(tried, vec![1]);
    assert_eq!(action, RetryAction::ReportExhausted);
}

#[test]
fn every_usable_source_is_tried_before_giving_up() {
    let sources = vec![source("firefox", true), source("chrome", true), source("edge", true)];
    let outcomes = [
        AttemptOutcome::NeedsLogin,
        AttemptOutcome::Failed,
        AttemptOutcome::NeedsLogin,
        AttemptOutcome::Failed,
    ];
    let (tried, action) = run_fallback(&sources, &outcomes);
    assert_eq!(tried, vec![0, 1, 2]);
    assert_eq!(action, RetryAction::ReportExhausted);
}

#[test]
fn no_usable_source_means_exhausted() {
    let (tried, action) = run_fallback(&Vec::new(), &[AttemptOutcome::NeedsLogin]);
    assert!(tried.is_empty());
    assert_eq!(action, RetryAction::ReportExhausted);
}

#[test]
fn success_without_cookies() {
    let sources = vec![source("firefox", true)];
    let (tried, action) = run_fallback(&sources, &[AttemptOutcome::Succeeded]);
    assert!(tried.is_empty());
    assert_eq!(action, RetryAction::ReportSuccess);
}

#[test]
fn a_position_past_the_end_is_exhausted() {
    let sources = vec![source("firefox", true)];
    let (state, action) = smart_retry_step(RetryState::TryCred(7), &sources, AttemptOutcome::Failed);
    assert_eq!(state, RetryState::Exhausted);
    assert_eq!(action, RetryAction::ReportExhausted);
    let (state, action) =
        smart_retry_step(RetryState::TryCred(usize::MAX), &sources, AttemptOutcome::Failed);
    assert_eq!(state, RetryState::Exhausted);
    assert_eq!(action, RetryAction::ReportExhausted);
}

#[test]
fn attempt_configuration_names_the_source() {
    let sources = vec![source("firefox", true), source("chrome", true)];
    let config = attempt_config(&sources, 1);
    assert!(config.use_cookies);
    assert_eq!(config.browser, Some("chrome".to_string()));
}

#[test]
fn exhausted_error_is_an_authentication_error() {
    match exhausted_error() {
        DownloadError::Authentication(text) => {
            assert!(text.starts_with("Unable to download this video."));
            assert!(text.ends_with("for automatic authentication."));
        }
        other => panic!("unexpected error {:?}", other),
    }
}

#[test]
fn outcomes_of_attempts() {
    assert!(matches!(download_attempt_outcome(&Ok("id".to_string())), RetryAttemptOutcome::Success));
    match download_attempt_outcome(&Err(DownloadError::Network("down".to_string()))) {
        RetryAttemptOutcome::TransientFailure(reason) => assert_eq!(reason, "Network error: down"),
        other => panic!("unexpected outcome {:?}", other),
    }
    match download_attempt_outcome(&Err(DownloadError::Cancelled)) {
        RetryAttemptOutcome::PermanentFailure(reason) => {
            assert_eq!(reason, "Download cancelled by user")
        }
        other => panic!("unexpected outcome {:?}", other),
    }
    assert!(matches!(fetch_attempt_outcome(&Ok(())), RetryAttemptOutcome::Success));
    match fetch_attempt_outcome(&Err(FetchError::Network("HTTP 503".to_string()))) {
        RetryAttemptOutcome::TransientFailure(reason) => assert_eq!(reason, "HTTP 503"),
        other => panic!("unexpected outcome {:?}", other),
    }
    match fetch_attempt_outcome(&Err(FetchError::ChecksumUnavailable("f".to_string()))) {
        RetryAttemptOutcome::PermanentFailure(reason) => assert_eq!(reason, "Checksum not found for f"),
        other => panic!("unexpected outcome {:?}", other),
    }
}
