use ripvid::catalog::ManagedBinary;
use ripvid::fetcher::StepOutcome;
use ripvid::provision::{
    advance_walk, aggregate_outcomes, all_sources_failed, begin_sources, begin_walk,
    missing_binaries, next_source, unmarked_binaries, walk_failure, work_for, BinaryOutcome,
    Presence, SourceState, Work,
};

#[test]
fn missing_binaries_in_order() {
    let none = Presence { yt_dlp: false, ffmpeg: false, ffprobe: false };
    assert_eq!(
        missing_binaries(none),
        vec![ManagedBinary::YtDlp, ManagedBinary::Ffmpeg, ManagedBinary::Ffprobe]
    );
    let some = Presence { yt_dlp: true, ffmpeg: false, ffprobe: true };
    assert_eq!(missing_binaries(some), vec![ManagedBinary::Ffmpeg]);
    let two = Presence { yt_dlp: false, ffmpeg: true, ffprobe: false };
    assert_eq!(missing_binaries(two), vec![ManagedBinary::YtDlp, ManagedBinary::Ffprobe]);
    let all = Presence { yt_dlp: true, ffmpeg: true, ffprobe: true };
    assert!(missing_binaries(all).is_empty());
}

/// Walks through `count` sources; returns the positions tried and the end.
fn walk(count: usize, outcomes: &[StepOutcome]) -> (Vec<usize>, SourceState) {
    let mut state = begin_sources(count);
    let mut tried = Vec::new();
    let mut next = outcomes.iter();
    while let SourceState::Trying(at) = state {
        tried.push(at);
        let outcome = *next.next().expect("an outcome for every attempt");
        state = next_source(count, state, outcome);
    }
    (tried, state)
}

#[test]
fn all_sources_failing_are_tried_once_each_in_order() {
    let fail = StepOutcome::Failed;
    assert_eq!(walk(4, &[fail; 4]), (vec![0, 1, 2, 3], SourceState::Exhausted));
    assert_eq!(walk(1, &[fail]), (vec![0], SourceState::Exhausted));
    assert_eq!(walk(0, &[]), (vec![], SourceState::Exhausted));
}

#[test]
fn the_walk_ends_with_the_first_source_that_works() {
    let (tried, end) = walk(3, &[StepOutcome::Failed, StepOutcome::Succeeded]);
    assert_eq!(tried, vec![0, 1]);
    assert_eq!(end, SourceState::Installed(1));
    let (tried, end) = walk(3, &[StepOutcome::Succeeded]);
    assert_eq!(tried, vec![0]);
    assert_eq!(end, SourceState::Installed(0));
}

#[test]
fn a_walk_that_is_over_stays_over() {
    assert_eq!(
        next_source(3, SourceState::Installed(1), StepOutcome::Failed),
        SourceState::Installed(1)
    );
    assert_eq!(
        next_source(3, SourceState::Exhausted, StepOutcome::Succeeded),
        SourceState::Exhausted
    );
    assert_eq!(
        next_source(3, SourceState::Trying(usize::MAX), StepOutcome::Failed),
        SourceState::Exhausted
    );
}

#[test]
fn failure_of_all_sources_is_named() {
    assert_eq!(all_sources_failed(ManagedBinary::Ffmpeg), "All ffmpeg sources failed");
    assert_eq!(all_sources_failed(ManagedBinary::Ffprobe), "All ffprobe sources failed");
    assert_eq!(all_sources_failed(ManagedBinary::YtDlp), "All yt-dlp sources failed");
}

fn ok(binary: ManagedBinary) -> BinaryOutcome {
    BinaryOutcome { binary, error: None }
}

fn failed(binary: ManagedBinary, error: &str) -> BinaryOutcome {
    BinaryOutcome { binary, error: Some(error.to_string()) }
}

#[test]
fn success_of_all_is_success() {
    assert!(aggregate_outcomes(&vec![ok(ManagedBinary::YtDlp), ok(ManagedBinary::Ffmpeg)]).is_ok());
    assert!(aggregate_outcomes(&Vec::new()).is_ok());
}

#[test]
fn failures_are_listed_with_their_errors() {
    let outcomes = vec![
        failed(ManagedBinary::YtDlp, "HTTP 500"),
        ok(ManagedBinary::Ffmpeg),
        failed(ManagedBinary::Ffprobe, "All ffprobe sources failed"),
    ];
    let error = aggregate_outcomes(&outcomes).unwrap_err();
    assert_eq!(
        error.failures,
        vec![
            (ManagedBinary::YtDlp, "HTTP 500".to_string()),
            (ManagedBinary::Ffprobe, "All ffprobe sources failed".to_string()),
        ]
    );
    assert_eq!(
        error.message(),
        "Failed to download: yt-dlp: HTTP 500, ffprobe: All ffprobe sources failed"
    );
}

#[test]
fn a_single_failure_fails_the_whole() {
    let outcomes = vec![ok(ManagedBinary::YtDlp), failed(ManagedBinary::Ffmpeg, "x")];
    let error = aggregate_outcomes(&outcomes).unwrap_err();
    assert_eq!(error.message(), "Failed to download: ffmpeg: x");
}

#[test]
fn the_failure_of_a_binary_is_the_error_of_its_last_source() {
    let mut walk = begin_walk(3);
    assert_eq!(walk.state, SourceState::Trying(0));
    walk = advance_walk(3, walk, Err("first".to_string()));
    assert_eq!(walk.state, SourceState::Trying(1));
    walk = advance_walk(3, walk, Err("second".to_string()));
    walk = advance_walk(3, walk, Err("third".to_string()));
    assert_eq!(walk.state, SourceState::Exhausted);
    assert_eq!(walk_failure(ManagedBinary::Ffmpeg, &walk), "third");
    // A walk that is over takes no more results.
    walk = advance_walk(3, walk, Err("late".to_string()));
    assert_eq!(walk.state, SourceState::Exhausted);
    assert_eq!(walk_failure(ManagedBinary::Ffmpeg, &walk), "third");
}

#[test]
fn a_walk_that_ends_in_an_installation_keeps_the_earlier_error() {
    let mut walk = begin_walk(2);
    walk = advance_walk(2, walk, Err("first".to_string()));
    walk = advance_walk(2, walk, Ok(()));
    assert_eq!(walk.state, SourceState::Installed(1));
    assert_eq!(walk.last_error, Some("first".to_string()));
}

#[test]
fn a_binary_without_sources_fails_as_such() {
    let walk = begin_walk(0);
    assert_eq!(walk.state, SourceState::Exhausted);
    assert_eq!(walk_failure(ManagedBinary::Ffprobe, &walk), "All ffprobe sources failed");
}

#[test]
fn work_on_each_binary() {
    let presence = Presence { yt_dlp: true, ffmpeg: true, ffprobe: false };
    let marked = Presence { yt_dlp: true, ffmpeg: false, ffprobe: false };
    assert_eq!(work_for(presence, marked, true, ManagedBinary::YtDlp), Work::Nothing);
    assert_eq!(work_for(presence, marked, true, ManagedBinary::Ffmpeg), Work::MakeExecutable);
    assert_eq!(work_for(presence, marked, true, ManagedBinary::Ffprobe), Work::Install);
    assert_eq!(work_for(presence, marked, false, ManagedBinary::Ffmpeg), Work::Nothing);
    assert_eq!(work_for(presence, marked, false, ManagedBinary::Ffprobe), Work::Install);
}

#[test]
fn installed_binaries_without_the_mark() {
    let presence = Presence { yt_dlp: true, ffmpeg: true, ffprobe: false };
    let marked = Presence { yt_dlp: false, ffmpeg: true, ffprobe: false };
    assert_eq!(unmarked_binaries(presence, marked, true), vec![ManagedBinary::YtDlp]);
    assert!(unmarked_binaries(presence, marked, false).is_empty());
    let none = Presence { yt_dlp: false, ffmpeg: false, ffprobe: false };
    let all = Presence { yt_dlp: true, ffmpeg: true, ffprobe: true };
    assert_eq!(
        unmarked_binaries(all, none, true),
        vec![ManagedBinary::YtDlp, ManagedBinary::Ffmpeg, ManagedBinary::Ffprobe]
    );
    assert!(unmarked_binaries(none, none, true).is_empty());
    assert!(unmarked_binaries(all, all, true).is_empty());
}
