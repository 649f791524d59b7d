//! Trying again: waiting longer after each transient failure, and falling
//! back from an attempt without cookies to one browser after the other.
//!
//! Both strategies are step functions.  The caller makes an attempt, tells
//! the step function how it ended, and does what the answer says.

use vstd::prelude::*;
use vstd::arithmetic::power2::{
    lemma2_to64, lemma2_to64_rest, lemma_pow2_strictly_increases, lemma_pow2_unfold, pow2,
};
use crate::download::{next_usable, BrowserConfig, CredentialSource};
use crate::errors::{
    fetch_error_text, fetch_retryable, is_retryable_error, message_text, retryable, DownloadError,
    FetchError,
};
use crate::text::{chars_of, contains, includes};

verus! {

/// Where a run with growing delays stands.
#[derive(Clone, Copy, Debug, PartialEq, Eq, Structural)]
pub struct Backoff {
    /// Attempts that have failed so far.
    pub attempts: u32,
    /// Seconds to wait before the next attempt.
    pub delay_secs: u64,
    /// Attempts after which the run gives up.
    pub max_attempts: u32,
}

/// What to do after a failed attempt.
#[derive(Clone, Copy, Debug, PartialEq, Eq, Structural)]
pub enum BackoffAction {
    /// Hand the failure to the caller.
    GiveUp,
    /// Wait this many seconds, then make another attempt.
    RetryAfter(u64),
}

/// Twice `delay`, or the largest delay there is where that would not fit.
pub open spec fn doubled(delay: u64) -> u64 {
    if delay > u64::MAX / 2 {
        u64::MAX
    } else {
        (delay * 2) as u64
    }
}

/// The wait after the failure number `failures + 1`: one second at first,
/// then twice the wait before, up to the largest delay there is.
pub open spec fn delay_at(failures: nat) -> u64 {
    if pow2(failures) <= u64::MAX {
        pow2(failures) as u64
    } else {
        u64::MAX
    }
}

/// The state and the action that follow a failed attempt.  The run gives up
/// when the failure is not one to retry, or when the attempts are used up.
pub open spec fn backoff_next(b: Backoff, retry: bool) -> (Backoff, BackoffAction) {
    let attempts: u32 = if b.attempts < u32::MAX {
        (b.attempts + 1) as u32
    } else {
        b.attempts
    };
    if attempts >= b.max_attempts || !retry {
        (
            Backoff { attempts, delay_secs: b.delay_secs, max_attempts: b.max_attempts },
            BackoffAction::GiveUp,
        )
    } else {
        (
            Backoff { attempts, delay_secs: doubled(b.delay_secs), max_attempts: b.max_attempts },
            BackoffAction::RetryAfter(b.delay_secs),
        )
    }
}

impl Backoff {
    /// The state before the first attempt.
    pub open spec fn initial(max_attempts: u32) -> Backoff {
        Backoff { attempts: 0, delay_secs: 1, max_attempts }
    }

    /// The state before the first attempt of a run that gives up after
    /// `max_attempts` attempts.
    pub fn new(max_attempts: u32) -> (b: Backoff)
        ensures
            b == Backoff::initial(max_attempts),
    {
        Backoff { attempts: 0, delay_secs: 1, max_attempts }
    }

    /// What follows an attempt that failed with `error`.
    pub fn on_failure(self, error: &DownloadError) -> (next: (Backoff, BackoffAction))
        ensures
            next == backoff_next(self, retryable(*error)),
    {
        let attempts: u32 = if self.attempts < u32::MAX {
            self.attempts + 1
        } else {
            self.attempts
        };
        if attempts >= self.max_attempts || !is_retryable_error(error) {
            (
                Backoff { attempts, delay_secs: self.delay_secs, max_attempts: self.max_attempts },
                BackoffAction::GiveUp,
            )
        } else {
            let delay: u64 = if self.delay_secs > u64::MAX / 2 {
                u64::MAX
            } else {
                self.delay_secs * 2
            };
            (
                Backoff { attempts, delay_secs: delay, max_attempts: self.max_attempts },
                BackoffAction::RetryAfter(self.delay_secs),
            )
        }
    }
}

/// The waits of a run that starts in state `b` and whose attempts fail one
/// after the other; `failures[i]` says whether failure `i` is one to retry.
/// The run makes one attempt more than it waits.
pub open spec fn backoff_delays(b: Backoff, failures: Seq<bool>) -> Seq<u64>
    decreases failures.len(),
{
    if failures.len() == 0 {
        Seq::<u64>::empty()
    } else {
        match backoff_next(b, failures[0]).1 {
            BackoffAction::GiveUp => Seq::<u64>::empty(),
            BackoffAction::RetryAfter(d) => seq![d] + backoff_delays(
                backoff_next(b, failures[0]).0,
                failures.drop_first(),
            ),
        }
    }
}

/// The number of attempts that a run may make: `max_attempts`, and one
/// where that is zero, since the first attempt is always made.
pub open spec fn attempt_limit(max_attempts: u32) -> nat {
    if max_attempts == 0 {
        1
    } else {
        max_attempts as nat
    }
}

proof fn lemma_doubled(k: nat)
    ensures
        doubled(delay_at(k)) == delay_at(k + 1),
        delay_at(k) <= delay_at(k + 1),
{
    lemma_pow2_unfold(k + 1);
    lemma2_to64();
    lemma2_to64_rest();
    if k < 64 {
        lemma_pow2_strictly_increases(k, 64);
    }
    if k > 63 {
        lemma_pow2_strictly_increases(63, k);
    }
}

proof fn lemma_backoff_run(b: Backoff, failures: Seq<bool>)
    requires
        b.attempts < attempt_limit(b.max_attempts),
        b.delay_secs == delay_at(b.attempts as nat),
        forall|i: int| 0 <= i < failures.len() ==> failures[i],
        failures.len() >= attempt_limit(b.max_attempts) - b.attempts,
    ensures
        backoff_delays(b, failures).len() == attempt_limit(b.max_attempts) - b.attempts - 1,
        forall|i: int|
            0 <= i < backoff_delays(b, failures).len() ==> backoff_delays(b, failures)[i]
                == delay_at((b.attempts + i) as nat),
    decreases failures.len(),
{
    let (next, action) = backoff_next(b, failures[0]);
    match action {
        BackoffAction::GiveUp => {},
        BackoffAction::RetryAfter(d) => {
            lemma_doubled(b.attempts as nat);
            lemma_backoff_run(next, failures.drop_first());
            let rest = backoff_delays(next, failures.drop_first());
            assert forall|i: int| 0 <= i < backoff_delays(b, failures).len() implies backoff_delays(
                b,
                failures,
            )[i] == delay_at((b.attempts + i) as nat) by {
                if i > 0 {
                    assert(backoff_delays(b, failures)[i] == rest[i - 1]);
                }
            }
        },
    }
}

proof fn lemma_delay_monotone(i: nat, j: nat)
    requires
        i <= j,
    ensures
        delay_at(i) <= delay_at(j),
    decreases j - i,
{
    if i < j {
        lemma_delay_monotone(i, (j - 1) as nat);
        lemma_doubled((j - 1) as nat);
    }
}

/// A run whose attempts all fail in a way that may be retried makes exactly
/// as many attempts as it is allowed, and waits 1, 2, 4, 8, ... seconds
/// between them: each wait is at least as long as the one before.
pub proof fn law_backoff_uses_every_attempt(max_attempts: u32, failures: Seq<bool>)
    requires
        forall|i: int| 0 <= i < failures.len() ==> failures[i],
        failures.len() >= attempt_limit(max_attempts),
    ensures
        backoff_delays(Backoff::initial(max_attempts), failures).len() + 1 == attempt_limit(
            max_attempts,
        ),
        forall|i: int|
            0 <= i < backoff_delays(Backoff::initial(max_attempts), failures).len()
                ==> backoff_delays(Backoff::initial(max_attempts), failures)[i] == delay_at(
                i as nat,
            ),
        forall|i: int, j: int|
            0 <= i <= j < backoff_delays(Backoff::initial(max_attempts), failures).len()
                ==> backoff_delays(Backoff::initial(max_attempts), failures)[i] <= backoff_delays(
                Backoff::initial(max_attempts),
                failures,
            )[j],
        delay_at(0) == 1 && delay_at(1) == 2 && delay_at(2) == 4 && delay_at(3) == 8,
{
    lemma2_to64();
    let b = Backoff::initial(max_attempts);
    lemma_backoff_run(b, failures);
    let delays = backoff_delays(b, failures);
    assert forall|i: int, j: int| 0 <= i <= j < delays.len() implies delays[i] <= delays[j] by {
        lemma_delay_monotone(i as nat, j as nat);
    }
}

proof fn lemma_backoff_bound(b: Backoff, failures: Seq<bool>)
    requires
        b.attempts < attempt_limit(b.max_attempts),
    ensures
        backoff_delays(b, failures).len() + 1 <= attempt_limit(b.max_attempts) - b.attempts,
    decreases failures.len(),
{
    if failures.len() > 0 {
        let (next, action) = backoff_next(b, failures[0]);
        match action {
            BackoffAction::GiveUp => {},
            BackoffAction::RetryAfter(d) => {
                lemma_backoff_bound(next, failures.drop_first());
            },
        }
    }
}

/// However the attempts fail, a run never makes more attempts than it is
/// allowed.
pub proof fn law_backoff_never_exceeds_limit(max_attempts: u32, failures: Seq<bool>)
    ensures
        backoff_delays(Backoff::initial(max_attempts), failures).len() + 1 <= attempt_limit(
            max_attempts,
        ),
{
    lemma_backoff_bound(Backoff::initial(max_attempts), failures);
}

/// How one attempt ended, as far as trying again is concerned.
#[derive(Debug, Clone)]
pub enum RetryAttemptOutcome {
    /// It succeeded.
    Success,
    /// It failed in a way that may pass; the text is the reason.
    TransientFailure(String),
    /// It failed for good; the text is the reason.
    PermanentFailure(String),
}

/// An attempt outcome over plain text.
pub ghost enum RetryAttemptOutcomeView {
    Success,
    TransientFailure(Seq<char>),
    PermanentFailure(Seq<char>),
}

impl View for RetryAttemptOutcome {
    type V = RetryAttemptOutcomeView;

    open spec fn view(&self) -> RetryAttemptOutcomeView {
        match *self {
            RetryAttemptOutcome::Success => RetryAttemptOutcomeView::Success,
            RetryAttemptOutcome::TransientFailure(r) => RetryAttemptOutcomeView::TransientFailure(
                r@,
            ),
            RetryAttemptOutcome::PermanentFailure(r) => RetryAttemptOutcomeView::PermanentFailure(
                r@,
            ),
        }
    }
}

/// How an attempt at a download ended: a failure is transient exactly
/// when it is one to retry.
pub open spec fn download_outcome(result: Result<String, DownloadError>)
    -> RetryAttemptOutcomeView {
    match result {
        Ok(_) => RetryAttemptOutcomeView::Success,
        Err(e) => if retryable(e) {
            RetryAttemptOutcomeView::TransientFailure(message_text(e))
        } else {
            RetryAttemptOutcomeView::PermanentFailure(message_text(e))
        },
    }
}

/// How an attempt at fetching a binary ended: only a failed transfer is
/// transient.
pub open spec fn fetch_outcome(result: Result<(), FetchError>) -> RetryAttemptOutcomeView {
    match result {
        Ok(_) => RetryAttemptOutcomeView::Success,
        Err(e) => if fetch_retryable(e) {
            RetryAttemptOutcomeView::TransientFailure(fetch_error_text(e))
        } else {
            RetryAttemptOutcomeView::PermanentFailure(fetch_error_text(e))
        },
    }
}

/// How an attempt at a download ended.
pub fn download_attempt_outcome(result: &Result<String, DownloadError>) -> (outcome:
    RetryAttemptOutcome)
    ensures
        outcome@ == download_outcome(*result),
{
    match result {
        Ok(_) => RetryAttemptOutcome::Success,
        Err(e) => {
            if is_retryable_error(e) {
                RetryAttemptOutcome::TransientFailure(e.message())
            } else {
                RetryAttemptOutcome::PermanentFailure(e.message())
            }
        },
    }
}

/// How an attempt at fetching a binary ended.
pub fn fetch_attempt_outcome(result: &Result<(), FetchError>) -> (outcome: RetryAttemptOutcome)
    ensures
        outcome@ == fetch_outcome(*result),
{
    match result {
        Ok(_) => RetryAttemptOutcome::Success,
        Err(e) => {
            if e.is_retryable() {
                RetryAttemptOutcome::TransientFailure(e.message())
            } else {
                RetryAttemptOutcome::PermanentFailure(e.message())
            }
        },
    }
}

/// How one attempt at a download ended, as far as the fallback cares.
#[derive(Clone, Copy, Debug, PartialEq, Eq, Structural)]
pub enum AttemptOutcome {
    /// The download was started.
    Succeeded,
    /// It failed, and the failure says that a login is needed.
    NeedsLogin,
    /// It failed for another reason.
    Failed,
}

/// Where the fallback stands: which attempt is under way.
#[derive(Clone, Copy, Debug, PartialEq, Eq, Structural)]
pub enum RetryState {
    /// The attempt without cookies.
    NoAuth,
    /// The attempt with the cookies of the source at this position.
    TryCred(usize),
    /// No attempt: an attempt has succeeded, or the failure of the attempt
    /// without cookies has been reported.
    Done,
    /// No attempt: every usable source has been tried in vain.
    Exhausted,
}

/// What the caller does next.
#[derive(Clone, Copy, Debug, PartialEq, Eq, Structural)]
pub enum RetryAction {
    /// Make an attempt with the cookies of the source at this position.
    Attempt(usize),
    /// Report the success of the attempt just made.
    ReportSuccess,
    /// Report the failure of the attempt just made.
    ReportFailure,
    /// Report that the download cannot be had with or without cookies.
    ReportExhausted,
    /// Nothing: the fallback had ended before.
    Nothing,
}

/// A failure text that asks for a login.
pub open spec fn login_text(text: Seq<char>) -> bool {
    ||| contains(text, "Authentication required"@)
    ||| contains(text, "Sign in"@)
    ||| contains(text, "Private video"@)
    ||| contains(text, "login required"@)
    ||| contains(text, "members-only"@)
}

/// How the fallback reads the result of an attempt.
pub open spec fn outcome_of(result: Result<String, DownloadError>) -> AttemptOutcome {
    match result {
        Ok(_) => AttemptOutcome::Succeeded,
        Err(e) => if login_text(message_text(e)) {
            AttemptOutcome::NeedsLogin
        } else {
            AttemptOutcome::Failed
        },
    }
}

/// How the fallback reads the result of an attempt.
pub fn classify_attempt(result: &Result<String, DownloadError>) -> (outcome: AttemptOutcome)
    ensures
        outcome == outcome_of(*result),
{
    match result {
        Ok(_) => AttemptOutcome::Succeeded,
        Err(e) => {
            let text = e.message();
            let t = chars_of(text.as_str());
            if includes(&t, "Authentication required") || includes(&t, "Sign in") || includes(
                &t,
                "Private video",
            ) || includes(&t, "login required") || includes(&t, "members-only") {
                AttemptOutcome::NeedsLogin
            } else {
                AttemptOutcome::Failed
            }
        },
    }
}

/// Which sources are usable, in the order of the sources.
pub open spec fn usable_flags(sources: Seq<CredentialSource>) -> Seq<bool> {
    sources.map_values(|s: CredentialSource| s.usable)
}

/// The first usable position at or after `from`, if there is one.
pub open spec fn usable_from(usable: Seq<bool>, from: int) -> Option<int>
    decreases usable.len() - from,
{
    if from < 0 || from >= usable.len() {
        None
    } else if usable[from] {
        Some(from)
    } else {
        usable_from(usable, from + 1)
    }
}

/// The attempt with the next usable source at or after `from`, or the end
/// of the fallback where no such source is left.
pub open spec fn turn_to(usable: Seq<bool>, from: int) -> (RetryState, RetryAction) {
    match usable_from(usable, from) {
        Some(at) => (RetryState::TryCred(at as usize), RetryAction::Attempt(at as usize)),
        None => (RetryState::Exhausted, RetryAction::ReportExhausted),
    }
}

/// The state and the action that follow an attempt.
///
/// A success ends the fallback.  After the attempt without cookies only a
/// failure that asks for a login leads on to the browsers; any other is
/// reported at once.  After an attempt with a browser every failure leads
/// on to the next usable browser, and to exhaustion where none is left.
/// Once the fallback has ended nothing follows.
pub open spec fn retry_next(state: RetryState, usable: Seq<bool>, outcome: AttemptOutcome) -> (
    RetryState,
    RetryAction,
) {
    match state {
        RetryState::Done => (RetryState::Done, RetryAction::Nothing),
        RetryState::Exhausted => (RetryState::Exhausted, RetryAction::Nothing),
        RetryState::NoAuth => match outcome {
            AttemptOutcome::Succeeded => (RetryState::Done, RetryAction::ReportSuccess),
            AttemptOutcome::NeedsLogin => turn_to(usable, 0),
            AttemptOutcome::Failed => (RetryState::Done, RetryAction::ReportFailure),
        },
        RetryState::TryCred(at) => match outcome {
            AttemptOutcome::Succeeded => (RetryState::Done, RetryAction::ReportSuccess),
            _ => turn_to(usable, at + 1),
        },
    }
}

proof fn lemma_usable_from_is(usable: Seq<bool>, from: int, found: Option<int>)
    requires
        0 <= from,
        match found {
            Some(at) => from <= at < usable.len() && usable[at] && forall|k: int|
                from <= k < at ==> !usable[k],
            None => forall|k: int| from <= k < usable.len() ==> !usable[k],
        },
    ensures
        usable_from(usable, from) == found,
    decreases usable.len() - from,
{
    if from < usable.len() && !usable[from] {
        lemma_usable_from_is(usable, from + 1, found);
    }
}

fn seek_usable(sources: &Vec<CredentialSource>, from: usize) -> (pos: Option<usize>)
    ensures
        match pos {
            Some(at) => usable_from(usable_flags(sources@), from as int) == Some(at as int),
            None => usable_from(usable_flags(sources@), from as int) is None,
        },
{
    let pos = next_usable(sources, from);
    proof {
        let found: Option<int> = match pos {
            Some(at) => Some(at as int),
            None => None,
        };
        lemma_usable_from_is(usable_flags(sources@), from as int, found);
    }
    pos
}

/// What follows an attempt that was made in `state` and ended in `outcome`.
pub fn smart_retry_step(
    state: RetryState,
    sources: &Vec<CredentialSource>,
    outcome: AttemptOutcome,
) -> (next: (RetryState, RetryAction))
    ensures
        next == retry_next(state, usable_flags(sources@), outcome),
{
    let from: usize = match state {
        RetryState::Done => {
            return (RetryState::Done, RetryAction::Nothing);
        },
        RetryState::Exhausted => {
            return (RetryState::Exhausted, RetryAction::Nothing);
        },
        RetryState::NoAuth => match outcome {
            AttemptOutcome::Succeeded => {
                return (RetryState::Done, RetryAction::ReportSuccess);
            },
            AttemptOutcome::NeedsLogin => 0,
            AttemptOutcome::Failed => {
                return (RetryState::Done, RetryAction::ReportFailure);
            },
        },
        RetryState::TryCred(at) => match outcome {
            AttemptOutcome::Succeeded => {
                return (RetryState::Done, RetryAction::ReportSuccess);
            },
            _ => {
                if at >= sources.len() {
                    return (RetryState::Exhausted, RetryAction::ReportExhausted);
                }
                at + 1
            },
        },
    };
    match seek_usable(sources, from) {
        Some(at) => (RetryState::TryCred(at), RetryAction::Attempt(at)),
        None => (RetryState::Exhausted, RetryAction::ReportExhausted),
    }
}

/// The cookie configuration of the attempt with the source at `at`.
pub fn attempt_config(sources: &Vec<CredentialSource>, at: usize) -> (config: BrowserConfig)
    requires
        at < sources.len(),
    ensures
        config.use_cookies,
        config.browser is Some,
        config.browser->0@ == sources[at as int].name@,
{
    BrowserConfig::with_browser(sources[at].name.as_str())
}

/// The text of the failure that is reported when every source has been tried.
pub open spec fn exhausted_text() -> Seq<char> {
    "Unable to download this video. It may require login. Please verify the video is accessible in your browser, or install Firefox and log into the website there for automatic authentication."@
}

/// The failure that is reported when every source has been tried.
pub fn exhausted_error() -> (error: DownloadError)
    ensures
        error is Authentication,
        error->Authentication_0@ == exhausted_text(),
{
    DownloadError::Authentication(
        "Unable to download this video. It may require login. Please verify the video is accessible in your browser, or install Firefox and log into the website there for automatic authentication.".to_owned(),
    )
}

/// What a whole fallback does.
pub ghost struct RetryTrace {
    /// The sources that were tried after the attempt without cookies, in
    /// the order of the attempts.
    pub attempted: Seq<int>,
    /// How the fallback ended, or `None` while an attempt is still under way.
    pub report: Option<RetryAction>,
}

/// The fallback that is in `state` and whose attempts end as `outcomes` says,
/// the attempt under way first.
pub open spec fn retry_run(state: RetryState, usable: Seq<bool>, outcomes: Seq<AttemptOutcome>)
    -> RetryTrace
    decreases outcomes.len(),
{
    if outcomes.len() == 0 {
        RetryTrace { attempted: Seq::<int>::empty(), report: None }
    } else {
        let next = retry_next(state, usable, outcomes[0]);
        match next.1 {
            RetryAction::Attempt(at) => {
                let rest = retry_run(next.0, usable, outcomes.drop_first());
                RetryTrace { attempted: seq![at as int] + rest.attempted, report: rest.report }
            },
            other => RetryTrace { attempted: Seq::<int>::empty(), report: Some(other) },
        }
    }
}

/// A failure of the attempt without cookies that does not ask for a login
/// ends the fallback at once: the failure is reported and no browser is
/// tried, whatever browsers there are.
pub proof fn law_other_failure_is_final(usable: Seq<bool>, later: Seq<AttemptOutcome>)
    ensures
        retry_run(RetryState::NoAuth, usable, seq![AttemptOutcome::Failed] + later) == (RetryTrace {
            attempted: Seq::<int>::empty(),
            report: Some(RetryAction::ReportFailure),
        }),
{
    let outcomes = seq![AttemptOutcome::Failed] + later;
    assert(outcomes[0] == AttemptOutcome::Failed);
}

proof fn lemma_usable_from(usable: Seq<bool>, from: int)
    requires
        0 <= from,
    ensures
        match usable_from(usable, from) {
            Some(at) => from <= at < usable.len() && usable[at] && forall|k: int|
                from <= k < at ==> !usable[k],
            None => forall|k: int| from <= k < usable.len() ==> !usable[k],
        },
    decreases usable.len() - from,
{
    if from < usable.len() && !usable[from] {
        lemma_usable_from(usable, from + 1);
    }
}

/// The position before the first source that may still be tried in `state`.
pub open spec fn tried_up_to(state: RetryState) -> int {
    match state {
        RetryState::NoAuth => -1,
        RetryState::TryCred(at) => at as int,
        RetryState::Done => -1,
        RetryState::Exhausted => -1,
    }
}

/// The browsers are tried in the order given, each at most once, and no
/// usable one is passed over: every source that is tried is usable and
/// stands after those tried before it, and every usable source that stands
/// before one that is tried has been tried itself.
pub proof fn law_sources_in_order(
    state: RetryState,
    usable: Seq<bool>,
    outcomes: Seq<AttemptOutcome>,
)
    requires
        usable.len() <= usize::MAX,
    ensures
        forall|i: int|
            0 <= i < retry_run(state, usable, outcomes).attempted.len() ==> {
                let at = #[trigger] retry_run(state, usable, outcomes).attempted[i];
                tried_up_to(state) < at < usable.len() && usable[at]
            },
        forall|i: int, j: int|
            0 <= i < j < retry_run(state, usable, outcomes).attempted.len() ==> retry_run(
                state,
                usable,
                outcomes,
            ).attempted[i] < retry_run(state, usable, outcomes).attempted[j],
        forall|i: int, k: int|
            0 <= i < retry_run(state, usable, outcomes).attempted.len() && tried_up_to(state) < k
                < #[trigger] retry_run(state, usable, outcomes).attempted[i] && #[trigger] usable[k]
                ==> exists|j: int|
                0 <= j < i && retry_run(state, usable, outcomes).attempted[j] == k,
    decreases outcomes.len(),
{
    if outcomes.len() > 0 {
        let next = retry_next(state, usable, outcomes[0]);
        match next.1 {
            RetryAction::Attempt(at) => {
                lemma_usable_from(usable, tried_up_to(state) + 1);
                assert(tried_up_to(state) < at < usable.len() && usable[at as int]);
                assert(next.0 == RetryState::TryCred(at));
                let rest = retry_run(next.0, usable, outcomes.drop_first()).attempted;
                law_sources_in_order(next.0, usable, outcomes.drop_first());
                let all = retry_run(state, usable, outcomes).attempted;
                assert(all == seq![at as int] + rest);
                assert(all[0] == at);
                assert forall|i: int| 0 <= i < all.len() implies {
                    let a = #[trigger] all[i];
                    tried_up_to(state) < a < usable.len() && usable[a]
                } by {
                    if i > 0 {
                        assert(all[i] == rest[i - 1]);
                    }
                }
                assert forall|i: int, j: int| 0 <= i < j < all.len() implies all[i] < all[j] by {
                    assert(all[j] == rest[j - 1]);
                    if i > 0 {
                        assert(all[i] == rest[i - 1]);
                    }
                }
                assert forall|i: int, k: int|
                    0 <= i < all.len() && tried_up_to(state) < k < #[trigger] all[i]
                        && #[trigger] usable[k] implies exists|j: int|
                    0 <= j < i && all[j] == k by {
                    if i > 0 {
                        assert(all[i] == rest[i - 1]);
                        if k == at {
                            assert(all[0] == k);
                        } else {
                            let j = choose|j: int| 0 <= j < i - 1 && rest[j] == k;
                            assert(all[j + 1] == rest[j]);
                        }
                    }
                }
            },
            _ => {},
        }
    }
}

/// A success ends the fallback: when the attempts fail up to one that
/// succeeds, the success is reported, and no source is tried after the one
/// that succeeded, whatever `later` holds.
pub proof fn law_success_is_final(
    state: RetryState,
    usable: Seq<bool>,
    failures: Seq<AttemptOutcome>,
    later: Seq<AttemptOutcome>,
)
    requires
        state is NoAuth || state is TryCred,
        forall|i: int| 0 <= i < failures.len() ==> !(failures[i] is Succeeded),
        retry_run(state, usable, failures).report is None,
    ensures
        retry_run(state, usable, failures + seq![AttemptOutcome::Succeeded] + later).report == Some(
            RetryAction::ReportSuccess,
        ),
        retry_run(state, usable, failures + seq![AttemptOutcome::Succeeded] + later).attempted
            == retry_run(state, usable, failures).attempted,
        retry_run(state, usable, failures).attempted.len() == failures.len(),
    decreases failures.len(),
{
    let all = failures + seq![AttemptOutcome::Succeeded] + later;
    if failures.len() == 0 {
        assert(all[0] == AttemptOutcome::Succeeded);
    } else {
        assert(all[0] == failures[0]);
        assert(all.drop_first() =~= failures.drop_first() + seq![AttemptOutcome::Succeeded]
            + later);
        let next = retry_next(state, usable, failures[0]);
        match next.1 {
            RetryAction::Attempt(at) => {
                law_success_is_final(next.0, usable, failures.drop_first(), later);
            },
            _ => {},
        }
    }
}

} // verus!
