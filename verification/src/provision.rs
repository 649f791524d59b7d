//! Making sure that every managed binary is there: which are missing, in
//! what order the sources of one binary are tried, and what the whole
//! comes to.

use vstd::prelude::*;
use crate::catalog::{binary_name, managed_set, ManagedBinary};
use crate::fetcher::StepOutcome;
use crate::text::{chars_of, push_str, string_of};

verus! {

/// Which of the managed binaries are installed.
#[derive(Clone, Copy, Debug, PartialEq, Eq, Structural)]
pub struct Presence {
    pub yt_dlp: bool,
    pub ffmpeg: bool,
    pub ffprobe: bool,
}

/// Whether `binary` is installed according to `presence`.
pub open spec fn is_present(presence: Presence, binary: ManagedBinary) -> bool {
    match binary {
        ManagedBinary::YtDlp => presence.yt_dlp,
        ManagedBinary::Ffmpeg => presence.ffmpeg,
        ManagedBinary::Ffprobe => presence.ffprobe,
    }
}

/// The managed binaries that are not installed, in the order of the
/// managed set.
pub open spec fn missing_set(presence: Presence) -> Seq<ManagedBinary> {
    managed_set().filter(absent(presence))
}

/// The test for a binary that is not installed.
pub open spec fn absent(presence: Presence) -> spec_fn(ManagedBinary) -> bool {
    |b: ManagedBinary| !is_present(presence, b)
}

/// The managed binaries that are not installed.
pub fn missing_binaries(presence: Presence) -> (missing: Vec<ManagedBinary>)
    ensures
        missing@ == missing_set(presence),
        forall|b: ManagedBinary| missing@.contains(b) <==> !is_present(presence, b),
{
    let mut missing: Vec<ManagedBinary> = Vec::new();
    if !presence.yt_dlp {
        missing.push(ManagedBinary::YtDlp);
    }
    if !presence.ffmpeg {
        missing.push(ManagedBinary::Ffmpeg);
    }
    if !presence.ffprobe {
        missing.push(ManagedBinary::Ffprobe);
    }
    proof {
        let absent = absent(presence);
        let all = managed_set();
        reveal_with_fuel(Seq::filter, 4);
        assert(all.drop_last() =~= seq![ManagedBinary::YtDlp, ManagedBinary::Ffmpeg]);
        assert(all.drop_last().drop_last() =~= seq![ManagedBinary::YtDlp]);
        assert(all.drop_last().drop_last().drop_last() =~= Seq::<ManagedBinary>::empty());
        assert(missing@ =~= all.filter(absent));
        assert forall|b: ManagedBinary| missing@.contains(b) <==> !is_present(presence, b) by {
            if !is_present(presence, b) {
                match b {
                    ManagedBinary::YtDlp => {
                        assert(missing@[0] == b);
                    },
                    ManagedBinary::Ffmpeg => {
                        if presence.yt_dlp {
                            assert(missing@[0] == b);
                        } else {
                            assert(missing@[1] == b);
                        }
                    },
                    ManagedBinary::Ffprobe => {
                        assert(missing@[missing@.len() - 1] == b);
                    },
                }
            }
        }
    }
    missing
}

/// What has to be done about one managed binary.
#[derive(Clone, Copy, Debug, PartialEq, Eq, Structural)]
pub enum Work {
    /// Nothing: it is installed and can be run.
    Nothing,
    /// It is missing and has to be installed.
    Install,
    /// It is installed but lacks the executable mark that the platform
    /// asks for.
    MakeExecutable,
}

/// What has to be done about `binary`, given which binaries are installed
/// (`presence`), which of them carry the executable mark (`marked`), and
/// whether the platform asks for that mark.
pub open spec fn work_of(
    presence: Presence,
    marked: Presence,
    needs_exec_bit: bool,
    binary: ManagedBinary,
) -> Work {
    if !is_present(presence, binary) {
        Work::Install
    } else if needs_exec_bit && !is_present(marked, binary) {
        Work::MakeExecutable
    } else {
        Work::Nothing
    }
}

/// What has to be done about `binary`.
pub fn work_for(presence: Presence, marked: Presence, needs_exec_bit: bool, binary: ManagedBinary)
    -> (work: Work)
    ensures
        work == work_of(presence, marked, needs_exec_bit, binary),
{
    let (present, has_mark) = match binary {
        ManagedBinary::YtDlp => (presence.yt_dlp, marked.yt_dlp),
        ManagedBinary::Ffmpeg => (presence.ffmpeg, marked.ffmpeg),
        ManagedBinary::Ffprobe => (presence.ffprobe, marked.ffprobe),
    };
    if !present {
        Work::Install
    } else if needs_exec_bit && !has_mark {
        Work::MakeExecutable
    } else {
        Work::Nothing
    }
}

/// The binaries that need no executable mark put on them, written as a
/// presence: those that are missing, those that carry the mark, and all of
/// them where the platform asks for none.
pub open spec fn mark_settled(presence: Presence, marked: Presence, needs_exec_bit: bool)
    -> Presence {
    Presence {
        yt_dlp: !(needs_exec_bit && presence.yt_dlp && !marked.yt_dlp),
        ffmpeg: !(needs_exec_bit && presence.ffmpeg && !marked.ffmpeg),
        ffprobe: !(needs_exec_bit && presence.ffprobe && !marked.ffprobe),
    }
}

/// The installed binaries that lack the executable mark that the platform
/// asks for, in the order of the managed set.
pub fn unmarked_binaries(presence: Presence, marked: Presence, needs_exec_bit: bool) -> (unmarked:
    Vec<ManagedBinary>)
    ensures
        unmarked@ == missing_set(mark_settled(presence, marked, needs_exec_bit)),
        forall|b: ManagedBinary|
            unmarked@.contains(b) <==> work_of(presence, marked, needs_exec_bit, b)
                == Work::MakeExecutable,
{
    let settled = Presence {
        yt_dlp: !(needs_exec_bit && presence.yt_dlp && !marked.yt_dlp),
        ffmpeg: !(needs_exec_bit && presence.ffmpeg && !marked.ffmpeg),
        ffprobe: !(needs_exec_bit && presence.ffprobe && !marked.ffprobe),
    };
    let unmarked = missing_binaries(settled);
    assert forall|b: ManagedBinary|
        unmarked@.contains(b) <==> work_of(presence, marked, needs_exec_bit, b)
            == Work::MakeExecutable by {
        assert(unmarked@.contains(b) <==> !is_present(settled, b));
    }
    unmarked
}

/// The file of a managed binary, as far as running it is concerned.
pub ghost struct FileState {
    /// The file is there.
    pub exists: bool,
    /// The file carries the executable mark.
    pub exec_bit: bool,
}

/// The file of `binary` before provisioning.
pub open spec fn file_before(presence: Presence, marked: Presence, binary: ManagedBinary)
    -> FileState {
    FileState { exists: is_present(presence, binary), exec_bit: is_present(marked, binary) }
}

/// The file after `work` has been done on it.  Work that fails leaves the
/// file as it was.  An installation that succeeds puts the file in place,
/// with the executable mark where the platform asks for it, as
/// `fetcher::law_install_outcome` shows; putting on the mark leaves the
/// file with it.
pub open spec fn file_after(before: FileState, work: Work, succeeded: bool, needs_exec_bit: bool)
    -> FileState {
    if !succeeded {
        before
    } else {
        match work {
            Work::Nothing => before,
            Work::Install => FileState { exists: true, exec_bit: needs_exec_bit },
            Work::MakeExecutable => FileState { exists: before.exists, exec_bit: true },
        }
    }
}

/// The file can be run: it is there, and it carries the executable mark
/// where the platform asks for one.
pub open spec fn usable(file: FileState, needs_exec_bit: bool) -> bool {
    file.exists && (needs_exec_bit ==> file.exec_bit)
}

/// After a provisioning in which all the work that there was to do has
/// succeeded, every managed binary is in place and can be run, whether it
/// has been installed just now or was there before.
pub proof fn law_success_leaves_all_usable(
    presence: Presence,
    marked: Presence,
    needs_exec_bit: bool,
    succeeded: spec_fn(ManagedBinary) -> bool,
)
    requires
        forall|b: ManagedBinary|
            work_of(presence, marked, needs_exec_bit, b) != Work::Nothing ==> #[trigger] succeeded(
                b,
            ),
    ensures
        forall|b: ManagedBinary|
            usable(
                file_after(
                    file_before(presence, marked, b),
                    work_of(presence, marked, needs_exec_bit, b),
                    #[trigger] succeeded(b),
                    needs_exec_bit,
                ),
                needs_exec_bit,
            ),
{
}

/// Where the walk through the sources of one binary stands.
#[derive(Clone, Copy, Debug, PartialEq, Eq, Structural)]
pub enum SourceState {
    /// The source at this position is being tried.
    Trying(usize),
    /// The binary was installed from the source at this position.
    Installed(usize),
    /// Every source has failed.
    Exhausted,
}

/// The state before the first source is tried.
pub open spec fn sources_begin(count: nat) -> SourceState {
    if count == 0 {
        SourceState::Exhausted
    } else {
        SourceState::Trying(0)
    }
}

/// The state that follows when the source that is being tried ends in
/// `outcome`: a success ends the walk, a failure leads on to the next
/// source, and to the end where there is none.
pub open spec fn sources_next(count: nat, state: SourceState, outcome: StepOutcome)
    -> SourceState {
    match state {
        SourceState::Trying(at) => match outcome {
            StepOutcome::Succeeded => SourceState::Installed(at),
            StepOutcome::Failed => if at + 1 < count {
                SourceState::Trying((at + 1) as usize)
            } else {
                SourceState::Exhausted
            },
        },
        other => other,
    }
}

/// The state before the first of `count` sources is tried.
pub fn begin_sources(count: usize) -> (state: SourceState)
    ensures
        state == sources_begin(count as nat),
{
    if count == 0 {
        SourceState::Exhausted
    } else {
        SourceState::Trying(0)
    }
}

/// The state that follows when the source that is being tried ends in
/// `outcome`.
pub fn next_source(count: usize, state: SourceState, outcome: StepOutcome) -> (next: SourceState)
    ensures
        next == sources_next(count as nat, state, outcome),
{
    match state {
        SourceState::Trying(at) => match outcome {
            StepOutcome::Succeeded => SourceState::Installed(at),
            StepOutcome::Failed => {
                if at < count && at + 1 < count {
                    SourceState::Trying(at + 1)
                } else {
                    SourceState::Exhausted
                }
            },
        },
        SourceState::Installed(at) => SourceState::Installed(at),
        SourceState::Exhausted => SourceState::Exhausted,
    }
}

/// The failure of a binary none of whose sources worked.
pub fn all_sources_failed(binary: ManagedBinary) -> (error: String)
    ensures
        error@ == "All "@ + binary_name(binary) + " sources failed"@,
{
    let mut buf = chars_of("All ");
    let name = binary.name();
    push_str(&mut buf, name.as_str());
    push_str(&mut buf, " sources failed");
    string_of(&buf)
}

/// What a walk through the sources does.
pub ghost struct SourceTrace {
    /// The positions of the sources that were tried, in the order of the
    /// attempts.
    pub tried: Seq<int>,
    /// Where the walk stands in the end.
    pub state: SourceState,
}

/// The walk that is in `state` and whose attempts end as `outcomes` says.
pub open spec fn sources_run(count: nat, state: SourceState, outcomes: Seq<StepOutcome>)
    -> SourceTrace
    decreases outcomes.len(),
{
    match state {
        SourceState::Trying(at) => if outcomes.len() == 0 {
            SourceTrace { tried: Seq::<int>::empty(), state }
        } else {
            let rest = sources_run(
                count,
                sources_next(count, state, outcomes[0]),
                outcomes.drop_first(),
            );
            SourceTrace { tried: seq![at as int] + rest.tried, state: rest.state }
        },
        _ => SourceTrace { tried: Seq::<int>::empty(), state },
    }
}

proof fn lemma_sources_run(count: nat, at: nat, outcomes: Seq<StepOutcome>, failures: nat)
    requires
        count <= usize::MAX,
        at < count,
        failures <= outcomes.len(),
        forall|i: int| 0 <= i < failures ==> outcomes[i] == StepOutcome::Failed,
        failures < outcomes.len() ==> outcomes[failures as int] == StepOutcome::Succeeded,
    ensures
        ({
            let trace = sources_run(count, SourceState::Trying(at as usize), outcomes);
            let left = (count - at) as nat;
            &&& forall|i: int| 0 <= i < trace.tried.len() ==> trace.tried[i] == at + i
            &&& failures >= left ==> trace.tried.len() == left && trace.state
                == SourceState::Exhausted
            &&& failures < left && failures < outcomes.len() ==> trace.tried.len() == failures + 1
                && trace.state == SourceState::Installed((at + failures) as usize)
            &&& failures < left && failures == outcomes.len() ==> trace.tried.len() == failures
                && trace.state == SourceState::Trying((at + failures) as usize)
        }),
    decreases outcomes.len(),
{
    let state = SourceState::Trying(at as usize);
    let trace = sources_run(count, state, outcomes);
    if outcomes.len() > 0 {
        let next = sources_next(count, state, outcomes[0]);
        let rest = sources_run(count, next, outcomes.drop_first());
        assert(trace.tried == seq![at as int] + rest.tried);
        if failures > 0 && at + 1 < count {
            assert(outcomes[0] == StepOutcome::Failed);
            lemma_sources_run(count, at + 1, outcomes.drop_first(), (failures - 1) as nat);
            assert forall|i: int| 0 <= i < trace.tried.len() implies trace.tried[i] == at + i by {
                if i > 0 {
                    assert(trace.tried[i] == rest.tried[i - 1]);
                }
            }
        } else if failures > 0 {
            assert(outcomes[0] == StepOutcome::Failed);
        } else {
            assert(outcomes[0] == StepOutcome::Succeeded);
        }
    }
}

/// The sources are tried in the order in which they are declared, and the
/// walk ends with the first that works.  Where the first `failures`
/// attempts fail and the next one succeeds, exactly `failures + 1` sources
/// are tried, the first ones, and the binary is installed from the last of
/// them.  Where as many attempts fail as there are sources, every source
/// is tried exactly once, in order, and the walk ends without a binary.
pub proof fn law_sources_in_declared_order(count: nat, outcomes: Seq<StepOutcome>, failures: nat)
    requires
        count <= usize::MAX,
        failures <= outcomes.len(),
        forall|i: int| 0 <= i < failures ==> outcomes[i] == StepOutcome::Failed,
        failures < outcomes.len() ==> outcomes[failures as int] == StepOutcome::Succeeded,
    ensures
        ({
            let trace = sources_run(count, sources_begin(count), outcomes);
            &&& forall|i: int| 0 <= i < trace.tried.len() ==> trace.tried[i] == i
            &&& trace.tried.len() <= count
            &&& failures >= count ==> trace.tried.len() == count && trace.state
                == SourceState::Exhausted
            &&& failures < count && failures < outcomes.len() ==> trace.tried.len() == failures + 1
                && trace.state == SourceState::Installed(failures as usize)
        }),
{
    if count > 0 {
        lemma_sources_run(count, 0, outcomes, failures);
    }
}

/// A walk through the sources of one binary that keeps the error of the
/// last source that failed.
#[derive(Debug, Clone)]
pub struct SourceWalk {
    /// Where the walk stands.
    pub state: SourceState,
    /// The error of the last source that was tried and failed.
    pub last_error: Option<String>,
}

/// A walk over plain text.
pub ghost struct SourceWalkView {
    pub state: SourceState,
    pub last_error: Option<Seq<char>>,
}

impl View for SourceWalk {
    type V = SourceWalkView;

    open spec fn view(&self) -> SourceWalkView {
        SourceWalkView {
            state: self.state,
            last_error: match self.last_error {
                Some(e) => Some(e@),
                None => None,
            },
        }
    }
}

/// The result of an attempt over plain text.
pub open spec fn attempt_view(result: Result<(), String>) -> Result<(), Seq<char>> {
    match result {
        Ok(_) => Ok(()),
        Err(e) => Err(e@),
    }
}

/// The walk before the first source is tried.
pub open spec fn walk_begin(count: nat) -> SourceWalkView {
    SourceWalkView { state: sources_begin(count), last_error: None }
}

/// The walk after the source that is being tried has given `result`: the
/// state moves on as `sources_next` says, and a failure becomes the last
/// error.
pub open spec fn walk_next(count: nat, walk: SourceWalkView, result: Result<(), Seq<char>>)
    -> SourceWalkView {
    match walk.state {
        SourceState::Trying(_) => match result {
            Ok(_) => SourceWalkView {
                state: sources_next(count, walk.state, StepOutcome::Succeeded),
                last_error: walk.last_error,
            },
            Err(e) => SourceWalkView {
                state: sources_next(count, walk.state, StepOutcome::Failed),
                last_error: Some(e),
            },
        },
        _ => walk,
    }
}

/// The failure of a binary whose walk has ended without an installation:
/// the error of the last source that was tried, or, where none was tried,
/// that all sources failed.
pub open spec fn walk_failure_text(binary: ManagedBinary, walk: SourceWalkView) -> Seq<char> {
    match walk.last_error {
        Some(e) => e,
        None => "All "@ + binary_name(binary) + " sources failed"@,
    }
}

/// The walk before the first of `count` sources is tried.
pub fn begin_walk(count: usize) -> (walk: SourceWalk)
    ensures
        walk@ == walk_begin(count as nat),
{
    SourceWalk { state: begin_sources(count), last_error: None }
}

/// The walk after the source that is being tried has given `result`.
pub fn advance_walk(count: usize, walk: SourceWalk, result: Result<(), String>) -> (next:
    SourceWalk)
    ensures
        next@ == walk_next(count as nat, walk@, attempt_view(result)),
{
    match walk.state {
        SourceState::Trying(_) => match result {
            Ok(_) => SourceWalk {
                state: next_source(count, walk.state, StepOutcome::Succeeded),
                last_error: walk.last_error,
            },
            Err(e) => SourceWalk {
                state: next_source(count, walk.state, StepOutcome::Failed),
                last_error: Some(e),
            },
        },
        _ => walk,
    }
}

/// The failure of `binary` after the walk `walk`.
pub fn walk_failure(binary: ManagedBinary, walk: &SourceWalk) -> (error: String)
    ensures
        error@ == walk_failure_text(binary, walk@),
{
    match &walk.last_error {
        Some(e) => e.clone(),
        None => all_sources_failed(binary),
    }
}

/// The walk `walk` carried on with the results of the attempts that follow.
pub open spec fn walk_run(count: nat, walk: SourceWalkView, results: Seq<Result<(), Seq<char>>>)
    -> SourceWalkView
    decreases results.len(),
{
    if results.len() == 0 || !(walk.state is Trying) {
        walk
    } else {
        walk_run(count, walk_next(count, walk, results[0]), results.drop_first())
    }
}

proof fn lemma_walk_run(
    count: nat,
    at: nat,
    last: Option<Seq<char>>,
    results: Seq<Result<(), Seq<char>>>,
)
    requires
        count <= usize::MAX,
        at < count,
        results.len() >= count - at,
        forall|i: int| 0 <= i < count - at ==> results[i] is Err,
    ensures
        walk_run(
            count,
            SourceWalkView { state: SourceState::Trying(at as usize), last_error: last },
            results,
        ) == (SourceWalkView {
            state: SourceState::Exhausted,
            last_error: Some(results[count - at - 1]->Err_0),
        }),
    decreases count - at,
{
    let walk = SourceWalkView { state: SourceState::Trying(at as usize), last_error: last };
    let next = walk_next(count, walk, results[0]);
    assert(results[0] is Err);
    if at + 1 < count {
        assert(next == SourceWalkView {
            state: SourceState::Trying((at + 1) as usize),
            last_error: Some(results[0]->Err_0),
        });
        assert forall|i: int| 0 <= i < count - (at + 1) implies results.drop_first()[i] is Err by {
            assert(results.drop_first()[i] == results[i + 1]);
        }
        lemma_walk_run(count, at + 1, Some(results[0]->Err_0), results.drop_first());
        assert(results.drop_first()[count - (at + 1) - 1] == results[count - at - 1]);
    } else {
        assert(next.state == SourceState::Exhausted);
        assert(walk_run(count, next, results.drop_first()) == next);
    }
}

/// Where every source of a binary fails, the failure of the binary is the
/// error of the last source that was tried.
pub proof fn law_failure_carries_last_error(
    binary: ManagedBinary,
    count: nat,
    results: Seq<Result<(), Seq<char>>>,
)
    requires
        count <= usize::MAX,
        1 <= count <= results.len(),
        forall|i: int| 0 <= i < count ==> results[i] is Err,
    ensures
        walk_run(count, walk_begin(count), results).state == SourceState::Exhausted,
        walk_failure_text(binary, walk_run(count, walk_begin(count), results)) == results[count
            - 1]->Err_0,
{
    lemma_walk_run(count, 0, None, results);
}

/// How the provisioning of one binary ended.
#[derive(Debug, Clone)]
pub struct BinaryOutcome {
    /// The binary.
    pub binary: ManagedBinary,
    /// The last error, where no source worked.
    pub error: Option<String>,
}

/// The binaries that could not be provisioned, each with its last error.
#[derive(Debug, Clone)]
pub struct ProvisionError {
    pub failures: Vec<(ManagedBinary, String)>,
}

/// The failures among `outcomes`, in order: each binary with its last error.
pub open spec fn failed_among(outcomes: Seq<BinaryOutcome>) -> Seq<(ManagedBinary, Seq<char>)>
    decreases outcomes.len(),
{
    if outcomes.len() == 0 {
        Seq::empty()
    } else {
        let front = failed_among(outcomes.drop_last());
        match outcomes.last().error {
            Some(e) => front.push((outcomes.last().binary, e@)),
            None => front,
        }
    }
}

/// The failures of `error` over plain text.
pub open spec fn failure_views(failures: Seq<(ManagedBinary, String)>) -> Seq<
    (ManagedBinary, Seq<char>),
> {
    failures.map_values(|f: (ManagedBinary, String)| (f.0, f.1@))
}

/// Every binary of `outcomes` was provisioned.
pub open spec fn all_succeeded(outcomes: Seq<BinaryOutcome>) -> bool {
    forall|i: int| 0 <= i < outcomes.len() ==> (#[trigger] outcomes[i]).error is None
}

proof fn lemma_failed_among(outcomes: Seq<BinaryOutcome>)
    ensures
        failed_among(outcomes).len() == 0 <==> all_succeeded(outcomes),
    decreases outcomes.len(),
{
    if outcomes.len() > 0 {
        let front = outcomes.drop_last();
        lemma_failed_among(front);
        if all_succeeded(outcomes) {
            assert(outcomes[outcomes.len() - 1].error is None);
            assert forall|i: int| 0 <= i < front.len() implies (#[trigger] front[i]).error
                is None by {
                assert(outcomes[i].error is None);
            }
        }
        if failed_among(outcomes).len() == 0 {
            assert forall|i: int| 0 <= i < outcomes.len() implies (#[trigger] outcomes[i]).error
                is None by {
                if i < front.len() {
                    assert(front[i].error is None);
                }
            }
        }
    }
}

/// What the provisioning of several binaries comes to: a success where
/// every binary was provisioned, else the list of those that were not.
pub fn aggregate_outcomes(outcomes: &Vec<BinaryOutcome>) -> (result: Result<(), ProvisionError>)
    ensures
        result is Ok <==> all_succeeded(outcomes@),
        result is Err ==> failure_views(result->Err_0.failures@) == failed_among(outcomes@)
            && result->Err_0.failures@.len() > 0,
{
    let mut failures: Vec<(ManagedBinary, String)> = Vec::new();
    let mut i: usize = 0;
    assert(outcomes@.take(0) =~= Seq::<BinaryOutcome>::empty());
    assert(failure_views(failures@) =~= failed_among(outcomes@.take(0)));
    while i < outcomes.len()
        invariant
            i <= outcomes.len(),
            failure_views(failures@) == failed_among(outcomes@.take(i as int)),
        decreases outcomes.len() - i,
    {
        let ghost before = failure_views(failures@);
        match &outcomes[i].error {
            Some(e) => {
                failures.push((outcomes[i].binary, e.clone()));
                assert(failure_views(failures@) =~= before.push((outcomes[i as int].binary, e@)));
            },
            None => {},
        }
        assert(outcomes@.take(i as int + 1).drop_last() =~= outcomes@.take(i as int));
        assert(outcomes@.take(i as int + 1).last() == outcomes@[i as int]);
        i += 1;
    }
    assert(outcomes@.take(outcomes.len() as int) =~= outcomes@);
    proof {
        lemma_failed_among(outcomes@);
    }
    if failures.len() == 0 {
        Ok(())
    } else {
        Err(ProvisionError { failures })
    }
}

/// The text for a list of failures: each binary's name, a colon and its
/// error, the entries parted by commas.
pub open spec fn failure_list(failures: Seq<(ManagedBinary, Seq<char>)>) -> Seq<char>
    decreases failures.len(),
{
    if failures.len() == 0 {
        Seq::empty()
    } else {
        let entry = binary_name(failures.last().0) + ": "@ + failures.last().1;
        if failures.len() == 1 {
            entry
        } else {
            failure_list(failures.drop_last()) + ", "@ + entry
        }
    }
}

impl ProvisionError {
    /// The text shown for this error.
    pub fn message(&self) -> (out: String)
        ensures
            out@ == "Failed to download: "@ + failure_list(failure_views(self.failures@)),
    {
        let mut buf = chars_of("Failed to download: ");
        let ghost head = buf@;
        let mut i: usize = 0;
        assert(failure_views(self.failures@).take(0) =~= Seq::<(ManagedBinary, Seq<char>)>::empty());
        assert(buf@ =~= head + failure_list(failure_views(self.failures@).take(0)));
        while i < self.failures.len()
            invariant
                i <= self.failures.len(),
                head == "Failed to download: "@,
                buf@ == head + failure_list(failure_views(self.failures@).take(i as int)),
            decreases self.failures.len() - i,
        {
            let ghost all = failure_views(self.failures@);
            let ghost sofar = failure_list(all.take(i as int));
            if i > 0 {
                push_str(&mut buf, ", ");
            }
            let name = self.failures[i].0.name();
            push_str(&mut buf, name.as_str());
            push_str(&mut buf, ": ");
            push_str(&mut buf, self.failures[i].1.as_str());
            proof {
                let next = all.take(i as int + 1);
                assert(next.drop_last() =~= all.take(i as int));
                assert(next.last() == all[i as int]);
                assert(all[i as int] == (self.failures@[i as int].0, self.failures@[i as int].1@));
                let entry = binary_name(next.last().0) + ": "@ + next.last().1;
                if i == 0 {
                    assert(sofar =~= Seq::<char>::empty());
                    assert(buf@ =~= head + entry);
                } else {
                    assert(buf@ =~= head + (sofar + ", "@ + entry));
                }
            }
            i += 1;
        }
        assert(failure_views(self.failures@).take(self.failures.len() as int) =~= failure_views(
            self.failures@,
        ));
        string_of(&buf)
    }
}

/// After a provisioning that succeeded for every binary that was missing,
/// no managed binary is missing: each was there before or has been
/// installed.
pub proof fn law_success_leaves_none_missing(presence: Presence, outcomes: Seq<BinaryOutcome>)
    requires
        outcomes.len() == missing_set(presence).len(),
        forall|i: int| 0 <= i < outcomes.len() ==> outcomes[i].binary == missing_set(presence)[i],
        all_succeeded(outcomes),
    ensures
        forall|b: ManagedBinary|
            is_present(presence, b) || exists|i: int|
                0 <= i < outcomes.len() && (#[trigger] outcomes[i]).binary == b
                    && outcomes[i].error is None,
{
    let absent = absent(presence);
    assert forall|b: ManagedBinary| !is_present(presence, b) implies exists|i: int|
        0 <= i < outcomes.len() && (#[trigger] outcomes[i]).binary == b
            && outcomes[i].error is None by {
        let all = managed_set();
        let at: int = match b {
            ManagedBinary::YtDlp => 0,
            ManagedBinary::Ffmpeg => 1,
            ManagedBinary::Ffprobe => 2,
        };
        assert(all[at] == b);
        assert(all.contains(b));
        assert(absent(b));
        all.lemma_filter_contains_rev(absent, b);
        let missing = missing_set(presence);
        assert(missing.contains(b));
        let i = choose|i: int| 0 <= i < missing.len() && missing[i] == b;
        assert(outcomes[i].binary == b);
    }
}

/// A point in the provisioning that the user is told about.
#[derive(Debug, Clone)]
pub enum SetupStage {
    /// Provisioning of the missing binaries begins.
    SetupStarted,
    /// Every binary is in place.
    SetupReady,
    /// Work on one binary begins.
    Starting(ManagedBinary),
    /// The release file of the binary is being downloaded.
    Downloading(ManagedBinary),
    /// The binary is being downloaded from the source of this name.
    DownloadingFrom(ManagedBinary, String),
    /// The digest of the download is being checked.
    Verifying(ManagedBinary),
    /// The binary is being written to its place.
    Saving(ManagedBinary),
    /// The binary is in place.
    Ready(ManagedBinary),
}

/// What the user is told about the provisioning.
#[derive(Debug, Clone)]
pub struct DownloadProgress {
    /// The binary that is worked on, or `setup` for the whole.
    pub binary: String,
    /// Share of the work that is done, in percent.
    pub progress: u8,
    /// What is being done.
    pub status: String,
}

/// Progress over plain text.
pub ghost struct SetupProgressView {
    pub binary: Seq<char>,
    pub progress: u8,
    pub status: Seq<char>,
}

impl View for DownloadProgress {
    type V = SetupProgressView;

    open spec fn view(&self) -> SetupProgressView {
        SetupProgressView { binary: self.binary@, progress: self.progress, status: self.status@ }
    }
}

/// What the user is told at `stage`.
pub open spec fn progress_at(stage: SetupStage) -> SetupProgressView {
    match stage {
        SetupStage::SetupStarted => SetupProgressView {
            binary: "setup"@,
            progress: 0,
            status: "Downloading required tools..."@,
        },
        SetupStage::SetupReady => SetupProgressView {
            binary: "setup"@,
            progress: 100,
            status: "All tools ready!"@,
        },
        SetupStage::Starting(b) => SetupProgressView {
            binary: binary_name(b),
            progress: 0,
            status: "Downloading "@ + binary_name(b) + "..."@,
        },
        SetupStage::Downloading(b) => SetupProgressView {
            binary: binary_name(b),
            progress: 25,
            status: "Downloading binary..."@,
        },
        SetupStage::DownloadingFrom(b, source) => SetupProgressView {
            binary: binary_name(b),
            progress: 25,
            status: "Downloading from "@ + source@ + "..."@,
        },
        SetupStage::Verifying(b) => SetupProgressView {
            binary: binary_name(b),
            progress: 75,
            status: "Verifying checksum..."@,
        },
        SetupStage::Saving(b) => SetupProgressView {
            binary: binary_name(b),
            progress: 75,
            status: "Saving binary..."@,
        },
        SetupStage::Ready(b) => SetupProgressView {
            binary: binary_name(b),
            progress: 100,
            status: "Ready!"@,
        },
    }
}

fn framed(head: &str, middle: &str, tail: &str) -> (out: String)
    ensures
        out@ == head@ + middle@ + tail@,
{
    let mut buf = chars_of(head);
    push_str(&mut buf, middle);
    push_str(&mut buf, tail);
    string_of(&buf)
}

/// What the user is told at `stage`.
pub fn emit_progress(stage: &SetupStage) -> (progress: DownloadProgress)
    ensures
        progress@ == progress_at(*stage),
{
    match stage {
        SetupStage::SetupStarted => DownloadProgress {
            binary: "setup".to_owned(),
            progress: 0,
            status: "Downloading required tools...".to_owned(),
        },
        SetupStage::SetupReady => DownloadProgress {
            binary: "setup".to_owned(),
            progress: 100,
            status: "All tools ready!".to_owned(),
        },
        SetupStage::Starting(b) => {
            let name = b.name();
            DownloadProgress {
                status: framed("Downloading ", name.as_str(), "..."),
                binary: name,
                progress: 0,
            }
        },
        SetupStage::Downloading(b) => DownloadProgress {
            binary: b.name(),
            progress: 25,
            status: "Downloading binary...".to_owned(),
        },
        SetupStage::DownloadingFrom(b, source) => DownloadProgress {
            binary: b.name(),
            progress: 25,
            status: framed("Downloading from ", source.as_str(), "..."),
        },
        SetupStage::Verifying(b) => DownloadProgress {
            binary: b.name(),
            progress: 75,
            status: "Verifying checksum...".to_owned(),
        },
        SetupStage::Saving(b) => DownloadProgress {
            binary: b.name(),
            progress: 75,
            status: "Saving binary...".to_owned(),
        },
        SetupStage::Ready(b) => DownloadProgress {
            binary: b.name(),
            progress: 100,
            status: "Ready!".to_owned(),
        },
    }
}

} // verus!
