//! Fetching one binary from one source: checking what was downloaded, and
//! putting it in its place in such a way that a failure leaves the file
//! that was there before.

use vstd::prelude::*;
use vstd::slice::slice_to_vec;
use crate::archive::{extract_from_zip, extraction};
use crate::catalog::{find_asset, first_named, ytdlp_asset, GitHubRelease};
use crate::checksum::{checksum_verdict, verify_checksum};
use crate::errors::{payload_view, FetchError, FetchErrorView};
use crate::platform::{Os, Platform};
use crate::text::joined;

verus! {

/// A checksum manifest and the name under which it lists the download.
#[derive(Debug, Clone)]
pub struct Manifest {
    /// The text of the manifest.
    pub text: String,
    /// The name of the downloaded file in the manifest.
    pub asset_name: String,
}

/// The bytes that are installed from a download, or why there are none.
///
/// A download that is an archive has to hold the binary; the binary is
/// then what is installed, else the download itself.  Where the source has
/// a manifest, the download has to have the digest that the manifest lists
/// for it.
pub open spec fn checked_payload(
    bytes: Seq<u8>,
    binary: Seq<char>,
    packaged: bool,
    os: Os,
    manifest: Option<Manifest>,
) -> Result<Seq<u8>, FetchErrorView> {
    let payload = if packaged {
        extraction(bytes, binary, os)
    } else {
        Ok(bytes)
    };
    match payload {
        Err(e) => Err(e),
        Ok(p) => match manifest {
            None => Ok(p),
            Some(m) => match checksum_verdict(bytes, m.text@, m.asset_name@) {
                Ok(_) => Ok(p),
                Err(e) => Err(e),
            },
        },
    }
}

/// The bytes to install for the binary `binary_name` from the download
/// `bytes`.
pub fn check_download(
    bytes: &[u8],
    binary_name: &str,
    packaged: bool,
    os: Os,
    manifest: &Option<Manifest>,
) -> (result: Result<Vec<u8>, FetchError>)
    ensures
        payload_view(result) == checked_payload(bytes@, binary_name@, packaged, os, *manifest),
{
    let payload = if packaged {
        match extract_from_zip(bytes, binary_name, os) {
            Ok(p) => p,
            Err(e) => {
                return Err(e);
            },
        }
    } else {
        slice_to_vec(bytes)
    };
    match manifest {
        None => Ok(payload),
        Some(m) => match verify_checksum(bytes, m.text.as_str(), m.asset_name.as_str()) {
            Ok(_) => Ok(payload),
            Err(e) => Err(e),
        },
    }
}

/// The failure of a transfer that the server answered with `status`.
pub fn http_failure(status: &str) -> (error: FetchError)
    ensures
        error@ == FetchErrorView::Network("HTTP "@ + status@),
{
    FetchError::Network(joined("HTTP ", status))
}

/// What to do about the download tool, given its latest release.
#[derive(Clone, Copy, Debug, PartialEq, Eq, Structural)]
pub enum UpdatePlan {
    /// The installed version is the latest: only note that it was checked.
    UpToDate,
    /// Fetch the release file at this position.
    Fetch(usize),
    /// The release has no file for this platform.
    AssetMissing,
}

/// What to do about the download tool.  Nothing is fetched when the
/// installed version carries the tag of the release; else the first release
/// file with the platform's name is fetched.
pub open spec fn update_plan(
    installed: Seq<char>,
    release: GitHubRelease,
    platform: Platform,
    plan: UpdatePlan,
) -> bool {
    if installed == release.tag_name@ {
        plan == UpdatePlan::UpToDate
    } else {
        match plan {
            UpdatePlan::UpToDate => false,
            UpdatePlan::Fetch(at) => first_named(release.assets@, ytdlp_asset(platform), at as int),
            UpdatePlan::AssetMissing => forall|k: int|
                0 <= k < release.assets.len() ==> release.assets[k].name@ != ytdlp_asset(platform),
        }
    }
}

/// What to do about the download tool when version `installed` is in
/// place (the empty text where none is) and `release` is the latest.
pub fn plan_update(installed: &str, release: &GitHubRelease, platform: Platform) -> (plan:
    UpdatePlan)
    ensures
        update_plan(installed@, *release, platform, plan),
{
    if installed.to_owned() == release.tag_name {
        return UpdatePlan::UpToDate;
    }
    let name = crate::catalog::get_ytdlp_asset_name(platform);
    match find_asset(release, name.as_str()) {
        Some(at) => UpdatePlan::Fetch(at),
        None => UpdatePlan::AssetMissing,
    }
}

/// The failure when the release has no file of the wanted name.
pub fn asset_missing(name: &str) -> (error: FetchError)
    ensures
        error@ == FetchErrorView::AssetMissing(name@),
{
    FetchError::AssetMissing(name.to_owned())
}

/// What is known before a checked download is put in its place.
#[derive(Clone, Copy, Debug, PartialEq, Eq, Structural)]
pub struct InstallPlan {
    /// A file is installed already and is about to be replaced.
    pub had_previous: bool,
    /// The platform wants the file to be marked as executable.
    pub needs_exec_bit: bool,
}

/// One thing to do to the file system.
#[derive(Clone, Copy, Debug, PartialEq, Eq, Structural)]
pub enum InstallAction {
    /// Copy the installed file to the backup path.
    Backup,
    /// Write the new bytes to the install path.
    Write,
    /// Copy the backup over the install path.
    Restore,
    /// Mark the installed file as executable.
    MakeExecutable,
    /// Delete the file at the backup path, if there is one.
    RemoveBackup,
    /// Write the record of the installation.
    WriteRecord,
    /// Nothing: the installation is over.
    Finish,
}

/// The step that made an installation fail.
#[derive(Clone, Copy, Debug, PartialEq, Eq, Structural)]
pub enum InstallFailure {
    Backup,
    Write,
    Permission,
    Record,
}

/// How an action went.
#[derive(Clone, Copy, Debug, PartialEq, Eq, Structural)]
pub enum StepOutcome {
    Succeeded,
    Failed,
}

/// Where an installation stands: the action that is under way, and the
/// failure that it is bound to end with, if any.
#[derive(Clone, Copy, Debug, PartialEq, Eq, Structural)]
pub struct InstallState {
    pub pending: InstallAction,
    pub failure: Option<InstallFailure>,
}

/// The state in which the action `pending` is under way after `failure`.
pub open spec fn state_with(pending: InstallAction, failure: Option<InstallFailure>)
    -> InstallState {
    InstallState { pending, failure }
}

/// The first state: a file that is in place is saved aside before anything
/// is written.
pub open spec fn install_begin(plan: InstallPlan) -> InstallState {
    if plan.had_previous {
        state_with(InstallAction::Backup, None)
    } else {
        state_with(InstallAction::Write, None)
    }
}

/// The state after the file is in place and, where needed, executable:
/// whatever lies at the backup path is cleared, then the record is written.
pub open spec fn install_completed() -> InstallState {
    state_with(InstallAction::RemoveBackup, None)
}

/// The state after the step `failure` has failed: the file that was in
/// place is restored from the backup, where there is one.
pub open spec fn install_failed(plan: InstallPlan, failure: InstallFailure) -> InstallState {
    if plan.had_previous {
        state_with(InstallAction::Restore, Some(failure))
    } else {
        state_with(InstallAction::Finish, Some(failure))
    }
}

/// The state that follows when the action under way ends in `outcome`.
///
/// A backup that fails ends the installation before anything is written.
/// A write or a change of permissions that fails leads to a restore.  The
/// installation ends after the restore, however that went, with the
/// failure that led to it.  Every installation that has put the file in
/// place goes on to clear the backup path, whether or not it made a backup
/// itself; a backup that cannot be deleted is left behind.
pub open spec fn install_next(plan: InstallPlan, state: InstallState, outcome: StepOutcome)
    -> InstallState {
    match state.pending {
        InstallAction::Backup => match outcome {
            StepOutcome::Succeeded => state_with(InstallAction::Write, None),
            StepOutcome::Failed => state_with(InstallAction::Finish, Some(InstallFailure::Backup)),
        },
        InstallAction::Write => match outcome {
            StepOutcome::Succeeded => if plan.needs_exec_bit {
                state_with(InstallAction::MakeExecutable, None)
            } else {
                install_completed()
            },
            StepOutcome::Failed => install_failed(plan, InstallFailure::Write),
        },
        InstallAction::MakeExecutable => match outcome {
            StepOutcome::Succeeded => install_completed(),
            StepOutcome::Failed => install_failed(plan, InstallFailure::Permission),
        },
        InstallAction::Restore => state_with(InstallAction::Finish, state.failure),
        InstallAction::RemoveBackup => state_with(InstallAction::WriteRecord, None),
        InstallAction::WriteRecord => match outcome {
            StepOutcome::Succeeded => state_with(InstallAction::Finish, None),
            StepOutcome::Failed => state_with(InstallAction::Finish, Some(InstallFailure::Record)),
        },
        InstallAction::Finish => state,
    }
}

impl InstallPlan {
    /// The plan for installing on `os`, over a file that is in place or not.
    pub fn new(had_previous: bool, os: Os) -> (plan: InstallPlan)
        ensures
            plan.had_previous == had_previous,
            plan.needs_exec_bit == (os != Os::Windows),
    {
        InstallPlan {
            had_previous,
            needs_exec_bit: match os {
                Os::Windows => false,
                _ => true,
            },
        }
    }

    /// The first state of the installation.
    pub fn begin(&self) -> (state: InstallState)
        ensures
            state == install_begin(*self),
    {
        if self.had_previous {
            InstallState { pending: InstallAction::Backup, failure: None }
        } else {
            InstallState { pending: InstallAction::Write, failure: None }
        }
    }

    fn failed(&self, failure: InstallFailure) -> (state: InstallState)
        ensures
            state == install_failed(*self, failure),
    {
        if self.had_previous {
            InstallState { pending: InstallAction::Restore, failure: Some(failure) }
        } else {
            InstallState { pending: InstallAction::Finish, failure: Some(failure) }
        }
    }

    /// The state that follows when the action under way in `state` ends
    /// in `outcome`.
    pub fn step(&self, state: InstallState, outcome: StepOutcome) -> (next: InstallState)
        ensures
            next == install_next(*self, state, outcome),
    {
        let ok = match outcome {
            StepOutcome::Succeeded => true,
            StepOutcome::Failed => false,
        };
        match state.pending {
            InstallAction::Backup => {
                if ok {
                    InstallState { pending: InstallAction::Write, failure: None }
                } else {
                    InstallState {
                        pending: InstallAction::Finish,
                        failure: Some(InstallFailure::Backup),
                    }
                }
            },
            InstallAction::Write => {
                if ok {
                    if self.needs_exec_bit {
                        InstallState { pending: InstallAction::MakeExecutable, failure: None }
                    } else {
                        InstallState { pending: InstallAction::RemoveBackup, failure: None }
                    }
                } else {
                    self.failed(InstallFailure::Write)
                }
            },
            InstallAction::MakeExecutable => {
                if ok {
                    InstallState { pending: InstallAction::RemoveBackup, failure: None }
                } else {
                    self.failed(InstallFailure::Permission)
                }
            },
            InstallAction::Restore => InstallState {
                pending: InstallAction::Finish,
                failure: state.failure,
            },
            InstallAction::RemoveBackup => InstallState {
                pending: InstallAction::WriteRecord,
                failure: None,
            },
            InstallAction::WriteRecord => {
                if ok {
                    InstallState { pending: InstallAction::Finish, failure: None }
                } else {
                    InstallState {
                        pending: InstallAction::Finish,
                        failure: Some(InstallFailure::Record),
                    }
                }
            },
            InstallAction::Finish => state,
        }
    }
}

/// The error of an installation that failed at the step `failure` for the
/// reason `reason`.
pub fn install_error(failure: InstallFailure, reason: &str) -> (error: FetchError)
    ensures
        error@ == match failure {
            InstallFailure::Backup => FetchErrorView::Backup(reason@),
            InstallFailure::Write => FetchErrorView::Write(reason@),
            InstallFailure::Permission => FetchErrorView::Permission(reason@),
            InstallFailure::Record => FetchErrorView::Record(reason@),
        },
{
    match failure {
        InstallFailure::Backup => FetchError::Backup(reason.to_owned()),
        InstallFailure::Write => FetchError::Write(reason.to_owned()),
        InstallFailure::Permission => FetchError::Permission(reason.to_owned()),
        InstallFailure::Record => FetchError::Record(reason.to_owned()),
    }
}

/// What an installation that succeeded has put in place.
#[derive(Debug, Clone)]
pub struct InstalledVersion {
    /// The version tag of the binary.
    pub version: String,
    /// Where the binary is.
    pub path: String,
}

/// What an installation has come to, over plain text: nothing while it is
/// under way, then the version that is in place, or the failure.
pub open spec fn install_result_of(
    state: InstallState,
    version: Seq<char>,
    path: Seq<char>,
    reason: Seq<char>,
) -> Option<Result<(Seq<char>, Seq<char>), FetchErrorView>> {
    if state.pending != InstallAction::Finish {
        None
    } else {
        match state.failure {
            None => Some(Ok((version, path))),
            Some(InstallFailure::Backup) => Some(Err(FetchErrorView::Backup(reason))),
            Some(InstallFailure::Write) => Some(Err(FetchErrorView::Write(reason))),
            Some(InstallFailure::Permission) => Some(Err(FetchErrorView::Permission(reason))),
            Some(InstallFailure::Record) => Some(Err(FetchErrorView::Record(reason))),
        }
    }
}

/// The result of an installation over plain text.
pub open spec fn install_result_view(result: Option<Result<InstalledVersion, FetchError>>) -> Option<
    Result<(Seq<char>, Seq<char>), FetchErrorView>,
> {
    match result {
        None => None,
        Some(Ok(v)) => Some(Ok((v.version@, v.path@))),
        Some(Err(e)) => Some(Err(e@)),
    }
}

/// What the installation of version `version` at `path` has come to in
/// `state`; `reason` is what the step that failed, if one did, gave as its
/// reason.
pub fn install_result(state: InstallState, version: &str, path: &str, reason: &str) -> (result:
    Option<Result<InstalledVersion, FetchError>>)
    ensures
        install_result_view(result) == install_result_of(state, version@, path@, reason@),
{
    match state.pending {
        InstallAction::Finish => match state.failure {
            None => Some(Ok(InstalledVersion { version: version.to_owned(), path: path.to_owned() })),
            Some(failure) => Some(Err(install_error(failure, reason))),
        },
        _ => None,
    }
}

/// The path beside an installed file at which it is saved aside.
pub fn backup_path(install_path: &str) -> (path: String)
    ensures
        path@ == install_path@ + ".backup"@,
{
    joined(install_path, ".backup")
}

/// The files that an installation touches.
pub ghost struct Disk {
    /// Content of the file at the install path, if there is one.
    pub target: Option<Seq<u8>>,
    /// Content of the file at the backup path, if there is one.
    pub backup: Option<Seq<u8>>,
    /// The file at the install path is marked as executable.
    pub exec_bit: bool,
    /// The record of this installation has been written.
    pub recorded: bool,
}

/// How an action went, and what a failed action left behind in the file
/// that it was writing.
pub ghost struct StepReport {
    pub outcome: StepOutcome,
    pub debris: Option<Seq<u8>>,
}

/// The files after `action` has been carried out with the new bytes
/// `payload`.  An action that succeeds does what its name says.  One that
/// fails leaves the file that it was writing in an unknown state, and
/// every other file as it was.
pub open spec fn disk_after(action: InstallAction, report: StepReport, disk: Disk, payload: Seq<u8>)
    -> Disk {
    let ok = report.outcome == StepOutcome::Succeeded;
    match action {
        InstallAction::Backup => Disk {
            backup: if ok {
                disk.target
            } else {
                report.debris
            },
            ..disk
        },
        InstallAction::Write => Disk {
            target: if ok {
                Some(payload)
            } else {
                report.debris
            },
            ..disk
        },
        InstallAction::Restore => Disk {
            target: if ok {
                disk.backup
            } else {
                report.debris
            },
            ..disk
        },
        InstallAction::MakeExecutable => Disk { exec_bit: disk.exec_bit || ok, ..disk },
        InstallAction::RemoveBackup => Disk {
            backup: if ok {
                None
            } else {
                disk.backup
            },
            ..disk
        },
        InstallAction::WriteRecord => Disk { recorded: disk.recorded || ok, ..disk },
        InstallAction::Finish => disk,
    }
}

/// Where an installation and its files stand.
pub ghost struct InstallTrace {
    pub state: InstallState,
    pub disk: Disk,
    /// A restore was tried and failed.
    pub restore_failed: bool,
    /// The backup path was to be cleared, and that failed.
    pub cleanup_failed: bool,
}

/// The installation that is in `state` with the files `disk`, carried on
/// until it is over or `reports` has nothing more to say.
pub open spec fn install_run(
    plan: InstallPlan,
    state: InstallState,
    disk: Disk,
    payload: Seq<u8>,
    reports: Seq<StepReport>,
) -> InstallTrace
    decreases reports.len(),
{
    if reports.len() == 0 || state.pending == InstallAction::Finish {
        InstallTrace { state, disk, restore_failed: false, cleanup_failed: false }
    } else {
        let rest = install_run(
            plan,
            install_next(plan, state, reports[0].outcome),
            disk_after(state.pending, reports[0], disk, payload),
            payload,
            reports.drop_first(),
        );
        InstallTrace {
            state: rest.state,
            disk: rest.disk,
            restore_failed: rest.restore_failed || (state.pending == InstallAction::Restore
                && reports[0].outcome == StepOutcome::Failed),
            cleanup_failed: rest.cleanup_failed || (state.pending == InstallAction::RemoveBackup
                && reports[0].outcome == StepOutcome::Failed),
        }
    }
}

/// An installation is over.
pub open spec fn finished(trace: InstallTrace) -> bool {
    trace.state.pending == InstallAction::Finish
}

/// What holds of an installation that is over.
///
/// Where it succeeded, the new bytes are in place, executable where the
/// platform asks for it, and the record is written.  Where the record
/// could not be written, the new bytes are in place all the same.  In
/// both cases nothing lies at the backup path any more, whether the
/// installation made the backup itself or found one from before, unless
/// the backup could not be deleted.  Where
/// the backup failed, the file that was in place has not been touched.
/// Where the write or the change of permissions failed over a file that
/// was in place, that file is back, unless the restore failed too.
pub open spec fn outcome_holds(
    plan: InstallPlan,
    trace: InstallTrace,
    payload: Seq<u8>,
    before: Disk,
) -> bool {
    match trace.state.failure {
        None => trace.disk.target == Some(payload) && (plan.needs_exec_bit ==> trace.disk.exec_bit)
            && trace.disk.recorded && (!trace.cleanup_failed ==> trace.disk.backup is None),
        Some(InstallFailure::Record) => trace.disk.target == Some(payload) && (plan.needs_exec_bit
            ==> trace.disk.exec_bit) && (!trace.cleanup_failed ==> trace.disk.backup is None),
        Some(InstallFailure::Backup) => trace.disk.target == before.target,
        Some(_) => plan.had_previous && !trace.restore_failed ==> trace.disk.target
            == before.target,
    }
}

/// Every installation that is carried through ends as `outcome_holds`
/// says, whatever the single steps did: a success leaves the new bytes in
/// place and executable, and a failed write, or a failed change of
/// permissions, over a file that was in place leaves the bytes of that
/// file as they were.
pub proof fn law_install_outcome(
    plan: InstallPlan,
    before: Disk,
    payload: Seq<u8>,
    reports: Seq<StepReport>,
)
    requires
        plan.had_previous ==> before.target is Some,
    ensures
        finished(install_run(plan, install_begin(plan), before, payload, reports))
            ==> outcome_holds(
            plan,
            install_run(plan, install_begin(plan), before, payload, reports),
            payload,
            before,
        ),
{
    reveal_with_fuel(install_run, 8);
}

/// A failed installation over a file that was in place leaves the bytes of
/// that file as they were: where the write, or the change of permissions
/// after it, fails and the restore that follows does not, the install path
/// holds in the end what it held before.
pub proof fn law_rollback_keeps_old_file(
    plan: InstallPlan,
    before: Disk,
    payload: Seq<u8>,
    reports: Seq<StepReport>,
)
    requires
        plan.had_previous,
        before.target is Some,
        finished(install_run(plan, install_begin(plan), before, payload, reports)),
        install_run(plan, install_begin(plan), before, payload, reports).state.failure is Some,
        !install_run(plan, install_begin(plan), before, payload, reports).restore_failed,
        install_run(plan, install_begin(plan), before, payload, reports).state.failure != Some(
            InstallFailure::Record,
        ),
    ensures
        install_run(plan, install_begin(plan), before, payload, reports).disk.target
            == before.target,
{
    law_install_outcome(plan, before, payload, reports);
}

/// A write that fails over a file that was in place, followed by a restore
/// that succeeds, ends the installation with a write failure and with the
/// old bytes in place, whatever the failed write left behind.
pub proof fn law_failed_write_is_undone(
    plan: InstallPlan,
    before: Disk,
    payload: Seq<u8>,
    debris: Option<Seq<u8>>,
    later: Seq<StepReport>,
)
    requires
        plan.had_previous,
        before.target is Some,
    ensures
        ({
            let reports = seq![
                StepReport { outcome: StepOutcome::Succeeded, debris: None },
                StepReport { outcome: StepOutcome::Failed, debris },
                StepReport { outcome: StepOutcome::Succeeded, debris: None },
            ] + later;
            let end = install_run(plan, install_begin(plan), before, payload, reports);
            &&& finished(end)
            &&& end.state.failure == Some(InstallFailure::Write)
            &&& end.disk.target == before.target
        }),
{
    reveal_with_fuel(install_run, 8);
    let reports = seq![
        StepReport { outcome: StepOutcome::Succeeded, debris: None },
        StepReport { outcome: StepOutcome::Failed, debris },
        StepReport { outcome: StepOutcome::Succeeded, debris: None },
    ] + later;
    assert(reports[0].outcome == StepOutcome::Succeeded);
    assert(reports.drop_first()[0].outcome == StepOutcome::Failed);
    assert(reports.drop_first()[0].debris == debris);
    assert(reports.drop_first().drop_first()[0].outcome == StepOutcome::Succeeded);
}

} // verus!
