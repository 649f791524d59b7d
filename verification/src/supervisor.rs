//! Watching a running download: what its output means, how it ends, and
//! how it is cancelled.

use vstd::prelude::*;
use crate::errors::{
    auth_text, dpapi_text, ffmpeg_text, is_auth_error, is_dpapi_error, is_ffmpeg_error,
    is_network_error, is_rate_limit_error, network_text, rate_limit_text, DownloadError,
};
use crate::progress::{
    eta_pattern, first_capture, parse_progress, percent_pattern, progress_of, speed_pattern,
    DownloadProgress, ProgressText,
};
use crate::registry::{ActiveDownloads, DownloadHandle};
use crate::text::{
    chars_of, contains, includes, joined, push_signed_decimal, push_str, signed_decimal, string_of,
};

verus! {

/// What a running tool lets its watcher know.
#[derive(Debug, Clone)]
pub enum ProcessEvent {
    /// A line on its standard output.
    StdoutLine(String),
    /// A line on its standard error.
    StderrLine(String),
    /// Its end, with the exit code where there is one.
    Terminated { exit_code: Option<i32> },
}

/// What the watcher lets the outside know about a download.
#[derive(Debug, Clone)]
pub enum Notification {
    Started { id: String, path: String },
    Progress(DownloadProgress),
    Processing { id: String, message: String },
    Status(String),
    Completed { id: String, path: String },
    Failed { id: String, error: String },
    Cancelled { id: String, path: String },
}

/// A notification over plain text.
pub ghost enum NotificationView {
    Started { id: Seq<char>, path: Seq<char> },
    Progress(ProgressText),
    Processing { id: Seq<char>, message: Seq<char> },
    Status(Seq<char>),
    Completed { id: Seq<char>, path: Seq<char> },
    Failed { id: Seq<char>, error: Seq<char> },
    Cancelled { id: Seq<char>, path: Seq<char> },
}

impl View for Notification {
    type V = NotificationView;

    open spec fn view(&self) -> NotificationView {
        match *self {
            Notification::Started { id, path } => NotificationView::Started {
                id: id@,
                path: path@,
            },
            Notification::Progress(p) => NotificationView::Progress(p@),
            Notification::Processing { id, message } => NotificationView::Processing {
                id: id@,
                message: message@,
            },
            Notification::Status(line) => NotificationView::Status(line@),
            Notification::Completed { id, path } => NotificationView::Completed {
                id: id@,
                path: path@,
            },
            Notification::Failed { id, error } => NotificationView::Failed {
                id: id@,
                error: error@,
            },
            Notification::Cancelled { id, path } => NotificationView::Cancelled {
                id: id@,
                path: path@,
            },
        }
    }
}

/// A notification that ends the life of a download.
pub open spec fn is_terminal(n: NotificationView) -> bool {
    n is Completed || n is Failed || n is Cancelled
}

/// The name under which a notification is sent.
pub open spec fn event_name_of(n: NotificationView) -> Seq<char> {
    match n {
        NotificationView::Started { .. } => "download-started"@,
        NotificationView::Progress(_) => "download-progress"@,
        NotificationView::Processing { .. } => "download-processing"@,
        NotificationView::Status(_) => "download-status"@,
        NotificationView::Completed { .. } => "download-complete"@,
        NotificationView::Failed { .. } => "download-complete"@,
        NotificationView::Cancelled { .. } => "download-cancelled"@,
    }
}

impl Notification {
    /// The name under which this notification is sent.
    pub fn event_name(&self) -> (name: String)
        ensures
            name@ == event_name_of(self@),
    {
        match self {
            Notification::Started { .. } => "download-started".to_owned(),
            Notification::Progress(_) => "download-progress".to_owned(),
            Notification::Processing { .. } => "download-processing".to_owned(),
            Notification::Status(_) => "download-status".to_owned(),
            Notification::Completed { .. } => "download-complete".to_owned(),
            Notification::Failed { .. } => "download-complete".to_owned(),
            Notification::Cancelled { .. } => "download-cancelled".to_owned(),
        }
    }
}

/// The views of `notifications`, in order.
pub open spec fn notification_views(notifications: Seq<Notification>) -> Seq<NotificationView> {
    notifications.map_values(|n: Notification| n@)
}

/// What the user is told when the tool ended with exit code `code` and left
/// `stderr` behind.  Of the causes that the diagnostics show, the first in
/// this order is named: a missing post-processor, a cookie store that could
/// not be decrypted, a login that is needed, a request quota, the network.
/// Where they show none, the exit code is given.
pub open spec fn failure_text(stderr: Seq<char>, code: int) -> Seq<char> {
    if ffmpeg_text(stderr) {
        "Video processing failed. FFmpeg is required to merge video and audio streams. Please restart the application and try again."@
    } else if dpapi_text(stderr) {
        "Cookie decryption failed. Chrome/Edge on Windows have encryption issues. Solutions: 1) Close your browser completely and try again, 2) Install Firefox (recommended), or 3) Disable browser cookies in settings."@
    } else if auth_text(stderr) {
        "Authentication required. Try enabling browser cookies."@
    } else if rate_limit_text(stderr) {
        "Rate limit exceeded. Please wait and try again."@
    } else if network_text(stderr) {
        "Network error. Check your connection and try again."@
    } else {
        "Exit code: "@ + signed_decimal(code)
    }
}

/// What the user is told when the tool ended with exit code `code` and left
/// `stderr` behind.
pub fn failure_message(stderr: &str, code: i32) -> (message: String)
    ensures
        message@ == failure_text(stderr@, code as int),
{
    if is_ffmpeg_error(stderr) {
        "Video processing failed. FFmpeg is required to merge video and audio streams. Please restart the application and try again.".to_owned()
    } else if is_dpapi_error(stderr) {
        "Cookie decryption failed. Chrome/Edge on Windows have encryption issues. Solutions: 1) Close your browser completely and try again, 2) Install Firefox (recommended), or 3) Disable browser cookies in settings.".to_owned()
    } else if is_auth_error(stderr) {
        "Authentication required. Try enabling browser cookies.".to_owned()
    } else if is_rate_limit_error(stderr) {
        "Rate limit exceeded. Please wait and try again.".to_owned()
    } else if is_network_error(stderr) {
        "Network error. Check your connection and try again.".to_owned()
    } else {
        let mut buf = chars_of("Exit code: ");
        push_signed_decimal(&mut buf, code);
        string_of(&buf)
    }
}

/// A line that says that the tool has begun to merge or convert.
pub open spec fn processing_text(line: Seq<char>) -> bool {
    contains(line, "[Merger]"@) || contains(line, "Merging formats"@) || contains(
        line,
        "[ffmpeg]"@,
    )
}

/// A diagnostic line that is worth showing while the download runs.
pub open spec fn status_text(line: Seq<char>) -> bool {
    contains(line, "Sleeping"@) || contains(line, "rate limit"@)
}

/// What a line on standard output gives rise to: a note that processing
/// has begun, where the line says so, and then the progress that the line
/// reports, where it reports any.
pub open spec fn stdout_notifications(
    id: Seq<char>,
    line: Seq<char>,
    progress: Option<ProgressText>,
) -> Seq<NotificationView> {
    (if processing_text(line) {
        seq![NotificationView::Processing { id, message: "Processing video..."@ }]
    } else {
        Seq::<NotificationView>::empty()
    }) + (match progress {
        Some(p) => seq![NotificationView::Progress(p)],
        None => Seq::<NotificationView>::empty(),
    })
}

/// How a download that was still registered ends.
pub open spec fn end_notification(
    id: Seq<char>,
    output_path: Seq<char>,
    stderr: Seq<char>,
    exit_code: Option<i32>,
) -> NotificationView {
    match exit_code {
        Some(code) => if code == 0 {
            NotificationView::Completed { id, path: output_path }
        } else {
            NotificationView::Failed { id, error: failure_text(stderr, code as int) }
        },
        None => NotificationView::Failed { id, error: "Process terminated without exit code"@ },
    }
}

/// The watcher of one download.
#[derive(Debug, Clone)]
pub struct Watch {
    /// Identifier of the download.
    pub id: String,
    /// Where the download is written.
    pub output_path: String,
    /// Everything the tool has written to standard error, line by line.
    pub stderr: String,
}

impl Watch {
    /// The watcher of the download `id`, before any output.
    pub fn new(id: &str, output_path: &str) -> (watch: Watch)
        ensures
            watch.id@ == id@,
            watch.output_path@ == output_path@,
            watch.stderr@ == Seq::<char>::empty(),
    {
        Watch { id: id.to_owned(), output_path: output_path.to_owned(), stderr: String::new() }
    }

    /// The notifications for a line on standard output.
    pub fn on_stdout(&self, line: &str) -> (out: Vec<Notification>)
        ensures
            notification_views(out@) == stdout_notifications(
                self.id@,
                line@,
                progress_of(
                    line@,
                    first_capture(percent_pattern(), line@),
                    first_capture(speed_pattern(), line@),
                    first_capture(eta_pattern(), line@),
                ),
            ),
    {
        let mut out: Vec<Notification> = Vec::new();
        let l = chars_of(line);
        if includes(&l, "[Merger]") || includes(&l, "Merging formats") || includes(&l, "[ffmpeg]") {
            out.push(
                Notification::Processing {
                    id: self.id.clone(),
                    message: "Processing video...".to_owned(),
                },
            );
        }
        match parse_progress(line) {
            Some(p) => {
                out.push(Notification::Progress(p));
            },
            None => {},
        }
        assert(notification_views(out@) =~= stdout_notifications(
            self.id@,
            line@,
            progress_of(
                line@,
                first_capture(percent_pattern(), line@),
                first_capture(speed_pattern(), line@),
                first_capture(eta_pattern(), line@),
            ),
        ));
        out
    }

    /// Takes note of a line on standard error, and says whether it is
    /// worth showing.
    pub fn on_stderr(&mut self, line: &str) -> (out: Option<Notification>)
        ensures
            final(self).id == old(self).id,
            final(self).output_path == old(self).output_path,
            final(self).stderr@ == old(self).stderr@ + line@ + "\n"@,
            status_text(line@) ==> out is Some && out->0@ == NotificationView::Status(line@),
            !status_text(line@) ==> out is None,
    {
        let mut buf = chars_of(self.stderr.as_str());
        push_str(&mut buf, line);
        push_str(&mut buf, "\n");
        self.stderr = string_of(&buf);
        let l = chars_of(line);
        if includes(&l, "Sleeping") || includes(&l, "rate limit") {
            Some(Notification::Status(line.to_owned()))
        } else {
            None
        }
    }

    /// Ends the watch: takes the download out of the registry and says how
    /// it ended.  Where the download is no longer registered it has been
    /// cancelled and its end has been reported; then nothing is said.
    pub fn on_terminated<H>(
        &self,
        downloads: &mut ActiveDownloads<H>,
        exit_code: Option<i32>,
    ) -> (out: Option<Notification>)
        requires
            old(downloads).wf(),
        ensures
            final(downloads).wf(),
            final(downloads)@ == old(downloads)@.remove(self.id@),
            old(downloads).tracks(self.id@) ==> out is Some && out->0@ == end_notification(
                self.id@,
                self.output_path@,
                self.stderr@,
                exit_code,
            ),
            !old(downloads).tracks(self.id@) ==> out is None,
    {
        match downloads.remove(self.id.as_str()) {
            None => None,
            Some(_) => Some(
                match exit_code {
                    Some(code) => {
                        if code == 0 {
                            Notification::Completed {
                                id: self.id.clone(),
                                path: self.output_path.clone(),
                            }
                        } else {
                            Notification::Failed {
                                id: self.id.clone(),
                                error: failure_message(self.stderr.as_str(), code),
                            }
                        }
                    },
                    None => Notification::Failed {
                        id: self.id.clone(),
                        error: "Process terminated without exit code".to_owned(),
                    },
                },
            ),
        }
    }
}

impl Watch {
    /// The notifications that an event of the tool gives rise to.
    pub fn on_event<H>(&mut self, downloads: &mut ActiveDownloads<H>, event: &ProcessEvent) -> (out:
        Vec<Notification>)
        requires
            old(downloads).wf(),
        ensures
            final(downloads).wf(),
            final(self).id == old(self).id,
            final(self).output_path == old(self).output_path,
            match *event {
                ProcessEvent::StdoutLine(line) => {
                    &&& final(self).stderr == old(self).stderr
                    &&& final(downloads)@ == old(downloads)@
                    &&& notification_views(out@) == stdout_notifications(
                        old(self).id@,
                        line@,
                        progress_of(
                            line@,
                            first_capture(percent_pattern(), line@),
                            first_capture(speed_pattern(), line@),
                            first_capture(eta_pattern(), line@),
                        ),
                    )
                },
                ProcessEvent::StderrLine(line) => {
                    &&& final(self).stderr@ == old(self).stderr@ + line@ + "\n"@
                    &&& final(downloads)@ == old(downloads)@
                    &&& notification_views(out@) == if status_text(line@) {
                        seq![NotificationView::Status(line@)]
                    } else {
                        Seq::<NotificationView>::empty()
                    }
                },
                ProcessEvent::Terminated { exit_code } => {
                    &&& final(self).stderr == old(self).stderr
                    &&& final(downloads)@ == old(downloads)@.remove(old(self).id@)
                    &&& notification_views(out@) == if old(downloads).tracks(old(self).id@) {
                        seq![
                            end_notification(
                                old(self).id@,
                                old(self).output_path@,
                                old(self).stderr@,
                                exit_code,
                            ),
                        ]
                    } else {
                        Seq::<NotificationView>::empty()
                    }
                },
            },
    {
        match event {
            ProcessEvent::StdoutLine(line) => self.on_stdout(line.as_str()),
            ProcessEvent::StderrLine(line) => {
                let note = self.on_stderr(line.as_str());
                one_or_none(note)
            },
            ProcessEvent::Terminated { exit_code } => {
                let note = self.on_terminated(downloads, *exit_code);
                one_or_none(note)
            },
        }
    }
}

fn one_or_none(note: Option<Notification>) -> (out: Vec<Notification>)
    ensures
        notification_views(out@) == match note {
            Some(n) => seq![n@],
            None => Seq::<NotificationView>::empty(),
        },
{
    let mut out: Vec<Notification> = Vec::new();
    match note {
        Some(n) => {
            out.push(n);
            assert(notification_views(out@) =~= seq![n@]);
        },
        None => {
            assert(notification_views(out@) =~= Seq::<NotificationView>::empty());
        },
    }
    out
}

/// Makes a fresh identifier with `Uuid::new_v4` of the `uuid` crate and
/// writes it in its hyphenated form, which has 36 characters.  Which
/// identifier comes back is left open; the contract gives only its length.
#[verifier::external_body]
fn fresh_id() -> (id: String)
    ensures
        id@.len() == 36,
{
    uuid::Uuid::new_v4().to_string()
}

/// Registers a download under `id` and announces it.  A download that was
/// registered under the same identifier leaves the registry and is returned.
pub fn register_download<H>(
    downloads: &mut ActiveDownloads<H>,
    id: String,
    child: H,
    url: &str,
    output_path: &str,
) -> (started: (Notification, Option<DownloadHandle<H>>))
    requires
        old(downloads).wf(),
    ensures
        final(downloads).wf(),
        final(downloads).tracks(id@),
        final(downloads)@[id@].id == id,
        final(downloads)@[id@].child == child,
        final(downloads)@[id@].url@ == url@,
        final(downloads)@[id@].output_path@ == output_path@,
        final(downloads)@ == old(downloads)@.insert(id@, final(downloads)@[id@]),
        started.0@ == (NotificationView::Started { id: id@, path: output_path@ }),
        old(downloads).tracks(id@) ==> started.1 == Some(old(downloads)@[id@]),
        !old(downloads).tracks(id@) ==> started.1 is None,
{
    let note = Notification::Started { id: id.clone(), path: output_path.to_owned() };
    let handle = DownloadHandle { id, child, url: url.to_owned(), output_path: output_path.to_owned() };
    let replaced = downloads.insert(handle);
    (note, replaced)
}

/// Registers a download under a fresh identifier and announces it.
pub fn start_download<H>(
    downloads: &mut ActiveDownloads<H>,
    child: H,
    url: &str,
    output_path: &str,
) -> (started: (String, Notification, Option<DownloadHandle<H>>))
    requires
        old(downloads).wf(),
    ensures
        final(downloads).wf(),
        started.0@.len() == 36,
        final(downloads).tracks(started.0@),
        final(downloads)@[started.0@].child == child,
        final(downloads)@[started.0@].url@ == url@,
        final(downloads)@[started.0@].output_path@ == output_path@,
        final(downloads)@ == old(downloads)@.insert(started.0@, final(downloads)@[started.0@]),
        started.1@ == (NotificationView::Started { id: started.0@, path: output_path@ }),
{
    let id = fresh_id();
    let (note, replaced) = register_download(downloads, id.clone(), child, url, output_path);
    (id, note, replaced)
}

/// How the tool is started.
#[derive(Debug, Clone)]
pub enum Launcher {
    /// The copy that ships with the application.
    Sidecar,
    /// The executable at this path.
    Command(String),
}

/// A launcher over plain text.
pub ghost enum LauncherView {
    Sidecar,
    Command(Seq<char>),
}

impl View for Launcher {
    type V = LauncherView;

    open spec fn view(&self) -> LauncherView {
        match *self {
            Launcher::Sidecar => LauncherView::Sidecar,
            Launcher::Command(p) => LauncherView::Command(p@),
        }
    }
}

/// The launcher for a tool path: the shipped copy where no path is known
/// or the path is the bare tool name, else the executable at the path.
pub open spec fn launcher_for(tool_path: Option<Seq<char>>) -> LauncherView {
    match tool_path {
        Some(p) => if p == "yt-dlp"@ {
            LauncherView::Sidecar
        } else {
            LauncherView::Command(p)
        },
        None => LauncherView::Sidecar,
    }
}

/// The launcher for the tool at `tool_path`.
pub fn choose_launcher(tool_path: &Option<String>) -> (launcher: Launcher)
    ensures
        launcher@ == launcher_for(
            match *tool_path {
                Some(p) => Some(p@),
                None => None,
            },
        ),
{
    match tool_path {
        Some(p) => {
            if *p == "yt-dlp".to_owned() {
                Launcher::Sidecar
            } else {
                Launcher::Command(p.clone())
            }
        },
        None => Launcher::Sidecar,
    }
}

/// Why a download could not be cancelled.
#[derive(Clone, Copy, Debug, PartialEq, Eq, Structural)]
pub enum CancelError {
    /// No download with that identifier is running.
    NotFound,
}

/// What is left to do for a download that has been taken out of the registry.
pub struct Cancellation<H> {
    /// The handle of the download; its process is to be stopped.
    pub handle: DownloadHandle<H>,
    /// The partial output file, to be deleted if it exists.
    pub part_file: String,
    /// The notification that ends the download.
    pub notification: Notification,
}

/// What cancelling `id` does to the registry: whether a download was
/// found, and the registry afterwards.
pub open spec fn cancel_effect<H>(downloads: Map<Seq<char>, DownloadHandle<H>>, id: Seq<char>) -> (
    bool,
    Map<Seq<char>, DownloadHandle<H>>,
) {
    (downloads.dom().contains(id), downloads.remove(id))
}

/// Cancels the download `download_id`: takes it out of the registry and
/// says what is left to do.  Fails, and changes nothing, where no such
/// download is running.
pub fn cancel_download<H>(download_id: &str, downloads: &mut ActiveDownloads<H>) -> (result: Result<
    Cancellation<H>,
    CancelError,
>)
    requires
        old(downloads).wf(),
    ensures
        final(downloads).wf(),
        final(downloads)@ == cancel_effect(old(downloads)@, download_id@).1,
        result is Ok == cancel_effect(old(downloads)@, download_id@).0,
        result is Err ==> result->Err_0 == CancelError::NotFound && final(downloads)@ == old(
            downloads,
        )@,
        result is Ok ==> {
            let c = result->Ok_0;
            &&& c.handle == old(downloads)@[download_id@]
            &&& c.part_file@ == c.handle.output_path@ + ".part"@
            &&& c.notification@ == (NotificationView::Cancelled {
                id: download_id@,
                path: c.handle.output_path@,
            })
        },
{
    match downloads.remove(download_id) {
        Some(handle) => {
            let part_file = joined(handle.output_path.as_str(), ".part");
            let notification = Notification::Cancelled {
                id: download_id.to_owned(),
                path: handle.output_path.clone(),
            };
            Ok(Cancellation { handle, part_file, notification })
        },
        None => Err(CancelError::NotFound),
    }
}

/// The failure that the caller of a cancellation is shown.
pub fn cancel_failure(download_id: &str) -> (error: DownloadError)
    ensures
        error is Unknown,
        error->Unknown_0@ == "Download not found: "@ + download_id@,
{
    DownloadError::Unknown(joined("Download not found: ", download_id))
}

/// What is left to do for a cancelled download once its process has been
/// told to stop.
#[derive(Debug, Clone)]
pub struct CancelCleanup {
    /// The partial output file, to be deleted if it exists.
    pub part_file: String,
    /// The notification that ends the download.
    pub notification: Notification,
    /// What the stop reported, where it reported a failure: a note for the
    /// log, no error.
    pub warning: Option<String>,
}

/// What follows the stop of a cancelled download.  A stop that reports a
/// failure, as it does for a process that has ended by itself, is no
/// error: the cancellation succeeds, and the partial file is deleted and
/// the notification sent exactly as after a stop that worked.
pub fn after_stop(part_file: String, notification: Notification, stop: &Result<(), String>) -> (done:
    (CancelCleanup, Result<(), DownloadError>))
    ensures
        done.1 is Ok,
        done.0.part_file == part_file,
        done.0.notification == notification,
        match *stop {
            Ok(_) => done.0.warning is None,
            Err(reason) => done.0.warning is Some && done.0.warning->0@
                == "Failed to kill process: "@ + reason@,
        },
{
    let warning = match stop {
        Ok(_) => None,
        Err(reason) => Some(joined("Failed to kill process: ", reason.as_str())),
    };
    (CancelCleanup { part_file, notification, warning }, Ok(()))
}

/// The failure of a tool that could not be started.  It is not one to
/// retry.
pub fn launch_failure(detail: &str) -> (error: DownloadError)
    ensures
        error is Spawn,
        error->Spawn_0@ == detail@,
        !crate::errors::retryable(error),
{
    DownloadError::Spawn(detail.to_owned())
}

/// Cancelling takes a download out of the registry exactly once.  The
/// first cancellation of a running download finds it and leaves every other
/// download as it was; a second one finds nothing and changes nothing; so
/// does the cancellation of an identifier that was never registered.
pub proof fn law_cancel_once<H>(downloads: Map<Seq<char>, DownloadHandle<H>>, id: Seq<char>)
    ensures
        cancel_effect(downloads, id).0 == downloads.dom().contains(id),
        !cancel_effect(downloads, id).1.dom().contains(id),
        forall|other: Seq<char>|
            other != id ==> cancel_effect(downloads, id).1.dom().contains(other)
                == downloads.dom().contains(other),
        forall|other: Seq<char>|
            other != id && downloads.dom().contains(other) ==> cancel_effect(
                downloads,
                id,
            ).1[other] == downloads[other],
        !cancel_effect(cancel_effect(downloads, id).1, id).0,
        cancel_effect(cancel_effect(downloads, id).1, id).1 == cancel_effect(downloads, id).1,
        !downloads.dom().contains(id) ==> cancel_effect(downloads, id).1 == downloads,
{
    let after = downloads.remove(id);
    assert(after.remove(id) =~= after);
    if !downloads.dom().contains(id) {
        assert(after =~= downloads);
    }
}

/// A way in which the end of a download is noticed.
pub ghost enum Ending {
    /// A request to cancel it.
    Cancel,
    /// The end of the tool, seen by the watcher.
    Exit(Option<i32>),
}

/// The number of terminal notifications that a series of endings of the
/// download `id` gives rise to, each handled by `cancel_download` or by
/// `Watch::on_terminated` as its kind asks, starting from `downloads`.
pub open spec fn endings_reported<H>(
    downloads: Map<Seq<char>, DownloadHandle<H>>,
    id: Seq<char>,
    endings: Seq<Ending>,
) -> nat
    decreases endings.len(),
{
    if endings.len() == 0 {
        0
    } else {
        let reported: nat = if downloads.dom().contains(id) {
            1
        } else {
            0
        };
        reported + endings_reported(downloads.remove(id), id, endings.drop_first())
    }
}

/// A download ends once.  Whoever finds it in the registry, the watcher at
/// the tool's end or a cancellation, takes it out and reports the end; who
/// comes later finds nothing to report.  So a download that is registered
/// gets exactly one terminal notification, however many endings follow,
/// and one that is not registered gets none.
pub proof fn law_one_terminal<H>(
    downloads: Map<Seq<char>, DownloadHandle<H>>,
    id: Seq<char>,
    endings: Seq<Ending>,
)
    ensures
        endings_reported(downloads, id, endings) == if downloads.dom().contains(id) && endings.len()
            > 0 {
            1nat
        } else {
            0nat
        },
    decreases endings.len(),
{
    if endings.len() > 0 {
        law_one_terminal(downloads.remove(id), id, endings.drop_first());
    }
}

} // verus!
