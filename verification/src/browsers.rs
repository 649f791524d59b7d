//! How to find out whether a browser is installed on the host.
//!
//! The library names the places to look; the caller looks, in the order
//! given, and reports what it found.

use vstd::prelude::*;
use crate::platform::Os;
use crate::text::{chars_of, same_text};

verus! {

/// One thing to check on the host.
#[derive(Debug, Clone)]
pub enum Probe {
    /// Something exists at this path.
    Path(String),
    /// Something exists at this path below the user's local application
    /// data directory.
    LocalAppData(String),
    /// This program, run with this one argument, reports success.
    Command { program: String, arg: String },
}

/// A probe over plain text.
pub ghost enum ProbeView {
    Path(Seq<char>),
    LocalAppData(Seq<char>),
    Command { program: Seq<char>, arg: Seq<char> },
}

impl View for Probe {
    type V = ProbeView;

    open spec fn view(&self) -> ProbeView {
        match *self {
            Probe::Path(p) => ProbeView::Path(p@),
            Probe::LocalAppData(p) => ProbeView::LocalAppData(p@),
            Probe::Command { program, arg } => ProbeView::Command { program: program@, arg: arg@ },
        }
    }
}

/// The views of `probes`, in order.
pub open spec fn probe_views(probes: Seq<Probe>) -> Seq<ProbeView> {
    probes.map_values(|p: Probe| p@)
}

/// The checks that decide whether `browser` is installed on `os`, in the
/// order in which they are made.  A browser this library does not know has
/// no checks on Windows and macOS; on Linux any name is looked up on the
/// search path.
pub open spec fn probe_plan(browser: Seq<char>, os: Os) -> Seq<ProbeView> {
    match os {
        Os::Windows => if browser == "firefox"@ {
            seq![
                ProbeView::Path("C:\\Program Files\\Mozilla Firefox\\firefox.exe"@),
                ProbeView::Path("C:\\Program Files (x86)\\Mozilla Firefox\\firefox.exe"@),
                ProbeView::LocalAppData("Mozilla Firefox\\firefox.exe"@),
            ]
        } else if browser == "chrome"@ {
            seq![
                ProbeView::Path("C:\\Program Files\\Google\\Chrome\\Application\\chrome.exe"@),
                ProbeView::Path(
                    "C:\\Program Files (x86)\\Google\\Chrome\\Application\\chrome.exe"@,
                ),
                ProbeView::LocalAppData("Google\\Chrome\\Application\\chrome.exe"@),
            ]
        } else if browser == "edge"@ {
            seq![
                ProbeView::Path("C:\\Program Files\\Microsoft\\Edge\\Application\\msedge.exe"@),
                ProbeView::Path(
                    "C:\\Program Files (x86)\\Microsoft\\Edge\\Application\\msedge.exe"@,
                ),
                ProbeView::Command { program: "where"@, arg: "msedge.exe"@ },
            ]
        } else {
            seq![]
        },
        Os::MacOs => if browser == "firefox"@ {
            seq![ProbeView::Path("/Applications/Firefox.app"@)]
        } else if browser == "chrome"@ {
            seq![ProbeView::Path("/Applications/Google Chrome.app"@)]
        } else if browser == "edge"@ {
            seq![ProbeView::Path("/Applications/Microsoft Edge.app"@)]
        } else {
            seq![]
        },
        Os::Linux => seq![ProbeView::Command { program: "which"@, arg: browser }],
    }
}

fn path(p: &str) -> (out: Probe)
    ensures
        out@ == ProbeView::Path(p@),
{
    Probe::Path(p.to_owned())
}

fn three(a: Probe, b: Probe, c: Probe) -> (out: Vec<Probe>)
    ensures
        probe_views(out@) == seq![a@, b@, c@],
{
    let mut out: Vec<Probe> = Vec::new();
    out.push(a);
    out.push(b);
    out.push(c);
    assert(probe_views(out@) =~= seq![a@, b@, c@]);
    out
}

fn one(a: Probe) -> (out: Vec<Probe>)
    ensures
        probe_views(out@) == seq![a@],
{
    let mut out: Vec<Probe> = Vec::new();
    out.push(a);
    assert(probe_views(out@) =~= seq![a@]);
    out
}

fn none() -> (out: Vec<Probe>)
    ensures
        probe_views(out@) == Seq::<ProbeView>::empty(),
{
    let out: Vec<Probe> = Vec::new();
    assert(probe_views(out@) =~= Seq::<ProbeView>::empty());
    out
}

/// The browsers whose cookies can be used, most preferred first.
pub fn known_browsers() -> (names: Vec<String>)
    ensures
        names@.len() == 3,
        names[0]@ == "firefox"@,
        names[1]@ == "chrome"@,
        names[2]@ == "edge"@,
{
    let mut names: Vec<String> = Vec::new();
    names.push("firefox".to_owned());
    names.push("chrome".to_owned());
    names.push("edge".to_owned());
    names
}

/// The checks that decide whether `browser` is installed on `os`.
pub fn browser_probes(browser: &str, os: Os) -> (probes: Vec<Probe>)
    ensures
        probe_views(probes@) == probe_plan(browser@, os),
{
    let b = chars_of(browser);
    let firefox = same_text(&b, &chars_of("firefox"));
    let chrome = same_text(&b, &chars_of("chrome"));
    let edge = same_text(&b, &chars_of("edge"));
    match os {
        Os::Windows => {
            if firefox {
                three(
                    path("C:\\Program Files\\Mozilla Firefox\\firefox.exe"),
                    path("C:\\Program Files (x86)\\Mozilla Firefox\\firefox.exe"),
                    Probe::LocalAppData("Mozilla Firefox\\firefox.exe".to_owned()),
                )
            } else if chrome {
                three(
                    path("C:\\Program Files\\Google\\Chrome\\Application\\chrome.exe"),
                    path("C:\\Program Files (x86)\\Google\\Chrome\\Application\\chrome.exe"),
                    Probe::LocalAppData("Google\\Chrome\\Application\\chrome.exe".to_owned()),
                )
            } else if edge {
                three(
                    path("C:\\Program Files\\Microsoft\\Edge\\Application\\msedge.exe"),
                    path("C:\\Program Files (x86)\\Microsoft\\Edge\\Application\\msedge.exe"),
                    Probe::Command { program: "where".to_owned(), arg: "msedge.exe".to_owned() },
                )
            } else {
                none()
            }
        },
        Os::MacOs => {
            if firefox {
                one(path("/Applications/Firefox.app"))
            } else if chrome {
                one(path("/Applications/Google Chrome.app"))
            } else if edge {
                one(path("/Applications/Microsoft Edge.app"))
            } else {
                none()
            }
        },
        Os::Linux => one(Probe::Command { program: "which".to_owned(), arg: browser.to_owned() }),
    }
}

/// Whether a browser is installed, given the outcome of each of its checks:
/// it is when at least one check succeeded.
pub fn is_browser_installed(outcomes: &Vec<bool>) -> (installed: bool)
    ensures
        installed == exists|i: int| 0 <= i < outcomes.len() && outcomes[i],
{
    let mut i: usize = 0;
    while i < outcomes.len()
        invariant
            forall|k: int| 0 <= k < i && k < outcomes.len() ==> !outcomes[k],
        decreases outcomes.len() - i,
    {
        if outcomes[i] {
            return true;
        }
        i += 1;
    }
    false
}

} // verus!
