//! Where each managed binary can be downloaded from, per platform.

use vstd::prelude::*;
use crate::platform::{Arch, Os, Platform};
use crate::text::joined;

verus! {

/// One of the executables that the application provisions.
#[derive(Clone, Copy, Debug, PartialEq, Eq, Structural)]
pub enum ManagedBinary {
    YtDlp,
    Ffmpeg,
    Ffprobe,
}

/// The name of a managed binary.
pub open spec fn binary_name(binary: ManagedBinary) -> Seq<char> {
    match binary {
        ManagedBinary::YtDlp => "yt-dlp"@,
        ManagedBinary::Ffmpeg => "ffmpeg"@,
        ManagedBinary::Ffprobe => "ffprobe"@,
    }
}

/// The managed binaries, in the order in which they are provisioned.
pub open spec fn managed_set() -> Seq<ManagedBinary> {
    seq![ManagedBinary::YtDlp, ManagedBinary::Ffmpeg, ManagedBinary::Ffprobe]
}

impl ManagedBinary {
    /// The name of this binary.
    pub fn name(&self) -> (out: String)
        ensures
            out@ == binary_name(*self),
    {
        match self {
            ManagedBinary::YtDlp => "yt-dlp".to_owned(),
            ManagedBinary::Ffmpeg => "ffmpeg".to_owned(),
            ManagedBinary::Ffprobe => "ffprobe".to_owned(),
        }
    }
}

/// The managed binaries, in the order in which they are provisioned.
pub fn managed_binaries() -> (all: Vec<ManagedBinary>)
    ensures
        all@ == managed_set(),
{
    let mut all: Vec<ManagedBinary> = Vec::new();
    all.push(ManagedBinary::YtDlp);
    all.push(ManagedBinary::Ffmpeg);
    all.push(ManagedBinary::Ffprobe);
    assert(all@ =~= managed_set());
    all
}

/// The file name under which a binary is installed.
pub open spec fn installed_name(name: Seq<char>, os: Os) -> Seq<char> {
    if os == Os::Windows {
        name + ".exe"@
    } else {
        name
    }
}

/// The file name under which the binary `name` is installed on `os`.
pub fn binary_file_name(name: &str, os: Os) -> (out: String)
    ensures
        out@ == installed_name(name@, os),
{
    match os {
        Os::Windows => joined(name, ".exe"),
        _ => name.to_owned(),
    }
}

/// One place from which a binary can be downloaded.
#[derive(Debug, Clone)]
pub struct DownloadSource {
    /// Who offers the download.
    pub name: String,
    /// Where it is.
    pub url: String,
    /// The version that is installed from it.
    pub version: String,
    /// Whether the download is an archive that holds the binary.
    pub is_zip: bool,
}

/// A source over plain text.
pub ghost struct SourceView {
    pub name: Seq<char>,
    pub url: Seq<char>,
    pub version: Seq<char>,
    pub is_zip: bool,
}

impl View for DownloadSource {
    type V = SourceView;

    open spec fn view(&self) -> SourceView {
        SourceView {
            name: self.name@,
            url: self.url@,
            version: self.version@,
            is_zip: self.is_zip,
        }
    }
}

/// The views of `sources`, in order.
pub open spec fn source_views(sources: Seq<DownloadSource>) -> Seq<SourceView> {
    sources.map_values(|s: DownloadSource| s@)
}

/// The sources of the media post-processor, the preferred one first.
pub open spec fn ffmpeg_catalog(os: Os) -> Seq<SourceView> {
    match os {
        Os::Windows => seq![
            SourceView {
                name: "GyanD/codexffmpeg"@,
                url: "https://github.com/GyanD/codexffmpeg/releases/download/6.0/ffmpeg-6.0-essentials_build.zip"@,
                version: "6.0"@,
                is_zip: true,
            },
            SourceView {
                name: "BtbN/FFmpeg-Builds"@,
                url: "https://github.com/BtbN/FFmpeg-Builds/releases/download/latest/ffmpeg-master-latest-win64-gpl.zip"@,
                version: "latest"@,
                is_zip: true,
            },
        ],
        Os::MacOs => seq![
            SourceView {
                name: "evermeet.cx"@,
                url: "https://evermeet.cx/ffmpeg/ffmpeg-6.0.zip"@,
                version: "6.0"@,
                is_zip: true,
            },
        ],
        Os::Linux => seq![
            SourceView {
                name: "johnvansickle.com"@,
                url: "https://johnvansickle.com/ffmpeg/releases/ffmpeg-release-amd64-static.tar.xz"@,
                version: "latest"@,
                is_zip: false,
            },
        ],
    }
}

/// The sources of the media inspector, the preferred one first.
pub open spec fn ffprobe_catalog(os: Os) -> Seq<SourceView> {
    match os {
        Os::Windows => seq![
            SourceView {
                name: "GyanD/codexffmpeg"@,
                url: "https://github.com/GyanD/codexffmpeg/releases/download/6.0/ffmpeg-6.0-essentials_build.zip"@,
                version: "6.0"@,
                is_zip: true,
            },
        ],
        Os::MacOs => seq![
            SourceView {
                name: "evermeet.cx"@,
                url: "https://evermeet.cx/ffmpeg/ffprobe-6.0.zip"@,
                version: "6.0"@,
                is_zip: true,
            },
        ],
        Os::Linux => seq![
            SourceView {
                name: "johnvansickle.com"@,
                url: "https://johnvansickle.com/ffmpeg/releases/ffmpeg-release-amd64-static.tar.xz"@,
                version: "latest"@,
                is_zip: false,
            },
        ],
    }
}

fn source(name: &str, url: &str, version: &str, is_zip: bool) -> (out: DownloadSource)
    ensures
        out@ == (SourceView { name: name@, url: url@, version: version@, is_zip }),
{
    DownloadSource {
        name: name.to_owned(),
        url: url.to_owned(),
        version: version.to_owned(),
        is_zip,
    }
}

fn single(a: DownloadSource) -> (out: Vec<DownloadSource>)
    ensures
        source_views(out@) == seq![a@],
{
    let mut out: Vec<DownloadSource> = Vec::new();
    out.push(a);
    assert(source_views(out@) =~= seq![a@]);
    out
}

fn pair(a: DownloadSource, b: DownloadSource) -> (out: Vec<DownloadSource>)
    ensures
        source_views(out@) == seq![a@, b@],
{
    let mut out: Vec<DownloadSource> = Vec::new();
    out.push(a);
    out.push(b);
    assert(source_views(out@) =~= seq![a@, b@]);
    out
}

/// The sources of the media post-processor for `os`, the preferred one first.
pub fn get_ffmpeg_sources(os: Os) -> (sources: Vec<DownloadSource>)
    ensures
        source_views(sources@) == ffmpeg_catalog(os),
{
    match os {
        Os::Windows => pair(
            source(
                "GyanD/codexffmpeg",
                "https://github.com/GyanD/codexffmpeg/releases/download/6.0/ffmpeg-6.0-essentials_build.zip",
                "6.0",
                true,
            ),
            source(
                "BtbN/FFmpeg-Builds",
                "https://github.com/BtbN/FFmpeg-Builds/releases/download/latest/ffmpeg-master-latest-win64-gpl.zip",
                "latest",
                true,
            ),
        ),
        Os::MacOs => single(
            source("evermeet.cx", "https://evermeet.cx/ffmpeg/ffmpeg-6.0.zip", "6.0", true),
        ),
        Os::Linux => single(
            source(
                "johnvansickle.com",
                "https://johnvansickle.com/ffmpeg/releases/ffmpeg-release-amd64-static.tar.xz",
                "latest",
                false,
            ),
        ),
    }
}

/// The sources of the media inspector for `os`, the preferred one first.
pub fn get_ffprobe_sources(os: Os) -> (sources: Vec<DownloadSource>)
    ensures
        source_views(sources@) == ffprobe_catalog(os),
{
    match os {
        Os::Windows => single(
            source(
                "GyanD/codexffmpeg",
                "https://github.com/GyanD/codexffmpeg/releases/download/6.0/ffmpeg-6.0-essentials_build.zip",
                "6.0",
                true,
            ),
        ),
        Os::MacOs => single(
            source("evermeet.cx", "https://evermeet.cx/ffmpeg/ffprobe-6.0.zip", "6.0", true),
        ),
        Os::Linux => single(
            source(
                "johnvansickle.com",
                "https://johnvansickle.com/ffmpeg/releases/ffmpeg-release-amd64-static.tar.xz",
                "latest",
                false,
            ),
        ),
    }
}

/// The name of the release file that holds the download tool for a platform.
pub open spec fn ytdlp_asset(platform: Platform) -> Seq<char> {
    match platform.os {
        Os::Windows => if platform.arch == Arch::X86_64 {
            "yt-dlp.exe"@
        } else {
            "yt-dlp"@
        },
        Os::MacOs => if platform.arch == Arch::X86_64 || platform.arch == Arch::Aarch64 {
            "yt-dlp_macos"@
        } else {
            "yt-dlp"@
        },
        Os::Linux => "yt-dlp"@,
    }
}

/// The name of the release file that holds the download tool for `platform`.
pub fn get_ytdlp_asset_name(platform: Platform) -> (name: String)
    ensures
        name@ == ytdlp_asset(platform),
{
    match platform.os {
        Os::Windows => match platform.arch {
            Arch::X86_64 => "yt-dlp.exe".to_owned(),
            _ => "yt-dlp".to_owned(),
        },
        Os::MacOs => match platform.arch {
            Arch::X86_64 => "yt-dlp_macos".to_owned(),
            Arch::Aarch64 => "yt-dlp_macos".to_owned(),
            Arch::Other => "yt-dlp".to_owned(),
        },
        Os::Linux => "yt-dlp".to_owned(),
    }
}

/// Where the latest release of the download tool is described.
pub fn latest_release_url() -> (url: String)
    ensures
        url@ == "https://api.github.com/repos/yt-dlp/yt-dlp/releases/latest"@,
{
    "https://api.github.com/repos/yt-dlp/yt-dlp/releases/latest".to_owned()
}

/// Where the checksum manifest of the release `tag` is.
pub open spec fn checksums_location(tag: Seq<char>) -> Seq<char> {
    "https://github.com/yt-dlp/yt-dlp/releases/download/"@ + tag + "/SHA2-256SUMS"@
}

/// Where the checksum manifest of the release `tag` is.
pub fn checksums_url(tag: &str) -> (url: String)
    ensures
        url@ == checksums_location(tag@),
{
    let head = joined("https://github.com/yt-dlp/yt-dlp/releases/download/", tag);
    joined(head.as_str(), "/SHA2-256SUMS")
}

/// A file of a release.
#[derive(Debug, Clone)]
pub struct GitHubAsset {
    pub name: String,
    pub browser_download_url: String,
}

/// A release: its tag and its files.
#[derive(Debug, Clone)]
pub struct GitHubRelease {
    pub tag_name: String,
    pub assets: Vec<GitHubAsset>,
}

/// Position `at` holds the first file of `assets` that is named `name`.
pub open spec fn first_named(assets: Seq<GitHubAsset>, name: Seq<char>, at: int) -> bool {
    &&& 0 <= at < assets.len()
    &&& assets[at].name@ == name
    &&& forall|k: int| 0 <= k < at ==> assets[k].name@ != name
}

/// The position of the first file of `release` that is named `name`.
pub fn find_asset(release: &GitHubRelease, name: &str) -> (pos: Option<usize>)
    ensures
        match pos {
            Some(at) => first_named(release.assets@, name@, at as int),
            None => forall|k: int| 0 <= k < release.assets.len() ==> release.assets[k].name@ != name@,
        },
{
    let wanted = name.to_owned();
    let mut i: usize = 0;
    while i < release.assets.len()
        invariant
            wanted@ == name@,
            forall|k: int| 0 <= k < i && k < release.assets.len() ==> release.assets[k].name@ != name@,
        decreases release.assets.len() - i,
    {
        if release.assets[i].name == wanted {
            return Some(i);
        }
        i += 1;
    }
    None
}

} // verus!
