//! What to ask of the download tool: format selectors, cookie sources and
//! the argument list of one invocation.

use vstd::prelude::*;
use crate::platform::Os;
use crate::text::{
    chars_of, has_prefix, lower, replace_char, replaced, same_text, slice_of, starts_with,
    string_of, to_lower,
};

verus! {

/// What a download should produce.
#[derive(Debug, Clone)]
pub enum DownloadType {
    Video { quality: String },
    Audio,
}

/// A browser whose cookie store can stand in for a login, and whether it is
/// present on this host.
#[derive(Debug, Clone)]
pub struct CredentialSource {
    pub name: String,
    pub usable: bool,
}

/// Whether cookies are handed to the tool, and from which browser.
#[derive(Debug, Clone)]
pub struct BrowserConfig {
    pub use_cookies: bool,
    pub browser: Option<String>,
}

/// The views of the strings of `v`, in order.
pub open spec fn texts(v: Seq<String>) -> Seq<Seq<char>> {
    v.map_values(|s: String| s@)
}

/// No source before position `at` is usable.
pub open spec fn none_usable_before(sources: Seq<CredentialSource>, at: int) -> bool {
    forall|k: int| 0 <= k < at && k < sources.len() ==> !sources[k].usable
}

/// Position of the first usable source.
pub open spec fn first_usable(sources: Seq<CredentialSource>, at: int) -> bool {
    &&& 0 <= at < sources.len()
    &&& sources[at].usable
    &&& none_usable_before(sources, at)
}

/// The position of the first usable source at or after `from`, if there is one.
pub fn next_usable(sources: &Vec<CredentialSource>, from: usize) -> (pos: Option<usize>)
    ensures
        match pos {
            Some(at) => from <= at < sources.len() && sources[at as int].usable && forall|k: int|
                from <= k < at ==> !sources[k].usable,
            None => forall|k: int| from <= k < sources.len() ==> !sources[k].usable,
        },
{
    let mut i: usize = from;
    while i < sources.len()
        invariant
            from <= i,
            forall|k: int| from <= k < i && k < sources.len() ==> !sources[k].usable,
        decreases sources.len() - i,
    {
        if sources[i].usable {
            return Some(i);
        }
        i += 1;
    }
    None
}

/// The browser whose cookies are used: the first usable one, in the order given.
pub fn detect_browser(sources: &Vec<CredentialSource>) -> (found: Option<String>)
    ensures
        match found {
            Some(name) => exists|at: int| first_usable(sources@, at) && name@ == sources[at].name@,
            None => none_usable_before(sources@, sources.len() as int),
        },
{
    match next_usable(sources, 0) {
        Some(at) => {
            assert(first_usable(sources@, at as int));
            Some(sources[at].name.clone())
        },
        None => None,
    }
}

impl BrowserConfig {
    /// A configuration that uses the first usable browser when cookies are
    /// wanted, and none otherwise.
    pub fn new(use_cookies: bool, sources: &Vec<CredentialSource>) -> (config: BrowserConfig)
        ensures
            config.use_cookies == use_cookies,
            !use_cookies ==> config.browser is None,
            use_cookies ==> match config.browser {
                Some(name) => exists|at: int|
                    first_usable(sources@, at) && name@ == sources[at].name@,
                None => none_usable_before(sources@, sources.len() as int),
            },
    {
        BrowserConfig {
            use_cookies,
            browser: if use_cookies {
                detect_browser(sources)
            } else {
                None
            },
        }
    }

    /// The configuration of an attempt without cookies.
    pub fn without_cookies() -> (config: BrowserConfig)
        ensures
            !config.use_cookies,
            config.browser is None,
    {
        BrowserConfig { use_cookies: false, browser: None }
    }

    /// The configuration of an attempt with the cookies of `browser`.
    pub fn with_browser(browser: &str) -> (config: BrowserConfig)
        ensures
            config.use_cookies,
            config.browser is Some,
            config.browser->0@ == browser@,
    {
        BrowserConfig { use_cookies: true, browser: Some(browser.to_owned()) }
    }
}

/// The selector for the best stream the tool can merge into one file.
pub open spec fn best_selector() -> Seq<char> {
    "bestvideo[ext=mp4][vcodec^=avc]+bestaudio[ext=m4a]/best[ext=mp4]/best"@
}

/// The format selector that stands for a named quality.  Capitals in the
/// name make no difference; an unknown name selects the best stream.
pub open spec fn quality_selector(quality: Seq<char>) -> Seq<char> {
    let q = lower(quality);
    if q == "best"@ {
        best_selector()
    } else if q == "1080p"@ || q == "1080"@ {
        "bestvideo[height<=1080][ext=mp4][vcodec^=avc]+bestaudio[ext=m4a]/best[ext=mp4]"@
    } else if q == "720p"@ || q == "720"@ {
        "bestvideo[height<=720][ext=mp4][vcodec^=avc]+bestaudio[ext=m4a]/best[ext=mp4]"@
    } else if q == "480p"@ || q == "480"@ {
        "bestvideo[height<=480][ext=mp4][vcodec^=avc]+bestaudio[ext=m4a]/best[ext=mp4]"@
    } else if q == "360p"@ || q == "360"@ {
        "bestvideo[height<=360][ext=mp4]+bestaudio[ext=m4a]/best[ext=mp4]"@
    } else {
        best_selector()
    }
}

fn is_text(value: &Vec<char>, literal: &str) -> (same: bool)
    ensures
        same == (value@ == literal@),
{
    let l = chars_of(literal);
    same_text(value, &l)
}

/// The format selector for the quality named `quality`.
pub fn get_quality_format(quality: &str) -> (selector: String)
    ensures
        selector@ == quality_selector(quality@),
{
    let q = to_lower(&chars_of(quality));
    if is_text(&q, "best") {
        "bestvideo[ext=mp4][vcodec^=avc]+bestaudio[ext=m4a]/best[ext=mp4]/best".to_owned()
    } else if is_text(&q, "1080p") || is_text(&q, "1080") {
        "bestvideo[height<=1080][ext=mp4][vcodec^=avc]+bestaudio[ext=m4a]/best[ext=mp4]".to_owned()
    } else if is_text(&q, "720p") || is_text(&q, "720") {
        "bestvideo[height<=720][ext=mp4][vcodec^=avc]+bestaudio[ext=m4a]/best[ext=mp4]".to_owned()
    } else if is_text(&q, "480p") || is_text(&q, "480") {
        "bestvideo[height<=480][ext=mp4][vcodec^=avc]+bestaudio[ext=m4a]/best[ext=mp4]".to_owned()
    } else if is_text(&q, "360p") || is_text(&q, "360") {
        "bestvideo[height<=360][ext=mp4]+bestaudio[ext=m4a]/best[ext=mp4]".to_owned()
    } else {
        "bestvideo[ext=mp4][vcodec^=avc]+bestaudio[ext=m4a]/best[ext=mp4]/best".to_owned()
    }
}

/// The marker that Windows puts before a path longer than the classic limit.
pub open spec fn verbatim_prefix() -> Seq<char> {
    "\\\\?\\"@
}

/// The form of `path` that the tool accepts.  On Windows the verbatim
/// marker is dropped and every backslash becomes a slash; elsewhere the
/// path stays as it is.
pub open spec fn tool_path(path: Seq<char>, os: Os) -> Seq<char> {
    if os == Os::Windows {
        if starts_with(path, verbatim_prefix()) {
            replaced(path.subrange(verbatim_prefix().len() as int, path.len() as int), '\\', '/')
        } else {
            replaced(path, '\\', '/')
        }
    } else {
        path
    }
}

/// The form of `path` that the tool accepts on `os`.
pub fn strip_extended_path_prefix(path: &str, os: Os) -> (out: String)
    ensures
        out@ == tool_path(path@, os),
{
    match os {
        Os::Windows => {
            let p = chars_of(path);
            let marker = chars_of("\\\\?\\");
            if has_prefix(&p, "\\\\?\\") {
                let rest = slice_of(&p, marker.len(), p.len());
                string_of(&replace_char(&rest, '\\', '/'))
            } else {
                string_of(&replace_char(&p, '\\', '/'))
            }
        },
        _ => path.to_owned(),
    }
}

/// Where the bundled media post-processor was looked for, and what was found.
#[derive(Debug, Clone)]
pub struct ToolLocation {
    /// Directory that should hold both executables.
    pub dir: String,
    /// The post-processor itself is there.
    pub has_ffmpeg: bool,
    /// Its companion that inspects media files is there.
    pub has_ffprobe: bool,
}

/// The arguments that point the tool at a bundled post-processor: present
/// only when the directory is known and holds both executables.
pub open spec fn location_args(location: Option<ToolLocation>, os: Os) -> Seq<Seq<char>> {
    match location {
        Some(l) => if l.has_ffmpeg && l.has_ffprobe {
            seq!["--ffmpeg-location"@, tool_path(l.dir@, os)]
        } else {
            seq![]
        },
        None => seq![],
    }
}

/// The arguments that choose what is downloaded.
pub open spec fn format_args(download_type: DownloadType) -> Seq<Seq<char>> {
    match download_type {
        DownloadType::Video { quality } => seq![
            "-f"@,
            quality_selector(quality@),
            "--merge-output-format"@,
            "mp4"@,
        ],
        DownloadType::Audio => seq![
            "-x"@,
            "--audio-format"@,
            "mp3"@,
            "--audio-quality"@,
            "0"@,
            "--embed-thumbnail"@,
            "--add-metadata"@,
        ],
    }
}

/// The arguments that hand a browser's cookies to the tool: present only
/// when cookies are wanted and a browser is named.
pub open spec fn cookie_args(config: BrowserConfig) -> Seq<Seq<char>> {
    match config.browser {
        Some(name) => if config.use_cookies {
            seq!["--cookies-from-browser"@, name@]
        } else {
            seq![]
        },
        None => seq![],
    }
}

/// The whole argument list of one invocation, in the order the tool gets it.
pub open spec fn ytdlp_args(
    url: Seq<char>,
    output_path: Seq<char>,
    download_type: DownloadType,
    config: BrowserConfig,
    location: Option<ToolLocation>,
    os: Os,
) -> Seq<Seq<char>> {
    seq![url, "--no-playlist"@] + location_args(location, os) + format_args(download_type)
        + cookie_args(config) + seq!["-o"@, output_path, "--progress"@, "--newline"@]
}

fn push_arg(args: &mut Vec<String>, arg: &str)
    ensures
        texts(final(args)@) == texts(old(args)@).push(arg@),
{
    args.push(arg.to_owned());
    assert(texts(args@) =~= texts(old(args)@).push(arg@));
}

/// The argument list for downloading `url` to `output_path`.
pub fn build_ytdlp_args(
    url: &str,
    output_path: &str,
    download_type: &DownloadType,
    browser_config: &BrowserConfig,
    location: &Option<ToolLocation>,
    os: Os,
) -> (args: Vec<String>)
    ensures
        texts(args@) == ytdlp_args(
            url@,
            output_path@,
            *download_type,
            *browser_config,
            *location,
            os,
        ),
{
    let mut args: Vec<String> = Vec::new();
    assert(texts(args@) =~= Seq::<Seq<char>>::empty());
    push_arg(&mut args, url);
    push_arg(&mut args, "--no-playlist");
    assert(texts(args@) =~= seq![url@, "--no-playlist"@]);
    match location {
        Some(l) => {
            if l.has_ffmpeg && l.has_ffprobe {
                let dir = strip_extended_path_prefix(l.dir.as_str(), os);
                push_arg(&mut args, "--ffmpeg-location");
                push_arg(&mut args, dir.as_str());
            }
        },
        None => {},
    }
    assert(texts(args@) =~= seq![url@, "--no-playlist"@] + location_args(*location, os));
    let ghost before_format = texts(args@);
    match download_type {
        DownloadType::Video { quality } => {
            let selector = get_quality_format(quality.as_str());
            push_arg(&mut args, "-f");
            push_arg(&mut args, selector.as_str());
            push_arg(&mut args, "--merge-output-format");
            push_arg(&mut args, "mp4");
        },
        DownloadType::Audio => {
            push_arg(&mut args, "-x");
            push_arg(&mut args, "--audio-format");
            push_arg(&mut args, "mp3");
            push_arg(&mut args, "--audio-quality");
            push_arg(&mut args, "0");
            push_arg(&mut args, "--embed-thumbnail");
            push_arg(&mut args, "--add-metadata");
        },
    }
    assert(texts(args@) =~= before_format + format_args(*download_type));
    let ghost before_cookies = texts(args@);
    if browser_config.use_cookies {
        match &browser_config.browser {
            Some(name) => {
                push_arg(&mut args, "--cookies-from-browser");
                push_arg(&mut args, name.as_str());
            },
            None => {},
        }
    }
    assert(texts(args@) =~= before_cookies + cookie_args(*browser_config));
    let ghost before_output = texts(args@);
    push_arg(&mut args, "-o");
    push_arg(&mut args, output_path);
    push_arg(&mut args, "--progress");
    push_arg(&mut args, "--newline");
    assert(texts(args@) =~= before_output + seq![
        "-o"@,
        output_path@,
        "--progress"@,
        "--newline"@,
    ]);
    args
}

} // verus!
