use ripvid::browsers::{browser_probes, is_browser_installed, known_browsers, Probe};
use ripvid::download::{
    build_ytdlp_args, detect_browser, get_quality_format, strip_extended_path_prefix,
    BrowserConfig, CredentialSource, DownloadType, ToolLocation,
};
use ripvid::platform::Os;

const BEST: &str = "bestvideo[ext=mp4][vcodec^=avc]+bestaudio[ext=m4a]/best[ext=mp4]/best";

fn source(name: &str, usable: bool) -> CredentialSource {
    CredentialSource { name: name.to_string(), usable }
}

#[test]
fn quality_formats() {
    assert_eq!(get_quality_format("best"), BEST);
    assert_eq!(
        get_quality_format("1080p"),
        "bestvideo[height<=1080][ext=mp4][vcodec^=avc]+bestaudio[ext=m4a]/best[ext=mp4]"
    );
    assert_eq!(get_quality_format("1080"), get_quality_format("1080p"));
    assert_eq!(
        get_quality_format("720P"),
        "bestvideo[height<=720][ext=mp4][vcodec^=avc]+bestaudio[ext=m4a]/best[ext=mp4]"
    );
    assert_eq!(
        get_quality_format("480"),
        "bestvideo[height<=480][ext=mp4][vcodec^=avc]+bestaudio[ext=m4a]/best[ext=mp4]"
    );
    assert_eq!(
        get_quality_format("360p"),
        "bestvideo[height<=360][ext=mp4]+bestaudio[ext=m4a]/best[ext=mp4]"
    );
    assert_eq!(get_quality_format("BEST"), BEST);
    assert_eq!(get_quality_format("4k"), BEST);
    assert_eq!(get_quality_format(""), BEST);
}

#[test]
fn tool_paths() {
    assert_eq!(
        strip_extended_path_prefix("\\\\?\\C:\\Users\\me\\bin", Os::Windows),
        "C:/Users/me/bin"
    );
    assert_eq!(strip_extended_path_prefix("C:\\Users\\me", Os::Windows), "C:/Users/me");
    assert_eq!(strip_extended_path_prefix("\\\\?\\", Os::Windows), "");
    assert_eq!(strip_extended_path_prefix("/opt/a\\b", Os::Linux), "/opt/a\\b");
    assert_eq!(strip_extended_path_prefix("\\\\?\\C:\\x", Os::MacOs), "\\\\?\\C:\\x");
}

#[test]
fn first_usable_browser_is_detected() {
    let sources = vec![source("firefox", false), source("chrome", true), source("edge", true)];
    assert_eq!(detect_browser(&sources), Some("chrome".to_string()));
    let none = vec![source("firefox", false), source("chrome", false)];
    assert_eq!(detect_browser(&none), None);
    assert_eq!(detect_browser(&Vec::new()), None);
}

#[test]
fn browser_config_uses_detection_only_for_cookies() {
    let sources = vec![source("firefox", true)];
    let with = BrowserConfig::new(true, &sources);
    assert!(with.use_cookies);
    assert_eq!(with.browser, Some("firefox".to_string()));
    let without = BrowserConfig::new(false, &sources);
    assert!(!without.use_cookies);
    assert_eq!(without.browser, None);
    let nothing = BrowserConfig::new(true, &Vec::new());
    assert!(nothing.use_cookies);
    assert_eq!(nothing.browser, None);
}

#[test]
fn video_arguments() {
    let args = build_ytdlp_args(
        "https://example.com/v",
        "/tmp/out.mp4",
        &DownloadType::Video { quality: "720p".to_string() },
        &BrowserConfig::without_cookies(),
        &None,
        Os::Linux,
    );
    assert_eq!(
        args,
        vec![
            "https://example.com/v",
            "--no-playlist",
            "-f",
            "bestvideo[height<=720][ext=mp4][vcodec^=avc]+bestaudio[ext=m4a]/best[ext=mp4]",
            "--merge-output-format",
            "mp4",
            "-o",
            "/tmp/out.mp4",
            "--progress",
            "--newline",
        ]
    );
}

#[test]
fn audio_arguments_with_cookies_and_tools() {
    let location = ToolLocation {
        dir: "\\\\?\\C:\\app\\binaries\\ffmpeg".to_string(),
        has_ffmpeg: true,
        has_ffprobe: true,
    };
    let args = build_ytdlp_args(
        "https://example.com/a",
        "C:/out.mp3",
        &DownloadType::Audio,
        &BrowserConfig::with_browser("firefox"),
        &Some(location),
        Os::Windows,
    );
    assert_eq!(
        args,
        vec![
            "https://example.com/a",
            "--no-playlist",
            "--ffmpeg-location",
            "C:/app/binaries/ffmpeg",
            "-x",
            "--audio-format",
            "mp3",
            "--audio-quality",
            "0",
            "--embed-thumbnail",
            "--add-metadata",
            "--cookies-from-browser",
            "firefox",
            "-o",
            "C:/out.mp3",
            "--progress",
            "--newline",
        ]
    );
}

#[test]
fn tools_are_named_only_when_both_are_there() {
    let location = ToolLocation { dir: "/opt/ff".to_string(), has_ffmpeg: true, has_ffprobe: false };
    let args = build_ytdlp_args(
        "u",
        "o",
        &DownloadType::Audio,
        &BrowserConfig { use_cookies: true, browser: None },
        &Some(location),
        Os::Linux,
    );
    assert!(!args.contains(&"--ffmpeg-location".to_string()));
    assert!(!args.contains(&"--cookies-from-browser".to_string()));
    assert_eq!(args.len(), 13);
}

#[test]
fn cookies_are_not_used_when_switched_off() {
    let config = BrowserConfig { use_cookies: false, browser: Some("chrome".to_string()) };
    let args = build_ytdlp_args("u", "o", &DownloadType::Audio, &config, &None, Os::Linux);
    assert!(!args.contains(&"chrome".to_string()));
}

fn describe(probes: &[Probe]) -> Vec<String> {
    probes
        .iter()
        .map(|p| match p {
            Probe::Path(p) => format!("path {}", p),
            Probe::LocalAppData(p) => format!("local {}", p),
            Probe::Command { program, arg } => format!("run {} {}", program, arg),
        })
        .collect()
}

#[test]
fn probes_per_system() {
    assert_eq!(
        describe(&browser_probes("firefox", Os::Windows)),
        vec![
            "path C:\\Program Files\\Mozilla Firefox\\firefox.exe",
            "path C:\\Program Files (x86)\\Mozilla Firefox\\firefox.exe",
            "local Mozilla Firefox\\firefox.exe",
        ]
    );
    assert_eq!(
        describe(&browser_probes("chrome", Os::Windows)),
        vec![
            "path C:\\Program Files\\Google\\Chrome\\Application\\chrome.exe",
            "path C:\\Program Files (x86)\\Google\\Chrome\\Application\\chrome.exe",
            "local Google\\Chrome\\Application\\chrome.exe",
        ]
    );
    assert_eq!(
        describe(&browser_probes("edge", Os::Windows)),
        vec![
            "path C:\\Program Files\\Microsoft\\Edge\\Application\\msedge.exe",
            "path C:\\Program Files (x86)\\Microsoft\\Edge\\Application\\msedge.exe",
            "run where msedge.exe",
        ]
    );
    assert!(browser_probes("opera", Os::Windows).is_empty());
    assert_eq!(
        describe(&browser_probes("chrome", Os::MacOs)),
        vec!["path /Applications/Google Chrome.app"]
    );
    assert_eq!(describe(&browser_probes("edge", Os::MacOs)), vec!["path /Applications/Microsoft Edge.app"]);
    assert_eq!(describe(&browser_probes("firefox", Os::MacOs)), vec!["path /Applications/Firefox.app"]);
    assert!(browser_probes("opera", Os::MacOs).is_empty());
    assert_eq!(describe(&browser_probes("opera", Os::Linux)), vec!["run which opera"]);
}

#[test]
fn a_browser_is_installed_when_one_probe_succeeds() {
    assert!(is_browser_installed(&vec![false, false, true]));
    assert!(is_browser_installed(&vec![true]));
    assert!(!is_browser_installed(&vec![false, false]));
    assert!(!is_browser_installed(&Vec::new()));
}

#[test]
fn browsers_in_order_of_preference() {
    assert_eq!(known_browsers(), vec!["firefox", "chrome", "edge"]);
}
