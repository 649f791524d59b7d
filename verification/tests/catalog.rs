use ripvid::catalog::{
    binary_file_name, checksums_url, find_asset, get_ffmpeg_sources, get_ffprobe_sources,
    get_ytdlp_asset_name, latest_release_url, managed_binaries, GitHubAsset, GitHubRelease,
    ManagedBinary,
};
use ripvid::platform::{Arch, Os, Platform};

#[test]
fn managed_set() {
    let all = managed_binaries();
    assert_eq!(all, vec![ManagedBinary::YtDlp, ManagedBinary::Ffmpeg, ManagedBinary::Ffprobe]);
    let names: Vec<String> = all.iter().map(|b| b.name()).collect();
    assert_eq!(names, vec!["yt-dlp", "ffmpeg", "ffprobe"]);
}

#[test]
fn installed_file_names() {
    assert_eq!(binary_file_name("ffmpeg", Os::Windows), "ffmpeg.exe");
    assert_eq!(binary_file_name("ffmpeg", Os::Linux), "ffmpeg");
    assert_eq!(binary_file_name("yt-dlp", Os::MacOs), "yt-dlp");
}

#[test]
fn ffmpeg_sources() {
    let windows = get_ffmpeg_sources(Os::Windows);
    assert_eq!(windows.len(), 2);
    assert_eq!(windows[0].name, "GyanD/codexffmpeg");
    assert_eq!(
        windows[0].url,
        "https://github.com/GyanD/codexffmpeg/releases/download/6.0/ffmpeg-6.0-essentials_build.zip"
    );
    assert_eq!(windows[0].version, "6.0");
    assert!(windows[0].is_zip);
    assert_eq!(windows[1].name, "BtbN/FFmpeg-Builds");
    assert_eq!(
        windows[1].url,
        "https://github.com/BtbN/FFmpeg-Builds/releases/download/latest/ffmpeg-master-latest-win64-gpl.zip"
    );
    assert_eq!(windows[1].version, "latest");
    assert!(windows[1].is_zip);
    let mac = get_ffmpeg_sources(Os::MacOs);
    assert_eq!(mac.len(), 1);
    assert_eq!(mac[0].name, "evermeet.cx");
    assert_eq!(mac[0].url, "https://evermeet.cx/ffmpeg/ffmpeg-6.0.zip");
    assert!(mac[0].is_zip);
    let linux = get_ffmpeg_sources(Os::Linux);
    assert_eq!(linux.len(), 1);
    assert_eq!(linux[0].name, "johnvansickle.com");
    assert_eq!(
        linux[0].url,
        "https://johnvansickle.com/ffmpeg/releases/ffmpeg-release-amd64-static.tar.xz"
    );
    assert_eq!(linux[0].version, "latest");
    assert!(!linux[0].is_zip);
}

#[test]
fn ffprobe_sources() {
    let windows = get_ffprobe_sources(Os::Windows);
    assert_eq!(windows.len(), 1);
    assert_eq!(windows[0].name, "GyanD/codexffmpeg");
    assert!(windows[0].is_zip);
    let mac = get_ffprobe_sources(Os::MacOs);
    assert_eq!(mac.len(), 1);
    assert_eq!(mac[0].url, "https://evermeet.cx/ffmpeg/ffprobe-6.0.zip");
    assert_eq!(mac[0].version, "6.0");
    let linux = get_ffprobe_sources(Os::Linux);
    assert_eq!(linux.len(), 1);
    assert!(!linux[0].is_zip);
}

#[test]
fn asset_names() {
    let name = |os, arch| get_ytdlp_asset_name(Platform { os, arch });
    assert_eq!(name(Os::Windows, Arch::X86_64), "yt-dlp.exe");
    assert_eq!(name(Os::Windows, Arch::Aarch64), "yt-dlp");
    assert_eq!(name(Os::MacOs, Arch::X86_64), "yt-dlp_macos");
    assert_eq!(name(Os::MacOs, Arch::Aarch64), "yt-dlp_macos");
    assert_eq!(name(Os::MacOs, Arch::Other), "yt-dlp");
    assert_eq!(name(Os::Linux, Arch::X86_64), "yt-dlp");
    assert_eq!(name(Os::Linux, Arch::Other), "yt-dlp");
}

#[test]
fn release_locations() {
    assert_eq!(latest_release_url(), "https://api.github.com/repos/yt-dlp/yt-dlp/releases/latest");
    assert_eq!(
        checksums_url("2024.01.01"),
        "https://github.com/yt-dlp/yt-dlp/releases/download/2024.01.01/SHA2-256SUMS"
    );
}

#[test]
fn assets_are_found_by_name() {
    let release = GitHubRelease {
        tag_name: "t".to_string(),
        assets: ["a", "b", "b"]
            .iter()
            .map(|n| GitHubAsset { name: n.to_string(), browser_download_url: String::new() })
            .collect(),
    };
    assert_eq!(find_asset(&release, "a"), Some(0));
    assert_eq!(find_asset(&release, "b"), Some(1));
    assert_eq!(find_asset(&release, "c"), None);
}
