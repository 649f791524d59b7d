//! What is remembered about an installed binary, and when to look for a
//! newer one.

use vstd::prelude::*;
use crate::text::{decimal, decimal_string, joined, parse_u64, parsed_u64};

verus! {

/// The record of one installed binary.
#[derive(Debug, Clone)]
pub struct BinaryInfo {
    /// Name of the binary.
    pub name: String,
    /// Version tag that was installed.
    pub version: String,
    /// When the record was written, in seconds since the epoch.
    pub last_check: u64,
    /// Where the binary is installed.
    pub path: String,
}

/// Seconds that pass between two looks for a newer version.
pub const REFRESH_INTERVAL_SECS: u64 = 86400;

/// Whether it is time to look for a newer version: no look has been
/// recorded, or the last one is more than a day ago.
pub open spec fn refresh_due(last_check: Option<u64>, now: u64) -> bool {
    match last_check {
        None => true,
        Some(then) => now - then > REFRESH_INTERVAL_SECS,
    }
}

/// Whether it is time to look for a newer version at time `now`, when the
/// last look was at `last_check`.
pub fn should_check_update(last_check: Option<u64>, now: u64) -> (due: bool)
    ensures
        due == refresh_due(last_check, now),
{
    match last_check {
        None => true,
        Some(then) => now > then && now - then > REFRESH_INTERVAL_SECS,
    }
}

/// Whether it is time to look for a newer version at time `now`, given the
/// content of the file that holds the time of the last look.  A file that
/// is missing or does not hold a number counts as no look at all.
pub fn should_check_updates(last_check_file: &Option<String>, now: u64) -> (due: bool)
    ensures
        due == refresh_due(
            match *last_check_file {
                Some(content) => parsed_u64(content@),
                None => None,
            },
            now,
        ),
{
    match last_check_file {
        Some(content) => should_check_update(parse_u64(content.as_str()), now),
        None => true,
    }
}

/// The content of the file that holds the time of the last look.
pub fn last_check_content(now: u64) -> (content: String)
    ensures
        content@ == decimal(now as nat),
        parsed_u64(content@) == Some(now),
{
    proof {
        crate::text::law_decimal_round_trip(now);
    }
    decimal_string(now)
}

/// The record that is written when `name` has been installed at `path` in
/// version `version` at time `now`.
pub fn binary_info(name: &str, version: &str, now: u64, path: &str) -> (info: BinaryInfo)
    ensures
        info.name@ == name@,
        info.version@ == version@,
        info.last_check == now,
        info.path@ == path@,
{
    BinaryInfo {
        name: name.to_owned(),
        version: version.to_owned(),
        last_check: now,
        path: path.to_owned(),
    }
}

/// The name of the file that holds the record of the binary `name`.
pub fn info_file_name(name: &str) -> (file: String)
    ensures
        file@ == name@ + "-info.json"@,
{
    joined(name, "-info.json")
}

/// A look for a newer version is never due right after one has been
/// recorded, and always due once more than a day has passed.
pub proof fn law_refresh_cadence(recorded: u64, now: u64)
    ensures
        !refresh_due(Some(recorded), recorded),
        now > recorded + REFRESH_INTERVAL_SECS ==> refresh_due(Some(recorded), now),
        recorded <= now <= recorded + REFRESH_INTERVAL_SECS ==> !refresh_due(Some(recorded), now),
        refresh_due(None, now),
{
}

/// The record of the installed download tool.
#[derive(Debug, Clone)]
pub struct YtdlpVersion {
    /// Version tag that was installed or found to be the latest.
    pub version: String,
    /// When the record was written, in seconds since the epoch.
    pub last_check: u64,
    /// Where the tool is installed.
    pub path: String,
}

/// The record that is written when the download tool at `path` has been
/// found to be, or has been brought to, version `version` at time `now`.
pub fn version_info(version: &str, now: u64, path: &str) -> (info: YtdlpVersion)
    ensures
        info.version@ == version@,
        info.last_check == now,
        info.path@ == path@,
{
    YtdlpVersion { version: version.to_owned(), last_check: now, path: path.to_owned() }
}

/// The tool to run: the updated copy where there is one, else the copy
/// that ships with the application, which goes by its bare name.
pub fn get_ytdlp_path(updated_path: &str, updated_exists: bool) -> (path: String)
    ensures
        path@ == if updated_exists {
            updated_path@
        } else {
            "yt-dlp"@
        },
{
    if updated_exists {
        updated_path.to_owned()
    } else {
        "yt-dlp".to_owned()
    }
}

} // verus!
