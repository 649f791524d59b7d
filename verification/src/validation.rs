//! Checks on what the user hands in, before any of it reaches a command line.

use vstd::prelude::*;
use vstd::utf8::encode_utf8;
use crate::platform::Os;
use crate::text::{
    chars_of, contains, includes, is_space, is_whitespace, joined, lower, matches_at, push_str,
    slice_of, starts_with, string_of, to_lower,
};

verus! {

/// What the URL parser makes of a text.
#[derive(Debug, Clone)]
pub struct ParsedUrl {
    /// The scheme, without the colon.
    pub scheme: String,
    /// Whether the URL names a host.
    pub has_host: bool,
    /// The URL as the parser writes it.
    pub serialization: String,
}

/// A parsed URL over plain text.
pub ghost struct ParsedUrlView {
    pub scheme: Seq<char>,
    pub has_host: bool,
    pub serialization: Seq<char>,
}

impl View for ParsedUrl {
    type V = ParsedUrlView;

    open spec fn view(&self) -> ParsedUrlView {
        ParsedUrlView {
            scheme: self.scheme@,
            has_host: self.has_host,
            serialization: self.serialization@,
        }
    }
}

/// The outcome of parsing, over plain text.
pub open spec fn parse_view(parsed: Result<ParsedUrl, String>) -> Result<ParsedUrlView, Seq<char>> {
    match parsed {
        Ok(u) => Ok(u@),
        Err(e) => Err(e@),
    }
}

/// What `Url::parse` of the `url` crate makes of `text`: the scheme, the
/// presence of a host and the serialization of the URL, or the text of the
/// parser's error.
pub uninterp spec fn parsed_url(text: Seq<char>) -> Result<ParsedUrlView, Seq<char>>;

/// Parses `text` with `Url::parse` and reads `scheme`, `host_str` and the
/// serialization off the result.  The contract only names the result.
#[verifier::external_body]
fn parse_url(text: &str) -> (parsed: Result<ParsedUrl, String>)
    ensures
        parse_view(parsed) == parsed_url(text@),
{
    match url::Url::parse(text) {
        Ok(u) => Ok(
            ParsedUrl {
                scheme: u.scheme().to_string(),
                has_host: u.host_str().is_some(),
                serialization: u.to_string(),
            },
        ),
        Err(e) => Err(e.to_string()),
    }
}

/// The way the standard library writes `c` for debugging: between single
/// quotes, escaped where it cannot be printed.
pub uninterp spec fn char_debug_text(c: char) -> Seq<char>;

/// Writes `c` with the standard library's `Debug` format.  The contract
/// only names the result.
#[verifier::external_body]
fn debug_char(c: char) -> (out: String)
    ensures
        out@ == char_debug_text(c),
{
    format!("{:?}", c)
}

/// The characters that are turned down before the query of a URL, in the
/// order in which they are looked for.
pub open spec fn dangerous_chars() -> Seq<char> {
    seq!['<', '>', '|', '&', ';', '`', '$', '(', ')', '{', '}', '[', ']', '!', '#']
}

/// The first position at or after `from` that holds `c`, or the length of
/// `text` where there is none.
pub open spec fn index_of(text: Seq<char>, c: char, from: int) -> int
    decreases text.len() - from,
{
    if from < 0 || from >= text.len() {
        text.len() as int
    } else if text[from] == c {
        from
    } else {
        index_of(text, c, from + 1)
    }
}

/// The part of a URL before its query: everything before the first
/// question mark.
pub open spec fn before_query(text: Seq<char>) -> Seq<char> {
    text.take(index_of(text, '?', 0))
}

/// The first of the dangerous characters, from position `k` of their list
/// on, that occurs in `part`.
pub open spec fn first_dangerous(part: Seq<char>, k: int) -> Option<char>
    decreases dangerous_chars().len() - k,
{
    if k < 0 || k >= dangerous_chars().len() {
        None
    } else if part.contains(dangerous_chars()[k]) {
        Some(dangerous_chars()[k])
    } else {
        first_dangerous(part, k + 1)
    }
}

/// A control character.
pub open spec fn is_control(c: char) -> bool {
    c <= '\u{1f}' || ('\u{7f}' <= c && c <= '\u{9f}')
}

/// A control character other than a tab, a line feed or a carriage return.
pub open spec fn is_forbidden_control(c: char) -> bool {
    is_control(c) && c != '\n' && c != '\r' && c != '\t'
}

/// The first forbidden control character of `text` at or after `from`.
pub open spec fn first_forbidden_control(text: Seq<char>, from: int) -> Option<char>
    decreases text.len() - from,
{
    if from < 0 || from >= text.len() {
        None
    } else if is_forbidden_control(text[from]) {
        Some(text[from])
    } else {
        first_forbidden_control(text, from + 1)
    }
}

/// Every character of `text` is a separator.
pub open spec fn is_blank(text: Seq<char>) -> bool {
    forall|k: int| 0 <= k < text.len() ==> is_space(#[trigger] text[k])
}

/// The verdict on a URL, given what the parser made of it: the URL as the
/// parser writes it, or the reason for which it is turned down.  The checks
/// are made in this order: the text is not blank; it has at most 2048
/// bytes; it can be parsed; its scheme is `http` or `https`; it names a
/// host; it holds no dangerous character before its query; it holds no
/// null character and no other control character but tab and line ends.
pub open spec fn url_verdict(text: Seq<char>, parsed: Result<ParsedUrlView, Seq<char>>) -> Result<
    Seq<char>,
    Seq<char>,
> {
    if is_blank(text) {
        Err("URL cannot be empty"@)
    } else if encode_utf8(text).len() > 2048 {
        Err("URL is too long (max 2048 characters)"@)
    } else {
        match parsed {
            Err(reason) => Err("Invalid URL format: "@ + reason),
            Ok(url) => if url.scheme != "http"@ && url.scheme != "https"@ {
                Err(
                    "Unsupported URL scheme '"@ + url.scheme
                        + "'. Only http and https are allowed"@,
                )
            } else if !url.has_host {
                Err("URL must have a valid host"@)
            } else {
                match first_dangerous(before_query(text), 0) {
                    Some(c) => Err(
                        "URL contains dangerous character '"@ + seq![c]
                            + "' which is not allowed"@,
                    ),
                    None => if text.contains('\0') {
                        Err("URL contains null bytes"@)
                    } else {
                        match first_forbidden_control(text, 0) {
                            Some(c) => Err(
                                "URL contains invalid control character: "@ + char_debug_text(c),
                            ),
                            None => Ok(url.serialization),
                        }
                    },
                }
            },
        }
    }
}

/// A verdict over plain text.
pub open spec fn verdict_text(verdict: Result<String, String>) -> Result<Seq<char>, Seq<char>> {
    match verdict {
        Ok(s) => Ok(s@),
        Err(e) => Err(e@),
    }
}

fn blank(text: &Vec<char>) -> (yes: bool)
    ensures
        yes == is_blank(text@),
{
    let mut i: usize = 0;
    while i < text.len()
        invariant
            forall|k: int| 0 <= k < i && k < text.len() ==> is_space(#[trigger] text[k]),
        decreases text.len() - i,
    {
        if !is_whitespace(text[i]) {
            return false;
        }
        i += 1;
    }
    true
}

fn position_of(text: &Vec<char>, c: char) -> (at: usize)
    ensures
        at == index_of(text@, c, 0),
        at <= text.len(),
        forall|k: int| 0 <= k < at ==> text[k] != c,
        at < text.len() ==> text[at as int] == c,
{
    let mut at: usize = 0;
    while at < text.len() && text[at] != c
        invariant
            at <= text.len(),
            index_of(text@, c, 0) == index_of(text@, c, at as int),
            forall|k: int| 0 <= k < at ==> text[k] != c,
        decreases text.len() - at,
    {
        at += 1;
    }
    at
}

fn holds_char(text: &Vec<char>, c: char) -> (yes: bool)
    ensures
        yes == text@.contains(c),
{
    let at = position_of(text, c);
    if at < text.len() {
        assert(text@[at as int] == c);
        true
    } else {
        false
    }
}

fn dangerous_list() -> (list: Vec<char>)
    ensures
        list@ == dangerous_chars(),
{
    let mut list: Vec<char> = Vec::new();
    list.push('<');
    list.push('>');
    list.push('|');
    list.push('&');
    list.push(';');
    list.push('`');
    list.push('$');
    list.push('(');
    list.push(')');
    list.push('{');
    list.push('}');
    list.push('[');
    list.push(']');
    list.push('!');
    list.push('#');
    assert(list@ =~= dangerous_chars());
    list
}

fn find_dangerous(part: &Vec<char>) -> (found: Option<char>)
    ensures
        found == first_dangerous(part@, 0),
{
    let list = dangerous_list();
    let mut k: usize = 0;
    while k < list.len()
        invariant
            list@ == dangerous_chars(),
            first_dangerous(part@, 0) == first_dangerous(part@, k as int),
        decreases list.len() - k,
    {
        if holds_char(part, list[k]) {
            return Some(list[k]);
        }
        k += 1;
    }
    None
}

fn forbidden_control(c: char) -> (yes: bool)
    ensures
        yes == is_forbidden_control(c),
{
    (c <= '\u{1f}' || ('\u{7f}' <= c && c <= '\u{9f}')) && c != '\n' && c != '\r' && c != '\t'
}

fn find_forbidden_control(text: &Vec<char>) -> (found: Option<char>)
    ensures
        found == first_forbidden_control(text@, 0),
{
    let mut i: usize = 0;
    while i < text.len()
        invariant
            first_forbidden_control(text@, 0) == first_forbidden_control(text@, i as int),
        decreases text.len() - i,
    {
        if forbidden_control(text[i]) {
            return Some(text[i]);
        }
        i += 1;
    }
    None
}

/// The verdict on the URL `url_str`, given what the parser made of it.
pub fn check_url(url_str: &str, parsed: Result<ParsedUrl, String>) -> (verdict: Result<
    String,
    String,
>)
    ensures
        verdict_text(verdict) == url_verdict(url_str@, parse_view(parsed)),
{
    let text = chars_of(url_str);
    if blank(&text) {
        return Err("URL cannot be empty".to_owned());
    }
    if url_str.as_bytes().len() > 2048 {
        return Err("URL is too long (max 2048 characters)".to_owned());
    }
    let url = match parsed {
        Err(reason) => {
            return Err(joined("Invalid URL format: ", reason.as_str()));
        },
        Ok(url) => url,
    };
    if url.scheme != "http".to_owned() && url.scheme != "https".to_owned() {
        let head = joined("Unsupported URL scheme '", url.scheme.as_str());
        return Err(joined(head.as_str(), "'. Only http and https are allowed"));
    }
    if !url.has_host {
        return Err("URL must have a valid host".to_owned());
    }
    let cut = position_of(&text, '?');
    let part = slice_of(&text, 0, cut);
    assert(part@ =~= before_query(url_str@));
    match find_dangerous(&part) {
        Some(c) => {
            let mut buf = chars_of("URL contains dangerous character '");
            buf.push(c);
            push_str(&mut buf, "' which is not allowed");
            assert(buf@ =~= "URL contains dangerous character '"@ + seq![c]
                + "' which is not allowed"@);
            return Err(string_of(&buf));
        },
        None => {},
    }
    if holds_char(&text, '\0') {
        return Err("URL contains null bytes".to_owned());
    }
    match find_forbidden_control(&text) {
        Some(c) => {
            let shown = debug_char(c);
            Err(joined("URL contains invalid control character: ", shown.as_str()))
        },
        None => Ok(url.serialization),
    }
}

/// The verdict on the URL `url_str`: the URL as the parser writes it, or
/// the reason for which it is turned down.
pub fn validate_url(url_str: &str) -> (verdict: Result<String, String>)
    ensures
        verdict_text(verdict) == url_verdict(url_str@, parsed_url(url_str@)),
        is_blank(url_str@) ==> verdict is Err,
{
    let parsed = parse_url(url_str);
    check_url(url_str, parsed)
}

/// A character that parts the components of a path.
pub open spec fn is_separator(c: char, os: Os) -> bool {
    c == '/' || (os == Os::Windows && c == '\\')
}

/// The two characters at `at` are a component `..` of the path: two dots
/// with a separator, or an end of the text, on either side.
pub open spec fn parent_component_at(text: Seq<char>, os: Os, at: int) -> bool {
    &&& 0 <= at
    &&& at + 2 <= text.len()
    &&& text[at] == '.'
    &&& text[at + 1] == '.'
    &&& (at == 0 || is_separator(text[at - 1], os))
    &&& (at + 2 == text.len() || is_separator(text[at + 2], os))
}

/// The path has a component `..`.
pub open spec fn has_parent_component(text: Seq<char>, os: Os) -> bool {
    exists|at: int| parent_component_at(text, os, at)
}

/// The path names a place without regard to the current directory.  On
/// Windows it begins with a drive letter, a colon and a separator, or with
/// two separators; elsewhere it begins with a slash.
pub open spec fn is_absolute_text(text: Seq<char>, os: Os) -> bool {
    if os == Os::Windows {
        ||| (text.len() >= 3 && is_drive_letter(text[0]) && text[1] == ':' && is_separator(
            text[2],
            os,
        ))
        ||| (text.len() >= 2 && is_separator(text[0], os) && is_separator(text[1], os))
    } else {
        text.len() >= 1 && text[0] == '/'
    }
}

/// A letter that can name a drive.
pub open spec fn is_drive_letter(c: char) -> bool {
    ('a' <= c && c <= 'z') || ('A' <= c && c <= 'Z')
}

/// The verdict on the text of a path, before the file system is asked:
/// the text is not blank, has at most 4096 bytes, holds no null character
/// and no component `..`, and is absolute.
pub open spec fn path_text_verdict(text: Seq<char>, os: Os) -> Result<(), Seq<char>> {
    if is_blank(text) {
        Err("Path cannot be empty"@)
    } else if encode_utf8(text).len() > 4096 {
        Err("Path is too long (max 4096 characters)"@)
    } else if text.contains('\0') {
        Err("Path contains null bytes"@)
    } else if has_parent_component(text, os) {
        Err("Path contains '..' which is not allowed (path traversal attempt)"@)
    } else if !is_absolute_text(text, os) {
        Err("Path must be absolute"@)
    } else {
        Ok(())
    }
}

/// A verdict without a value, over plain text.
pub open spec fn unit_verdict_text(verdict: Result<(), String>) -> Result<(), Seq<char>> {
    match verdict {
        Ok(_) => Ok(()),
        Err(e) => Err(e@),
    }
}

fn separator(c: char, os: Os) -> (yes: bool)
    ensures
        yes == is_separator(c, os),
{
    c == '/' || (match os {
        Os::Windows => c == '\\',
        _ => false,
    })
}

fn parent_component(text: &Vec<char>, os: Os) -> (yes: bool)
    ensures
        yes == has_parent_component(text@, os),
{
    if text.len() < 2 {
        return false;
    }
    let last: usize = text.len() - 2;
    let mut at: usize = 0;
    while at <= last
        invariant
            at <= last + 1,
            last == text.len() - 2,
            forall|k: int| 0 <= k < at ==> !parent_component_at(text@, os, k),
        decreases last + 1 - at,
    {
        if text[at] == '.' && text[at + 1] == '.' && (at == 0 || separator(text[at - 1], os)) && (at
            == last || separator(text[at + 2], os)) {
            assert(parent_component_at(text@, os, at as int));
            return true;
        }
        at += 1;
    }
    false
}

fn absolute(text: &Vec<char>, os: Os) -> (yes: bool)
    ensures
        yes == is_absolute_text(text@, os),
{
    match os {
        Os::Windows => {
            (text.len() >= 3 && (('a' <= text[0] && text[0] <= 'z') || ('A' <= text[0] && text[0]
                <= 'Z')) && text[1] == ':' && separator(text[2], os)) || (text.len() >= 2
                && separator(text[0], os) && separator(text[1], os))
        },
        _ => text.len() >= 1 && text[0] == '/',
    }
}

/// The verdict on the text of the path `path_str` on `os`.
pub fn check_path_text(path_str: &str, os: Os) -> (verdict: Result<(), String>)
    ensures
        unit_verdict_text(verdict) == path_text_verdict(path_str@, os),
{
    let text = chars_of(path_str);
    if blank(&text) {
        Err("Path cannot be empty".to_owned())
    } else if path_str.as_bytes().len() > 4096 {
        Err("Path is too long (max 4096 characters)".to_owned())
    } else if holds_char(&text, '\0') {
        Err("Path contains null bytes".to_owned())
    } else if parent_component(&text, os) {
        Err("Path contains '..' which is not allowed (path traversal attempt)".to_owned())
    } else if !absolute(&text, os) {
        Err("Path must be absolute".to_owned())
    } else {
        Ok(())
    }
}

/// What the caller found out about where a resolved path lies.
#[derive(Clone, Copy, Debug, PartialEq, Eq, Structural)]
pub struct Location {
    /// The user's home directory is known.
    pub home_known: bool,
    /// The path lies in the home directory.
    pub under_home: bool,
    /// The directory for temporary files could be resolved.
    pub temp_known: bool,
    /// The path lies in the directory for temporary files.
    pub under_temp: bool,
}

/// The places in which a path may lie when the home directory is not known.
pub open spec fn safe_prefixes(os: Os) -> Seq<Seq<char>> {
    if os == Os::Windows {
        seq!["c:\\users\\"@, "c:\\temp\\"@, "c:\\tmp\\"@]
    } else {
        seq!["/home/"@, "/tmp/"@, "/var/tmp/"@]
    }
}

/// The system directories in which no path may lie, in the order in which
/// they are looked for.
pub open spec fn blocked_parts(os: Os) -> Seq<Seq<char>> {
    if os == Os::Windows {
        seq![
            "\\windows\\system32\\"@,
            "\\windows\\syswow64\\"@,
            "\\program files\\"@,
            "\\programdata\\"@,
        ]
    } else {
        seq!["/etc/"@, "/boot/"@, "/sys/"@, "/proc/"@, "/root/"@]
    }
}

/// The first of `parts`, from position `k` on, that occurs in `text`.
pub open spec fn first_part_in(text: Seq<char>, parts: Seq<Seq<char>>, k: int) -> Option<Seq<char>>
    decreases parts.len() - k,
{
    if k < 0 || k >= parts.len() {
        None
    } else if contains(text, parts[k]) {
        Some(parts[k])
    } else {
        first_part_in(text, parts, k + 1)
    }
}

/// `text` begins with one of `prefixes`.
pub open spec fn begins_with_any(text: Seq<char>, prefixes: Seq<Seq<char>>) -> bool {
    exists|k: int| 0 <= k < prefixes.len() && starts_with(text, #[trigger] prefixes[k])
}

/// The verdict on a resolved path.  Where the home directory is known the
/// path has to lie in it or in the directory for temporary files; where it
/// is not, the path has to begin with one of the safe prefixes.  In either
/// case it must not lie in a system directory.  Capitals make no
/// difference to the safe prefixes and the system directories.
pub open spec fn location_verdict(path: Seq<char>, location: Location, os: Os) -> Result<
    (),
    Seq<char>,
> {
    if location.home_known && !location.under_home && location.temp_known && !location.under_temp {
        Err("Path is outside allowed directories (home or temp): "@ + path)
    } else if location.home_known && !location.under_home && !location.temp_known {
        Err("Path is outside home directory: "@ + path)
    } else if !location.home_known && !begins_with_any(lower(path), safe_prefixes(os)) {
        Err("Cannot validate path: home directory unknown and path not in safe location"@)
    } else {
        match first_part_in(lower(path), blocked_parts(os), 0) {
            Some(part) => Err("Access to system directory is not allowed: "@ + part),
            None => Ok(()),
        }
    }
}

fn text_list(a: &str, b: &str, c: &str) -> (list: Vec<Vec<char>>)
    ensures
        list@.len() == 3,
        list[0]@ == a@,
        list[1]@ == b@,
        list[2]@ == c@,
{
    let mut list: Vec<Vec<char>> = Vec::new();
    list.push(chars_of(a));
    list.push(chars_of(b));
    list.push(chars_of(c));
    list
}

/// The views of the texts of `list`, in order.
pub open spec fn part_views(list: Seq<Vec<char>>) -> Seq<Seq<char>> {
    list.map_values(|p: Vec<char>| p@)
}

fn safe_prefix_list(os: Os) -> (list: Vec<Vec<char>>)
    ensures
        part_views(list@) == safe_prefixes(os),
{
    let list = match os {
        Os::Windows => text_list("c:\\users\\", "c:\\temp\\", "c:\\tmp\\"),
        _ => text_list("/home/", "/tmp/", "/var/tmp/"),
    };
    assert(part_views(list@) =~= safe_prefixes(os));
    list
}

fn blocked_list(os: Os) -> (list: Vec<Vec<char>>)
    ensures
        part_views(list@) == blocked_parts(os),
{
    match os {
        Os::Windows => {
            let mut list = text_list(
                "\\windows\\system32\\",
                "\\windows\\syswow64\\",
                "\\program files\\",
            );
            list.push(chars_of("\\programdata\\"));
            assert(part_views(list@) =~= blocked_parts(os));
            list
        },
        _ => {
            let mut list = text_list("/etc/", "/boot/", "/sys/");
            list.push(chars_of("/proc/"));
            list.push(chars_of("/root/"));
            assert(part_views(list@) =~= blocked_parts(os));
            list
        },
    }
}

fn begins_with_safe_prefix(low: &Vec<char>, os: Os) -> (found: bool)
    ensures
        found == begins_with_any(low@, safe_prefixes(os)),
{
    let prefixes = safe_prefix_list(os);
    let mut k: usize = 0;
    while k < prefixes.len()
        invariant
            k <= prefixes.len(),
            part_views(prefixes@) == safe_prefixes(os),
            forall|j: int| 0 <= j < k ==> !starts_with(low@, #[trigger] safe_prefixes(os)[j]),
        decreases prefixes.len() - k,
    {
        assert(part_views(prefixes@)[k as int] == prefixes@[k as int]@);
        if matches_at(low, &prefixes[k], 0) {
            assert(starts_with(low@, safe_prefixes(os)[k as int]));
            return true;
        }
        k += 1;
    }
    false
}

fn find_blocked(low: &Vec<char>, os: Os) -> (found: Option<Vec<char>>)
    ensures
        match found {
            Some(part) => first_part_in(low@, blocked_parts(os), 0) == Some(part@),
            None => first_part_in(low@, blocked_parts(os), 0) is None,
        },
{
    let blocked = blocked_list(os);
    let mut k: usize = 0;
    while k < blocked.len()
        invariant
            part_views(blocked@) == blocked_parts(os),
            first_part_in(low@, blocked_parts(os), 0) == first_part_in(
                low@,
                blocked_parts(os),
                k as int,
            ),
        decreases blocked.len() - k,
    {
        assert(part_views(blocked@)[k as int] == blocked@[k as int]@);
        if crate::text::find(low, &blocked[k]).is_some() {
            return Some(blocked[k].clone());
        }
        k += 1;
    }
    None
}

/// The verdict on the resolved path `path`, given where it lies.
pub fn check_location(path: &str, location: Location, os: Os) -> (verdict: Result<(), String>)
    ensures
        unit_verdict_text(verdict) == location_verdict(path@, location, os),
{
    if location.home_known && !location.under_home && location.temp_known && !location.under_temp {
        return Err(joined("Path is outside allowed directories (home or temp): ", path));
    }
    if location.home_known && !location.under_home && !location.temp_known {
        return Err(joined("Path is outside home directory: ", path));
    }
    let low = to_lower(&chars_of(path));
    if !location.home_known {
        let found = begins_with_safe_prefix(&low, os);
        if !found {
            return Err(
                "Cannot validate path: home directory unknown and path not in safe location".to_owned(),
            );
        }
    }
    match find_blocked(&low, os) {
        Some(part) => {
            let part = string_of(&part);
            Err(joined("Access to system directory is not allowed: ", part.as_str()))
        },
        None => Ok(()),
    }
}

/// The site that a URL belongs to, by the names that occur in it.
pub open spec fn site_of(url: Seq<char>) -> Result<Seq<char>, Seq<char>> {
    if contains(url, "youtube.com"@) || contains(url, "youtu.be"@) {
        Ok("youtube"@)
    } else if contains(url, "x.com"@) || contains(url, "twitter.com"@) {
        Ok("x"@)
    } else if contains(url, "facebook.com"@) || contains(url, "fb.watch"@) {
        Ok("facebook"@)
    } else if contains(url, "instagram.com"@) {
        Ok("instagram"@)
    } else if contains(url, "tiktok.com"@) {
        Ok("tiktok"@)
    } else {
        Err("Unsupported platform"@)
    }
}

/// The site that `url` belongs to.
pub fn detect_platform(url: &str) -> (site: Result<String, String>)
    ensures
        verdict_text(site) == site_of(url@),
{
    let u = chars_of(url);
    if includes(&u, "youtube.com") || includes(&u, "youtu.be") {
        Ok("youtube".to_owned())
    } else if includes(&u, "x.com") || includes(&u, "twitter.com") {
        Ok("x".to_owned())
    } else if includes(&u, "facebook.com") || includes(&u, "fb.watch") {
        Ok("facebook".to_owned())
    } else if includes(&u, "instagram.com") {
        Ok("instagram".to_owned())
    } else if includes(&u, "tiktok.com") {
        Ok("tiktok".to_owned())
    } else {
        Err("Unsupported platform".to_owned())
    }
}

} // verus!
