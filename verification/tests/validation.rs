use ripvid::platform::Os;
use ripvid::validation::{
    check_location, check_path_text, check_url, detect_platform, validate_url, Location,
    ParsedUrl,
};

#[test]
fn test_validate_url_valid() {
    assert!(validate_url("https://www.youtube.com/watch?v=test").is_ok());
    assert!(validate_url("http://example.com/video").is_ok());
}

#[test]
fn test_validate_url_invalid_scheme() {
    assert!(validate_url("ftp://example.com").is_err());
    assert!(validate_url("file:///etc/passwd").is_err());
    assert!(validate_url("javascript:alert(1)").is_err());
}

#[test]
fn test_validate_url_dangerous_chars() {
    assert!(validate_url("https://example.com/video;rm -rf /").is_err());
    assert!(validate_url("https://example.com/`whoami`").is_err());
    assert!(validate_url("https://example.com/$(command)").is_err());
}

#[test]
fn test_validate_url_empty() {
    assert!(validate_url("").is_err());
    assert!(validate_url("   ").is_err());
}

#[test]
fn validate_url_returns_the_parsers_form() {
    assert_eq!(validate_url("https://example.com"), Ok("https://example.com/".to_string()));
    assert_eq!(
        validate_url("HTTPS://Example.COM/a b"),
        Ok("https://example.com/a%20b".to_string())
    );
}

#[test]
fn validate_url_names_each_reason() {
    assert_eq!(validate_url(" \t\n"), Err("URL cannot be empty".to_string()));
    let long = format!("https://example.com/{}", "a".repeat(2048));
    assert_eq!(validate_url(&long), Err("URL is too long (max 2048 characters)".to_string()));
    assert_eq!(
        validate_url("not a url"),
        Err("Invalid URL format: relative URL without a base".to_string())
    );
    assert_eq!(
        validate_url("ftp://example.com"),
        Err("Unsupported URL scheme 'ftp'. Only http and https are allowed".to_string())
    );
    assert_eq!(
        validate_url("https://example.com/a;b<c"),
        Err("URL contains dangerous character '<' which is not allowed".to_string())
    );
    assert_eq!(
        validate_url("https://example.com/a\u{1}b"),
        Err("URL contains invalid control character: '\\u{1}'".to_string())
    );
}

#[test]
fn validate_url_allows_dangerous_chars_in_the_query() {
    assert!(validate_url("https://example.com/watch?v=a&b=(c)").is_ok());
    assert!(validate_url("https://example.com/wa&tch?v=a").is_err());
}

#[test]
fn validate_url_length_limit_is_inclusive() {
    let head = "https://example.com/";
    let exact = format!("{}{}", head, "a".repeat(2048 - head.len()));
    assert_eq!(exact.len(), 2048);
    assert!(validate_url(&exact).is_ok());
    let over = format!("{}a", exact);
    assert!(validate_url(&over).is_err());
}

#[test]
fn check_url_decides_on_what_the_parser_found() {
    let parsed = ParsedUrl {
        scheme: "https".to_string(),
        has_host: false,
        serialization: "https:/x".to_string(),
    };
    assert_eq!(check_url("https:/x", Ok(parsed)), Err("URL must have a valid host".to_string()));
    assert_eq!(
        check_url("whatever", Err("empty host".to_string())),
        Err("Invalid URL format: empty host".to_string())
    );
    let fine = ParsedUrl {
        scheme: "http".to_string(),
        has_host: true,
        serialization: "http://h/".to_string(),
    };
    assert_eq!(check_url("http://h", Ok(fine)), Ok("http://h/".to_string()));
}

#[test]
fn test_validate_path_traversal() {
    assert!(check_path_text("../../../etc/passwd", Os::Linux).is_err());
    assert!(check_path_text("/home/user/../../etc/passwd", Os::Linux).is_err());
}

#[test]
fn test_validate_path_null_bytes() {
    assert!(check_path_text("/home/user/file\0.txt", Os::Linux).is_err());
}

#[test]
fn check_path_text_rules() {
    assert_eq!(check_path_text("", Os::Linux), Err("Path cannot be empty".to_string()));
    assert_eq!(check_path_text("   ", Os::Linux), Err("Path cannot be empty".to_string()));
    assert_eq!(
        check_path_text(&format!("/{}", "a".repeat(4096)), Os::Linux),
        Err("Path is too long (max 4096 characters)".to_string())
    );
    assert!(check_path_text(&format!("/{}", "a".repeat(4095)), Os::Linux).is_ok());
    assert_eq!(
        check_path_text("/home/user/file\0.txt", Os::Linux),
        Err("Path contains null bytes".to_string())
    );
    assert_eq!(
        check_path_text("../file\0.txt", Os::Linux),
        Err("Path contains null bytes".to_string())
    );
    assert_eq!(check_path_text("/home/user/file.txt", Os::Linux), Ok(()));
}

#[test]
fn parent_components_are_turned_down() {
    let traversal = Err("Path contains '..' which is not allowed (path traversal attempt)".to_string());
    assert_eq!(check_path_text("..", Os::Linux), traversal);
    assert_eq!(check_path_text("/a/..", Os::Linux), traversal);
    assert_eq!(check_path_text("/a/../b", Os::Linux), traversal);
    assert_eq!(check_path_text("../a", Os::Linux), traversal);
    assert_eq!(check_path_text("C:\\a\\..\\b", Os::Windows), traversal);
    assert_eq!(check_path_text("C:/a/../b", Os::Windows), traversal);
    assert_eq!(check_path_text("/a/..b/c..", Os::Linux), Ok(()));
    assert_eq!(check_path_text("/a/.../b", Os::Linux), Ok(()));
    assert_eq!(check_path_text("/a\\..\\b", Os::Linux), Ok(()));
    assert_eq!(check_path_text("/.", Os::Linux), Ok(()));
}

#[test]
fn paths_have_to_be_absolute() {
    let relative = Err("Path must be absolute".to_string());
    assert_eq!(check_path_text("a/b", Os::Linux), relative);
    assert_eq!(check_path_text("C:\\a", Os::Linux), relative);
    assert_eq!(check_path_text("/", Os::Linux), Ok(()));
    assert_eq!(check_path_text("C:\\a", Os::Windows), Ok(()));
    assert_eq!(check_path_text("c:/a", Os::Windows), Ok(()));
    assert_eq!(check_path_text("\\\\server\\share", Os::Windows), Ok(()));
    assert_eq!(check_path_text("\\\\?\\C:\\a", Os::Windows), Ok(()));
    assert_eq!(check_path_text("C:a", Os::Windows), relative);
    assert_eq!(check_path_text("\\a", Os::Windows), relative);
    assert_eq!(check_path_text("/a", Os::Windows), relative);
    assert_eq!(check_path_text("1:\\a", Os::Windows), relative);
}

#[test]
fn check_location_rules() {
    let inside = Location { home_known: true, under_home: true, temp_known: true, under_temp: false };
    assert_eq!(check_location("/home/u/Videos/a.mp4", inside, Os::Linux), Ok(()));
    let outside = Location { home_known: true, under_home: false, temp_known: true, under_temp: false };
    assert_eq!(
        check_location("/srv/a.mp4", outside, Os::Linux),
        Err("Path is outside allowed directories (home or temp): /srv/a.mp4".to_string())
    );
    let in_temp = Location { home_known: true, under_home: false, temp_known: true, under_temp: true };
    assert_eq!(check_location("/tmp/a.mp4", in_temp, Os::Linux), Ok(()));
    let no_temp = Location { home_known: true, under_home: false, temp_known: false, under_temp: false };
    assert_eq!(
        check_location("/srv/a.mp4", no_temp, Os::Linux),
        Err("Path is outside home directory: /srv/a.mp4".to_string())
    );
    let unknown = Location { home_known: false, under_home: false, temp_known: false, under_temp: false };
    assert_eq!(check_location("/HOME/u/a.mp4", unknown, Os::Linux), Ok(()));
    assert_eq!(
        check_location("/srv/a.mp4", unknown, Os::Linux),
        Err("Cannot validate path: home directory unknown and path not in safe location".to_string())
    );
    assert_eq!(check_location("C:\\Users\\u\\a.mp4", unknown, Os::Windows), Ok(()));
    assert_eq!(
        check_location("/home/u/etc/../Etc/x", inside, Os::Linux),
        Err("Access to system directory is not allowed: /etc/".to_string())
    );
    assert_eq!(
        check_location("C:\\Users\\u\\Program Files\\x", inside, Os::Windows),
        Err("Access to system directory is not allowed: \\program files\\".to_string())
    );
}

#[test]
fn detect_platform_by_site_name() {
    assert_eq!(detect_platform("https://www.youtube.com/watch?v=1"), Ok("youtube".to_string()));
    assert_eq!(detect_platform("https://youtu.be/1"), Ok("youtube".to_string()));
    assert_eq!(detect_platform("https://twitter.com/a/status/1"), Ok("x".to_string()));
    assert_eq!(detect_platform("https://fb.watch/1"), Ok("facebook".to_string()));
    assert_eq!(detect_platform("https://www.instagram.com/p/1"), Ok("instagram".to_string()));
    assert_eq!(detect_platform("https://www.tiktok.com/@a/video/1"), Ok("tiktok".to_string()));
    assert_eq!(detect_platform("https://example.com/"), Err("Unsupported platform".to_string()));
}
