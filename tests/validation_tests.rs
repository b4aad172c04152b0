use jenkins_cli::validation::{is_blank, validate_host_url, UrlProblem};
use url::Url;

#[test]
fn test_url_validation_valid_http() {
    let result = Url::parse("http://jenkins.example.com");
    assert!(result.is_ok());
    let url = result.unwrap();
    assert_eq!(url.scheme(), "http");
    assert_eq!(validate_host_url("http://jenkins.example.com"), Ok(()));
}

#[test]
fn test_url_validation_valid_https() {
    let result = Url::parse("https://jenkins.example.com");
    assert!(result.is_ok());
    let url = result.unwrap();
    assert_eq!(url.scheme(), "https");
    assert_eq!(validate_host_url("https://jenkins.example.com"), Ok(()));
}

#[test]
fn test_url_validation_with_port() {
    let result = Url::parse("https://jenkins.example.com:8080");
    assert!(result.is_ok());
    let url = result.unwrap();
    assert_eq!(url.scheme(), "https");
    assert_eq!(url.port(), Some(8080));
    assert_eq!(validate_host_url("https://jenkins.example.com:8080"), Ok(()));
}

#[test]
fn test_url_validation_with_path() {
    let result = Url::parse("https://jenkins.example.com/jenkins");
    assert!(result.is_ok());
    let url = result.unwrap();
    assert_eq!(url.scheme(), "https");
    assert_eq!(url.path(), "/jenkins");
    assert_eq!(validate_host_url("https://jenkins.example.com/jenkins"), Ok(()));
}

#[test]
fn test_url_validation_invalid_scheme() {
    let result = Url::parse("ftp://jenkins.example.com");
    assert!(result.is_ok());
    let url = result.unwrap();
    assert_ne!(url.scheme(), "http");
    assert_ne!(url.scheme(), "https");
    assert_eq!(validate_host_url("ftp://jenkins.example.com"), Err(UrlProblem::MissingScheme));
}

#[test]
fn test_url_validation_invalid_format() {
    let result = Url::parse("jenkins.example.com");
    assert!(result.is_err());
    assert!(validate_host_url("jenkins.example.com").is_err());
}

#[test]
fn test_url_validation_missing_protocol() {
    let result = Url::parse("jenkins.example.com");
    assert!(result.is_err());
    assert_eq!(validate_host_url("jenkins.example.com"), Err(UrlProblem::MissingScheme));
}

#[test]
fn test_url_validation_no_host() {
    let result = Url::parse("http:loc");
    assert!(result.is_ok());
    let url = result.unwrap();
    assert_eq!(url.scheme(), "http");
    assert!(validate_host_url("http:loc").is_err());

    let result = Url::parse("data:text/plain,hello");
    assert!(result.is_ok());
    let url = result.unwrap();
    assert!(url.host_str().is_none(), "data URL should not have a host");
}

#[test]
fn test_url_validation_with_valid_host() {
    let valid_urls = vec![
        "http://jenkins.example.com",
        "https://jenkins.example.com",
        "http://localhost",
        "https://localhost:8080",
        "http://192.168.1.1",
        "https://192.168.1.1:8080",
    ];

    for url_str in valid_urls {
        let result = Url::parse(url_str);
        assert!(result.is_ok(), "URL '{}' should be valid", url_str);

        let url = result.unwrap();
        assert!(url.host_str().is_some(), "URL '{}' should have a host", url_str);
        assert!(!url.host_str().unwrap().is_empty(), "URL '{}' host should not be empty", url_str);
        assert_eq!(validate_host_url(url_str), Ok(()), "URL '{}' should be valid", url_str);
    }
}

#[test]
fn test_url_validation_scheme_only() {
    let result = Url::parse("http:");
    if let Ok(url) = result {
        assert!(url.host_str().is_none(), "http: should not have a host");
    }
    assert!(validate_host_url("http:").is_err());
}

#[test]
fn test_empty_string_validation() {
    let input = "";
    assert!(input.trim().is_empty());
    assert!(is_blank(input));
}

#[test]
fn test_whitespace_string_validation() {
    let input = "   ";
    assert!(input.trim().is_empty());
    assert!(is_blank(input));
}

#[test]
fn test_valid_string_validation() {
    let input = "valid-name";
    assert!(!input.trim().is_empty());
    assert!(!is_blank(input));
}

#[test]
fn test_string_with_surrounding_whitespace() {
    let input = "  valid-name  ";
    assert!(!input.trim().is_empty());
    assert_eq!(input.trim(), "valid-name");
    assert!(!is_blank(input));
}

#[test]
fn test_malformed_url_detection() {
    let test_cases = vec![
        ("http:loc", false),
        ("http:", false),
        ("https:", false),
        ("http://", false),
        ("https://", false),
        ("http://jenkins.com", true),
        ("https://jenkins.com", true),
        ("ftp://jenkins.com", false),
        ("jenkins.com", false),
    ];

    for (url_str, should_be_valid) in test_cases {
        let is_valid = validate_host_url(url_str).is_ok();
        assert_eq!(is_valid, should_be_valid,
            "URL '{}' validation mismatch: expected {}, got {}",
            url_str, should_be_valid, is_valid);
    }
}

#[test]
fn blank_agrees_with_trim_on_unicode_spaces() {
    for s in ["\t\n\r", "\u{a0}\u{2003}\u{3000}", "\u{85}", " x ", "\u{200b}", "\u{feff}"] {
        assert_eq!(is_blank(s), s.trim().is_empty(), "for {:?}", s);
    }
}

#[test]
fn each_url_problem_has_its_message() {
    assert_eq!(validate_host_url("http://"), Err(UrlProblem::Malformed));
    assert_eq!(UrlProblem::MissingScheme.to_string(), "URL must start with http:// or https://");
    assert_eq!(UrlProblem::Malformed.to_string(), "Invalid URL format");
    assert_eq!(UrlProblem::UnsupportedScheme.to_string(), "URL must use http or https scheme");
    assert_eq!(
        UrlProblem::MissingHost.to_string(),
        "URL must have a valid host (e.g., jenkins.example.com)"
    );
}

#[test]
fn white_space_matches_std_for_every_char() {
    for c in (0u32..=0x10FFFF).filter_map(char::from_u32) {
        let s = c.to_string();
        assert_eq!(is_blank(&s), c.is_whitespace(), "for U+{:04X}", c as u32);
    }
}
