use batch_analyzer::filename::{filename_from_digest, url_to_filename};

#[test]
fn test_url_to_filename_basic() {
    let url = "https://www.google.com";
    let result = url_to_filename(url, "test");
    assert!(result.starts_with("test_"));
    assert!(result.ends_with(".html"));
    assert_eq!(result.len(), "test_".len() + 12 + ".html".len());

    let result2 = url_to_filename(url, "test");
    assert_eq!(result, result2);
}

#[test]
fn test_url_to_filename_with_path() {
    let url = "https://www.example.com/path/to/page";
    let result = url_to_filename(url, "report");
    assert!(result.starts_with("report_"));
    assert!(result.ends_with(".html"));
    assert_eq!(result.len(), "report_".len() + 12 + ".html".len());

    let result2 = url_to_filename(url, "report");
    assert_eq!(result, result2);
}

#[test]
fn test_url_to_filename_with_query_params() {
    let url = "https://www.google.com/search?q=rust&hl=en";
    let result = url_to_filename(url, "test");
    assert!(result.starts_with("test_"));
    assert!(result.ends_with(".html"));
    assert_eq!(result.len(), "test_".len() + 12 + ".html".len());
}

#[test]
fn test_url_to_filename_http_protocol() {
    let url = "http://example.com/test";
    let result = url_to_filename(url, "myprefix");
    assert!(result.starts_with("myprefix_"));
    assert!(result.ends_with(".html"));
    assert_eq!(result.len(), "myprefix_".len() + 12 + ".html".len());
}

#[test]
fn test_url_to_filename_special_characters() {
    let url = "https://example.com/path/with-special@chars#fragment";
    let result = url_to_filename(url, "test");
    assert!(result.starts_with("test_"));
    assert!(result.ends_with(".html"));
    assert_eq!(result.len(), "test_".len() + 12 + ".html".len());
}

#[test]
fn test_url_to_filename_long_url_truncation() {
    let long_path = "a".repeat(120);
    let url = format!("https://example.com/{}", long_path);
    let result = url_to_filename(&url, "test");
    assert!(result.starts_with("test_"));
    assert!(result.ends_with(".html"));
    assert_eq!(result.len(), "test_".len() + 12 + ".html".len());
}

#[test]
fn test_url_to_filename_preserves_allowed_chars() {
    let url = "https://sub-domain.example-site.com/path-with-dashes";
    let result = url_to_filename(url, "report");
    assert!(result.starts_with("report_"));
    assert!(result.ends_with(".html"));
    assert_eq!(result.len(), "report_".len() + 12 + ".html".len());
}

#[test]
fn test_url_to_filename_edge_cases() {
    let url1 = "https://";
    let result1 = url_to_filename(url1, "test");
    assert!(result1.starts_with("test_"));
    assert!(result1.ends_with(".html"));
    assert_eq!(result1.len(), "test_".len() + 12 + ".html".len());

    let url2 = "https://a.com";
    let result2 = url_to_filename(url2, "test");
    assert!(result2.starts_with("test_"));
    assert!(result2.ends_with(".html"));
    assert_eq!(result2.len(), "test_".len() + 12 + ".html".len());

    let url3 = "https://example123.com/path456";
    let result3 = url_to_filename(url3, "test");
    assert!(result3.starts_with("test_"));
    assert!(result3.ends_with(".html"));
    assert_eq!(result3.len(), "test_".len() + 12 + ".html".len());

    assert_ne!(result1, result2);
    assert_ne!(result2, result3);
    assert_ne!(result1, result3);
}

#[test]
fn test_url_to_filename_unicode_characters() {
    let url = "https://example.com/café/naïve";
    let result = url_to_filename(url, "test");
    assert!(result.starts_with("test_"));
    assert!(result.ends_with(".html"));
    assert_eq!(result.len(), "test_".len() + 12 + ".html".len());
}

#[test]
fn test_url_to_filename_multiple_consecutive_special_chars() {
    let url = "https://example.com/path///with&&multiple@@special##chars";
    let result = url_to_filename(url, "test");
    assert!(result.starts_with("test_"));
    assert!(result.ends_with(".html"));
    assert_eq!(result.len(), "test_".len() + 12 + ".html".len());
}

#[test]
fn test_url_to_filename_hash_uniqueness() {
    let url1 = "https://example.com/page1";
    let url2 = "https://example.com/page2";
    let result1 = url_to_filename(url1, "test");
    let result2 = url_to_filename(url2, "test");
    assert_ne!(result1, result2);

    let result1_again = url_to_filename(url1, "test");
    assert_eq!(result1, result1_again);
}

#[test]
fn filename_exact_values() {
    assert_eq!(url_to_filename("https://www.google.com", "test"), "test_ac6bb669e40e.html");
    assert_eq!(
        url_to_filename("https://www.example.com/path/to/page", "report"),
        "report_82e58d667b9b.html"
    );
    assert_eq!(url_to_filename("https://", "test"), "test_66dfeeedabf1.html");
    assert_eq!(url_to_filename("https://example.com/café/naïve", "x"), "x_6382ceae0e64.html");
}

#[test]
fn filename_with_empty_prefix() {
    assert_eq!(url_to_filename("https://example.com", ""), "_100680ad546c.html");
}

#[test]
fn filename_from_digest_uses_first_six_bytes() {
    let mut digest = vec![0xba, 0x78, 0x16, 0xbf, 0x8f, 0x01];
    digest.extend_from_slice(&[0xff; 26]);
    assert_eq!(filename_from_digest(&digest, "p"), "p_ba7816bf8f01.html");
    assert_eq!(filename_from_digest(&[0, 1, 2, 10, 15, 16], "r"), "r_0001020a0f10.html");
}

#[test]
fn filenames_of_a_sample_are_pairwise_distinct() {
    let mut names: Vec<String> = Vec::new();
    for i in 0..200 {
        names.push(url_to_filename(&format!("https://example.com/page{}", i), "test"));
    }
    for i in 0..names.len() {
        for j in (i + 1)..names.len() {
            assert_ne!(names[i], names[j]);
        }
    }
}

#[test]
fn filename_has_only_safe_characters() {
    let name = url_to_filename("https://example.com/a/b?c=d#e", "report");
    assert!(name.chars().all(|c| c.is_ascii_alphanumeric() || c == '_' || c == '.'));
    assert!(!name.contains('/'));
}
