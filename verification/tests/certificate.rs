use pragmalink::behavior::{agent_version, AGENT_VERSION, UNCERTIFIED};
use pragmalink::types::extract_certificate_from_agent_version;

#[test]
fn fourth_segment_is_the_certificate() {
    assert_eq!(
        extract_certificate_from_agent_version("app/1.0/extra/CERT123"),
        Some("CERT123".to_string())
    );
}

#[test]
fn two_segments_carry_no_certificate() {
    assert_eq!(extract_certificate_from_agent_version("app/1.0"), None);
}

#[test]
fn three_segments_carry_no_certificate() {
    assert_eq!(extract_certificate_from_agent_version("app/1.0/extra"), None);
}

#[test]
fn empty_agent_string_carries_no_certificate() {
    assert_eq!(extract_certificate_from_agent_version(""), None);
}

#[test]
fn empty_fourth_segment_is_an_empty_certificate() {
    assert_eq!(extract_certificate_from_agent_version("app/1.0/extra/"), Some(String::new()));
    assert_eq!(extract_certificate_from_agent_version("///"), Some(String::new()));
}

#[test]
fn certificate_ends_at_the_next_slash() {
    assert_eq!(
        extract_certificate_from_agent_version("app/1.0/extra/CERT/more/parts"),
        Some("CERT".to_string())
    );
}

#[test]
fn leading_slash_counts_as_an_empty_first_segment() {
    assert_eq!(
        extract_certificate_from_agent_version("/pragma-node/0.1.0/abc"),
        Some("abc".to_string())
    );
    assert_eq!(extract_certificate_from_agent_version("/pragma-node/0.1.0"), None);
}

#[test]
fn certificate_may_hold_characters_of_several_bytes() {
    assert_eq!(
        extract_certificate_from_agent_version("né/ü1/日本/çert✓/x"),
        Some("çert✓".to_string())
    );
}

#[test]
fn extraction_agrees_with_split() {
    let samples = [
        "", "/", "//", "///", "////", "a", "a/b", "a/b/c", "a/b/c/d", "a/b/c/d/", "a//c/d/e",
        "/a/b/c", "/a/b/c/", "abc/def/ghi/jkl/mno", "x/y/z//",
    ];
    for sample in samples {
        let expected = sample.split('/').nth(3).map(|s| s.to_string());
        assert_eq!(extract_certificate_from_agent_version(sample), expected);
    }
}

#[test]
fn agent_version_with_certificate() {
    assert_eq!(agent_version(Some("CERT123".to_string())), "/pragma-node/0.1.0/CERT123");
}

#[test]
fn agent_version_without_certificate() {
    assert_eq!(agent_version(None), "/pragma-node/0.1.0/uncertified");
    assert_eq!(agent_version(None), format!("{}/{}", AGENT_VERSION, UNCERTIFIED));
}

#[test]
fn certificate_is_read_back_from_the_agent_version() {
    let text = agent_version(Some("CERT123".to_string()));
    assert_eq!(extract_certificate_from_agent_version(&text), Some("CERT123".to_string()));
    let text = agent_version(None);
    assert_eq!(extract_certificate_from_agent_version(&text), Some("uncertified".to_string()));
    let text = agent_version(Some("ab/cd".to_string()));
    assert_eq!(extract_certificate_from_agent_version(&text), Some("ab".to_string()));
}
