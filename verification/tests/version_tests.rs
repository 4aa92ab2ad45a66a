use npack::error::{BuildError, ErrorKind};
use npack::version::{
    needs_version_index, resolve_node_version, strip_version_prefix, version_answers,
    version_index_url,
};

fn index(names: &[&str]) -> Vec<String> {
    names.iter().map(|n| n.to_string()).collect()
}

#[test]
fn a_full_version_is_returned_unchanged() {
    assert_eq!(resolve_node_version("20.19.6", &index(&[])), Ok("20.19.6".to_string()));
    assert_eq!(
        resolve_node_version("20.19.6", &index(&["v21.0.0", "v20.19.7"])),
        Ok("20.19.6".to_string())
    );
}

#[test]
fn a_full_version_needs_no_index() {
    assert!(!needs_version_index("20.19.6"));
    assert!(!needs_version_index("24.12.0"));
    assert!(!needs_version_index("1.2.3.4"));
    assert!(needs_version_index("20"));
    assert!(needs_version_index("20.19"));
    assert!(needs_version_index(""));
}

#[test]
fn a_major_version_resolves_to_the_topmost_match() {
    let feed = index(&["v21.0.0", "v20.19.6", "v20.10.0"]);
    assert_eq!(resolve_node_version("20", &feed), Ok("20.19.6".to_string()));
}

#[test]
fn a_minor_version_resolves_to_the_topmost_match() {
    let feed = index(&["v21.0.0", "v20.19.6", "v20.10.1", "v20.10.0"]);
    assert_eq!(resolve_node_version("20.10", &feed), Ok("20.10.1".to_string()));
}

#[test]
fn the_feed_order_decides_not_the_numbers() {
    let feed = index(&["v20.1.0", "v20.19.6"]);
    assert_eq!(resolve_node_version("20", &feed), Ok("20.1.0".to_string()));
}

#[test]
fn a_request_matches_whole_components_only() {
    let feed = index(&["v20.19.6", "v2.0.0"]);
    assert_eq!(resolve_node_version("2", &feed), Ok("2.0.0".to_string()));
    assert!(!version_answers("v20.19.6", "2"));
    assert!(version_answers("v20.19.6", "20"));
    assert!(version_answers("v20.19.6", "20.19"));
    assert!(!version_answers("v20.19.6", "20.1"));
}

#[test]
fn a_published_version_equal_to_the_request_answers_it() {
    assert!(version_answers("v20", "20"));
    assert!(version_answers("20", "20"));
    assert_eq!(resolve_node_version("20", &index(&["v20"])), Ok("20".to_string()));
}

#[test]
fn only_one_leading_v_is_stripped() {
    assert_eq!(strip_version_prefix("v20.19.6"), "20.19.6");
    assert_eq!(strip_version_prefix("20.19.6"), "20.19.6");
    assert_eq!(strip_version_prefix("vv1"), "v1");
    assert_eq!(strip_version_prefix(""), "");
    assert_eq!(strip_version_prefix("v"), "");
}

#[test]
fn no_match_is_a_not_found_error() {
    let feed = index(&["v21.0.0", "v20.19.6"]);
    let result = resolve_node_version("19", &feed);
    assert_eq!(result, Err(BuildError::VersionNotFound("19".to_string())));
    assert_eq!(result.unwrap_err().kind(), ErrorKind::NotFound);
    assert_eq!(
        resolve_node_version("20", &index(&[])),
        Err(BuildError::VersionNotFound("20".to_string()))
    );
}

#[test]
fn the_index_is_read_from_the_distribution_site() {
    assert_eq!(version_index_url(), "https://nodejs.org/dist/index.json");
}
