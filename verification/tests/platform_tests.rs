use npack::error::{BuildError, ErrorKind};
use npack::platform::{expand_platforms, normalize_os, parse_platform, Platform};

#[test]
fn parse_platform_knows_the_three_platforms_and_the_alias() {
    assert_eq!(parse_platform("linux"), Ok(Platform::Linux));
    assert_eq!(parse_platform("macos"), Ok(Platform::Macos));
    assert_eq!(parse_platform("darwin"), Ok(Platform::Macos));
    assert_eq!(parse_platform("windows"), Ok(Platform::Windows));
}

#[test]
fn solaris_is_an_unsupported_platform() {
    let result = parse_platform("solaris");
    assert_eq!(result, Err(BuildError::UnsupportedPlatform("solaris".to_string())));
    assert_eq!(result.unwrap_err().kind(), ErrorKind::UnsupportedPlatform);
}

#[test]
fn all_and_host_are_no_platforms_themselves() {
    assert_eq!(parse_platform("all"), Err(BuildError::UnsupportedPlatform("all".to_string())));
    assert_eq!(parse_platform("host"), Err(BuildError::UnsupportedPlatform("host".to_string())));
    assert_eq!(parse_platform(""), Err(BuildError::UnsupportedPlatform(String::new())));
    assert_eq!(parse_platform("Linux"), Err(BuildError::UnsupportedPlatform("Linux".to_string())));
}

#[test]
fn platform_table_is_fixed() {
    assert_eq!(Platform::Linux.public_name(), "linux");
    assert_eq!(Platform::Macos.public_name(), "macos");
    assert_eq!(Platform::Windows.public_name(), "windows");
    assert_eq!(Platform::Linux.node_arch(), "linux-x64");
    assert_eq!(Platform::Macos.node_arch(), "darwin-x64");
    assert_eq!(Platform::Windows.node_arch(), "win-x64");
    assert_eq!(Platform::Linux.artifact_name(), "app-linux");
    assert_eq!(Platform::Macos.artifact_name(), "app-macos");
    assert_eq!(Platform::Windows.artifact_name(), "app-windows.exe");
    assert!(!Platform::Linux.needs_codesign());
    assert!(Platform::Macos.needs_codesign());
    assert!(!Platform::Windows.needs_codesign());
}

#[test]
fn all_expands_to_the_three_platforms() {
    let expected = vec!["linux".to_string(), "macos".to_string(), "windows".to_string()];
    assert_eq!(expand_platforms("all", "linux"), expected);
    assert_eq!(expand_platforms("all", "windows"), expected);
    assert_eq!(expand_platforms("all", "freebsd"), expected);
}

#[test]
fn all_builds_the_union_of_the_three_single_requests() {
    let mut union: Vec<&'static str> = Vec::new();
    for single in ["linux", "macos", "windows"] {
        for name in expand_platforms(single, "linux") {
            union.push(parse_platform(&name).unwrap().artifact_name());
        }
    }
    let all: Vec<&'static str> = expand_platforms("all", "linux")
        .iter()
        .map(|name| parse_platform(name).unwrap().artifact_name())
        .collect();
    assert_eq!(all, union);
    assert_eq!(all, vec!["app-linux", "app-macos", "app-windows.exe"]);
}

#[test]
fn host_expands_to_the_running_system_alone() {
    assert_eq!(expand_platforms("host", "linux"), vec!["linux".to_string()]);
    assert_eq!(expand_platforms("host", "windows"), vec!["windows".to_string()]);
    assert_eq!(expand_platforms("host", "macos"), vec!["macos".to_string()]);
    assert_eq!(expand_platforms("host", "freebsd"), vec!["freebsd".to_string()]);
}

#[test]
fn host_on_darwin_is_macos() {
    assert_eq!(expand_platforms("host", "darwin"), vec!["macos".to_string()]);
    assert_eq!(normalize_os("darwin"), "macos");
    assert_eq!(normalize_os("linux"), "linux");
}

#[test]
fn a_named_platform_expands_to_itself() {
    assert_eq!(expand_platforms("windows", "linux"), vec!["windows".to_string()]);
    assert_eq!(expand_platforms("solaris", "linux"), vec!["solaris".to_string()]);
}
