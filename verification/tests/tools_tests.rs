use npack::bundle::{bundle_command, bundler_candidates, choose_bundler, Candidate};
use npack::command::{push_arg, ToolCommand};
use npack::keygen::{generate_encryption_key, key_from_digest, seed_text};
use npack::layout::{
    bundle_path, child_path, clone_dir_path, manifest_path, node_binary_path, sea_blob_path,
    sea_config_path, transient_paths,
};
use npack::platform::Platform;
use npack::sea::{
    blob_command, inject_command, is_executable, sentinel_fuse_name, sign_command, unsign_command,
    Artifact, SeaConfig,
};
use npack::source::{clone_command, is_remote_source};

fn names(list: &[&str]) -> Vec<String> {
    list.iter().map(|n| n.to_string()).collect()
}

fn plain(program: &str, args: &[&str]) -> ToolCommand {
    ToolCommand { program: program.to_string(), args: names(args), dir: None, env: vec![] }
}

#[test]
fn paths_lie_in_the_output_directory() {
    assert_eq!(child_path("./dist", "x"), "./dist/x");
    assert_eq!(node_binary_path("./dist"), "./dist/node-binary");
    assert_eq!(bundle_path("./dist"), "./dist/bundle.js");
    assert_eq!(sea_config_path("./dist"), "./dist/sea-config.json");
    assert_eq!(sea_blob_path("./dist"), "./dist/sea-prep.blob");
    assert_eq!(clone_dir_path("./dist"), "./dist/temp_clone");
    assert_eq!(manifest_path("./app"), "./app/package.json");
}

#[test]
fn transient_paths_name_what_a_build_leaves_beside_the_executables() {
    assert_eq!(
        transient_paths("out"),
        names(&[
            "out/node-binary",
            "out/sea-config.json",
            "out/sea-prep.blob",
            "out/bundle.js",
            "out/temp_clone",
        ])
    );
}

#[test]
fn push_arg_appends() {
    let mut args = names(&["a"]);
    push_arg(&mut args, "b");
    assert_eq!(args, names(&["a", "b"]));
}

#[test]
fn remote_sources_are_recognised_by_their_beginning() {
    assert!(is_remote_source("https://github.com/user/repo.git"));
    assert!(is_remote_source("http://example.com/repo"));
    assert!(is_remote_source("git@github.com:user/repo.git"));
    assert!(!is_remote_source("./app"));
    assert!(!is_remote_source("/home/user/app"));
    assert!(!is_remote_source("ssh://git@host/repo"));
    assert!(!is_remote_source(""));
}

#[test]
fn clone_is_shallow() {
    assert_eq!(
        clone_command("https://example.com/r.git", "./dist/temp_clone"),
        plain("git", &["clone", "--depth", "1", "https://example.com/r.git", "./dist/temp_clone"])
    );
}

fn candidate(path: &str, canonical: bool) -> Candidate {
    Candidate { path: path.to_string(), canonical }
}

#[test]
fn bundler_is_searched_in_a_fixed_order() {
    assert_eq!(
        bundler_candidates("/opt/npack", &Some("/usr/local/bin".to_string())),
        vec![
            candidate("/opt/npack/bundler/index.js", false),
            candidate("/usr/local/bin/../bundler/index.js", true),
            candidate("bundler/index.js", true),
            candidate("./bundler/index.js", true),
        ]
    );
    assert_eq!(
        bundler_candidates("/opt/npack", &None),
        vec![
            candidate("/opt/npack/bundler/index.js", false),
            candidate("bundler/index.js", true),
            candidate("./bundler/index.js", true),
        ]
    );
}

#[test]
fn the_first_bundler_found_wins() {
    let probed = vec![None, Some("second".to_string()), Some("third".to_string())];
    assert_eq!(choose_bundler(&probed), Some("second".to_string()));
    assert_eq!(choose_bundler(&vec![None, None]), None);
    assert_eq!(choose_bundler(&vec![]), None);
}

#[test]
fn bundle_command_passes_the_entry_when_given() {
    assert_eq!(
        bundle_command("node", "b/index.js", "./app", "./dist", &None),
        plain("node", &["b/index.js", "./app", "./dist"])
    );
    assert_eq!(
        bundle_command("node", "b/index.js", "./app", "./dist", &Some("src/main.js".to_string())),
        plain("node", &["b/index.js", "./app", "./dist", "--entry", "src/main.js"])
    );
}

#[test]
fn sea_config_pairs_the_bundle_with_the_blob() {
    assert_eq!(
        SeaConfig::new("./dist/bundle.js", "./dist/sea-prep.blob"),
        SeaConfig {
            main: "./dist/bundle.js".to_string(),
            output: "./dist/sea-prep.blob".to_string(),
            disable_experimental_sea_warning: true,
        }
    );
}

#[test]
fn blob_command_runs_the_runtime_on_the_descriptor() {
    assert_eq!(
        blob_command("./dist/node-binary", "./dist/sea-config.json"),
        plain("./dist/node-binary", &["--experimental-sea-config", "./dist/sea-config.json"])
    );
}

#[test]
fn inject_command_uses_the_sentinel_fuse() {
    assert_eq!(sentinel_fuse_name(), "NODE_SEA_FUSE_fce680ab2cc467b6e072b8b5df1996b2");
    assert_eq!(
        inject_command("d/app-linux", "d/sea-prep.blob", Platform::Linux, false),
        plain(
            "npx",
            &[
                "postject",
                "d/app-linux",
                "NODE_SEA_BLOB",
                "d/sea-prep.blob",
                "--sentinel-fuse",
                "NODE_SEA_FUSE_fce680ab2cc467b6e072b8b5df1996b2",
            ]
        )
    );
    assert_eq!(
        inject_command("d/app-windows.exe", "d/sea-prep.blob", Platform::Windows, true),
        plain(
            "npx.cmd",
            &[
                "postject",
                "d/app-windows.exe",
                "NODE_SEA_BLOB",
                "d/sea-prep.blob",
                "--sentinel-fuse",
                "NODE_SEA_FUSE_fce680ab2cc467b6e072b8b5df1996b2",
            ]
        )
    );
}

#[test]
fn inject_command_names_the_segment_for_macos() {
    assert_eq!(
        inject_command("d/app-macos", "d/sea-prep.blob", Platform::Macos, false),
        plain(
            "npx",
            &[
                "postject",
                "d/app-macos",
                "NODE_SEA_BLOB",
                "d/sea-prep.blob",
                "--sentinel-fuse",
                "NODE_SEA_FUSE_fce680ab2cc467b6e072b8b5df1996b2",
                "--macho-segment-name",
                "NODE_SEA",
            ]
        )
    );
}

#[test]
fn signing_commands() {
    assert_eq!(
        unsign_command("d/app-macos"),
        plain("codesign", &["--remove-signature", "d/app-macos"])
    );
    assert_eq!(sign_command("d/app-macos"), plain("codesign", &["--sign", "-", "d/app-macos"]));
}

#[test]
fn artifacts_are_named_after_their_platform() {
    assert_eq!(
        Artifact::new(Platform::Windows, "./dist", 42),
        Artifact {
            platform: Platform::Windows,
            path: "./dist/app-windows.exe".to_string(),
            size_bytes: 42,
        }
    );
    assert!(is_executable("app-linux"));
    assert!(is_executable("app-windows.exe"));
    assert!(!is_executable("node-binary"));
    assert!(!is_executable("bundle.js"));
    assert!(!is_executable("app"));
}

#[test]
fn encryption_key_is_the_digest_twice() {
    assert_eq!(seed_text(1700000000000000000, 4242), "17000000000000000004242");
    assert_eq!(key_from_digest("ab"), "abab");
    let key = generate_encryption_key(0, 0);
    // The seed is "00", whose MD5 digest is well known.
    assert_eq!(key, "b4b147bc522828731f1a016bfa72c073b4b147bc522828731f1a016bfa72c073");
    assert_ne!(generate_encryption_key(0, 1), key);
    assert_eq!(generate_encryption_key(12, 34).len(), 64);
}
