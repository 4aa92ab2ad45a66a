use npack::command::ToolCommand;
use npack::install::{
    compile_command, display_value, install_command, lists, manifest_of, npm_name,
    postinstall_command, read_manifest, PackageManifest,
};

fn names(list: &[&str]) -> Vec<String> {
    list.iter().map(|n| n.to_string()).collect()
}

fn pair(name: &str, value: &str) -> (String, String) {
    (name.to_string(), value.to_string())
}

#[test]
fn read_manifest_lists_dev_dependencies_and_scripts() {
    let text = r#"{
        "name": "app",
        "version": "1.0.0",
        "scripts": { "compile": "babel src -d lib", "start": "node lib" },
        "dependencies": { "express": "^4" },
        "devDependencies": { "@babel/core": "^7", "jest": "^29" }
    }"#;
    let manifest = read_manifest(text).unwrap();
    let mut dev = manifest.dev_dependencies.clone();
    dev.sort();
    assert_eq!(dev, names(&["@babel/core", "jest"]));
    let mut scripts = manifest.scripts.clone();
    scripts.sort();
    assert_eq!(scripts, names(&["compile", "start"]));
    assert!(manifest.has_compile_tooling());
    assert!(manifest.has_compile_script());
}

#[test]
fn read_manifest_without_the_members_lists_nothing() {
    let manifest = read_manifest(r#"{"name": "app"}"#).unwrap();
    assert_eq!(manifest, PackageManifest { dev_dependencies: vec![], scripts: vec![] });
    assert!(!manifest.has_compile_tooling());
    assert!(!manifest.has_compile_script());
}

#[test]
fn read_manifest_ignores_members_that_are_no_objects() {
    let text = r#"{"devDependencies": ["@babel/core"], "scripts": "compile"}"#;
    let manifest = read_manifest(text).unwrap();
    assert_eq!(manifest, PackageManifest { dev_dependencies: vec![], scripts: vec![] });
    let array = read_manifest(r#"["scripts", "devDependencies"]"#).unwrap();
    assert_eq!(array, PackageManifest { dev_dependencies: vec![], scripts: vec![] });
}

#[test]
fn read_manifest_refuses_text_that_is_no_json() {
    assert!(read_manifest("{ not json").is_err());
    assert!(read_manifest("").is_err());
    let message = read_manifest("{ not json").unwrap_err();
    assert!(!message.is_empty());
}

#[test]
fn manifest_of_passes_the_first_error_on() {
    assert_eq!(manifest_of(Err("bad".to_string()), Ok(None)), Err("bad".to_string()));
    assert_eq!(manifest_of(Ok(None), Err("worse".to_string())), Err("worse".to_string()));
    assert_eq!(
        manifest_of(Err("first".to_string()), Err("second".to_string())),
        Err("first".to_string())
    );
    assert_eq!(
        manifest_of(Ok(Some(names(&["a"]))), Ok(None)),
        Ok(PackageManifest { dev_dependencies: names(&["a"]), scripts: vec![] })
    );
}

#[test]
fn compile_tooling_is_any_of_the_three_compiler_packages() {
    for package in ["@babel/core", "@babel/cli", "babel-cli"] {
        let manifest =
            PackageManifest { dev_dependencies: names(&["jest", package]), scripts: vec![] };
        assert!(manifest.has_compile_tooling());
    }
    let other = PackageManifest {
        dev_dependencies: names(&["jest", "babel-core", "@babel/preset-env"]),
        scripts: names(&["@babel/core"]),
    };
    assert!(!other.has_compile_tooling());
}

#[test]
fn compile_script_is_the_script_named_compile() {
    let with = PackageManifest { dev_dependencies: vec![], scripts: names(&["build", "compile"]) };
    assert!(with.has_compile_script());
    let without = PackageManifest {
        dev_dependencies: names(&["compile"]),
        scripts: names(&["build", "precompile"]),
    };
    assert!(!without.has_compile_script());
}

#[test]
fn lists_compares_whole_names() {
    let list = names(&["alpha", "beta"]);
    assert!(lists(&list, "beta"));
    assert!(!lists(&list, "bet"));
    assert!(!lists(&Vec::new(), "alpha"));
}

#[test]
fn install_without_tooling_omits_dev_dependencies() {
    assert_eq!(
        install_command("./app", false, false),
        ToolCommand {
            program: "npm".to_string(),
            args: names(&["install", "--ignore-scripts", "--omit=dev"]),
            dir: Some("./app".to_string()),
            env: vec![],
        }
    );
}

#[test]
fn install_with_tooling_includes_dev_dependencies() {
    assert_eq!(
        install_command("./app", true, false),
        ToolCommand {
            program: "npm".to_string(),
            args: names(&["install", "--ignore-scripts"]),
            dir: Some("./app".to_string()),
            env: vec![],
        }
    );
}

#[test]
fn the_package_manager_has_another_name_on_windows() {
    assert_eq!(npm_name(false), "npm");
    assert_eq!(npm_name(true), "npm.cmd");
    assert_eq!(install_command("app", true, true).program, "npm.cmd");
    assert_eq!(compile_command("app", true).program, "npm.cmd");
    assert_eq!(postinstall_command("app", &vec![], true).program, "npm.cmd");
}

#[test]
fn compile_runs_the_compile_script() {
    assert_eq!(
        compile_command("dist/temp_clone", false),
        ToolCommand {
            program: "npm".to_string(),
            args: names(&["run", "compile"]),
            dir: Some("dist/temp_clone".to_string()),
            env: vec![],
        }
    );
}

#[test]
fn postinstall_carries_every_variable_with_its_true_value() {
    let env = vec![pair("MODE", "prod"), pair("PACKAGES_STORAGE_S3_SECRET", "hunter2")];
    assert_eq!(
        postinstall_command("./app", &env, false),
        ToolCommand {
            program: "npm".to_string(),
            args: names(&["run", "postinstall"]),
            dir: Some("./app".to_string()),
            env: env.clone(),
        }
    );
}

#[test]
fn display_value_masks_secrets_only() {
    assert_eq!(display_value("PACKAGES_STORAGE_S3_SECRET", "hunter2"), "***");
    assert_eq!(display_value("MY_SECRET_TOKEN", "x"), "***");
    assert_eq!(display_value("PACKAGES_STORAGE_S3_KEY", "key123"), "key123");
    assert_eq!(display_value("secret", "lowercase is shown"), "lowercase is shown");
    assert_eq!(display_value("DB_CONNECTION_STRING", "postgres://"), "postgres://");
}
