use npack::error::{write_code, BuildError, ErrorKind, ExtractError, ValidationError};

#[test]
fn validation_messages() {
    assert_eq!(ValidationError::MissingSource.message(), "Source is required");
    assert_eq!(
        ValidationError::InvalidPlatform("solaris".to_string()).message(),
        "Invalid platform: solaris. Use: host, all, windows, linux, or macos"
    );
    assert_eq!(
        BuildError::Validation(ValidationError::MissingSource).message(),
        "Source is required"
    );
}

#[test]
fn extract_messages() {
    assert_eq!(ExtractError::InvalidArchive.message(), "Cannot read the archive");
    assert_eq!(
        ExtractError::EntryNotFound("f/bin/node".to_string()).message(),
        "Cannot find f/bin/node in archive"
    );
    assert_eq!(
        ExtractError::Unreadable("f/node.exe".to_string()).message(),
        "Cannot read f/node.exe from archive"
    );
}

#[test]
fn build_error_messages_carry_their_context() {
    assert_eq!(
        BuildError::VersionNotFound("19".to_string()).message(),
        "No Node.js version found for major version: 19"
    );
    assert_eq!(
        BuildError::Fetch { url: "https://x/y.zip".to_string(), status: 404 }.message(),
        "Failed to download Node.js from https://x/y.zip: 404"
    );
    assert_eq!(
        BuildError::Extract(ExtractError::InvalidArchive).message(),
        "Cannot read the archive"
    );
    assert_eq!(BuildError::Stage.message(), "Git clone failed");
    assert_eq!(BuildError::ManifestInvalid("EOF at line 1".to_string()).message(), "EOF at line 1");
    assert_eq!(BuildError::InstallFailed.message(), "npm install failed");
    assert_eq!(
        BuildError::CompileFailed(Some(2)).message(),
        "Babel compilation failed with code: Some(2)"
    );
    assert_eq!(
        BuildError::CompileFailed(None).message(),
        "Babel compilation failed with code: None"
    );
    assert_eq!(
        BuildError::CompileNotStarted("no npm".to_string()).message(),
        "Compile script error: no npm"
    );
    assert_eq!(
        BuildError::BundlerNotFound.message(),
        "Cannot find bundler/index.js. Make sure it's in the bundler/ directory."
    );
    assert_eq!(
        BuildError::BundlerFailed(Some(-1)).message(),
        "Bundling failed with exit code: Some(-1)"
    );
    assert_eq!(
        BuildError::BundleMissing("./dist/bundle.js".to_string()).message(),
        "Bundler completed but bundle.js not found at ./dist/bundle.js"
    );
    assert_eq!(
        BuildError::Sea { stdout: "o".to_string(), stderr: "boom".to_string() }.message(),
        "SEA creation failed: boom"
    );
    assert_eq!(
        BuildError::Inject { stdout: "o".to_string(), stderr: "e".to_string() }.message(),
        "Failed to inject SEA blob.\nstdout: o\nstderr: e"
    );
    assert_eq!(
        BuildError::UnsupportedPlatform("solaris".to_string()).message(),
        "Unsupported platform: solaris"
    );
    assert_eq!(BuildError::Io("disk full".to_string()).message(), "disk full");
    assert_eq!(
        BuildError::Unexpected.message(),
        "The answer does not fit the action that was asked for"
    );
}

#[test]
fn every_error_has_its_family() {
    assert_eq!(BuildError::Validation(ValidationError::MissingSource).kind(), ErrorKind::Validation);
    assert_eq!(BuildError::VersionNotFound(String::new()).kind(), ErrorKind::NotFound);
    assert_eq!(BuildError::Fetch { url: String::new(), status: 500 }.kind(), ErrorKind::Fetch);
    assert_eq!(BuildError::Extract(ExtractError::InvalidArchive).kind(), ErrorKind::Extract);
    assert_eq!(BuildError::Stage.kind(), ErrorKind::Stage);
    assert_eq!(BuildError::ManifestInvalid(String::new()).kind(), ErrorKind::Install);
    assert_eq!(BuildError::InstallFailed.kind(), ErrorKind::Install);
    assert_eq!(BuildError::CompileFailed(None).kind(), ErrorKind::Install);
    assert_eq!(BuildError::CompileNotStarted(String::new()).kind(), ErrorKind::Install);
    assert_eq!(BuildError::BundlerNotFound.kind(), ErrorKind::Bundle);
    assert_eq!(BuildError::BundlerFailed(None).kind(), ErrorKind::Bundle);
    assert_eq!(BuildError::BundleMissing(String::new()).kind(), ErrorKind::Bundle);
    assert_eq!(
        BuildError::Sea { stdout: String::new(), stderr: String::new() }.kind(),
        ErrorKind::Sea
    );
    assert_eq!(
        BuildError::Inject { stdout: String::new(), stderr: String::new() }.kind(),
        ErrorKind::Inject
    );
    assert_eq!(
        BuildError::UnsupportedPlatform(String::new()).kind(),
        ErrorKind::UnsupportedPlatform
    );
    assert_eq!(BuildError::Io(String::new()).kind(), ErrorKind::Io);
    assert_eq!(BuildError::Unexpected.kind(), ErrorKind::Protocol);
}

#[test]
fn exit_codes_are_written_like_options() {
    assert_eq!(write_code(Some(0)), "Some(0)");
    assert_eq!(write_code(Some(-15)), "Some(-15)");
    assert_eq!(write_code(None), "None");
}
