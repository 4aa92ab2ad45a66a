//! The ways a build can fail.

use crate::text::{decimal, decimal_of, join2, join3, signed_decimal, signed_decimal_of};
use vstd::prelude::*;

verus! {

/// Why a merged configuration was refused.
#[derive(Clone, Debug, PartialEq, Eq)]
pub enum ValidationError {
    /// No source was given by any input.
    MissingSource,
    /// The platform is none of the accepted names; it is carried along.
    InvalidPlatform(String),
}

/// A `ValidationError` as plain sequences.
pub enum ValidationErrorModel {
    MissingSource,
    InvalidPlatform(Seq<char>),
}

impl View for ValidationError {
    type V = ValidationErrorModel;

    open spec fn view(&self) -> ValidationErrorModel {
        match *self {
            ValidationError::MissingSource => ValidationErrorModel::MissingSource,
            ValidationError::InvalidPlatform(name) => ValidationErrorModel::InvalidPlatform(name@),
        }
    }
}

/// Why the runtime binary could not be taken out of an archive.
#[derive(Clone, Debug, PartialEq, Eq)]
pub enum ExtractError {
    /// The bytes are not an archive of the expected kind.
    InvalidArchive,
    /// The archive holds no entry of the wanted name, which is carried along.
    EntryNotFound(String),
    /// The entry was found and its contents could not be read.
    Unreadable(String),
}

/// An `ExtractError` as plain sequences.
pub enum ExtractErrorModel {
    InvalidArchive,
    EntryNotFound(Seq<char>),
    Unreadable(Seq<char>),
}

impl View for ExtractError {
    type V = ExtractErrorModel;

    open spec fn view(&self) -> ExtractErrorModel {
        match *self {
            ExtractError::InvalidArchive => ExtractErrorModel::InvalidArchive,
            ExtractError::EntryNotFound(name) => ExtractErrorModel::EntryNotFound(name@),
            ExtractError::Unreadable(name) => ExtractErrorModel::Unreadable(name@),
        }
    }
}

/// A fatal failure of a build. Every variant ends the build.
#[derive(Clone, Debug, PartialEq, Eq)]
pub enum BuildError {
    /// The request was refused before any stage ran.
    Validation(ValidationError),
    /// No published runtime version matches the requested one.
    VersionNotFound(String),
    /// The archive endpoint answered `url` with a status that is no success.
    Fetch { url: String, status: u16 },
    /// The downloaded archive did not yield the runtime binary.
    Extract(ExtractError),
    /// The source repository could not be cloned.
    Stage,
    /// The package manifest is not well-formed; the parser's words are carried along.
    ManifestInvalid(String),
    /// The dependency installation reported failure.
    InstallFailed,
    /// The compile script reported failure, with its exit code if it had one.
    CompileFailed(Option<i32>),
    /// The compile script could not be started.
    CompileNotStarted(String),
    /// The bundler program was found in none of the places searched.
    BundlerNotFound,
    /// The bundler reported failure, with its exit code if it had one.
    BundlerFailed(Option<i32>),
    /// The bundler reported success and left no bundle at the expected path.
    BundleMissing(String),
    /// The blob generator reported failure; both its outputs are carried along.
    Sea { stdout: String, stderr: String },
    /// The injection tool reported failure; both its outputs are carried along.
    Inject { stdout: String, stderr: String },
    /// The named platform has no runtime architecture.
    UnsupportedPlatform(String),
    /// A step outside the library's reach failed; the platform's words are carried along.
    Io(String),
    /// The event handed in does not answer the action that was asked for.
    Unexpected,
}

/// A `BuildError` as plain sequences.
pub enum BuildErrorModel {
    Validation(ValidationErrorModel),
    VersionNotFound(Seq<char>),
    Fetch { url: Seq<char>, status: u16 },
    Extract(ExtractErrorModel),
    Stage,
    ManifestInvalid(Seq<char>),
    InstallFailed,
    CompileFailed(Option<i32>),
    CompileNotStarted(Seq<char>),
    BundlerNotFound,
    BundlerFailed(Option<i32>),
    BundleMissing(Seq<char>),
    Sea { stdout: Seq<char>, stderr: Seq<char> },
    Inject { stdout: Seq<char>, stderr: Seq<char> },
    UnsupportedPlatform(Seq<char>),
    Io(Seq<char>),
    Unexpected,
}

impl View for BuildError {
    type V = BuildErrorModel;

    open spec fn view(&self) -> BuildErrorModel {
        match *self {
            BuildError::Validation(e) => BuildErrorModel::Validation(e@),
            BuildError::VersionNotFound(v) => BuildErrorModel::VersionNotFound(v@),
            BuildError::Fetch { url, status } => BuildErrorModel::Fetch { url: url@, status },
            BuildError::Extract(e) => BuildErrorModel::Extract(e@),
            BuildError::Stage => BuildErrorModel::Stage,
            BuildError::ManifestInvalid(t) => BuildErrorModel::ManifestInvalid(t@),
            BuildError::InstallFailed => BuildErrorModel::InstallFailed,
            BuildError::CompileFailed(c) => BuildErrorModel::CompileFailed(c),
            BuildError::CompileNotStarted(t) => BuildErrorModel::CompileNotStarted(t@),
            BuildError::BundlerNotFound => BuildErrorModel::BundlerNotFound,
            BuildError::BundlerFailed(c) => BuildErrorModel::BundlerFailed(c),
            BuildError::BundleMissing(p) => BuildErrorModel::BundleMissing(p@),
            BuildError::Sea { stdout, stderr } => BuildErrorModel::Sea {
                stdout: stdout@,
                stderr: stderr@,
            },
            BuildError::Inject { stdout, stderr } => BuildErrorModel::Inject {
                stdout: stdout@,
                stderr: stderr@,
            },
            BuildError::UnsupportedPlatform(p) => BuildErrorModel::UnsupportedPlatform(p@),
            BuildError::Io(t) => BuildErrorModel::Io(t@),
            BuildError::Unexpected => BuildErrorModel::Unexpected,
        }
    }
}

/// The families that the failures of a build fall into.
#[derive(Clone, Copy, Debug, PartialEq, Eq, Structural)]
pub enum ErrorKind {
    /// A request field is missing or bad; reported before any stage runs.
    Validation,
    /// No runtime version matches.
    NotFound,
    /// The archive endpoint refused.
    Fetch,
    /// The archive did not yield the binary.
    Extract,
    /// The source could not be acquired.
    Stage,
    /// The dependencies or the compile step failed.
    Install,
    /// The bundler is missing or failed.
    Bundle,
    /// The blob could not be made.
    Sea,
    /// The blob could not be injected.
    Inject,
    /// A platform has no runtime architecture.
    UnsupportedPlatform,
    /// A step outside the library failed.
    Io,
    /// The caller answered another action than the one asked for.
    Protocol,
}

/// The family of an error.
pub open spec fn kind_of_error(e: BuildErrorModel) -> ErrorKind {
    match e {
        BuildErrorModel::Validation(_) => ErrorKind::Validation,
        BuildErrorModel::VersionNotFound(_) => ErrorKind::NotFound,
        BuildErrorModel::Fetch { .. } => ErrorKind::Fetch,
        BuildErrorModel::Extract(_) => ErrorKind::Extract,
        BuildErrorModel::Stage => ErrorKind::Stage,
        BuildErrorModel::ManifestInvalid(_) => ErrorKind::Install,
        BuildErrorModel::InstallFailed => ErrorKind::Install,
        BuildErrorModel::CompileFailed(_) => ErrorKind::Install,
        BuildErrorModel::CompileNotStarted(_) => ErrorKind::Install,
        BuildErrorModel::BundlerNotFound => ErrorKind::Bundle,
        BuildErrorModel::BundlerFailed(_) => ErrorKind::Bundle,
        BuildErrorModel::BundleMissing(_) => ErrorKind::Bundle,
        BuildErrorModel::Sea { .. } => ErrorKind::Sea,
        BuildErrorModel::Inject { .. } => ErrorKind::Inject,
        BuildErrorModel::UnsupportedPlatform(_) => ErrorKind::UnsupportedPlatform,
        BuildErrorModel::Io(_) => ErrorKind::Io,
        BuildErrorModel::Unexpected => ErrorKind::Protocol,
    }
}

/// How an exit code is written: `Some(` code `)`, or `None`.
pub open spec fn code_text(code: Option<i32>) -> Seq<char> {
    match code {
        Some(c) => "Some("@ + signed_decimal_of(c as int) + ")"@,
        None => "None"@,
    }
}

/// What is said of a refused configuration.
pub open spec fn validation_message(e: ValidationErrorModel) -> Seq<char> {
    match e {
        ValidationErrorModel::MissingSource => "Source is required"@,
        ValidationErrorModel::InvalidPlatform(name) => "Invalid platform: "@ + name
            + ". Use: host, all, windows, linux, or macos"@,
    }
}

/// What is said of a failed extraction.
pub open spec fn extract_message(e: ExtractErrorModel) -> Seq<char> {
    match e {
        ExtractErrorModel::InvalidArchive => "Cannot read the archive"@,
        ExtractErrorModel::EntryNotFound(name) => "Cannot find "@ + name + " in archive"@,
        ExtractErrorModel::Unreadable(name) => "Cannot read "@ + name + " from archive"@,
    }
}

/// What is said of a failed build.
pub open spec fn message_of(e: BuildErrorModel) -> Seq<char> {
    match e {
        BuildErrorModel::Validation(v) => validation_message(v),
        BuildErrorModel::VersionNotFound(v) => "No Node.js version found for major version: "@ + v,
        BuildErrorModel::Fetch { url, status } => "Failed to download Node.js from "@ + url + ": "@
            + decimal_of(status as nat),
        BuildErrorModel::Extract(x) => extract_message(x),
        BuildErrorModel::Stage => "Git clone failed"@,
        BuildErrorModel::ManifestInvalid(t) => t,
        BuildErrorModel::InstallFailed => "npm install failed"@,
        BuildErrorModel::CompileFailed(c) => "Babel compilation failed with code: "@ + code_text(c),
        BuildErrorModel::CompileNotStarted(t) => "Compile script error: "@ + t,
        BuildErrorModel::BundlerNotFound =>
            "Cannot find bundler/index.js. Make sure it's in the bundler/ directory."@,
        BuildErrorModel::BundlerFailed(c) => "Bundling failed with exit code: "@ + code_text(c),
        BuildErrorModel::BundleMissing(p) => "Bundler completed but bundle.js not found at "@ + p,
        BuildErrorModel::Sea { stdout, stderr } => "SEA creation failed: "@ + stderr,
        BuildErrorModel::Inject { stdout, stderr } => "Failed to inject SEA blob.\nstdout: "@
            + stdout + "\nstderr: "@ + stderr,
        BuildErrorModel::UnsupportedPlatform(p) => "Unsupported platform: "@ + p,
        BuildErrorModel::Io(t) => t,
        BuildErrorModel::Unexpected => "The answer does not fit the action that was asked for"@,
    }
}

/// Writes an exit code.
pub fn write_code(code: Option<i32>) -> (r: String)
    ensures
        r@ == code_text(code),
{
    match code {
        Some(c) => join3("Some(", signed_decimal(c).as_str(), ")"),
        None => String::from_str("None"),
    }
}

impl ValidationError {
    /// What to tell the user.
    pub fn message(&self) -> (r: String)
        ensures
            r@ == validation_message(self@),
    {
        match self {
            ValidationError::MissingSource => String::from_str("Source is required"),
            ValidationError::InvalidPlatform(name) => join3(
                "Invalid platform: ",
                name.as_str(),
                ". Use: host, all, windows, linux, or macos",
            ),
        }
    }
}

impl ExtractError {
    /// What to tell the user.
    pub fn message(&self) -> (r: String)
        ensures
            r@ == extract_message(self@),
    {
        match self {
            ExtractError::InvalidArchive => String::from_str("Cannot read the archive"),
            ExtractError::EntryNotFound(name) => join3("Cannot find ", name.as_str(), " in archive"),
            ExtractError::Unreadable(name) => join3("Cannot read ", name.as_str(), " from archive"),
        }
    }
}

impl BuildError {
    /// The family of the error.
    pub fn kind(&self) -> (r: ErrorKind)
        ensures
            r == kind_of_error(self@),
    {
        match self {
            BuildError::Validation(_) => ErrorKind::Validation,
            BuildError::VersionNotFound(_) => ErrorKind::NotFound,
            BuildError::Fetch { .. } => ErrorKind::Fetch,
            BuildError::Extract(_) => ErrorKind::Extract,
            BuildError::Stage => ErrorKind::Stage,
            BuildError::ManifestInvalid(_) => ErrorKind::Install,
            BuildError::InstallFailed => ErrorKind::Install,
            BuildError::CompileFailed(_) => ErrorKind::Install,
            BuildError::CompileNotStarted(_) => ErrorKind::Install,
            BuildError::BundlerNotFound => ErrorKind::Bundle,
            BuildError::BundlerFailed(_) => ErrorKind::Bundle,
            BuildError::BundleMissing(_) => ErrorKind::Bundle,
            BuildError::Sea { .. } => ErrorKind::Sea,
            BuildError::Inject { .. } => ErrorKind::Inject,
            BuildError::UnsupportedPlatform(_) => ErrorKind::UnsupportedPlatform,
            BuildError::Io(_) => ErrorKind::Io,
            BuildError::Unexpected => ErrorKind::Protocol,
        }
    }

    /// What to tell the user, with what is needed to find the cause without
    /// running the build again.
    pub fn message(&self) -> (r: String)
        ensures
            r@ == message_of(self@),
    {
        match self {
            BuildError::Validation(v) => v.message(),
            BuildError::VersionNotFound(v) => join2(
                "No Node.js version found for major version: ",
                v.as_str(),
            ),
            BuildError::Fetch { url, status } => {
                let mut r = join3("Failed to download Node.js from ", url.as_str(), ": ");
                let code: u128 = *status as u128;
                r.append(decimal(code).as_str());
                r
            },
            BuildError::Extract(x) => x.message(),
            BuildError::Stage => String::from_str("Git clone failed"),
            BuildError::ManifestInvalid(t) => t.clone(),
            BuildError::InstallFailed => String::from_str("npm install failed"),
            BuildError::CompileFailed(c) => join2(
                "Babel compilation failed with code: ",
                write_code(*c).as_str(),
            ),
            BuildError::CompileNotStarted(t) => join2("Compile script error: ", t.as_str()),
            BuildError::BundlerNotFound => String::from_str(
                "Cannot find bundler/index.js. Make sure it's in the bundler/ directory.",
            ),
            BuildError::BundlerFailed(c) => join2(
                "Bundling failed with exit code: ",
                write_code(*c).as_str(),
            ),
            BuildError::BundleMissing(p) => join2(
                "Bundler completed but bundle.js not found at ",
                p.as_str(),
            ),
            BuildError::Sea { stdout, stderr } => join2("SEA creation failed: ", stderr.as_str()),
            BuildError::Inject { stdout, stderr } => {
                let mut r = join3("Failed to inject SEA blob.\nstdout: ", stdout.as_str(), "\nstderr: ");
                r.append(stderr.as_str());
                r
            },
            BuildError::UnsupportedPlatform(p) => join2("Unsupported platform: ", p.as_str()),
            BuildError::Io(t) => t.clone(),
            BuildError::Unexpected => String::from_str(
                "The answer does not fit the action that was asked for",
            ),
        }
    }
}

} // verus!
