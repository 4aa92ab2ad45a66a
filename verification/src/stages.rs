//! The vocabulary of a build: the stage it is in, what it asks its caller to
//! do, and what the caller answers.

use crate::bundle::{Candidate, CandidateModel};
use crate::command::{CommandModel, OutcomeModel, ToolCommand, ToolOutcome};
use crate::config::RequestModel;
use crate::error::{BuildError, BuildErrorModel};
use crate::sea::{SeaConfig, SeaConfigModel};
use vstd::prelude::*;

verus! {

/// The permission bits given to a runtime binary on hosts that have them.
pub const EXECUTABLE_MODE: u32 = 0o755;

/// Where a build stands, named by what it asked for last.
#[derive(Clone, Copy, Debug, PartialEq, Eq, Structural)]
pub enum Stage {
    /// Nothing was asked for yet.
    Created,
    /// The output directory is being made.
    OutputDir,
    /// The index of published versions is being fetched.
    Index,
    /// The archive of the host's runtime is being downloaded.
    HostRuntime,
    /// The host's runtime binary is being written.
    HostRuntimeSaved,
    /// An earlier clone is being removed.
    CloneCleared,
    /// The source repository is being cloned.
    Cloned,
    /// The package manifest is being read.
    Manifest,
    /// The dependencies are being installed.
    Installed,
    /// The compile script is running.
    Compiled,
    /// The postinstall script is running.
    Postinstalled,
    /// The bundler program is being looked for.
    BundlerProbed,
    /// The bundler is running.
    Bundled,
    /// The bundle is being looked for.
    BundleChecked,
    /// The descriptor of the blob is being written.
    DescriptorWritten,
    /// The blob generator is running.
    BlobGenerated,
    /// The archive of the current target's runtime is being downloaded.
    TargetFetched,
    /// The current target's executable is being written.
    TargetSaved,
    /// The current target's code signature is being removed.
    Unsigned,
    /// The blob is being injected into the current target's executable.
    Injected,
    /// The current target's executable is being signed.
    Signed,
    /// The build is over.
    Finished,
}

/// What the machine the build runs on is like.
#[derive(Clone, Debug, PartialEq, Eq)]
pub struct Host {
    /// The identifier of the running operating system.
    pub os: String,
    /// The directory the tool was installed from.
    pub install_dir: String,
    /// The directory of the running executable, where it is known.
    pub exe_dir: Option<String>,
}

/// A `Host` as plain sequences.
pub struct HostModel {
    pub os: Seq<char>,
    pub install_dir: Seq<char>,
    pub exe_dir: Option<Seq<char>>,
}

impl View for Host {
    type V = HostModel;

    open spec fn view(&self) -> HostModel {
        HostModel { os: self.os@, install_dir: self.install_dir@, exe_dir: self.exe_dir.deep_view() }
    }
}

/// What a build asks its caller to do next.
#[derive(Debug, PartialEq, Eq)]
pub enum Action {
    /// Make the directory, and its parents, if it is not there.
    CreateDir { path: String },
    /// Fetch the index of published versions and hand back its version names,
    /// in the order of the feed.
    FetchIndex { url: String },
    /// Download the whole body of `url` and hand back the status and the body.
    Download { url: String },
    /// Write `contents` to `path`, over whatever is there; where `executable`
    /// is set and the host has permission bits, set them to `EXECUTABLE_MODE`.
    WriteFile { path: String, contents: Vec<u8>, executable: bool },
    /// Write the descriptor `config` to `path` in its file format.
    WriteDescriptor { path: String, config: SeaConfig },
    /// Remove the directory and all it holds, if it is there.
    RemoveDir { path: String },
    /// Run the command and hand back how it ended.
    Run { command: ToolCommand },
    /// Hand back the text of the package manifest at `path`, or nothing where
    /// there is no such file.
    ReadManifest { path: String },
    /// For each candidate, hand back the path to use if a file is there, and
    /// nothing if none is.
    Probe { candidates: Vec<Candidate> },
    /// Hand back whether a file is at `path`.
    CheckFile { path: String },
    /// Stop: the build is over, with this result.
    Finish { result: Result<(), BuildError> },
}

/// An `Action` as plain sequences.
pub enum ActionModel {
    CreateDir { path: Seq<char> },
    FetchIndex { url: Seq<char> },
    Download { url: Seq<char> },
    WriteFile { path: Seq<char>, contents: Seq<u8>, executable: bool },
    WriteDescriptor { path: Seq<char>, config: SeaConfigModel },
    RemoveDir { path: Seq<char> },
    Run { command: CommandModel },
    ReadManifest { path: Seq<char> },
    Probe { candidates: Seq<CandidateModel> },
    CheckFile { path: Seq<char> },
    Finish { result: Result<(), BuildErrorModel> },
}

impl View for Action {
    type V = ActionModel;

    open spec fn view(&self) -> ActionModel {
        match *self {
            Action::CreateDir { path } => ActionModel::CreateDir { path: path@ },
            Action::FetchIndex { url } => ActionModel::FetchIndex { url: url@ },
            Action::Download { url } => ActionModel::Download { url: url@ },
            Action::WriteFile { path, contents, executable } => ActionModel::WriteFile {
                path: path@,
                contents: contents@,
                executable,
            },
            Action::WriteDescriptor { path, config } => ActionModel::WriteDescriptor {
                path: path@,
                config: config@,
            },
            Action::RemoveDir { path } => ActionModel::RemoveDir { path: path@ },
            Action::Run { command } => ActionModel::Run { command: command@ },
            Action::ReadManifest { path } => ActionModel::ReadManifest { path: path@ },
            Action::Probe { candidates } => ActionModel::Probe {
                candidates: candidates.deep_view(),
            },
            Action::CheckFile { path } => ActionModel::CheckFile { path: path@ },
            Action::Finish { result } => ActionModel::Finish {
                result: match result {
                    Ok(()) => Ok(()),
                    Err(e) => Err(e@),
                },
            },
        }
    }
}

/// What the caller answers an action with.
#[derive(Clone, Debug, PartialEq, Eq)]
pub enum Event {
    /// The build is to start.
    Begin,
    /// The action was carried out and has nothing to hand back.
    Done,
    /// The version names of the index, in the order of the feed.
    Index(Vec<String>),
    /// The status and the body that a download was answered with.
    Downloaded { status: u16, body: Vec<u8> },
    /// How the command ended.
    Exited(ToolOutcome),
    /// The text of the package manifest, or nothing where there is none.
    Manifest(Option<String>),
    /// For each candidate of a probe, the path to use or nothing.
    Probed(Vec<Option<String>>),
    /// Whether the file is there.
    Checked(bool),
    /// The action could not be carried out; the platform's words are carried
    /// along.
    Failed(String),
}

/// An `Event` as plain sequences.
pub enum EventModel {
    Begin,
    Done,
    Index(Seq<Seq<char>>),
    Downloaded { status: u16, body: Seq<u8> },
    Exited(OutcomeModel),
    Manifest(Option<Seq<char>>),
    Probed(Seq<Option<Seq<char>>>),
    Checked(bool),
    Failed(Seq<char>),
}

impl View for Event {
    type V = EventModel;

    open spec fn view(&self) -> EventModel {
        match *self {
            Event::Begin => EventModel::Begin,
            Event::Done => EventModel::Done,
            Event::Index(names) => EventModel::Index(names.deep_view()),
            Event::Downloaded { status, body } => EventModel::Downloaded { status, body: body@ },
            Event::Exited(outcome) => EventModel::Exited(outcome@),
            Event::Manifest(text) => EventModel::Manifest(text.deep_view()),
            Event::Probed(paths) => EventModel::Probed(paths.deep_view()),
            Event::Checked(there) => EventModel::Checked(there),
            Event::Failed(reason) => EventModel::Failed(reason@),
        }
    }
}

/// The whole state of a build, as plain sequences.
pub struct PipelineModel {
    /// Where the build stands.
    pub stage: Stage,
    /// What is being built.
    pub request: RequestModel,
    /// The machine it is built on.
    pub host: HostModel,
    /// The full runtime version, once it is resolved.
    pub version: Seq<char>,
    /// The directory of the staged application, once it is staged.
    pub app_path: Seq<char>,
    /// Whether the manifest declares a compile script.
    pub compile: bool,
    /// The bundler program, once it is found.
    pub bundler: Seq<char>,
    /// The platforms to build for, in build order.
    pub targets: Seq<Seq<char>>,
    /// How many of the targets are built.
    pub built: nat,
}

/// A state together with the action that it asks for.
pub struct StepModel {
    pub state: PipelineModel,
    pub action: ActionModel,
}

} // verus!
