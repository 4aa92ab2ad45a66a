//! A build as a state machine. The caller starts it with `Event::Begin`,
//! carries out each action that `step` returns and hands back the answer, until
//! the action is `Finish`.

use crate::archive::{ArchiveSpec, check_download};
use crate::bundle::{bundle_command, bundler_candidates, choose_bundler};
use crate::config::{BuildRequest, RequestModel};
use crate::error::BuildError;
use crate::install::{compile_command, install_command, postinstall_command, read_manifest};
use crate::layout::{
    bundle_path, child_path, clone_dir_path, manifest_path, node_binary_path, sea_blob_path,
    sea_config_path,
};
use crate::platform::{Platform, expand_platforms, parse_platform};
use crate::sea::{SeaConfig, blob_command, inject_command, sign_command, unsign_command};
use crate::source::{clone_command, is_remote_source};
use crate::stages::{Action, ActionModel, Event, Host, HostModel, PipelineModel, Stage, StepModel};
use crate::text::str_eq;
use crate::transitions;
use crate::version::{needs_version_index, resolve_node_version, version_index_url};
use vstd::prelude::*;

verus! {

/// A build in progress.
#[derive(Debug)]
pub struct Pipeline {
    stage: Stage,
    request: BuildRequest,
    host: Host,
    version: String,
    app_path: String,
    compile: bool,
    bundler: String,
    targets: Vec<String>,
    built: usize,
}

impl View for Pipeline {
    type V = PipelineModel;

    closed spec fn view(&self) -> PipelineModel {
        PipelineModel {
            stage: self.stage,
            request: self.request@,
            host: self.host@,
            version: self.version@,
            app_path: self.app_path@,
            compile: self.compile,
            bundler: self.bundler@,
            targets: self.targets.deep_view(),
            built: self.built as nat,
        }
    }
}

/// The state of a build of `request` on `host` of which nothing is done yet.
pub open spec fn initial(request: RequestModel, host: HostModel) -> PipelineModel {
    PipelineModel {
        stage: Stage::Created,
        request,
        host,
        version: Seq::empty(),
        app_path: Seq::empty(),
        compile: false,
        bundler: Seq::empty(),
        targets: Seq::empty(),
        built: 0,
    }
}

/// A state and the action that it asks for, as one value.
pub open spec fn step_of(state: PipelineModel, action: ActionModel) -> StepModel {
    StepModel { state, action }
}

impl Pipeline {
    /// A build of `request` on `host`, of which nothing is done yet.
    pub fn new(request: BuildRequest, host: Host) -> (r: Pipeline)
        ensures
            r@ == initial(request@, host@),
    {
        let targets: Vec<String> = Vec::new();
        assert(targets.deep_view() =~= Seq::<Seq<char>>::empty());
        Pipeline {
            stage: Stage::Created,
            request,
            host,
            version: String::new(),
            app_path: String::new(),
            compile: false,
            bundler: String::new(),
            targets,
            built: 0,
        }
    }

    /// Where the build stands.
    pub fn stage(&self) -> (r: Stage)
        ensures
            r == self@.stage,
    {
        self.stage
    }

    /// Whether the build is over.
    pub fn is_finished(&self) -> (r: bool)
        ensures
            r == (self@.stage == Stage::Finished),
    {
        match self.stage {
            Stage::Finished => true,
            _ => false,
        }
    }

    /// What is being built.
    pub fn request(&self) -> (r: &BuildRequest)
        ensures
            r@ == self@.request,
    {
        &self.request
    }

    /// The full runtime version; empty until it is resolved.
    pub fn version(&self) -> (r: &str)
        ensures
            r@ == self@.version,
    {
        self.version.as_str()
    }

    /// The platforms to build for, in build order; none until the build is
    /// started.
    pub fn targets(&self) -> (r: &Vec<String>)
        ensures
            r.deep_view() == self@.targets,
    {
        &self.targets
    }

    /// How many of the targets are built.
    pub fn built(&self) -> (r: usize)
        ensures
            r == self@.built,
    {
        self.built
    }

    fn windows_host(&self) -> (r: bool)
        ensures
            r == transitions::windows_host(self@.host),
    {
        str_eq(self.host.os.as_str(), "windows")
    }

    fn ask(&mut self, stage: Stage, action: Action) -> (a: Action)
        ensures
            step_of(final(self)@, a@) == transitions::ask(old(self)@, stage, action@),
    {
        self.stage = stage;
        action
    }

    fn finish(&mut self, result: Result<(), BuildError>) -> (a: Action)
        ensures
            step_of(final(self)@, a@) == transitions::finish(
                old(self)@,
                crate::archive::verdict_view(result),
            ),
    {
        self.stage = Stage::Finished;
        Action::Finish { result }
    }

    fn fail(&mut self, e: BuildError) -> (a: Action)
        ensures
            step_of(final(self)@, a@) == transitions::fail(old(self)@, e@),
    {
        self.finish(Err(e))
    }

    fn refuse(&mut self, event: Event) -> (a: Action)
        ensures
            step_of(final(self)@, a@) == transitions::refuse(old(self)@, event@),
    {
        match event {
            Event::Failed(reason) => self.fail(BuildError::Io(reason)),
            _ => self.fail(BuildError::Unexpected),
        }
    }
}

impl Pipeline {
    fn start(&mut self) -> (a: Action)
        ensures
            step_of(final(self)@, a@) == transitions::start(old(self)@),
    {
        self.targets = expand_platforms(self.request.platform.as_str(), self.host.os.as_str());
        self.built = 0;
        let path = self.request.output_dir.clone();
        self.ask(Stage::OutputDir, Action::CreateDir { path })
    }

    fn begin_version(&mut self) -> (a: Action)
        ensures
            step_of(final(self)@, a@) == transitions::begin_version(old(self)@),
    {
        match parse_platform(self.host.os.as_str()) {
            Err(e) => self.fail(e),
            Ok(_) => {
                if needs_version_index(self.request.runtime_version.as_str()) {
                    self.ask(
                        Stage::Index,
                        Action::FetchIndex { url: String::from_str(version_index_url()) },
                    )
                } else {
                    self.version = self.request.runtime_version.clone();
                    self.begin_host_runtime()
                }
            },
        }
    }

    fn after_index(&mut self, names: Vec<String>) -> (a: Action)
        ensures
            step_of(final(self)@, a@) == transitions::after_index(old(self)@, names.deep_view()),
    {
        match resolve_node_version(self.request.runtime_version.as_str(), &names) {
            Err(e) => self.fail(e),
            Ok(version) => {
                self.version = version;
                self.begin_host_runtime()
            },
        }
    }

    fn begin_host_runtime(&mut self) -> (a: Action)
        ensures
            step_of(final(self)@, a@) == transitions::begin_host_runtime(old(self)@),
    {
        match parse_platform(self.host.os.as_str()) {
            Err(_) => self.fail(BuildError::Unexpected),
            Ok(p) => {
                let archive = ArchiveSpec::new(self.version.as_str(), p.node_arch());
                self.ask(Stage::HostRuntime, Action::Download { url: archive.remote_url })
            },
        }
    }

    fn after_download(
        &mut self,
        arch: &str,
        dest: String,
        then: Stage,
        status: u16,
        body: Vec<u8>,
    ) -> (a: Action)
        ensures
            step_of(final(self)@, a@) == transitions::after_download(
                old(self)@,
                arch@,
                dest@,
                then,
                status,
                body@,
            ),
    {
        let archive = ArchiveSpec::new(self.version.as_str(), arch);
        match check_download(archive.remote_url.as_str(), status) {
            Err(e) => self.fail(e),
            Ok(()) => match archive.extract(body.as_slice()) {
                Err(e) => self.fail(BuildError::Extract(e)),
                Ok(contents) => self.ask(
                    then,
                    Action::WriteFile { path: dest, contents, executable: true },
                ),
            },
        }
    }

    fn begin_source(&mut self) -> (a: Action)
        ensures
            step_of(final(self)@, a@) == transitions::begin_source(old(self)@),
    {
        if is_remote_source(self.request.source.as_str()) {
            let path = clone_dir_path(self.request.output_dir.as_str());
            self.ask(Stage::CloneCleared, Action::RemoveDir { path })
        } else {
            self.app_path = self.request.source.clone();
            self.begin_install()
        }
    }

    fn begin_clone(&mut self) -> (a: Action)
        ensures
            step_of(final(self)@, a@) == transitions::begin_clone(old(self)@),
    {
        let dir = clone_dir_path(self.request.output_dir.as_str());
        let command = clone_command(self.request.source.as_str(), dir.as_str());
        self.ask(Stage::Cloned, Action::Run { command })
    }

    fn begin_install(&mut self) -> (a: Action)
        ensures
            step_of(final(self)@, a@) == transitions::begin_install(old(self)@),
    {
        let path = manifest_path(self.app_path.as_str());
        self.ask(Stage::Manifest, Action::ReadManifest { path })
    }

    fn after_manifest(&mut self, text: Option<String>) -> (a: Action)
        ensures
            step_of(final(self)@, a@) == transitions::after_manifest(old(self)@, text.deep_view()),
    {
        match text {
            None => self.begin_bundle(),
            Some(t) => match read_manifest(t.as_str()) {
                Err(message) => self.fail(BuildError::ManifestInvalid(message)),
                Ok(manifest) => {
                    let command = install_command(
                        self.app_path.as_str(),
                        manifest.has_compile_tooling(),
                        self.windows_host(),
                    );
                    self.compile = manifest.has_compile_script();
                    self.ask(Stage::Installed, Action::Run { command })
                },
            },
        }
    }

    fn after_install(&mut self) -> (a: Action)
        ensures
            step_of(final(self)@, a@) == transitions::after_install(old(self)@),
    {
        if self.compile {
            let command = compile_command(self.app_path.as_str(), self.windows_host());
            self.ask(Stage::Compiled, Action::Run { command })
        } else {
            self.begin_postinstall()
        }
    }

    fn begin_postinstall(&mut self) -> (a: Action)
        ensures
            step_of(final(self)@, a@) == transitions::begin_postinstall(old(self)@),
    {
        if self.request.run_postinstall {
            let command = postinstall_command(
                self.app_path.as_str(),
                &self.request.env_vars,
                self.windows_host(),
            );
            self.ask(Stage::Postinstalled, Action::Run { command })
        } else {
            self.begin_bundle()
        }
    }

    fn begin_bundle(&mut self) -> (a: Action)
        ensures
            step_of(final(self)@, a@) == transitions::begin_bundle(old(self)@),
    {
        let candidates = bundler_candidates(self.host.install_dir.as_str(), &self.host.exe_dir);
        self.ask(Stage::BundlerProbed, Action::Probe { candidates })
    }

    fn after_probe(&mut self, probed: Vec<Option<String>>) -> (a: Action)
        ensures
            step_of(final(self)@, a@) == transitions::after_probe(old(self)@, probed.deep_view()),
    {
        match choose_bundler(&probed) {
            None => self.fail(BuildError::BundlerNotFound),
            Some(bundler) => {
                let command = bundle_command(
                    "node",
                    bundler.as_str(),
                    self.app_path.as_str(),
                    self.request.output_dir.as_str(),
                    &self.request.entry,
                );
                self.bundler = bundler;
                self.ask(Stage::Bundled, Action::Run { command })
            },
        }
    }

    fn begin_sea(&mut self) -> (a: Action)
        ensures
            step_of(final(self)@, a@) == transitions::begin_sea(old(self)@),
    {
        let out = self.request.output_dir.as_str();
        let config = SeaConfig::new(bundle_path(out).as_str(), sea_blob_path(out).as_str());
        let path = sea_config_path(out);
        self.ask(Stage::DescriptorWritten, Action::WriteDescriptor { path, config })
    }

    fn begin_blob(&mut self) -> (a: Action)
        ensures
            step_of(final(self)@, a@) == transitions::begin_blob(old(self)@),
    {
        let out = self.request.output_dir.as_str();
        let command = blob_command(node_binary_path(out).as_str(), sea_config_path(out).as_str());
        self.ask(Stage::BlobGenerated, Action::Run { command })
    }

    fn current_target(&self) -> (r: Option<Platform>)
        ensures
            r == transitions::current_target(self@),
    {
        if self.built < self.targets.len() {
            assert(self.targets.deep_view()[self.built as int] == self.targets@[self.built as int]@);
            match parse_platform(self.targets[self.built].as_str()) {
                Ok(p) => Some(p),
                Err(_) => None,
            }
        } else {
            None
        }
    }

    fn begin_target(&mut self) -> (a: Action)
        ensures
            step_of(final(self)@, a@) == transitions::begin_target(old(self)@),
    {
        if self.built >= self.targets.len() {
            self.finish(Ok(()))
        } else {
            assert(self.targets.deep_view()[self.built as int] == self.targets@[self.built as int]@);
            match parse_platform(self.targets[self.built].as_str()) {
                Err(e) => self.fail(e),
                Ok(p) => {
                    let archive = ArchiveSpec::new(self.version.as_str(), p.node_arch());
                    self.ask(Stage::TargetFetched, Action::Download { url: archive.remote_url })
                },
            }
        }
    }

    fn executable_path(&self, p: Platform) -> (r: String)
        ensures
            r@ == transitions::executable_in(self@, p),
    {
        child_path(self.request.output_dir.as_str(), p.artifact_name())
    }

    fn after_target_saved(&mut self, p: Platform) -> (a: Action)
        ensures
            step_of(final(self)@, a@) == transitions::after_target_saved(old(self)@, p),
    {
        if p.needs_codesign() {
            let command = unsign_command(self.executable_path(p).as_str());
            self.ask(Stage::Unsigned, Action::Run { command })
        } else {
            self.begin_inject(p)
        }
    }

    fn begin_inject(&mut self, p: Platform) -> (a: Action)
        ensures
            step_of(final(self)@, a@) == transitions::begin_inject(old(self)@, p),
    {
        let command = inject_command(
            self.executable_path(p).as_str(),
            sea_blob_path(self.request.output_dir.as_str()).as_str(),
            p,
            self.windows_host(),
        );
        self.ask(Stage::Injected, Action::Run { command })
    }

    fn after_inject(&mut self, p: Platform) -> (a: Action)
        requires
            old(self)@.built < old(self)@.targets.len(),
        ensures
            step_of(final(self)@, a@) == transitions::after_inject(old(self)@, p),
    {
        if p.needs_codesign() {
            let command = sign_command(self.executable_path(p).as_str());
            self.ask(Stage::Signed, Action::Run { command })
        } else {
            self.target_built()
        }
    }

    fn target_built(&mut self) -> (a: Action)
        requires
            old(self)@.built < old(self)@.targets.len(),
        ensures
            step_of(final(self)@, a@) == transitions::target_built(old(self)@),
    {
        assert(self.targets.deep_view().len() == self.targets.len());
        self.built = self.built + 1;
        self.begin_target()
    }
}

impl Pipeline {
    fn step_for_target(&mut self, event: Event, p: Platform) -> (a: Action)
        requires
            old(self)@.built < old(self)@.targets.len(),
        ensures
            step_of(final(self)@, a@) == transitions::next_for_target(old(self)@, event@, p),
    {
        match self.stage {
            Stage::TargetFetched => match event {
                Event::Downloaded { status, body } => {
                    let dest = self.executable_path(p);
                    self.after_download(p.node_arch(), dest, Stage::TargetSaved, status, body)
                },
                other => self.refuse(other),
            },
            Stage::TargetSaved => match event {
                Event::Done => self.after_target_saved(p),
                other => self.refuse(other),
            },
            Stage::Unsigned => self.begin_inject(p),
            Stage::Injected => match event {
                Event::Exited(outcome) => {
                    if outcome.success {
                        self.after_inject(p)
                    } else {
                        self.fail(
                            BuildError::Inject { stdout: outcome.stdout, stderr: outcome.stderr },
                        )
                    }
                },
                other => self.refuse(other),
            },
            Stage::Signed => self.target_built(),
            _ => self.fail(BuildError::Unexpected),
        }
    }

    /// Takes the answer to the action asked for last and returns the next
    /// action. The first answer is `Event::Begin`; after `Action::Finish` the
    /// build is over, and any further answer is refused as unexpected. What
    /// follows which answer in which stage is `transitions::next`.
    pub fn step(&mut self, event: Event) -> (a: Action)
        ensures
            step_of(final(self)@, a@) == transitions::next(old(self)@, event@),
    {
        match self.stage {
            Stage::Created => match event {
                Event::Begin => self.start(),
                other => self.refuse(other),
            },
            Stage::OutputDir => match event {
                Event::Done => self.begin_version(),
                other => self.refuse(other),
            },
            Stage::Index => match event {
                Event::Index(names) => self.after_index(names),
                other => self.refuse(other),
            },
            Stage::HostRuntime => match event {
                Event::Downloaded { status, body } => {
                    match parse_platform(self.host.os.as_str()) {
                        Ok(p) => {
                            let dest = node_binary_path(self.request.output_dir.as_str());
                            self.after_download(
                                p.node_arch(),
                                dest,
                                Stage::HostRuntimeSaved,
                                status,
                                body,
                            )
                        },
                        Err(_) => self.fail(BuildError::Unexpected),
                    }
                },
                other => self.refuse(other),
            },
            Stage::HostRuntimeSaved => match event {
                Event::Done => self.begin_source(),
                other => self.refuse(other),
            },
            Stage::CloneCleared => match event {
                Event::Done => self.begin_clone(),
                other => self.refuse(other),
            },
            Stage::Cloned => match event {
                Event::Exited(outcome) => {
                    if outcome.success {
                        self.app_path = clone_dir_path(self.request.output_dir.as_str());
                        self.begin_install()
                    } else {
                        self.fail(BuildError::Stage)
                    }
                },
                other => self.refuse(other),
            },
            Stage::Manifest => match event {
                Event::Manifest(text) => self.after_manifest(text),
                other => self.refuse(other),
            },
            Stage::Installed => match event {
                Event::Exited(outcome) => {
                    if outcome.success {
                        self.after_install()
                    } else {
                        self.fail(BuildError::InstallFailed)
                    }
                },
                other => self.refuse(other),
            },
            Stage::Compiled => match event {
                Event::Exited(outcome) => {
                    if outcome.success {
                        self.begin_postinstall()
                    } else {
                        self.fail(BuildError::CompileFailed(outcome.code))
                    }
                },
                Event::Failed(reason) => self.fail(BuildError::CompileNotStarted(reason)),
                _ => self.fail(BuildError::Unexpected),
            },
            Stage::Postinstalled => self.begin_bundle(),
            Stage::BundlerProbed => match event {
                Event::Probed(probed) => self.after_probe(probed),
                other => self.refuse(other),
            },
            Stage::Bundled => match event {
                Event::Exited(outcome) => {
                    if outcome.success {
                        let path = bundle_path(self.request.output_dir.as_str());
                        self.ask(Stage::BundleChecked, Action::CheckFile { path })
                    } else {
                        self.fail(BuildError::BundlerFailed(outcome.code))
                    }
                },
                other => self.refuse(other),
            },
            Stage::BundleChecked => match event {
                Event::Checked(there) => {
                    if there {
                        self.begin_sea()
                    } else {
                        let path = bundle_path(self.request.output_dir.as_str());
                        self.fail(BuildError::BundleMissing(path))
                    }
                },
                other => self.refuse(other),
            },
            Stage::DescriptorWritten => match event {
                Event::Done => self.begin_blob(),
                other => self.refuse(other),
            },
            Stage::BlobGenerated => match event {
                Event::Exited(outcome) => {
                    if outcome.success {
                        self.built = 0;
                        self.begin_target()
                    } else {
                        self.fail(
                            BuildError::Sea { stdout: outcome.stdout, stderr: outcome.stderr },
                        )
                    }
                },
                other => self.refuse(other),
            },
            Stage::Finished => self.fail(BuildError::Unexpected),
            _ => match self.current_target() {
                Some(p) => self.step_for_target(event, p),
                None => self.fail(BuildError::Unexpected),
            },
        }
    }
}

} // verus!
