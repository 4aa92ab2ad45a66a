//! The order of a build, as a function from the state it is in and the answer
//! to its last action to the next state and the next action.

use crate::archive::{extraction, folder_of, is_success_status, kind_of, url_of};
use crate::bundle::{bundle_command_model, bundler_candidates_model, first_usable};
use crate::error::BuildErrorModel;
use crate::install::{
    declares_compile_script, install_command_model, json_member_names, manifest_from,
    needs_compile_tooling, script_command_model,
};
use crate::layout::{
    bundle_in, child, clone_dir_in, manifest_in, node_binary_in, sea_blob_in, sea_config_in,
};
use crate::platform::{Platform, expanded, platform_named};
use crate::sea::{
    blob_command_model, inject_command_model, sea_config_model, sign_command_model,
    unsign_command_model,
};
use crate::source::{clone_command_model, is_remote};
use crate::stages::{ActionModel, EventModel, HostModel, PipelineModel, Stage, StepModel};
use crate::version::{index_url, is_full_version, resolved_version};
use vstd::prelude::*;

verus! {

/// Whether the host runs Windows, where the package manager's programs carry
/// another name.
pub open spec fn windows_host(host: HostModel) -> bool {
    host.os == "windows"@
}

/// The program that the bundler runs under: the runtime found on the search
/// path.
pub open spec fn bundler_runtime() -> Seq<char> {
    "node"@
}

/// The state `s` moved to `stage`, asking for `action`.
pub open spec fn ask(s: PipelineModel, stage: Stage, action: ActionModel) -> StepModel {
    StepModel { state: PipelineModel { stage, ..s }, action }
}

/// The build ended with `result`.
pub open spec fn finish(s: PipelineModel, result: Result<(), BuildErrorModel>) -> StepModel {
    ask(s, Stage::Finished, ActionModel::Finish { result })
}

/// The build ended with the error `e`.
pub open spec fn fail(s: PipelineModel, e: BuildErrorModel) -> StepModel {
    finish(s, Err(e))
}

/// What follows an answer that the stage has no use for: the failure it
/// reports, or the complaint that it answers another action.
pub open spec fn refuse(s: PipelineModel, e: EventModel) -> StepModel {
    match e {
        EventModel::Failed(reason) => fail(s, BuildErrorModel::Io(reason)),
        _ => fail(s, BuildErrorModel::Unexpected),
    }
}

/// The platform of the target that is being built, if there is one left and
/// its name stands for a platform.
pub open spec fn current_target(s: PipelineModel) -> Option<Platform> {
    if s.built < s.targets.len() {
        platform_named(s.targets[s.built as int])
    } else {
        None
    }
}

/// The path of the executable for `p`.
pub open spec fn executable_in(s: PipelineModel, p: Platform) -> Seq<char> {
    child(s.request.output_dir, p.artifact())
}

/// The first step: the targets are laid down and the output directory is made.
pub open spec fn start(s: PipelineModel) -> StepModel {
    ask(
        PipelineModel { targets: expanded(s.request.platform, s.host.os), built: 0, ..s },
        Stage::OutputDir,
        ActionModel::CreateDir { path: s.request.output_dir },
    )
}

/// The version is settled: a host without a runtime architecture ends the
/// build before anything is fetched; a full version needs no index.
pub open spec fn begin_version(s: PipelineModel) -> StepModel {
    if platform_named(s.host.os) is None {
        fail(s, BuildErrorModel::UnsupportedPlatform(s.host.os))
    } else if is_full_version(s.request.runtime_version) {
        begin_host_runtime(PipelineModel { version: s.request.runtime_version, ..s })
    } else {
        ask(s, Stage::Index, ActionModel::FetchIndex { url: index_url() })
    }
}

/// The index arrived: the version is resolved against it, once for the whole
/// build.
pub open spec fn after_index(s: PipelineModel, names: Seq<Seq<char>>) -> StepModel {
    match resolved_version(s.request.runtime_version, names) {
        Err(e) => fail(s, e),
        Ok(version) => begin_host_runtime(PipelineModel { version, ..s }),
    }
}

/// The runtime of the host is downloaded, which runs the blob generator.
pub open spec fn begin_host_runtime(s: PipelineModel) -> StepModel {
    match platform_named(s.host.os) {
        None => fail(s, BuildErrorModel::Unexpected),
        Some(p) => ask(
            s,
            Stage::HostRuntime,
            ActionModel::Download { url: url_of(s.version, p.arch()) },
        ),
    }
}

/// A download was answered: a status that is no success is a fetch error; else
/// the runtime binary is taken out of the body and written to `dest`.
pub open spec fn after_download(
    s: PipelineModel,
    arch: Seq<char>,
    dest: Seq<char>,
    then: Stage,
    status: u16,
    body: Seq<u8>,
) -> StepModel {
    if !is_success_status(status) {
        fail(s, BuildErrorModel::Fetch { url: url_of(s.version, arch), status })
    } else {
        match extraction(kind_of(arch), folder_of(s.version, arch), body) {
            Err(e) => fail(s, BuildErrorModel::Extract(e)),
            Ok(bytes) => ask(
                s,
                then,
                ActionModel::WriteFile { path: dest, contents: bytes, executable: true },
            ),
        }
    }
}

/// The source is staged: a remote one is cloned into a directory that is first
/// cleared; a local one is the application as it stands.
pub open spec fn begin_source(s: PipelineModel) -> StepModel {
    if is_remote(s.request.source) {
        ask(
            s,
            Stage::CloneCleared,
            ActionModel::RemoveDir { path: clone_dir_in(s.request.output_dir) },
        )
    } else {
        begin_install(PipelineModel { app_path: s.request.source, ..s })
    }
}

/// The clone is made.
pub open spec fn begin_clone(s: PipelineModel) -> StepModel {
    ask(
        s,
        Stage::Cloned,
        ActionModel::Run {
            command: clone_command_model(s.request.source, clone_dir_in(s.request.output_dir)),
        },
    )
}

/// The application is prepared, starting from its manifest.
pub open spec fn begin_install(s: PipelineModel) -> StepModel {
    ask(s, Stage::Manifest, ActionModel::ReadManifest { path: manifest_in(s.app_path) })
}

/// The manifest arrived. Without one there is nothing to install. A manifest
/// that is not well-formed ends the build; any other decides what is installed.
pub open spec fn after_manifest(s: PipelineModel, text: Option<Seq<char>>) -> StepModel {
    match text {
        None => begin_bundle(s),
        Some(t) => match manifest_from(
            json_member_names(t, "devDependencies"@),
            json_member_names(t, "scripts"@),
        ) {
            Err(message) => fail(s, BuildErrorModel::ManifestInvalid(message)),
            Ok(m) => ask(
                PipelineModel { compile: declares_compile_script(m), ..s },
                Stage::Installed,
                ActionModel::Run {
                    command: install_command_model(
                        s.app_path,
                        needs_compile_tooling(m),
                        windows_host(s.host),
                    ),
                },
            ),
        },
    }
}

/// The installation succeeded: the compile script runs if there is one.
pub open spec fn after_install(s: PipelineModel) -> StepModel {
    if s.compile {
        ask(
            s,
            Stage::Compiled,
            ActionModel::Run {
                command: script_command_model(
                    s.app_path,
                    "compile"@,
                    Seq::empty(),
                    windows_host(s.host),
                ),
            },
        )
    } else {
        begin_postinstall(s)
    }
}

/// The postinstall script runs if the request asks for it, with every
/// variable of the request in its environment.
pub open spec fn begin_postinstall(s: PipelineModel) -> StepModel {
    if s.request.run_postinstall {
        ask(
            s,
            Stage::Postinstalled,
            ActionModel::Run {
                command: script_command_model(
                    s.app_path,
                    "postinstall"@,
                    s.request.env_vars,
                    windows_host(s.host),
                ),
            },
        )
    } else {
        begin_bundle(s)
    }
}

/// The bundling starts with the search for the bundler program.
pub open spec fn begin_bundle(s: PipelineModel) -> StepModel {
    ask(
        s,
        Stage::BundlerProbed,
        ActionModel::Probe {
            candidates: bundler_candidates_model(s.host.install_dir, s.host.exe_dir),
        },
    )
}

/// The search is over: without a bundler the build ends; else it runs.
pub open spec fn after_probe(s: PipelineModel, probed: Seq<Option<Seq<char>>>) -> StepModel {
    match first_usable(probed) {
        None => fail(s, BuildErrorModel::BundlerNotFound),
        Some(bundler) => ask(
            PipelineModel { bundler, ..s },
            Stage::Bundled,
            ActionModel::Run {
                command: bundle_command_model(
                    bundler_runtime(),
                    bundler,
                    s.app_path,
                    s.request.output_dir,
                    s.request.entry,
                ),
            },
        ),
    }
}

/// The descriptor of the blob is written.
pub open spec fn begin_sea(s: PipelineModel) -> StepModel {
    ask(
        s,
        Stage::DescriptorWritten,
        ActionModel::WriteDescriptor {
            path: sea_config_in(s.request.output_dir),
            config: sea_config_model(
                bundle_in(s.request.output_dir),
                sea_blob_in(s.request.output_dir),
            ),
        },
    )
}

/// The blob is generated, by the runtime of the host.
pub open spec fn begin_blob(s: PipelineModel) -> StepModel {
    ask(
        s,
        Stage::BlobGenerated,
        ActionModel::Run {
            command: blob_command_model(
                node_binary_in(s.request.output_dir),
                sea_config_in(s.request.output_dir),
            ),
        },
    )
}

/// The next target is taken up. With none left the build has succeeded. A
/// target whose name stands for no platform ends the build before anything is
/// downloaded for it.
pub open spec fn begin_target(s: PipelineModel) -> StepModel {
    if s.built >= s.targets.len() {
        finish(s, Ok(()))
    } else {
        match platform_named(s.targets[s.built as int]) {
            None => fail(s, BuildErrorModel::UnsupportedPlatform(s.targets[s.built as int])),
            Some(p) => ask(
                s,
                Stage::TargetFetched,
                ActionModel::Download { url: url_of(s.version, p.arch()) },
            ),
        }
    }
}

/// The executable is written: a signed platform's binary loses its signature
/// before the blob is injected.
pub open spec fn after_target_saved(s: PipelineModel, p: Platform) -> StepModel {
    if p.signed() {
        ask(
            s,
            Stage::Unsigned,
            ActionModel::Run { command: unsign_command_model(executable_in(s, p)) },
        )
    } else {
        begin_inject(s, p)
    }
}

/// The blob is injected.
pub open spec fn begin_inject(s: PipelineModel, p: Platform) -> StepModel {
    ask(
        s,
        Stage::Injected,
        ActionModel::Run {
            command: inject_command_model(
                executable_in(s, p),
                sea_blob_in(s.request.output_dir),
                p,
                windows_host(s.host),
            ),
        },
    )
}

/// The blob is in: a signed platform's binary is signed anew.
pub open spec fn after_inject(s: PipelineModel, p: Platform) -> StepModel {
    if p.signed() {
        ask(s, Stage::Signed, ActionModel::Run { command: sign_command_model(executable_in(s, p)) })
    } else {
        target_built(s)
    }
}

/// The target is built, and the next one is taken up.
pub open spec fn target_built(s: PipelineModel) -> StepModel {
    begin_target(PipelineModel { built: s.built + 1, ..s })
}

/// What follows the answer `e` in a stage that works on the current target.
pub open spec fn next_for_target(s: PipelineModel, e: EventModel, p: Platform) -> StepModel {
    match s.stage {
        Stage::TargetFetched => match e {
            EventModel::Downloaded { status, body } => after_download(
                s,
                p.arch(),
                executable_in(s, p),
                Stage::TargetSaved,
                status,
                body,
            ),
            _ => refuse(s, e),
        },
        Stage::TargetSaved => match e {
            EventModel::Done => after_target_saved(s, p),
            _ => refuse(s, e),
        },
        Stage::Unsigned => begin_inject(s, p),
        Stage::Injected => match e {
            EventModel::Exited(outcome) => if outcome.success {
                after_inject(s, p)
            } else {
                fail(s, BuildErrorModel::Inject { stdout: outcome.stdout, stderr: outcome.stderr })
            },
            _ => refuse(s, e),
        },
        Stage::Signed => target_built(s),
        _ => fail(s, BuildErrorModel::Unexpected),
    }
}

/// What follows the answer `e` in the state `s`: the next state and the action
/// that it asks for.
pub open spec fn next(s: PipelineModel, e: EventModel) -> StepModel {
    match s.stage {
        Stage::Created => match e {
            EventModel::Begin => start(s),
            _ => refuse(s, e),
        },
        Stage::OutputDir => match e {
            EventModel::Done => begin_version(s),
            _ => refuse(s, e),
        },
        Stage::Index => match e {
            EventModel::Index(names) => after_index(s, names),
            _ => refuse(s, e),
        },
        Stage::HostRuntime => match e {
            EventModel::Downloaded { status, body } => match platform_named(s.host.os) {
                Some(p) => after_download(
                    s,
                    p.arch(),
                    node_binary_in(s.request.output_dir),
                    Stage::HostRuntimeSaved,
                    status,
                    body,
                ),
                None => fail(s, BuildErrorModel::Unexpected),
            },
            _ => refuse(s, e),
        },
        Stage::HostRuntimeSaved => match e {
            EventModel::Done => begin_source(s),
            _ => refuse(s, e),
        },
        Stage::CloneCleared => match e {
            EventModel::Done => begin_clone(s),
            _ => refuse(s, e),
        },
        Stage::Cloned => match e {
            EventModel::Exited(outcome) => if outcome.success {
                begin_install(PipelineModel { app_path: clone_dir_in(s.request.output_dir), ..s })
            } else {
                fail(s, BuildErrorModel::Stage)
            },
            _ => refuse(s, e),
        },
        Stage::Manifest => match e {
            EventModel::Manifest(text) => after_manifest(s, text),
            _ => refuse(s, e),
        },
        Stage::Installed => match e {
            EventModel::Exited(outcome) => if outcome.success {
                after_install(s)
            } else {
                fail(s, BuildErrorModel::InstallFailed)
            },
            _ => refuse(s, e),
        },
        Stage::Compiled => match e {
            EventModel::Exited(outcome) => if outcome.success {
                begin_postinstall(s)
            } else {
                fail(s, BuildErrorModel::CompileFailed(outcome.code))
            },
            EventModel::Failed(reason) => fail(s, BuildErrorModel::CompileNotStarted(reason)),
            _ => fail(s, BuildErrorModel::Unexpected),
        },
        Stage::Postinstalled => begin_bundle(s),
        Stage::BundlerProbed => match e {
            EventModel::Probed(probed) => after_probe(s, probed),
            _ => refuse(s, e),
        },
        Stage::Bundled => match e {
            EventModel::Exited(outcome) => if outcome.success {
                ask(
                    s,
                    Stage::BundleChecked,
                    ActionModel::CheckFile { path: bundle_in(s.request.output_dir) },
                )
            } else {
                fail(s, BuildErrorModel::BundlerFailed(outcome.code))
            },
            _ => refuse(s, e),
        },
        Stage::BundleChecked => match e {
            EventModel::Checked(there) => if there {
                begin_sea(s)
            } else {
                fail(s, BuildErrorModel::BundleMissing(bundle_in(s.request.output_dir)))
            },
            _ => refuse(s, e),
        },
        Stage::DescriptorWritten => match e {
            EventModel::Done => begin_blob(s),
            _ => refuse(s, e),
        },
        Stage::BlobGenerated => match e {
            EventModel::Exited(outcome) => if outcome.success {
                begin_target(PipelineModel { built: 0, ..s })
            } else {
                fail(s, BuildErrorModel::Sea { stdout: outcome.stdout, stderr: outcome.stderr })
            },
            _ => refuse(s, e),
        },
        Stage::Finished => fail(s, BuildErrorModel::Unexpected),
        _ => match current_target(s) {
            Some(p) => next_for_target(s, e, p),
            None => fail(s, BuildErrorModel::Unexpected),
        },
    }
}

} // verus!
