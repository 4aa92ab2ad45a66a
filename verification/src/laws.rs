//! What holds of every build, proved of the transition function.

use crate::archive::url_of;
use crate::error::BuildErrorModel;
use crate::layout::child;
use crate::pipeline::initial;
use crate::platform::{expanded, lemma_platform_names_distinct, normalized_os, platform_named};
use crate::config::RequestModel;
use crate::stages::{ActionModel, EventModel, HostModel, PipelineModel, Stage, StepModel};
use crate::transitions::{begin_bundle, begin_target, current_target, fail, next};
use vstd::prelude::*;

verus! {

/// The actions that a build asks for, one after the other, when it is in the
/// state `s` and is answered with `events` in turn.
pub open spec fn actions_of(s: PipelineModel, events: Seq<EventModel>) -> Seq<ActionModel>
    decreases events.len(),
{
    if events.len() == 0 {
        Seq::empty()
    } else {
        seq![next(s, events[0]).action] + actions_of(next(s, events[0]).state, events.drop_first())
    }
}

/// Whether the action is the one that stops the build.
pub open spec fn is_finish(a: ActionModel) -> bool {
    a is Finish
}

/// A failed postinstall script does not stop the build: whatever its run is
/// answered with, and be it that it could not be started, the build goes on
/// to the bundling and asks for the search of the bundler.
pub proof fn lemma_postinstall_never_aborts(s: PipelineModel, e: EventModel)
    requires
        s.stage == Stage::Postinstalled,
    ensures
        next(s, e) == begin_bundle(s),
        next(s, e).state.stage == Stage::BundlerProbed,
        next(s, e).action is Probe,
{
}

/// An installation that does not report success ends the build at once, with
/// an error: nothing is compiled, bundled or built after it.
pub proof fn lemma_install_failure_aborts(s: PipelineModel, e: EventModel)
    requires
        s.stage == Stage::Installed,
        !(e matches EventModel::Exited(outcome) && outcome.success),
    ensures
        next(s, e).state.stage == Stage::Finished,
        next(s, e).action matches ActionModel::Finish { result } && result is Err,
        e is Exited ==> next(s, e).action == (ActionModel::Finish {
            result: Err(BuildErrorModel::InstallFailed),
        }),
{
}

/// A compile script that fails, or cannot be started, ends the build at once.
pub proof fn lemma_compile_failure_aborts(s: PipelineModel, e: EventModel)
    requires
        s.stage == Stage::Compiled,
        !(e matches EventModel::Exited(outcome) && outcome.success),
    ensures
        next(s, e).state.stage == Stage::Finished,
        next(s, e).action matches ActionModel::Finish { result } && result is Err,
{
}

/// The action that refuses an answer given after the end.
pub open spec fn refusal() -> ActionModel {
    ActionModel::Finish { result: Err(BuildErrorModel::Unexpected) }
}

/// Once a build is over it stays over: every later answer is refused, and the
/// only action ever asked for again is to stop.
pub proof fn lemma_nothing_follows_the_end(s: PipelineModel, events: Seq<EventModel>)
    requires
        s.stage == Stage::Finished,
    ensures
        forall|i: int| 0 <= i < actions_of(s, events).len() ==> #[trigger] actions_of(s, events)[i]
            == refusal(),
        forall|i: int| 0 <= i < actions_of(s, events).len() ==> is_finish(
            #[trigger] actions_of(s, events)[i],
        ),
        actions_of(s, events).len() == events.len(),
    decreases events.len(),
{
    if events.len() > 0 {
        let after = next(s, events[0]);
        lemma_nothing_follows_the_end(after.state, events.drop_first());
        let rest = actions_of(after.state, events.drop_first());
        assert forall|i: int| 0 <= i < actions_of(s, events).len() implies #[trigger] actions_of(
            s,
            events,
        )[i] == refusal() by {
            if i > 0 {
                assert(actions_of(s, events)[i] == rest[i - 1]);
            }
        }
    }
}

/// After an installation that did not report success no answer whatsoever
/// makes the build ask for anything but to stop: the bundling never begins.
pub proof fn lemma_no_bundling_after_failed_install(
    s: PipelineModel,
    e: EventModel,
    later: Seq<EventModel>,
)
    requires
        s.stage == Stage::Installed,
        !(e matches EventModel::Exited(outcome) && outcome.success),
    ensures
        forall|i: int| 0 <= i < actions_of(s, seq![e] + later).len() ==> is_finish(
            #[trigger] actions_of(s, seq![e] + later)[i],
        ),
{
    let events = seq![e] + later;
    let after = next(s, e);
    assert(events[0] == e);
    assert(events.drop_first() =~= later);
    lemma_nothing_follows_the_end(after.state, later);
    let rest = actions_of(after.state, later);
    assert forall|i: int| 0 <= i < actions_of(s, events).len() implies is_finish(
        #[trigger] actions_of(s, events)[i],
    ) by {
        if i > 0 {
            assert(actions_of(s, events)[i] == rest[i - 1]);
        }
    }
}

/// A full version is settled without the index: the build goes straight on to
/// the download of the host's runtime in exactly the requested version, and
/// never asks for the index.
pub proof fn lemma_full_version_needs_no_index(s: PipelineModel, e: EventModel)
    requires
        s.stage == Stage::OutputDir,
        crate::version::is_full_version(s.request.runtime_version),
    ensures
        !(next(s, e).action is FetchIndex),
        next(s, e).state.stage != Stage::Index,
        e is Done && platform_named(s.host.os) is Some ==> {
            &&& next(s, e).state.version == s.request.runtime_version
            &&& next(s, e).action == (ActionModel::Download {
                url: url_of(s.request.runtime_version, platform_named(s.host.os)->0.arch()),
            })
        },
{
}

/// A target whose name stands for no platform ends the build with the error
/// that carries the name, and no download is asked for it.
pub proof fn lemma_unsupported_target_stops(s: PipelineModel)
    requires
        s.built < s.targets.len(),
        platform_named(s.targets[s.built as int]) is None,
    ensures
        begin_target(s) == fail(
            s,
            BuildErrorModel::UnsupportedPlatform(s.targets[s.built as int]),
        ),
        !(begin_target(s).action is Download),
{
}

/// A host whose operating system has no runtime architecture ends the build
/// with the error that carries its name, before the version index or any
/// archive is fetched.
pub proof fn lemma_unsupported_host_stops(s: PipelineModel, e: EventModel)
    requires
        s.stage == Stage::OutputDir,
        platform_named(s.host.os) is None,
    ensures
        next(s, e).state.stage == Stage::Finished,
        e is Done ==> next(s, e).action == (ActionModel::Finish {
            result: Err(BuildErrorModel::UnsupportedPlatform(s.host.os)),
        }),
{
}

/// Every download that a build asks for is that of the runtime of a
/// platform, in the version held by the state it leads to: the platform of
/// the host, or that of the target being built.
pub proof fn lemma_downloads_are_for_platforms(s: PipelineModel, e: EventModel)
    requires
        next(s, e).action is Download,
    ensures
        ({
            let after = next(s, e).state;
            let url = next(s, e).action->Download_url;
            ||| {
                &&& after.stage == Stage::HostRuntime
                &&& platform_named(after.host.os) is Some
                &&& url == url_of(after.version, platform_named(after.host.os)->0.arch())
            }
            ||| {
                &&& after.stage == Stage::TargetFetched
                &&& current_target(after) is Some
                &&& url == url_of(after.version, current_target(after)->0.arch())
            }
        }),
{
    match s.stage {
        Stage::OutputDir => {},
        Stage::Index => {},
        Stage::BlobGenerated => {},
        Stage::Injected => {},
        Stage::Signed => {},
        _ => {},
    }
}

/// The request and the host never change, and from the download of the host's
/// runtime on neither does the version: every executable of a build embeds
/// the same runtime version.
pub proof fn lemma_version_is_settled_once(s: PipelineModel, e: EventModel)
    ensures
        next(s, e).state.request == s.request,
        next(s, e).state.host == s.host,
        s.stage != Stage::OutputDir && s.stage != Stage::Index ==> next(s, e).state.version
            == s.version,
{
}

/// The targets are laid down by the first step, as the request's platform
/// expands on the host, and no later step changes them.
pub proof fn lemma_targets_are_laid_down_once(s: PipelineModel, e: EventModel)
    ensures
        s.stage == Stage::Created && e is Begin ==> next(s, e).state.targets == expanded(
            s.request.platform,
            s.host.os,
        ),
        !(s.stage == Stage::Created && e is Begin) ==> next(s, e).state.targets == s.targets,
{
}

/// The executable that the step `step` asks to write, if it asks for one.
pub open spec fn executable_written(step: StepModel) -> Seq<Seq<char>> {
    if step.state.stage == Stage::TargetSaved && step.action is WriteFile {
        seq![step.action->WriteFile_path]
    } else {
        Seq::empty()
    }
}

/// The executables that a build asks to write, in order, when it is in the
/// state `s` and is answered with `events` in turn.
pub open spec fn executables_written(s: PipelineModel, events: Seq<EventModel>) -> Seq<Seq<char>>
    decreases events.len(),
{
    if events.len() == 0 {
        Seq::empty()
    } else {
        executable_written(next(s, events[0])) + executables_written(
            next(s, events[0]).state,
            events.drop_first(),
        )
    }
}

/// The build that is in the state `s` ends well with the last of `events`.
pub open spec fn succeeds(s: PipelineModel, events: Seq<EventModel>) -> bool {
    events.len() > 0 && actions_of(s, events).last() == (ActionModel::Finish { result: Ok(()) })
}

/// The targets whose executables are still to be written in the state `s`.
pub open spec fn targets_left(s: PipelineModel) -> Seq<Seq<char>> {
    match s.stage {
        Stage::Created => expanded(s.request.platform, s.host.os),
        Stage::TargetFetched => s.targets.subrange(s.built as int, s.targets.len() as int),
        Stage::TargetSaved | Stage::Unsigned | Stage::Injected | Stage::Signed => s.targets.subrange(
            s.built as int + 1,
            s.targets.len() as int,
        ),
        Stage::Finished => Seq::empty(),
        _ => s.targets,
    }
}

/// The paths of the executables for the platforms that `names` stand for.
pub open spec fn executables_for(output_dir: Seq<char>, names: Seq<Seq<char>>) -> Seq<Seq<char>> {
    Seq::new(names.len(), |i: int| child(output_dir, platform_named(names[i])->0.artifact()))
}

/// Every one of `names` stands for a platform.
pub open spec fn all_platforms(names: Seq<Seq<char>>) -> bool {
    forall|i: int| 0 <= i < names.len() ==> platform_named(#[trigger] names[i]) is Some
}

/// The actions of a run are the first action and those of the run that
/// follows it.
proof fn lemma_last_action(s: PipelineModel, events: Seq<EventModel>)
    requires
        events.len() > 1,
    ensures
        actions_of(s, events).last() == actions_of(
            next(s, events[0]).state,
            events.drop_first(),
        ).last(),
        actions_of(next(s, events[0]).state, events.drop_first()).len() == events.len() - 1,
{
    lemma_actions_len(next(s, events[0]).state, events.drop_first());
}

/// A run asks for as many actions as it is given answers.
proof fn lemma_actions_len(s: PipelineModel, events: Seq<EventModel>)
    ensures
        actions_of(s, events).len() == events.len(),
    decreases events.len(),
{
    if events.len() > 0 {
        lemma_actions_len(next(s, events[0]).state, events.drop_first());
    }
}

/// The target that the step from `s` asks to write the executable of: the
/// current one where the runtime for it was being fetched, else none.
pub open spec fn target_taken(s: PipelineModel) -> Seq<Seq<char>> {
    if s.stage == Stage::TargetFetched {
        seq![s.targets[s.built as int]]
    } else {
        Seq::empty()
    }
}

/// A step that ends the build well leaves no target behind.
proof fn lemma_good_end_leaves_nothing(s: PipelineModel, e: EventModel)
    requires
        next(s, e).action == (ActionModel::Finish { result: Ok(()) }),
    ensures
        targets_left(s) =~= Seq::<Seq<char>>::empty(),
        executable_written(next(s, e)) =~= Seq::<Seq<char>>::empty(),
{
    match s.stage {
        Stage::BlobGenerated => {},
        Stage::Injected => {},
        Stage::Signed => {},
        _ => {},
    }
}

/// A step that does not end the build asks to write an executable exactly
/// when it answers the download for the current target, and then it is that
/// target's; the targets left before the step are the one it took and those
/// left after it.
proof fn lemma_step_keeps_account(s: PipelineModel, e: EventModel)
    requires
        next(s, e).state.stage != Stage::Finished,
    ensures
        next(s, e).state.request == s.request,
        targets_left(s) =~= target_taken(s) + targets_left(next(s, e).state),
        s.stage == Stage::TargetFetched ==> s.built < s.targets.len() && platform_named(
            s.targets[s.built as int],
        ) is Some,
        executable_written(next(s, e)) =~= executables_for(s.request.output_dir, target_taken(s)),
{
    match s.stage {
        Stage::Created => {},
        Stage::OutputDir => {},
        Stage::Index => {},
        Stage::HostRuntime => {},
        Stage::HostRuntimeSaved => {},
        Stage::CloneCleared => {},
        Stage::Cloned => {},
        Stage::Manifest => {},
        Stage::Installed => {},
        Stage::Compiled => {},
        Stage::Postinstalled => {},
        Stage::BundlerProbed => {},
        Stage::Bundled => {},
        Stage::BundleChecked => {},
        Stage::DescriptorWritten => {},
        Stage::BlobGenerated => {},
        Stage::TargetFetched => {},
        Stage::TargetSaved => {},
        Stage::Unsigned => {},
        Stage::Injected => {},
        Stage::Signed => {},
        Stage::Finished => {},
    }
}

/// The executables of names put one after the other are the executables of
/// the first names followed by those of the second.
proof fn lemma_executables_for_joined(
    output_dir: Seq<char>,
    first: Seq<Seq<char>>,
    second: Seq<Seq<char>>,
)
    ensures
        executables_for(output_dir, first + second) =~= executables_for(output_dir, first)
            + executables_for(output_dir, second),
{
}

/// A build that ends well has asked to write, from whatever state it was in,
/// exactly the executables of the targets that were left, each once and in
/// build order; and each of those targets stands for a platform.
pub proof fn lemma_success_writes_what_is_left(s: PipelineModel, events: Seq<EventModel>)
    requires
        succeeds(s, events),
    ensures
        executables_written(s, events) == executables_for(s.request.output_dir, targets_left(s)),
        all_platforms(targets_left(s)),
    decreases events.len(),
{
    let step = next(s, events[0]);
    let rest = events.drop_first();
    let out = s.request.output_dir;
    if rest.len() == 0 {
        assert(actions_of(step.state, rest) =~= Seq::<ActionModel>::empty());
        assert(actions_of(s, events) =~= seq![step.action]);
        lemma_good_end_leaves_nothing(s, events[0]);
        assert(executables_written(step.state, rest) =~= Seq::<Seq<char>>::empty());
        assert(executables_written(s, events) =~= executables_for(out, targets_left(s)));
    } else {
        lemma_last_action(s, events);
        if step.state.stage == Stage::Finished {
            lemma_nothing_follows_the_end(step.state, rest);
            assert(actions_of(step.state, rest).last() == refusal());
        } else {
            lemma_success_writes_what_is_left(step.state, rest);
            lemma_step_keeps_account(s, events[0]);
            let taken = target_taken(s);
            let left_after = targets_left(step.state);
            lemma_executables_for_joined(out, taken, left_after);
            assert forall|i: int| 0 <= i < targets_left(s).len() implies platform_named(
                #[trigger] targets_left(s)[i],
            ) is Some by {
                if i >= taken.len() {
                    assert(targets_left(s)[i] == left_after[i - taken.len()]);
                }
            }
        }
    }
}

/// A build that ends well has written exactly the executables of the
/// platforms that its request expands to on its host, each once and in build
/// order, and has written no other executable.
pub proof fn lemma_build_writes_its_targets(
    request: RequestModel,
    host: HostModel,
    events: Seq<EventModel>,
)
    requires
        succeeds(initial(request, host), events),
    ensures
        executables_written(initial(request, host), events) == executables_for(
            request.output_dir,
            expanded(request.platform, host.os),
        ),
        all_platforms(expanded(request.platform, host.os)),
{
    lemma_success_writes_what_is_left(initial(request, host), events);
}

/// A build for `all` that ends well has written the three executables, for
/// Linux, macOS and Windows, and nothing else.
pub proof fn lemma_all_writes_three_executables(
    request: RequestModel,
    host: HostModel,
    events: Seq<EventModel>,
)
    requires
        request.platform == "all"@,
        succeeds(initial(request, host), events),
    ensures
        executables_written(initial(request, host), events) == seq![
            child(request.output_dir, "app-linux"@),
            child(request.output_dir, "app-macos"@),
            child(request.output_dir, "app-windows.exe"@),
        ],
{
    lemma_build_writes_its_targets(request, host, events);
    lemma_platform_names_distinct();
    let names = expanded(request.platform, host.os);
    assert(names == seq!["linux"@, "macos"@, "windows"@]);
    assert(executables_for(request.output_dir, names) =~= seq![
        child(request.output_dir, "app-linux"@),
        child(request.output_dir, "app-macos"@),
        child(request.output_dir, "app-windows.exe"@),
    ]);
}

/// A build for `host` that ends well has written exactly one executable, that
/// of the running system, where `darwin` counts as macOS.
pub proof fn lemma_host_writes_one_executable(
    request: RequestModel,
    host: HostModel,
    events: Seq<EventModel>,
)
    requires
        request.platform == "host"@,
        succeeds(initial(request, host), events),
    ensures
        platform_named(host.os) is Some,
        executables_written(initial(request, host), events) == seq![
            child(request.output_dir, platform_named(host.os)->0.artifact()),
        ],
{
    lemma_build_writes_its_targets(request, host, events);
    lemma_platform_names_distinct();
    let names = expanded(request.platform, host.os);
    assert(names == seq![normalized_os(host.os)]);
    assert(platform_named(names[0]) is Some);
    assert(platform_named(normalized_os(host.os)) == platform_named(host.os));
    assert(executables_for(request.output_dir, names) =~= seq![
        child(request.output_dir, platform_named(host.os)->0.artifact()),
    ]);
}

} // verus!
