//! Single executable applications: the descriptor and the run that make the
//! blob, and the commands that put the blob into a runtime binary.

use crate::command::{CommandModel, ToolCommand, plain_command, push_arg};
use crate::layout::{child, child_path};
use crate::platform::Platform;
use crate::text::starts_with;
use vstd::prelude::*;

verus! {

/// The marker inside a runtime binary that the injection tool flips to switch
/// the binary to running its blob. It is the same for every platform.
pub open spec fn sentinel_fuse() -> Seq<char> {
    "NODE_SEA_FUSE_fce680ab2cc467b6e072b8b5df1996b2"@
}

/// The marker that the injection tool is pointed at.
pub fn sentinel_fuse_name() -> (r: &'static str)
    ensures
        r@ == sentinel_fuse(),
{
    "NODE_SEA_FUSE_fce680ab2cc467b6e072b8b5df1996b2"
}

/// What the blob generator is told: the script to pack, where the blob goes,
/// and that the warning about an experimental feature is switched off.
#[derive(Clone, Debug, PartialEq, Eq)]
pub struct SeaConfig {
    pub main: String,
    pub output: String,
    pub disable_experimental_sea_warning: bool,
}

/// A `SeaConfig` as plain sequences.
pub struct SeaConfigModel {
    pub main: Seq<char>,
    pub output: Seq<char>,
    pub disable_experimental_sea_warning: bool,
}

impl View for SeaConfig {
    type V = SeaConfigModel;

    open spec fn view(&self) -> SeaConfigModel {
        SeaConfigModel {
            main: self.main@,
            output: self.output@,
            disable_experimental_sea_warning: self.disable_experimental_sea_warning,
        }
    }
}

/// The descriptor that packs `bundle_path` into `blob_path`.
pub open spec fn sea_config_model(bundle_path: Seq<char>, blob_path: Seq<char>) -> SeaConfigModel {
    SeaConfigModel { main: bundle_path, output: blob_path, disable_experimental_sea_warning: true }
}

impl SeaConfig {
    /// The descriptor that packs the bundle at `bundle_path` into a blob at
    /// `blob_path`.
    pub fn new(bundle_path: &str, blob_path: &str) -> (r: SeaConfig)
        ensures
            r@ == sea_config_model(bundle_path@, blob_path@),
    {
        SeaConfig {
            main: String::from_str(bundle_path),
            output: String::from_str(blob_path),
            disable_experimental_sea_warning: true,
        }
    }
}

/// The run of the runtime at `node_binary` that makes the blob described by
/// the descriptor at `config_path`.
pub open spec fn blob_command_model(node_binary: Seq<char>, config_path: Seq<char>) -> CommandModel {
    plain_command(node_binary, seq!["--experimental-sea-config"@, config_path])
}

/// The command that makes the blob.
pub fn blob_command(node_binary: &str, config_path: &str) -> (c: ToolCommand)
    ensures
        c@ == blob_command_model(node_binary@, config_path@),
{
    let mut args: Vec<String> = Vec::new();
    assert(args.deep_view() =~= Seq::<Seq<char>>::empty());
    push_arg(&mut args, "--experimental-sea-config");
    push_arg(&mut args, config_path);
    assert(args.deep_view() =~= seq!["--experimental-sea-config"@, config_path@]);
    let env: Vec<(String, String)> = Vec::new();
    assert(env.deep_view() =~= Seq::<(Seq<char>, Seq<char>)>::empty());
    ToolCommand { program: String::from_str(node_binary), args, dir: None, env }
}

/// The program that runs the injection tool on the host.
pub open spec fn npx_program(windows_host: bool) -> Seq<char> {
    if windows_host {
        "npx.cmd"@
    } else {
        "npx"@
    }
}

/// The injection of the blob at `blob_path` into the binary at `exe_path`,
/// under the resource key `NODE_SEA_BLOB` and with the sentinel fuse. A binary
/// for a signed platform is told which segment to use as well.
pub open spec fn inject_command_model(
    exe_path: Seq<char>,
    blob_path: Seq<char>,
    platform: Platform,
    windows_host: bool,
) -> CommandModel {
    plain_command(
        npx_program(windows_host),
        seq!["postject"@, exe_path, "NODE_SEA_BLOB"@, blob_path, "--sentinel-fuse"@, sentinel_fuse()]
            + if platform.signed() {
            seq!["--macho-segment-name"@, "NODE_SEA"@]
        } else {
            Seq::empty()
        },
    )
}

/// The command that injects the blob into the binary, which it changes in
/// place.
pub fn inject_command(exe_path: &str, blob_path: &str, platform: Platform, windows_host: bool) -> (c:
    ToolCommand)
    ensures
        c@ == inject_command_model(exe_path@, blob_path@, platform, windows_host),
{
    let mut args: Vec<String> = Vec::new();
    assert(args.deep_view() =~= Seq::<Seq<char>>::empty());
    push_arg(&mut args, "postject");
    push_arg(&mut args, exe_path);
    push_arg(&mut args, "NODE_SEA_BLOB");
    push_arg(&mut args, blob_path);
    push_arg(&mut args, "--sentinel-fuse");
    push_arg(&mut args, sentinel_fuse_name());
    if platform.needs_codesign() {
        push_arg(&mut args, "--macho-segment-name");
        push_arg(&mut args, "NODE_SEA");
    }
    assert(args.deep_view() =~= inject_command_model(
        exe_path@,
        blob_path@,
        platform,
        windows_host,
    ).args);
    let env: Vec<(String, String)> = Vec::new();
    assert(env.deep_view() =~= Seq::<(Seq<char>, Seq<char>)>::empty());
    let program = if windows_host {
        String::from_str("npx.cmd")
    } else {
        String::from_str("npx")
    };
    ToolCommand { program, args, dir: None, env }
}

/// The removal of the code signature of the binary at `exe_path`.
pub open spec fn unsign_command_model(exe_path: Seq<char>) -> CommandModel {
    plain_command("codesign"@, seq!["--remove-signature"@, exe_path])
}

/// The signing of the binary at `exe_path` with the ad-hoc identity.
pub open spec fn sign_command_model(exe_path: Seq<char>) -> CommandModel {
    plain_command("codesign"@, seq!["--sign"@, "-"@, exe_path])
}

/// The command that removes the binary's code signature, to be run before the
/// injection.
pub fn unsign_command(exe_path: &str) -> (c: ToolCommand)
    ensures
        c@ == unsign_command_model(exe_path@),
{
    let mut args: Vec<String> = Vec::new();
    assert(args.deep_view() =~= Seq::<Seq<char>>::empty());
    push_arg(&mut args, "--remove-signature");
    push_arg(&mut args, exe_path);
    assert(args.deep_view() =~= seq!["--remove-signature"@, exe_path@]);
    let env: Vec<(String, String)> = Vec::new();
    assert(env.deep_view() =~= Seq::<(Seq<char>, Seq<char>)>::empty());
    ToolCommand { program: String::from_str("codesign"), args, dir: None, env }
}

/// The command that signs the binary with the ad-hoc identity, to be run after
/// the injection.
pub fn sign_command(exe_path: &str) -> (c: ToolCommand)
    ensures
        c@ == sign_command_model(exe_path@),
{
    let mut args: Vec<String> = Vec::new();
    assert(args.deep_view() =~= Seq::<Seq<char>>::empty());
    push_arg(&mut args, "--sign");
    push_arg(&mut args, "-");
    push_arg(&mut args, exe_path);
    assert(args.deep_view() =~= seq!["--sign"@, "-"@, exe_path@]);
    let env: Vec<(String, String)> = Vec::new();
    assert(env.deep_view() =~= Seq::<(Seq<char>, Seq<char>)>::empty());
    ToolCommand { program: String::from_str("codesign"), args, dir: None, env }
}

/// A produced executable.
#[derive(Clone, Debug, PartialEq, Eq)]
pub struct Artifact {
    pub platform: Platform,
    pub path: String,
    pub size_bytes: u64,
}

impl Artifact {
    /// The executable for `platform` in `output_dir`, which takes up
    /// `size_bytes` bytes.
    pub fn new(platform: Platform, output_dir: &str, size_bytes: u64) -> (r: Artifact)
        ensures
            r.platform == platform,
            r.path@ == child(output_dir@, platform.artifact()),
            r.size_bytes == size_bytes,
    {
        Artifact { platform, path: child_path(output_dir, platform.artifact_name()), size_bytes }
    }
}

/// The file names that are listed as executables: those that begin with `app-`.
pub open spec fn is_executable_name(name: Seq<char>) -> bool {
    crate::text::has_prefix(name, "app-"@)
}

/// Whether a file of the output directory is listed as an executable.
pub fn is_executable(name: &str) -> (r: bool)
    ensures
        r == is_executable_name(name@),
{
    starts_with(name, "app-")
}

} // verus!
