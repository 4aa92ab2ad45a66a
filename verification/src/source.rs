//! Staging the application source: a remote repository is cloned, a local path
//! is used as it is.

use crate::command::{CommandModel, ToolCommand, plain_command, push_arg};
use crate::text::{has_prefix, starts_with};
use vstd::prelude::*;

verus! {

/// A source is remote when it begins with `http`, which covers both web
/// schemes, or with `git@`, the mark of a remote reached over a secure shell.
pub open spec fn is_remote(source: Seq<char>) -> bool {
    has_prefix(source, "http"@) || has_prefix(source, "git@"@)
}

/// Whether the source has to be cloned. Any other source is a local path, used
/// as it is given and not looked for.
pub fn is_remote_source(source: &str) -> (r: bool)
    ensures
        r == is_remote(source@),
{
    starts_with(source, "http") || starts_with(source, "git@")
}

/// The shallow clone of `url` into `clone_dir`.
pub open spec fn clone_command_model(url: Seq<char>, clone_dir: Seq<char>) -> CommandModel {
    plain_command("git"@, seq!["clone"@, "--depth"@, "1"@, url, clone_dir])
}

/// The command that clones the newest revision of `url`, and no history, into
/// `clone_dir`.
pub fn clone_command(url: &str, clone_dir: &str) -> (c: ToolCommand)
    ensures
        c@ == clone_command_model(url@, clone_dir@),
{
    let mut args: Vec<String> = Vec::new();
    assert(args.deep_view() =~= Seq::<Seq<char>>::empty());
    push_arg(&mut args, "clone");
    push_arg(&mut args, "--depth");
    push_arg(&mut args, "1");
    push_arg(&mut args, url);
    push_arg(&mut args, clone_dir);
    assert(args.deep_view() =~= seq!["clone"@, "--depth"@, "1"@, url@, clone_dir@]);
    let env: Vec<(String, String)> = Vec::new();
    assert(env.deep_view() =~= Seq::<(Seq<char>, Seq<char>)>::empty());
    ToolCommand { program: String::from_str("git"), args, dir: None, env }
}

} // verus!
