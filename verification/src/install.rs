//! Preparing the staged application: what its package manifest asks for, and the
//! package-manager commands that install, compile and post-install it.

use crate::command::{CommandModel, ToolCommand, push_arg};
use crate::text::{contains, copy_pairs, str_eq};
use vstd::prelude::*;

verus! {

/// What `serde_json` makes of `text` and of its member `member`: the parser's
/// message where `text` is no JSON document, `None` where the document has no
/// such member or the member is no object, else the member's names.
pub uninterp spec fn json_member_names(text: Seq<char>, member: Seq<char>) -> Result<
    Option<Seq<Seq<char>>>,
    Seq<char>,
>;

/// A lookup's result as plain sequences.
pub open spec fn lookup_view(r: Result<Option<Vec<String>>, String>) -> Result<
    Option<Seq<Seq<char>>>,
    Seq<char>,
> {
    match r {
        Ok(found) => Ok(found.deep_view()),
        Err(message) => Err(message@),
    }
}

/// Parses `text` with `serde_json::from_str` into a `serde_json::Value`, looks
/// `member` up with `Value::get`, takes it as an object with `Value::as_object`
/// and lists its names with `Map::keys`. A parse error is returned as its
/// message. Nothing is claimed beyond this: the result is a function of the two
/// texts, named `json_member_names`.
#[verifier::external_body]
fn member_names(text: &str, member: &str) -> (r: Result<Option<Vec<String>>, String>)
    ensures
        lookup_view(r) == json_member_names(text@, member@),
{
    let document: serde_json::Value = match serde_json::from_str(text) {
        Ok(document) => document,
        Err(e) => return Err(e.to_string()),
    };
    let object = match document.get(member) {
        Some(value) => value.as_object(),
        None => None,
    };
    match object {
        Some(entries) => Ok(Some(entries.keys().cloned().collect())),
        None => Ok(None),
    }
}

/// What the installer reads in a package manifest.
#[derive(Clone, Debug, PartialEq, Eq)]
pub struct PackageManifest {
    /// The names listed under `devDependencies`.
    pub dev_dependencies: Vec<String>,
    /// The names listed under `scripts`.
    pub scripts: Vec<String>,
}

/// A `PackageManifest` as plain sequences.
pub struct ManifestModel {
    pub dev_dependencies: Seq<Seq<char>>,
    pub scripts: Seq<Seq<char>>,
}

impl View for PackageManifest {
    type V = ManifestModel;

    open spec fn view(&self) -> ManifestModel {
        ManifestModel {
            dev_dependencies: self.dev_dependencies.deep_view(),
            scripts: self.scripts.deep_view(),
        }
    }
}

/// The names of a member, none where the manifest has no such object.
pub open spec fn names_or_none(found: Option<Seq<Seq<char>>>) -> Seq<Seq<char>> {
    match found {
        Some(names) => names,
        None => Seq::empty(),
    }
}

/// The manifest that `dev` and `scripts` describe, each as `json_member_names`
/// gives it; the first parse error wins.
pub open spec fn manifest_from(
    dev: Result<Option<Seq<Seq<char>>>, Seq<char>>,
    scripts: Result<Option<Seq<Seq<char>>>, Seq<char>>,
) -> Result<ManifestModel, Seq<char>> {
    match dev {
        Err(message) => Err(message),
        Ok(dev_names) => match scripts {
            Err(message) => Err(message),
            Ok(script_names) => Ok(
                ManifestModel {
                    dev_dependencies: names_or_none(dev_names),
                    scripts: names_or_none(script_names),
                },
            ),
        },
    }
}

/// A `Result` of a manifest as plain sequences.
pub open spec fn manifest_result_view(r: Result<PackageManifest, String>) -> Result<
    ManifestModel,
    Seq<char>,
> {
    match r {
        Ok(m) => Ok(m@),
        Err(e) => Err(e@),
    }
}

/// Builds the manifest from the two lookups. A member that is missing, or is no
/// object, lists nothing.
pub fn manifest_of(
    dev: Result<Option<Vec<String>>, String>,
    scripts: Result<Option<Vec<String>>, String>,
) -> (r: Result<PackageManifest, String>)
    ensures
        manifest_result_view(r) == manifest_from(lookup_view(dev), lookup_view(scripts)),
{
    let dev_names = match dev {
        Err(message) => {
            return Err(message);
        },
        Ok(found) => found,
    };
    let script_names = match scripts {
        Err(message) => {
            return Err(message);
        },
        Ok(found) => found,
    };
    let dev_dependencies = match dev_names {
        Some(names) => names,
        None => {
            let none: Vec<String> = Vec::new();
            assert(none.deep_view() =~= Seq::<Seq<char>>::empty());
            none
        },
    };
    let scripts = match script_names {
        Some(names) => names,
        None => {
            let none: Vec<String> = Vec::new();
            assert(none.deep_view() =~= Seq::<Seq<char>>::empty());
            none
        },
    };
    Ok(PackageManifest { dev_dependencies, scripts })
}

/// Reads the `devDependencies` and `scripts` of the manifest `text`. Text that
/// is no JSON document is refused with the parser's message.
pub fn read_manifest(text: &str) -> (r: Result<PackageManifest, String>)
    ensures
        manifest_result_view(r) == manifest_from(
            json_member_names(text@, "devDependencies"@),
            json_member_names(text@, "scripts"@),
        ),
{
    let dev = member_names(text, "devDependencies");
    let scripts = member_names(text, "scripts");
    manifest_of(dev, scripts)
}

/// Whether `name` is one of `names`.
pub fn lists(names: &Vec<String>, name: &str) -> (r: bool)
    ensures
        r == names.deep_view().contains(name@),
{
    let mut i: usize = 0;
    while i < names.len()
        invariant
            i <= names.len(),
            forall|j: int| 0 <= j < i ==> names@[j]@ != name@,
        decreases names.len() - i,
    {
        if str_eq(names[i].as_str(), name) {
            assert(names.deep_view()[i as int] == name@);
            return true;
        }
        i += 1;
    }
    false
}

/// A manifest asks for compile tooling when its development dependencies name
/// one of the three known compiler packages.
pub open spec fn needs_compile_tooling(m: ManifestModel) -> bool {
    ||| m.dev_dependencies.contains("@babel/core"@)
    ||| m.dev_dependencies.contains("@babel/cli"@)
    ||| m.dev_dependencies.contains("babel-cli"@)
}

/// A manifest has a compile step when its scripts name `compile`.
pub open spec fn declares_compile_script(m: ManifestModel) -> bool {
    m.scripts.contains("compile"@)
}

impl PackageManifest {
    /// Whether development dependencies have to be installed too.
    pub fn has_compile_tooling(&self) -> (r: bool)
        ensures
            r == needs_compile_tooling(self@),
    {
        lists(&self.dev_dependencies, "@babel/core") || lists(&self.dev_dependencies, "@babel/cli")
            || lists(&self.dev_dependencies, "babel-cli")
    }

    /// Whether the compile script has to run after the installation.
    pub fn has_compile_script(&self) -> (r: bool)
        ensures
            r == declares_compile_script(self@),
    {
        lists(&self.scripts, "compile")
    }
}

/// The package manager's program name on the host.
pub open spec fn npm_program(windows_host: bool) -> Seq<char> {
    if windows_host {
        "npm.cmd"@
    } else {
        "npm"@
    }
}

/// The installation: scripts are never run; development dependencies are left
/// out unless the manifest asks for compile tooling.
pub open spec fn install_command_model(
    app_path: Seq<char>,
    tooling: bool,
    windows_host: bool,
) -> CommandModel {
    CommandModel {
        program: npm_program(windows_host),
        args: if tooling {
            seq!["install"@, "--ignore-scripts"@]
        } else {
            seq!["install"@, "--ignore-scripts"@, "--omit=dev"@]
        },
        dir: Some(app_path),
        env: Seq::empty(),
    }
}

/// The run of the script `script` of the manifest, with `env` added to the
/// child's environment.
pub open spec fn script_command_model(
    app_path: Seq<char>,
    script: Seq<char>,
    env: Seq<(Seq<char>, Seq<char>)>,
    windows_host: bool,
) -> CommandModel {
    CommandModel {
        program: npm_program(windows_host),
        args: seq!["run"@, script],
        dir: Some(app_path),
        env,
    }
}

/// The package manager's program name on the host.
pub fn npm_name(windows_host: bool) -> (r: String)
    ensures
        r@ == npm_program(windows_host),
{
    if windows_host {
        String::from_str("npm.cmd")
    } else {
        String::from_str("npm")
    }
}

/// The command that installs the dependencies of the application at `app_path`.
pub fn install_command(app_path: &str, tooling: bool, windows_host: bool) -> (c: ToolCommand)
    ensures
        c@ == install_command_model(app_path@, tooling, windows_host),
{
    let mut args: Vec<String> = Vec::new();
    assert(args.deep_view() =~= Seq::<Seq<char>>::empty());
    push_arg(&mut args, "install");
    push_arg(&mut args, "--ignore-scripts");
    if !tooling {
        push_arg(&mut args, "--omit=dev");
    }
    assert(args.deep_view() =~= install_command_model(app_path@, tooling, windows_host).args);
    let env: Vec<(String, String)> = Vec::new();
    assert(env.deep_view() =~= Seq::<(Seq<char>, Seq<char>)>::empty());
    ToolCommand {
        program: npm_name(windows_host),
        args,
        dir: Some(String::from_str(app_path)),
        env,
    }
}

/// The command that runs the manifest's compile script.
pub fn compile_command(app_path: &str, windows_host: bool) -> (c: ToolCommand)
    ensures
        c@ == script_command_model(app_path@, "compile"@, Seq::empty(), windows_host),
{
    let mut args: Vec<String> = Vec::new();
    assert(args.deep_view() =~= Seq::<Seq<char>>::empty());
    push_arg(&mut args, "run");
    push_arg(&mut args, "compile");
    assert(args.deep_view() =~= seq!["run"@, "compile"@]);
    let env: Vec<(String, String)> = Vec::new();
    assert(env.deep_view() =~= Seq::<(Seq<char>, Seq<char>)>::empty());
    ToolCommand {
        program: npm_name(windows_host),
        args,
        dir: Some(String::from_str(app_path)),
        env,
    }
}

/// The command that runs the manifest's postinstall script. Every variable of
/// `env` reaches the child with its true value.
pub fn postinstall_command(
    app_path: &str,
    env: &Vec<(String, String)>,
    windows_host: bool,
) -> (c: ToolCommand)
    ensures
        c@ == script_command_model(app_path@, "postinstall"@, env.deep_view(), windows_host),
{
    let mut args: Vec<String> = Vec::new();
    assert(args.deep_view() =~= Seq::<Seq<char>>::empty());
    push_arg(&mut args, "run");
    push_arg(&mut args, "postinstall");
    assert(args.deep_view() =~= seq!["run"@, "postinstall"@]);
    ToolCommand {
        program: npm_name(windows_host),
        args,
        dir: Some(String::from_str(app_path)),
        env: copy_pairs(env),
    }
}

/// What a log may show of the variable `name`: stars where the name holds
/// `SECRET`, else the value.
pub open spec fn shown_value(name: Seq<char>, value: Seq<char>) -> Seq<char> {
    if crate::text::occurs_in(name, "SECRET"@) {
        "***"@
    } else {
        value
    }
}

/// What a log may show of the variable `name`. Only the echo is masked: the
/// command built by `postinstall_command` carries `value` itself.
pub fn display_value(name: &str, value: &str) -> (r: String)
    ensures
        r@ == shown_value(name@, value@),
{
    if contains(name, "SECRET") {
        String::from_str("***")
    } else {
        String::from_str(value)
    }
}

} // verus!
