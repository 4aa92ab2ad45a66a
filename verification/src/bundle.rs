//! Bundling the staged application: where the bundler program is looked for,
//! and how it is invoked.

use crate::command::{CommandModel, ToolCommand, plain_command, push_arg};
use crate::layout::{child, child_path};
use vstd::prelude::*;

verus! {

/// A place where the bundler program is looked for.
#[derive(Clone, Debug, PartialEq, Eq)]
pub struct Candidate {
    /// The path to look at.
    pub path: String,
    /// Whether the path, if the program is there, is to be used in its
    /// canonical form on hosts that give one. A place whose canonical form
    /// cannot be had counts as empty.
    pub canonical: bool,
}

/// A `Candidate` as plain sequences.
pub struct CandidateModel {
    pub path: Seq<char>,
    pub canonical: bool,
}

impl View for Candidate {
    type V = CandidateModel;

    open spec fn view(&self) -> CandidateModel {
        CandidateModel { path: self.path@, canonical: self.canonical }
    }
}

impl DeepView for Candidate {
    type V = CandidateModel;

    open spec fn deep_view(&self) -> CandidateModel {
        self@
    }
}

/// The places where the bundler program is looked for, in the order of the
/// search: under the directory the tool was installed from, as it is given;
/// beside the directory of the running executable, where that is known; and
/// twice under the working directory.
pub open spec fn bundler_candidates_model(
    install_dir: Seq<char>,
    exe_dir: Option<Seq<char>>,
) -> Seq<CandidateModel> {
    let first = seq![
        CandidateModel { path: child(install_dir, "bundler/index.js"@), canonical: false },
    ];
    let second = match exe_dir {
        Some(dir) => seq![
            CandidateModel { path: child(dir, "../bundler/index.js"@), canonical: true },
        ],
        None => Seq::empty(),
    };
    first + second + seq![
        CandidateModel { path: "bundler/index.js"@, canonical: true },
        CandidateModel { path: "./bundler/index.js"@, canonical: true },
    ]
}

/// Lists the places where the bundler program is looked for, in order.
pub fn bundler_candidates(install_dir: &str, exe_dir: &Option<String>) -> (r: Vec<Candidate>)
    ensures
        r.deep_view() == bundler_candidates_model(install_dir@, exe_dir.deep_view()),
{
    let mut r: Vec<Candidate> = Vec::new();
    r.push(Candidate { path: child_path(install_dir, "bundler/index.js"), canonical: false });
    match exe_dir {
        Some(dir) => {
            r.push(
                Candidate {
                    path: child_path(dir.as_str(), "../bundler/index.js"),
                    canonical: true,
                },
            );
        },
        None => {},
    }
    r.push(Candidate { path: String::from_str("bundler/index.js"), canonical: true });
    r.push(Candidate { path: String::from_str("./bundler/index.js"), canonical: true });
    assert(r.deep_view() =~= bundler_candidates_model(install_dir@, exe_dir.deep_view()));
    r
}

/// The first usable path of `probed`, if there is one.
pub open spec fn first_usable(probed: Seq<Option<Seq<char>>>) -> Option<Seq<char>>
    decreases probed.len(),
{
    if probed.len() == 0 {
        None
    } else if probed[0] is Some {
        probed[0]
    } else {
        first_usable(probed.drop_first())
    }
}

/// Picks the bundler program. `probed` holds, for each place of the search in
/// order, the path to use if the program is there, and nothing if it is not.
/// The first place that has it wins.
pub fn choose_bundler(probed: &Vec<Option<String>>) -> (r: Option<String>)
    ensures
        r.deep_view() == first_usable(probed.deep_view()),
{
    let mut i: usize = 0;
    assert(probed.deep_view().subrange(0, probed.len() as int) =~= probed.deep_view());
    while i < probed.len()
        invariant
            i <= probed.len(),
            first_usable(probed.deep_view()) == first_usable(
                probed.deep_view().subrange(i as int, probed.len() as int),
            ),
        decreases probed.len() - i,
    {
        let ghost rest = probed.deep_view().subrange(i as int, probed.len() as int);
        assert(rest[0] == probed.deep_view()[i as int]);
        assert(rest.drop_first() =~= probed.deep_view().subrange(i + 1, probed.len() as int));
        match &probed[i] {
            Some(path) => {
                return Some(path.clone());
            },
            None => {},
        }
        i += 1;
    }
    None
}

/// The run of the bundler `bundler` under the program `runtime`, on the
/// application at `app_path`, with the bundle going to `output_dir`. An entry
/// file, where one is given, follows `--entry`.
pub open spec fn bundle_command_model(
    runtime: Seq<char>,
    bundler: Seq<char>,
    app_path: Seq<char>,
    output_dir: Seq<char>,
    entry: Option<Seq<char>>,
) -> CommandModel {
    plain_command(
        runtime,
        seq![bundler, app_path, output_dir] + match entry {
            Some(e) => seq!["--entry"@, e],
            None => Seq::empty(),
        },
    )
}

/// The command that bundles the application.
pub fn bundle_command(
    runtime: &str,
    bundler: &str,
    app_path: &str,
    output_dir: &str,
    entry: &Option<String>,
) -> (c: ToolCommand)
    ensures
        c@ == bundle_command_model(runtime@, bundler@, app_path@, output_dir@, entry.deep_view()),
{
    let mut args: Vec<String> = Vec::new();
    assert(args.deep_view() =~= Seq::<Seq<char>>::empty());
    push_arg(&mut args, bundler);
    push_arg(&mut args, app_path);
    push_arg(&mut args, output_dir);
    match entry {
        Some(e) => {
            push_arg(&mut args, "--entry");
            push_arg(&mut args, e.as_str());
        },
        None => {},
    }
    assert(args.deep_view() =~= bundle_command_model(
        runtime@,
        bundler@,
        app_path@,
        output_dir@,
        entry.deep_view(),
    ).args);
    let env: Vec<(String, String)> = Vec::new();
    assert(env.deep_view() =~= Seq::<(Seq<char>, Seq<char>)>::empty());
    ToolCommand { program: String::from_str(runtime), args, dir: None, env }
}

} // verus!
