//! Target platforms: their public names, runtime architectures and the file
//! names of the executables built for them.

use crate::error::BuildError;
use crate::text::str_eq;
use vstd::prelude::*;

verus! {

/// An operating system that an executable can be built for.
#[derive(Clone, Copy, Debug, PartialEq, Eq, Structural)]
pub enum Platform {
    Linux,
    Macos,
    Windows,
}

impl Platform {
    /// The platform's public name.
    pub open spec fn name(self) -> Seq<char> {
        match self {
            Platform::Linux => "linux"@,
            Platform::Macos => "macos"@,
            Platform::Windows => "windows"@,
        }
    }

    /// The architecture tag of the runtime archive for the platform.
    pub open spec fn arch(self) -> Seq<char> {
        match self {
            Platform::Linux => "linux-x64"@,
            Platform::Macos => "darwin-x64"@,
            Platform::Windows => "win-x64"@,
        }
    }

    /// The file name of the executable built for the platform.
    pub open spec fn artifact(self) -> Seq<char> {
        match self {
            Platform::Linux => "app-linux"@,
            Platform::Macos => "app-macos"@,
            Platform::Windows => "app-windows.exe"@,
        }
    }

    /// Whether binaries for the platform carry a code signature, which has to
    /// be removed before the blob is injected and made anew afterwards.
    pub open spec fn signed(self) -> bool {
        self == Platform::Macos
    }

    /// The platform's public name.
    pub fn public_name(self) -> (r: &'static str)
        ensures
            r@ == self.name(),
    {
        match self {
            Platform::Linux => "linux",
            Platform::Macos => "macos",
            Platform::Windows => "windows",
        }
    }

    /// The architecture tag of the runtime archive for the platform.
    pub fn node_arch(self) -> (r: &'static str)
        ensures
            r@ == self.arch(),
    {
        match self {
            Platform::Linux => "linux-x64",
            Platform::Macos => "darwin-x64",
            Platform::Windows => "win-x64",
        }
    }

    /// The file name of the executable built for the platform.
    pub fn artifact_name(self) -> (r: &'static str)
        ensures
            r@ == self.artifact(),
    {
        match self {
            Platform::Linux => "app-linux",
            Platform::Macos => "app-macos",
            Platform::Windows => "app-windows.exe",
        }
    }

    /// Whether binaries for the platform are code-signed.
    pub fn needs_codesign(self) -> (r: bool)
        ensures
            r == self.signed(),
    {
        match self {
            Platform::Macos => true,
            _ => false,
        }
    }
}

/// The platform that `name` stands for: `linux`, `macos` or its alias `darwin`,
/// and `windows`; no other name stands for one.
pub open spec fn platform_named(name: Seq<char>) -> Option<Platform> {
    if name == "linux"@ {
        Some(Platform::Linux)
    } else if name == "macos"@ || name == "darwin"@ {
        Some(Platform::Macos)
    } else if name == "windows"@ {
        Some(Platform::Windows)
    } else {
        None
    }
}

/// A parsed platform, or the error that carries the refused name.
pub open spec fn platform_or_error(name: Seq<char>) -> Result<Platform, crate::error::BuildErrorModel> {
    match platform_named(name) {
        Some(p) => Ok(p),
        None => Err(crate::error::BuildErrorModel::UnsupportedPlatform(name)),
    }
}

/// A parse result as plain sequences.
pub open spec fn parsed_view(r: Result<Platform, BuildError>) -> Result<
    Platform,
    crate::error::BuildErrorModel,
> {
    match r {
        Ok(p) => Ok(p),
        Err(e) => Err(e@),
    }
}

/// Finds the platform that `name` stands for. Any other name is refused as an
/// unsupported platform.
pub fn parse_platform(name: &str) -> (r: Result<Platform, BuildError>)
    ensures
        parsed_view(r) == platform_or_error(name@),
{
    if str_eq(name, "linux") {
        Ok(Platform::Linux)
    } else if str_eq(name, "macos") || str_eq(name, "darwin") {
        Ok(Platform::Macos)
    } else if str_eq(name, "windows") {
        Ok(Platform::Windows)
    } else {
        Err(BuildError::UnsupportedPlatform(String::from_str(name)))
    }
}

/// The public name of the operating system `os`: `darwin` is `macos`, and every
/// other identifier is its own name.
pub open spec fn normalized_os(os: Seq<char>) -> Seq<char> {
    if os == "darwin"@ {
        "macos"@
    } else {
        os
    }
}

/// The platforms to build for: `all` is the three known ones, `host` is the
/// running system alone, and any other request is itself.
pub open spec fn expanded(requested: Seq<char>, host_os: Seq<char>) -> Seq<Seq<char>> {
    if requested == "all"@ {
        seq!["linux"@, "macos"@, "windows"@]
    } else if requested == "host"@ {
        seq![normalized_os(host_os)]
    } else {
        seq![requested]
    }
}

/// The public name of the operating system `os`.
pub fn normalize_os(os: &str) -> (r: String)
    ensures
        r@ == normalized_os(os@),
{
    if str_eq(os, "darwin") {
        String::from_str("macos")
    } else {
        String::from_str(os)
    }
}

/// Lists the platforms that a request for `requested` builds for, in build
/// order, on a host whose operating system is `host_os`.
pub fn expand_platforms(requested: &str, host_os: &str) -> (r: Vec<String>)
    ensures
        r.deep_view() == expanded(requested@, host_os@),
{
    let mut r: Vec<String> = Vec::new();
    if str_eq(requested, "all") {
        r.push(String::from_str("linux"));
        r.push(String::from_str("macos"));
        r.push(String::from_str("windows"));
    } else if str_eq(requested, "host") {
        r.push(normalize_os(host_os));
    } else {
        r.push(String::from_str(requested));
    }
    assert(r.deep_view() =~= expanded(requested@, host_os@));
    r
}

/// The executables that building for each of `names` leaves behind, in order;
/// a name that stands for no platform leaves none.
pub open spec fn artifacts_of(names: Seq<Seq<char>>) -> Seq<Seq<char>>
    decreases names.len(),
{
    if names.len() == 0 {
        Seq::empty()
    } else {
        let rest = artifacts_of(names.drop_last());
        match platform_named(names.last()) {
            Some(p) => rest.push(p.artifact()),
            None => rest,
        }
    }
}

/// The three platform names are distinct texts, and none is `all` or `host`.
pub proof fn lemma_platform_names_distinct()
    ensures
        platform_named("linux"@) == Some(Platform::Linux),
        platform_named("macos"@) == Some(Platform::Macos),
        platform_named("darwin"@) == Some(Platform::Macos),
        platform_named("windows"@) == Some(Platform::Windows),
        platform_named("all"@) is None,
        platform_named("host"@) is None,
        "all"@ != "host"@,
{
    reveal_strlit("linux");
    reveal_strlit("macos");
    reveal_strlit("darwin");
    reveal_strlit("windows");
    reveal_strlit("all");
    reveal_strlit("host");
    assert("linux"@.len() == 5 && "macos"@.len() == 5 && "darwin"@.len() == 6);
    assert("windows"@.len() == 7 && "all"@.len() == 3 && "host"@.len() == 4);
    crate::text::lemma_texts_differ("macos"@, "linux"@, 0);
}

/// A request for `all` builds, whatever the host, exactly the executables of
/// `linux`, `macos` and `windows`: the three requests' executables joined, each
/// once, in that order.
pub proof fn lemma_all_is_union(host_os: Seq<char>)
    ensures
        artifacts_of(expanded("all"@, host_os)) == artifacts_of(expanded("linux"@, host_os))
            + artifacts_of(expanded("macos"@, host_os)) + artifacts_of(
            expanded("windows"@, host_os),
        ),
        artifacts_of(expanded("all"@, host_os)) == seq![
            "app-linux"@,
            "app-macos"@,
            "app-windows.exe"@,
        ],
        artifacts_of(expanded("all"@, host_os)).no_duplicates(),
{
    lemma_platform_names_distinct();
    reveal_strlit("app-linux");
    reveal_strlit("app-macos");
    reveal_strlit("app-windows.exe");
    let all = seq!["linux"@, "macos"@, "windows"@];
    assert(expanded("all"@, host_os) == all);
    assert(expanded("linux"@, host_os) == seq!["linux"@]);
    assert(expanded("macos"@, host_os) == seq!["macos"@]);
    assert(expanded("windows"@, host_os) == seq!["windows"@]);
    lemma_artifacts_of_one("linux"@);
    lemma_artifacts_of_one("macos"@);
    lemma_artifacts_of_one("windows"@);
    reveal_with_fuel(artifacts_of, 4);
    assert(all.drop_last() =~= seq!["linux"@, "macos"@]);
    assert(all.drop_last().drop_last() =~= seq!["linux"@]);
    assert(all.drop_last().drop_last().drop_last() =~= Seq::<Seq<char>>::empty());
    let joined = seq!["app-linux"@, "app-macos"@, "app-windows.exe"@];
    assert(artifacts_of(all) =~= joined);
    assert(seq!["app-linux"@] + seq!["app-macos"@] + seq!["app-windows.exe"@] =~= joined);
    crate::text::lemma_texts_differ("app-linux"@, "app-macos"@, 4);
    assert("app-linux"@.len() == 9 && "app-macos"@.len() == 9 && "app-windows.exe"@.len() == 15);
    assert(joined.no_duplicates());
}

/// Building for one name leaves the one executable of its platform, or nothing
/// where the name stands for none.
pub proof fn lemma_artifacts_of_one(name: Seq<char>)
    ensures
        artifacts_of(seq![name]) == match platform_named(name) {
            Some(p) => seq![p.artifact()],
            None => Seq::<Seq<char>>::empty(),
        },
{
    reveal_with_fuel(artifacts_of, 2);
    assert(seq![name].drop_last() =~= Seq::<Seq<char>>::empty());
    assert(Seq::<Seq<char>>::empty().push(name).last() == name);
    match platform_named(name) {
        Some(p) => {
            assert(Seq::<Seq<char>>::empty().push(p.artifact()) =~= seq![p.artifact()]);
        },
        None => {},
    }
}

/// A request for `host` builds for exactly one platform: the running system
/// under its public name, so `darwin` builds what `macos` builds.
pub proof fn lemma_host_is_one(host_os: Seq<char>)
    ensures
        expanded("host"@, host_os).len() == 1,
        expanded("host"@, host_os)[0] == normalized_os(host_os),
        platform_named(normalized_os(host_os)) == platform_named(host_os),
        artifacts_of(expanded("host"@, host_os)) == artifacts_of(seq![host_os]),
        artifacts_of(expanded("host"@, host_os)).len() <= 1,
        platform_named(host_os) is Some ==> artifacts_of(expanded("host"@, host_os)).len() == 1,
{
    lemma_platform_names_distinct();
    lemma_artifacts_of_one(host_os);
    lemma_artifacts_of_one(normalized_os(host_os));
}

} // verus!
