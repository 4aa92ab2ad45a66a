//! Where a build keeps its files: every path is the output directory, a slash
//! and a fixed name.

use crate::text::join3;
use vstd::prelude::*;

verus! {

/// The path of the entry `name` of the directory `dir`: the two joined by a
/// slash, which every supported host accepts as a separator.
pub open spec fn child(dir: Seq<char>, name: Seq<char>) -> Seq<char> {
    dir + "/"@ + name
}

/// The path of the entry `name` of the directory `dir`.
pub fn child_path(dir: &str, name: &str) -> (r: String)
    ensures
        r@ == child(dir@, name@),
{
    join3(dir, "/", name)
}

/// The runtime binary of the host, which runs the blob generator.
pub open spec fn node_binary_in(output_dir: Seq<char>) -> Seq<char> {
    child(output_dir, "node-binary"@)
}

/// The bundle that the bundler leaves behind.
pub open spec fn bundle_in(output_dir: Seq<char>) -> Seq<char> {
    child(output_dir, "bundle.js"@)
}

/// The descriptor handed to the blob generator.
pub open spec fn sea_config_in(output_dir: Seq<char>) -> Seq<char> {
    child(output_dir, "sea-config.json"@)
}

/// The blob that is injected into every executable.
pub open spec fn sea_blob_in(output_dir: Seq<char>) -> Seq<char> {
    child(output_dir, "sea-prep.blob"@)
}

/// The directory that a remote source is cloned into.
pub open spec fn clone_dir_in(output_dir: Seq<char>) -> Seq<char> {
    child(output_dir, "temp_clone"@)
}

/// The package manifest of the application at `app_path`.
pub open spec fn manifest_in(app_path: Seq<char>) -> Seq<char> {
    child(app_path, "package.json"@)
}

/// The files and the directory that a build leaves in the output directory
/// beside the executables.
pub open spec fn transient_in(output_dir: Seq<char>) -> Seq<Seq<char>> {
    seq![
        node_binary_in(output_dir),
        sea_config_in(output_dir),
        sea_blob_in(output_dir),
        bundle_in(output_dir),
        clone_dir_in(output_dir),
    ]
}

/// The runtime binary of the host.
pub fn node_binary_path(output_dir: &str) -> (r: String)
    ensures
        r@ == node_binary_in(output_dir@),
{
    child_path(output_dir, "node-binary")
}

/// The bundle that the bundler leaves behind.
pub fn bundle_path(output_dir: &str) -> (r: String)
    ensures
        r@ == bundle_in(output_dir@),
{
    child_path(output_dir, "bundle.js")
}

/// The descriptor handed to the blob generator.
pub fn sea_config_path(output_dir: &str) -> (r: String)
    ensures
        r@ == sea_config_in(output_dir@),
{
    child_path(output_dir, "sea-config.json")
}

/// The blob that is injected into every executable.
pub fn sea_blob_path(output_dir: &str) -> (r: String)
    ensures
        r@ == sea_blob_in(output_dir@),
{
    child_path(output_dir, "sea-prep.blob")
}

/// The directory that a remote source is cloned into.
pub fn clone_dir_path(output_dir: &str) -> (r: String)
    ensures
        r@ == clone_dir_in(output_dir@),
{
    child_path(output_dir, "temp_clone")
}

/// The package manifest of the application at `app_path`.
pub fn manifest_path(app_path: &str) -> (r: String)
    ensures
        r@ == manifest_in(app_path@),
{
    child_path(app_path, "package.json")
}

/// What a caller may remove after a build, finished or failed, to leave only
/// the executables behind.
pub fn transient_paths(output_dir: &str) -> (r: Vec<String>)
    ensures
        r.deep_view() == transient_in(output_dir@),
{
    let mut r: Vec<String> = Vec::new();
    r.push(node_binary_path(output_dir));
    r.push(sea_config_path(output_dir));
    r.push(sea_blob_path(output_dir));
    r.push(bundle_path(output_dir));
    r.push(clone_dir_path(output_dir));
    assert(r.deep_view() =~= transient_in(output_dir@));
    r
}

} // verus!
