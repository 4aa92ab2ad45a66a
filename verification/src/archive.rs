//! Runtime archives: where the archive of a version and architecture lies, what
//! it is called, and how the runtime binary is taken out of its bytes.

use crate::error::{BuildError, BuildErrorModel, ExtractError, ExtractErrorModel};
use crate::text::{ends_with, has_prefix, has_suffix, join2, starts_with, str_eq};
use std::io::Read;
use vstd::prelude::*;

verus! {

/// The two archive formats that runtimes are published in.
#[derive(Clone, Copy, Debug, PartialEq, Eq, Structural)]
pub enum ArchiveKind {
    /// A zip file, for Windows architectures.
    Zip,
    /// A gzip-compressed tar file, for all others.
    TarGz,
}

/// Windows architectures are those whose tag begins with `win`.
pub open spec fn is_windows_arch(arch: Seq<char>) -> bool {
    has_prefix(arch, "win"@)
}

/// The format of the archive for `arch`.
pub open spec fn kind_of(arch: Seq<char>) -> ArchiveKind {
    if is_windows_arch(arch) {
        ArchiveKind::Zip
    } else {
        ArchiveKind::TarGz
    }
}

/// The top-level folder inside the archive of `version` for `arch`.
pub open spec fn folder_of(version: Seq<char>, arch: Seq<char>) -> Seq<char> {
    "node-v"@ + version + "-"@ + arch
}

/// The archive's file name.
pub open spec fn file_name_of(version: Seq<char>, arch: Seq<char>) -> Seq<char> {
    folder_of(version, arch) + match kind_of(arch) {
        ArchiveKind::Zip => ".zip"@,
        ArchiveKind::TarGz => ".tar.gz"@,
    }
}

/// The address the archive is downloaded from.
pub open spec fn url_of(version: Seq<char>, arch: Seq<char>) -> Seq<char> {
    "https://nodejs.org/dist/v"@ + version + "/"@ + file_name_of(version, arch)
}

/// The entry of the archive that holds the runtime binary.
pub open spec fn inner_path_of(version: Seq<char>, arch: Seq<char>) -> Seq<char> {
    folder_of(version, arch) + match kind_of(arch) {
        ArchiveKind::Zip => "/node.exe"@,
        ArchiveKind::TarGz => "/bin/node"@,
    }
}

/// Everything that is derived from a version and an architecture about the
/// archive that holds the runtime for them.
#[derive(Clone, Debug, PartialEq, Eq)]
pub struct ArchiveSpec {
    pub version: String,
    pub platform_arch: String,
    pub kind: ArchiveKind,
    pub folder_name: String,
    pub archive_file_name: String,
    pub remote_url: String,
    pub inner_binary_path: String,
}

/// An `ArchiveSpec` as plain sequences.
pub struct ArchiveSpecModel {
    pub version: Seq<char>,
    pub platform_arch: Seq<char>,
    pub kind: ArchiveKind,
    pub folder_name: Seq<char>,
    pub archive_file_name: Seq<char>,
    pub remote_url: Seq<char>,
    pub inner_binary_path: Seq<char>,
}

impl View for ArchiveSpec {
    type V = ArchiveSpecModel;

    open spec fn view(&self) -> ArchiveSpecModel {
        ArchiveSpecModel {
            version: self.version@,
            platform_arch: self.platform_arch@,
            kind: self.kind,
            folder_name: self.folder_name@,
            archive_file_name: self.archive_file_name@,
            remote_url: self.remote_url@,
            inner_binary_path: self.inner_binary_path@,
        }
    }
}

/// The archive of `version` for `arch`.
pub open spec fn spec_for(version: Seq<char>, arch: Seq<char>) -> ArchiveSpecModel {
    ArchiveSpecModel {
        version,
        platform_arch: arch,
        kind: kind_of(arch),
        folder_name: folder_of(version, arch),
        archive_file_name: file_name_of(version, arch),
        remote_url: url_of(version, arch),
        inner_binary_path: inner_path_of(version, arch),
    }
}

impl ArchiveSpec {
    /// Derives the archive's names and address from the full version and the
    /// architecture tag.
    pub fn new(version: &str, arch: &str) -> (r: ArchiveSpec)
        ensures
            r@ == spec_for(version@, arch@),
    {
        let windows = starts_with(arch, "win");
        let kind = if windows {
            ArchiveKind::Zip
        } else {
            ArchiveKind::TarGz
        };
        let mut folder_name = String::from_str("node-v");
        folder_name.append(version);
        folder_name.append("-");
        folder_name.append(arch);
        let archive_file_name = join2(
            folder_name.as_str(),
            if windows {
                ".zip"
            } else {
                ".tar.gz"
            },
        );
        let mut remote_url = String::from_str("https://nodejs.org/dist/v");
        remote_url.append(version);
        remote_url.append("/");
        remote_url.append(archive_file_name.as_str());
        let inner_binary_path = join2(
            folder_name.as_str(),
            if windows {
                "/node.exe"
            } else {
                "/bin/node"
            },
        );
        ArchiveSpec {
            version: String::from_str(version),
            platform_arch: String::from_str(arch),
            kind,
            folder_name,
            archive_file_name,
            remote_url,
            inner_binary_path,
        }
    }
}

/// The statuses that count as a successful download: 200 to 299.
pub open spec fn is_success_status(status: u16) -> bool {
    200 <= status <= 299
}

/// The verdict on an answer of the archive endpoint.
pub open spec fn download_verdict(url: Seq<char>, status: u16) -> Result<(), BuildErrorModel> {
    if is_success_status(status) {
        Ok(())
    } else {
        Err(BuildErrorModel::Fetch { url, status })
    }
}

/// A verdict as plain sequences.
pub open spec fn verdict_view(r: Result<(), BuildError>) -> Result<(), BuildErrorModel> {
    match r {
        Ok(()) => Ok(()),
        Err(e) => Err(e@),
    }
}

/// Judges the status that the endpoint answered `url` with: any status outside
/// 200 to 299 is a fetch error that carries the address and the status.
pub fn check_download(url: &str, status: u16) -> (r: Result<(), BuildError>)
    ensures
        verdict_view(r) == download_verdict(url@, status),
{
    if 200 <= status && status <= 299 {
        Ok(())
    } else {
        Err(BuildError::Fetch { url: String::from_str(url), status })
    }
}

/// At which step the reading of a zip entry stopped.
#[derive(Clone, Copy, Debug, PartialEq, Eq, Structural)]
pub enum ZipFault {
    /// The bytes could not be opened as a zip archive.
    Open,
    /// The archive was opened and gave no entry for the name.
    Lookup,
    /// The entry was found and its contents could not be read to the end.
    Read,
}

/// What the `zip` crate reads from the archive `archive` under the entry name
/// `name`: the entry's contents, or the step that failed.
pub uninterp spec fn zip_entry_read(archive: Seq<u8>, name: Seq<char>) -> Result<Seq<u8>, ZipFault>;

/// What `read_zip_entry` gave, as plain sequences.
pub open spec fn zip_read_view(r: Result<Vec<u8>, ZipFault>) -> Result<Seq<u8>, ZipFault> {
    match r {
        Ok(bytes) => Ok(bytes@),
        Err(fault) => Err(fault),
    }
}

/// Opens `archive` with `zip::ZipArchive::new` over a cursor, looks `name` up
/// with `ZipArchive::by_name`, which matches entry names exactly, and reads the
/// entry to its end. The error of each of the three calls is told apart by the
/// fault returned. Nothing is claimed beyond this: the result is a function of
/// the archive and the name, named `zip_entry_read`.
#[verifier::external_body]
fn read_zip_entry(archive: &[u8], name: &str) -> (r: Result<Vec<u8>, ZipFault>)
    ensures
        zip_read_view(r) == zip_entry_read(archive@, name@),
{
    let mut opened = match zip::ZipArchive::new(std::io::Cursor::new(archive)) {
        Ok(opened) => opened,
        Err(_) => return Err(ZipFault::Open),
    };
    let mut entry = match opened.by_name(name) {
        Ok(entry) => entry,
        Err(_) => return Err(ZipFault::Lookup),
    };
    let mut contents: Vec<u8> = Vec::new();
    match entry.read_to_end(&mut contents) {
        Ok(_) => Ok(contents),
        Err(_) => Err(ZipFault::Read),
    }
}

/// What an extraction gave, as plain sequences.
pub open spec fn extracted_view(r: Result<Vec<u8>, ExtractError>) -> Result<
    Seq<u8>,
    ExtractErrorModel,
> {
    match r {
        Ok(bytes) => Ok(bytes@),
        Err(e) => Err(e@),
    }
}

/// The outcome of a zip extraction, given what reading the entry `name` gave.
pub open spec fn zip_outcome(read: Result<Seq<u8>, ZipFault>, name: Seq<char>) -> Result<
    Seq<u8>,
    ExtractErrorModel,
> {
    match read {
        Ok(bytes) => Ok(bytes),
        Err(ZipFault::Open) => Err(ExtractErrorModel::InvalidArchive),
        Err(ZipFault::Lookup) => Err(ExtractErrorModel::EntryNotFound(name)),
        Err(ZipFault::Read) => Err(ExtractErrorModel::Unreadable(name)),
    }
}

/// Turns what reading the entry `name` gave into the extraction's outcome: the
/// entry's bytes and no others, or the error that names the entry.
pub fn judge_zip_read(read: Result<Vec<u8>, ZipFault>, name: &str) -> (r: Result<
    Vec<u8>,
    ExtractError,
>)
    ensures
        extracted_view(r) == zip_outcome(zip_read_view(read), name@),
{
    match read {
        Ok(bytes) => Ok(bytes),
        Err(ZipFault::Open) => Err(ExtractError::InvalidArchive),
        Err(ZipFault::Lookup) => Err(ExtractError::EntryNotFound(String::from_str(name))),
        Err(ZipFault::Read) => Err(ExtractError::Unreadable(String::from_str(name))),
    }
}

/// Takes the runtime binary out of the zip archive `archive`: the contents of
/// the entry named exactly `folder_name` followed by `/node.exe`.
pub fn extract_node_from_zip(archive: &[u8], folder_name: &str) -> (r: Result<
    Vec<u8>,
    ExtractError,
>)
    ensures
        extracted_view(r) == zip_outcome(
            zip_entry_read(archive@, folder_name@ + "/node.exe"@),
            folder_name@ + "/node.exe"@,
        ),
{
    let name = join2(folder_name, "/node.exe");
    let read = read_zip_entry(archive, name.as_str());
    judge_zip_read(read, name.as_str())
}

/// What the `tar` and `flate2` crates give when they walk the gzip-compressed
/// tar archive `archive`: for each item of the walk, in archive order, the path
/// of the entry, or nothing where the walk reports the item as an error.
pub uninterp spec fn tar_gz_listing(archive: Seq<u8>) -> Seq<Option<Seq<char>>>;

/// What the `tar` and `flate2` crates read as the contents of the entry at
/// position `index` of the gzip-compressed tar archive `archive`, if they can
/// read it.
pub uninterp spec fn tar_gz_entry(archive: Seq<u8>, index: int) -> Option<Seq<u8>>;

/// Decompresses `archive` with `flate2::read::GzDecoder`, walks it with
/// `tar::Archive::entries` and turns each item of the walk into the entry's
/// `path_bytes`, decoded as UTF-8 with replacement characters, or into nothing
/// where the item is an error. A walk that cannot be started is one error.
/// Nothing is claimed beyond this: the result is a function of the archive,
/// named `tar_gz_listing`.
#[verifier::external_body]
fn list_tar_gz(archive: &[u8]) -> (r: Vec<Option<String>>)
    ensures
        r.deep_view() == tar_gz_listing(archive@),
{
    let mut items: Vec<Option<String>> = Vec::new();
    let mut tarball = tar::Archive::new(flate2::read::GzDecoder::new(archive));
    match tarball.entries() {
        Ok(entries) => for item in entries {
            items.push(match item {
                Ok(entry) => Some(String::from_utf8_lossy(&entry.path_bytes()).into_owned()),
                Err(_) => None,
            });
        },
        Err(_) => items.push(None),
    }
    items
}

/// Decompresses `archive` with `flate2::read::GzDecoder`, walks it with
/// `tar::Archive::entries` to the entry at position `index` and reads that
/// entry to its end. Nothing is claimed beyond this: the result is a function
/// of the archive and the position, named `tar_gz_entry`.
#[verifier::external_body]
fn read_tar_gz_entry(archive: &[u8], index: usize) -> (r: Option<Vec<u8>>)
    ensures
        r.deep_view() == tar_gz_entry(archive@, index as int),
{
    let mut tarball = tar::Archive::new(flate2::read::GzDecoder::new(archive));
    let mut entry = tarball.entries().ok()?.nth(index)?.ok()?;
    let mut contents: Vec<u8> = Vec::new();
    entry.read_to_end(&mut contents).ok()?;
    Some(contents)
}

/// An entry holds the runtime binary when its path is the expected one, or
/// ends with `/bin/node` under whatever top-level folder.
pub open spec fn is_node_entry(path: Seq<char>, expected: Seq<char>) -> bool {
    path == expected || has_suffix(path, "/bin/node"@)
}

/// The scan for the runtime binary stops at an item that is an error, and at
/// an entry that holds the binary.
pub open spec fn ends_scan(item: Option<Seq<char>>, expected: Seq<char>) -> bool {
    match item {
        None => true,
        Some(path) => is_node_entry(path, expected),
    }
}

/// The position `at` is the first one of `items` at which the scan stops.
pub open spec fn is_first_stop(items: Seq<Option<Seq<char>>>, expected: Seq<char>, at: int) -> bool {
    &&& 0 <= at < items.len()
    &&& ends_scan(items[at], expected)
    &&& forall|j: int| 0 <= j < at ==> !ends_scan(#[trigger] items[j], expected)
}

/// The position at which the scan stops, if it stops before the end.
pub open spec fn first_stop(items: Seq<Option<Seq<char>>>, expected: Seq<char>) -> Option<int> {
    if exists|at: int| is_first_stop(items, expected, at) {
        Some(choose|at: int| is_first_stop(items, expected, at))
    } else {
        None
    }
}

/// How a scan of a listing for the runtime binary ended.
#[derive(Clone, Copy, Debug, PartialEq, Eq, Structural)]
pub enum Scan {
    /// The entry at this position holds the binary, and none before it does.
    Found(usize),
    /// The whole archive was walked and no entry holds the binary.
    Missing,
    /// The walk reported an error before any entry that holds the binary.
    Broken,
}

/// A `Scan` over positions of any size.
pub enum ScanModel {
    Found(int),
    Missing,
    Broken,
}

impl View for Scan {
    type V = ScanModel;

    open spec fn view(&self) -> ScanModel {
        match *self {
            Scan::Found(at) => ScanModel::Found(at as int),
            Scan::Missing => ScanModel::Missing,
            Scan::Broken => ScanModel::Broken,
        }
    }
}

/// How the scan of `items` ends: at the first position that stops it, with the
/// entry found there or with the error met there; at the end, with nothing.
pub open spec fn scan_of(items: Seq<Option<Seq<char>>>, expected: Seq<char>) -> ScanModel {
    match first_stop(items, expected) {
        Some(at) => if items[at] is Some {
            ScanModel::Found(at)
        } else {
            ScanModel::Broken
        },
        None => ScanModel::Missing,
    }
}

/// A first stop is the only first stop.
pub proof fn lemma_first_stop_unique(items: Seq<Option<Seq<char>>>, expected: Seq<char>, at: int)
    requires
        is_first_stop(items, expected, at),
    ensures
        first_stop(items, expected) == Some(at),
{
    let chosen = choose|k: int| is_first_stop(items, expected, k);
    if chosen < at {
        assert(!ends_scan(items[chosen], expected));
    } else if at < chosen {
        assert(!ends_scan(items[at], expected));
    }
}

/// Scans the listing of an archive, in archive order, for the first entry that
/// holds the runtime binary. An error that the walk met before such an entry
/// ends the scan, for what follows it cannot be trusted.
pub fn find_node_entry(items: &Vec<Option<String>>, expected: &str) -> (r: Scan)
    ensures
        r@ == scan_of(items.deep_view(), expected@),
{
    let mut i: usize = 0;
    while i < items.len()
        invariant
            i <= items.len(),
            forall|j: int| 0 <= j < i ==> !ends_scan(#[trigger] items.deep_view()[j], expected@),
        decreases items.len() - i,
    {
        assert(items.deep_view()[i as int] == items@[i as int].deep_view());
        match &items[i] {
            None => {
                proof {
                    assert(is_first_stop(items.deep_view(), expected@, i as int));
                    lemma_first_stop_unique(items.deep_view(), expected@, i as int);
                }
                return Scan::Broken;
            },
            Some(path) => {
                if str_eq(path.as_str(), expected) || ends_with(path.as_str(), "/bin/node") {
                    proof {
                        assert(is_first_stop(items.deep_view(), expected@, i as int));
                        lemma_first_stop_unique(items.deep_view(), expected@, i as int);
                    }
                    return Scan::Found(i);
                }
            },
        }
        i += 1;
    }
    proof {
        assert forall|at: int| !is_first_stop(items.deep_view(), expected@, at) by {
            if 0 <= at < items.len() {
                assert(!ends_scan(items.deep_view()[at], expected@));
            }
        }
    }
    Scan::Missing
}

/// The outcome of a tar extraction, given how the scan for `expected` ended
/// and what reading the entry found gave.
pub open spec fn tar_outcome(
    expected: Seq<char>,
    scan: ScanModel,
    read: Option<Seq<u8>>,
) -> Result<Seq<u8>, ExtractErrorModel> {
    match scan {
        ScanModel::Found(_) => match read {
            Some(bytes) => Ok(bytes),
            None => Err(ExtractErrorModel::Unreadable(expected)),
        },
        ScanModel::Missing => Err(ExtractErrorModel::EntryNotFound(expected)),
        ScanModel::Broken => Err(ExtractErrorModel::InvalidArchive),
    }
}

/// Turns how the scan ended, and what reading the entry found gave, into the
/// extraction's outcome: the bytes of that one entry, or the error.
pub fn judge_tar_read(expected: &str, scan: Scan, read: Option<Vec<u8>>) -> (r: Result<
    Vec<u8>,
    ExtractError,
>)
    ensures
        extracted_view(r) == tar_outcome(expected@, scan@, read.deep_view()),
{
    match scan {
        Scan::Found(_) => match read {
            Some(bytes) => {
                assert(bytes.deep_view() =~= bytes@);
                Ok(bytes)
            },
            None => Err(ExtractError::Unreadable(String::from_str(expected))),
        },
        Scan::Missing => Err(ExtractError::EntryNotFound(String::from_str(expected))),
        Scan::Broken => Err(ExtractError::InvalidArchive),
    }
}

/// The outcome of taking the runtime binary out of the gzip-compressed tar
/// archive `archive`, over what the archive lists and holds.
pub open spec fn tar_gz_extraction(archive: Seq<u8>, expected: Seq<char>) -> Result<
    Seq<u8>,
    ExtractErrorModel,
> {
    let scan = scan_of(tar_gz_listing(archive), expected);
    tar_outcome(
        expected,
        scan,
        match scan {
            ScanModel::Found(at) => tar_gz_entry(archive, at),
            _ => None,
        },
    )
}

/// Takes the runtime binary out of the gzip-compressed tar archive `archive`:
/// the contents of the first entry, in archive order, whose path is
/// `folder_name` followed by `/bin/node`, or ends with `/bin/node`. Only that
/// entry's contents are read. The listing of an archive fits the machine, so
/// every position in it is a machine number.
pub fn extract_node_from_tar_gz(archive: &[u8], folder_name: &str) -> (r: Result<
    Vec<u8>,
    ExtractError,
>)
    ensures
        extracted_view(r) == tar_gz_extraction(archive@, folder_name@ + "/bin/node"@),
        tar_gz_listing(archive@).len() <= usize::MAX,
{
    let expected = join2(folder_name, "/bin/node");
    let listing = list_tar_gz(archive);
    assert(listing.deep_view().len() == listing.len());
    let scan = find_node_entry(&listing, expected.as_str());
    let read = match scan {
        Scan::Found(at) => read_tar_gz_entry(archive, at),
        _ => None,
    };
    judge_tar_read(expected.as_str(), scan, read)
}

/// The outcome of taking the runtime binary out of `archive`, by its kind.
pub open spec fn extraction(kind: ArchiveKind, folder_name: Seq<char>, archive: Seq<u8>) -> Result<
    Seq<u8>,
    ExtractErrorModel,
> {
    match kind {
        ArchiveKind::Zip => zip_outcome(
            zip_entry_read(archive, folder_name + "/node.exe"@),
            folder_name + "/node.exe"@,
        ),
        ArchiveKind::TarGz => tar_gz_extraction(archive, folder_name + "/bin/node"@),
    }
}

impl ArchiveSpec {
    /// Takes the runtime binary out of the downloaded bytes of this archive.
    pub fn extract(&self, archive: &[u8]) -> (r: Result<Vec<u8>, ExtractError>)
        ensures
            extracted_view(r) == extraction(self.kind, self.folder_name@, archive@),
            self.kind == ArchiveKind::TarGz ==> tar_gz_listing(archive@).len() <= usize::MAX,
    {
        match self.kind {
            ArchiveKind::Zip => extract_node_from_zip(archive, self.folder_name.as_str()),
            ArchiveKind::TarGz => extract_node_from_tar_gz(archive, self.folder_name.as_str()),
        }
    }
}

} // verus!
