//! Runtime versions: from a requested version, partial or full, to the full
//! version that is downloaded.

use crate::error::{BuildError, BuildErrorModel};
use crate::text::{count_char, count_of, has_prefix, join2, starts_with, str_eq};
use vstd::prelude::*;

verus! {

/// Where the index of published versions is read from.
pub open spec fn index_url() -> Seq<char> {
    "https://nodejs.org/dist/index.json"@
}

/// Where the index of published versions is read from.
pub fn version_index_url() -> (r: &'static str)
    ensures
        r@ == index_url(),
{
    "https://nodejs.org/dist/index.json"
}

/// A version is full when it holds two dots or more.
pub open spec fn is_full_version(v: Seq<char>) -> bool {
    count_of(v, '.') >= 2
}

/// A published version without its leading `v`, if it has one.
pub open spec fn without_prefix(published: Seq<char>) -> Seq<char> {
    if published.len() > 0 && published[0] == 'v' {
        published.subrange(1, published.len() as int)
    } else {
        published
    }
}

/// A published version answers a request when, without its leading `v`, it is
/// the request or begins with the request and a dot.
pub open spec fn answers(published: Seq<char>, requested: Seq<char>) -> bool {
    has_prefix(without_prefix(published), requested + "."@) || without_prefix(published)
        == requested
}

/// The position `at` holds the first version of `index` that answers.
pub open spec fn is_first_answer(index: Seq<Seq<char>>, requested: Seq<char>, at: int) -> bool {
    &&& 0 <= at < index.len()
    &&& answers(index[at], requested)
    &&& forall|j: int| 0 <= j < at ==> !answers(#[trigger] index[j], requested)
}

/// The position of the first version of `index` that answers, if any does.
pub open spec fn first_answer(index: Seq<Seq<char>>, requested: Seq<char>) -> Option<int> {
    if exists|at: int| is_first_answer(index, requested, at) {
        Some(choose|at: int| is_first_answer(index, requested, at))
    } else {
        None
    }
}

/// The version that a request resolves to against the index, in which the
/// newest version stands first: a full version is itself, whatever the index
/// holds; any other is the first published version that answers it, without
/// its leading `v`. The index is taken in the order it comes in and no version
/// numbers are compared.
pub open spec fn resolved_version(requested: Seq<char>, index: Seq<Seq<char>>) -> Result<
    Seq<char>,
    BuildErrorModel,
> {
    if is_full_version(requested) {
        Ok(requested)
    } else {
        match first_answer(index, requested) {
            Some(at) => Ok(without_prefix(index[at])),
            None => Err(BuildErrorModel::VersionNotFound(requested)),
        }
    }
}

/// A resolution as plain sequences.
pub open spec fn resolved_view(r: Result<String, BuildError>) -> Result<Seq<char>, BuildErrorModel> {
    match r {
        Ok(v) => Ok(v@),
        Err(e) => Err(e@),
    }
}

/// Whether the index of published versions has to be fetched to resolve
/// `requested`: it has not for a full version.
pub fn needs_version_index(requested: &str) -> (r: bool)
    ensures
        r == !is_full_version(requested@),
{
    count_char(requested, '.') < 2
}

/// A published version without its leading `v`, if it has one.
pub fn strip_version_prefix(published: &str) -> (r: &str)
    ensures
        r@ == without_prefix(published@),
{
    let n = published.unicode_len();
    if n > 0 && published.get_char(0) == 'v' {
        published.substring_char(1, n)
    } else {
        published
    }
}

/// Whether a published version answers a request.
pub fn version_answers(published: &str, requested: &str) -> (r: bool)
    ensures
        r == answers(published@, requested@),
{
    let number = strip_version_prefix(published);
    let dotted = join2(requested, ".");
    starts_with(number, dotted.as_str()) || str_eq(number, requested)
}

/// A first answer is the only first answer.
pub proof fn lemma_first_answer_unique(index: Seq<Seq<char>>, requested: Seq<char>, at: int)
    requires
        is_first_answer(index, requested, at),
    ensures
        first_answer(index, requested) == Some(at),
{
    let chosen = choose|k: int| is_first_answer(index, requested, k);
    if chosen < at {
        assert(!answers(index[chosen], requested));
    } else if at < chosen {
        assert(!answers(index[at], requested));
    }
}

/// Resolves the requested version against the index of published versions,
/// newest first. A full version is returned as it is and the index is not
/// looked at. Else the first version of the index that answers is returned;
/// where none answers, the request is reported as not found.
pub fn resolve_node_version(requested: &str, index: &Vec<String>) -> (r: Result<String, BuildError>)
    ensures
        resolved_view(r) == resolved_version(requested@, index.deep_view()),
        is_full_version(requested@) ==> resolved_view(r) == Ok::<Seq<char>, BuildErrorModel>(
            requested@,
        ),
{
    if !needs_version_index(requested) {
        return Ok(String::from_str(requested));
    }
    let mut i: usize = 0;
    while i < index.len()
        invariant
            i <= index.len(),
            !is_full_version(requested@),
            forall|j: int| 0 <= j < i ==> !answers(#[trigger] index.deep_view()[j], requested@),
        decreases index.len() - i,
    {
        let published = index[i].as_str();
        assert(index.deep_view()[i as int] == published@);
        if version_answers(published, requested) {
            proof {
                assert(is_first_answer(index.deep_view(), requested@, i as int));
                lemma_first_answer_unique(index.deep_view(), requested@, i as int);
            }
            return Ok(String::from_str(strip_version_prefix(published)));
        }
        i += 1;
    }
    proof {
        assert forall|at: int| !is_first_answer(index.deep_view(), requested@, at) by {
            if 0 <= at < index.len() {
                assert(!answers(index.deep_view()[at], requested@));
            }
        }
    }
    Err(BuildError::VersionNotFound(String::from_str(requested)))
}

} // verus!
