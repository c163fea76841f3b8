//! Where an unpacked version of the language server lives on disk.
//!
//! Each version is unpacked into a directory of its own beside the others,
//! named after the version, and holds the binary at a fixed place below it:
//! `turbo-vsc-<version>/extension/out/<binary>`.

use vstd::prelude::*;
use crate::text::has_prefix;

verus! {

/// The prefix that the name of every version directory starts with.
pub open spec fn version_dir_prefix() -> Seq<char> {
    "turbo-vsc-"@
}

/// The name of the directory that holds the given version.
pub open spec fn version_dir(version: Seq<char>) -> Seq<char> {
    version_dir_prefix() + version
}

/// Whether a directory entry is named like a version directory.
pub open spec fn is_version_dir(name: Seq<char>) -> bool {
    version_dir_prefix().is_prefix_of(name)
}

/// The directory, inside a version directory, that holds the binaries.
pub open spec fn output_dir(directory: Seq<char>) -> Seq<char> {
    directory + "/extension/out"@
}

/// The path of a binary inside a version directory.
pub open spec fn binary_path(directory: Seq<char>, binary_name: Seq<char>) -> Seq<char> {
    directory + "/extension/out/"@ + binary_name
}

/// The prefix that the name of every published binary starts with.
pub open spec fn binary_prefix() -> Seq<char> {
    "turborepo-lsp-"@
}

/// The entries that are named like a version directory, in their order.
pub open spec fn version_dirs(entries: Seq<Seq<char>>) -> Seq<Seq<char>> {
    entries.filter(|entry: Seq<char>| is_version_dir(entry))
}

/// The paths at which earlier installations may have left the binary: one for
/// each version directory among `entries`, in their order.
pub open spec fn installed_candidates(entries: Seq<Seq<char>>, binary_name: Seq<char>) -> Seq<
    Seq<char>,
> {
    version_dirs(entries).map_values(|directory: Seq<char>| binary_path(directory, binary_name))
}

/// What tells the version directories that `current` supersedes from the
/// other entries.
pub open spec fn superseded_by(current: Seq<char>) -> spec_fn(Seq<char>) -> bool {
    |entry: Seq<char>| is_version_dir(entry) && entry != current
}

/// The version directories among `entries` other than `current`, in their
/// order: those that an installation of `current` supersedes.
pub open spec fn stale_version_dirs(entries: Seq<Seq<char>>, current: Seq<char>) -> Seq<
    Seq<char>,
> {
    entries.filter(superseded_by(current))
}

/// The entries that name a published binary, in their order.
pub open spec fn published_binaries(entries: Seq<Seq<char>>) -> Seq<Seq<char>> {
    entries.filter(|entry: Seq<char>| binary_prefix().is_prefix_of(entry))
}

/// The first `count + 1` of the views of `entries` are the first `count`
/// and the one after them.
proof fn lemma_take_next(entries: Vec<String>, count: int)
    requires
        0 <= count < entries.len(),
    ensures
        entries.deep_view().take(count + 1) == entries.deep_view().take(count).push(
            entries[count]@,
        ),
{
    assert(entries.deep_view().take(count + 1) =~= entries.deep_view().take(count).push(
        entries[count]@,
    ));
}

/// The name of the directory that holds the given version.
pub fn version_dir_name(version: &str) -> (name: String)
    ensures
        name@ == version_dir(version@),
{
    let mut name = String::from_str("turbo-vsc-");
    name.append(version);
    name
}

/// The directory, inside a version directory, that holds the binaries.
pub fn output_dir_of(directory: &str) -> (path: String)
    ensures
        path@ == output_dir(directory@),
{
    let mut path = String::from_str(directory);
    path.append("/extension/out");
    path
}

/// The path of a binary inside a version directory.
pub fn binary_path_in(directory: &str, binary_name: &str) -> (path: String)
    ensures
        path@ == binary_path(directory@, binary_name@),
{
    let mut path = String::from_str(directory);
    path.append("/extension/out/");
    path.append(binary_name);
    path
}

/// The paths to probe for a binary that an earlier installation left: for
/// each entry of the working directory that is named like a version
/// directory, the place of the binary below it.
pub fn candidate_paths(entries: &Vec<String>, binary_name: &str) -> (paths: Vec<String>)
    ensures
        paths.deep_view() == installed_candidates(entries.deep_view(), binary_name@),
{
    let mut paths: Vec<String> = Vec::new();
    let mut i: usize = 0;
    while i < entries.len()
        invariant
            i <= entries.len(),
            paths.deep_view() == installed_candidates(
                entries.deep_view().take(i as int),
                binary_name@,
            ),
        decreases entries.len() - i,
    {
        let ghost before = paths.deep_view();
        proof {
            broadcast use {Seq::lemma_filter_push, Seq::lemma_push_map_commute};

            lemma_take_next(*entries, i as int);
        }
        if has_prefix(entries[i].as_str(), "turbo-vsc-") {
            let path = binary_path_in(entries[i].as_str(), binary_name);
            paths.push(path);
            assert(paths.deep_view() =~= before.push(binary_path(entries[i as int]@, binary_name@)));
        }
        i += 1;
    }
    assert(entries.deep_view().take(entries.len() as int) =~= entries.deep_view());
    paths
}

/// The directories that an installation into `current` supersedes: every
/// entry of the working directory that is named like a version directory and
/// is not `current` itself.
pub fn cleanup_old_versions(entries: &Vec<String>, current: &String) -> (stale: Vec<String>)
    ensures
        stale.deep_view() == stale_version_dirs(entries.deep_view(), current@),
{
    let mut stale: Vec<String> = Vec::new();
    let mut i: usize = 0;
    while i < entries.len()
        invariant
            i <= entries.len(),
            stale.deep_view() == stale_version_dirs(entries.deep_view().take(i as int), current@),
        decreases entries.len() - i,
    {
        let ghost before = stale.deep_view();
        proof {
            broadcast use Seq::lemma_filter_push;

            lemma_take_next(*entries, i as int);
        }
        if has_prefix(entries[i].as_str(), "turbo-vsc-") && entries[i] != *current {
            stale.push(entries[i].clone());
            assert(stale.deep_view() =~= before.push(entries[i as int]@));
        }
        i += 1;
    }
    assert(entries.deep_view().take(entries.len() as int) =~= entries.deep_view());
    stale
}

/// The entries of an output directory that name a published binary.
pub fn binaries_among(entries: &Vec<String>) -> (found: Vec<String>)
    ensures
        found.deep_view() == published_binaries(entries.deep_view()),
{
    let mut found: Vec<String> = Vec::new();
    let mut i: usize = 0;
    while i < entries.len()
        invariant
            i <= entries.len(),
            found.deep_view() == published_binaries(entries.deep_view().take(i as int)),
        decreases entries.len() - i,
    {
        let ghost before = found.deep_view();
        proof {
            broadcast use Seq::lemma_filter_push;

            lemma_take_next(*entries, i as int);
        }
        if has_prefix(entries[i].as_str(), "turborepo-lsp-") {
            found.push(entries[i].clone());
            assert(found.deep_view() =~= before.push(entries[i as int]@));
        }
        i += 1;
    }
    assert(entries.deep_view().take(entries.len() as int) =~= entries.deep_view());
    found
}

} // verus!
