//! The allowed set of a git work tree: the files that git tracks or would
//! track, and the directories that hold them.
//!
//! The caller runs git and looks at the filesystem; this module reads the
//! status lines and builds the set from what the caller found.

use vstd::prelude::*;

use crate::set::WatchSet;
use crate::target::{Target, Watch};

verus! {

/// What the caller found out about one listed file.
#[derive(Debug)]
pub enum Probe {
    /// The file cannot be accessed; it is left out.
    Inaccessible,
    /// The file's path could not be canonicalized; the text is the cause.
    Unresolved(String),
    /// The file's canonical path.
    Resolved(String),
}

/// Why no allowed set could be built.
#[derive(Debug)]
pub enum DiscoverError {
    /// A path could not be canonicalized; the text is the cause.
    Canonicalize(String),
    /// The path has no parent directory.
    NoParent(String),
}

/// The parent that `std::path::Path::parent` gives for a path, as text.
pub uninterp spec fn parent_of(path: Seq<char>) -> Option<Seq<char>>;

/// Asks `std::path::Path::parent` for the directory that holds `path`. The
/// contract only gives the result its name: the same path has the same
/// parent, or none.
#[verifier::external_body]
fn parent_directory(path: &String) -> (parent: Option<String>)
    ensures
        match parent {
            Some(directory) => parent_of(path@) == Some(directory@),
            None => parent_of(path@) is None,
        },
{
    match std::path::Path::new(path).parent() {
        Some(directory) => Some(directory.to_string_lossy().into_owned()),
        None => None,
    }
}

/// The name of the untracked file that a line of git's short status reports:
/// what follows the mark `?? `. Other lines report none.
pub open spec fn untracked_name(line: Seq<char>) -> Option<Seq<char>> {
    if line.len() >= 3 && line[0] == '?' && line[1] == '?' && line[2] == ' ' {
        Some(line.subrange(3, line.len() as int))
    } else {
        None
    }
}

/// Reads one line of git's short status and gives the name of the untracked
/// file that it reports, if it reports one.
pub fn untracked_entry(line: &str) -> (name: Option<String>)
    ensures
        match name {
            Some(n) => untracked_name(line@) == Some(n@),
            None => untracked_name(line@) is None,
        },
{
    let len = line.unicode_len();
    if len >= 3 && line.get_char(0) == '?' && line.get_char(1) == '?' && line.get_char(2) == ' ' {
        Some(line.substring_char(3, len).to_owned())
    } else {
        None
    }
}

/// The probe stands in no one's way: the file is left out, or it has a
/// canonical path with a parent.
pub open spec fn passes(probe: Probe) -> bool {
    match probe {
        Probe::Inaccessible => true,
        Probe::Unresolved(_) => false,
        Probe::Resolved(path) => parent_of(path@) is Some,
    }
}

/// The probe fails the discovery with this error.
pub open spec fn fails_with(probe: Probe, error: DiscoverError) -> bool {
    match (probe, error) {
        (Probe::Unresolved(cause), DiscoverError::Canonicalize(reported)) => reported@ == cause@,
        (Probe::Resolved(path), DiscoverError::NoParent(reported)) => parent_of(path@) is None
            && reported@ == path@,
        _ => false,
    }
}

/// The targets that one probe contributes: the file and its directory.
pub open spec fn targets_of(probe: Probe) -> Set<Target> {
    match probe {
        Probe::Resolved(path) => match parent_of(path@) {
            Some(parent) => set![Target::Directory(parent), Target::File(path@)],
            None => Set::empty(),
        },
        _ => Set::empty(),
    }
}

/// The `k`-th probe contributes `target`.
pub open spec fn yields(probes: Seq<Probe>, k: int, target: Target) -> bool {
    targets_of(probes[k]).contains(target)
}

/// The targets that the first `n` probes contribute.
pub open spec fn discovered(probes: Seq<Probe>, n: int) -> Set<Target> {
    Set::new(|target: Target| exists|k: int| 0 <= k < n && yields(probes, k, target))
}

/// Adds a file and the directory that holds it to the set.
pub fn watch_file(watches: &mut WatchSet, path: String, parent: String)
    ensures
        final(watches)@ == old(watches)@.insert(Target::Directory(parent@)).insert(
            Target::File(path@),
        ),
        old(watches).wf() ==> final(watches).wf(),
{
    watches.insert(Watch::Directory(parent));
    watches.insert(Watch::File(path));
}

/// Builds the allowed set from the probes of the listed files, in order.
///
/// Every accessible file contributes itself and its parent directory. The
/// first probe that could not be canonicalized, or whose path has no parent,
/// fails the discovery.
pub fn discover_watches(probes: &Vec<Probe>) -> (result: Result<WatchSet, DiscoverError>)
    ensures
        match result {
            Ok(watches) => {
                &&& watches.wf()
                &&& forall|i: int| 0 <= i < probes.len() ==> passes(#[trigger] probes[i])
                &&& watches@ == discovered(probes@, probes.len() as int)
            },
            Err(error) => exists|k: int|
                {
                    &&& 0 <= k < probes.len()
                    &&& #[trigger] fails_with(probes[k], error)
                    &&& forall|j: int| 0 <= j < k ==> passes(#[trigger] probes[j])
                },
        },
{
    let mut watches = WatchSet::new();
    let mut i: usize = 0;
    assert(watches@ =~= discovered(probes@, 0));
    while i < probes.len()
        invariant
            i <= probes.len(),
            watches.wf(),
            forall|j: int| 0 <= j < i ==> passes(#[trigger] probes[j]),
            watches@ == discovered(probes@, i as int),
        decreases probes.len() - i,
    {
        let ghost before = watches@;
        match &probes[i] {
            Probe::Inaccessible => {},
            Probe::Unresolved(cause) => {
                let error = DiscoverError::Canonicalize(cause.clone());
                assert(fails_with(probes[i as int], error));
                return Err(error);
            },
            Probe::Resolved(path) => {
                match parent_directory(path) {
                    None => {
                        let error = DiscoverError::NoParent(path.clone());
                        assert(fails_with(probes[i as int], error));
                        return Err(error);
                    },
                    Some(parent) => {
                        watch_file(&mut watches, path.clone(), parent);
                    },
                }
            },
        }
        proof {
            let next = discovered(probes@, i as int + 1);
            assert(watches@ =~= before.union(targets_of(probes[i as int])));
            assert forall|target: Target| next.contains(target) == watches@.contains(target) by {
                if next.contains(target) {
                    let k = choose|k: int| 0 <= k < i as int + 1 && yields(probes@, k, target);
                    if k < i {
                        assert(before.contains(target));
                    }
                }
                if before.contains(target) {
                    let k = choose|k: int| 0 <= k < i as int && yields(probes@, k, target);
                    assert(yields(probes@, k, target));
                }
                if targets_of(probes[i as int]).contains(target) {
                    assert(yields(probes@, i as int, target));
                }
            }
            assert(watches@ =~= next);
        }
        i += 1;
    }
    Ok(watches)
}

} // verus!
