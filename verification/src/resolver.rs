//! Finding the server executable: an override first, then the bundled
//! candidates in a fixed order, then the bare name on the search path.
//!
//! The caller probes the file system; this module fixes which places are
//! probed, in which order, and which probe wins.

use crate::platform::Platform;
use vstd::prelude::*;

verus! {

/// A directory that may hold the server executable.
#[derive(Clone, Copy, PartialEq, Eq, Structural, Debug)]
pub enum SearchLocation {
    /// `bin` below the bundled resources directory.
    ResourceBin,
    /// The bundled resources directory itself.
    ResourceRoot,
    /// The directory of the running executable.
    ExecutableDir,
    /// The parent of that directory.
    ExecutableParent,
}

/// Where the executable to launch comes from.
#[derive(Clone, Copy, PartialEq, Eq, Structural, Debug)]
pub enum BinarySource {
    /// The path that the override variable names.
    Override,
    /// The file `names[name]` in the directory `locations[location]`.
    Bundled { location: usize, name: usize },
}

/// The file names under which the server executable is shipped.
pub open spec fn binary_names(platform: Platform) -> Seq<Seq<char>> {
    match platform {
        Platform::Windows => seq!["qbit-manage.exe"@, "qbit-manage-windows-amd64.exe"@],
        _ => seq![
            "qbit-manage"@,
            "qbit-manage-linux-amd64"@,
            "qbit-manage-macos-x86_64"@,
            "qbit-manage-macos-arm64"@,
        ],
    }
}

/// The name handed to the operating system's own search when no
/// executable was found.
pub open spec fn fallback_binary_name(platform: Platform) -> Seq<char> {
    match platform {
        Platform::Windows => "qbit-manage.exe"@,
        _ => "qbit-manage"@,
    }
}

/// The directories to search, in order: those of the resources directory
/// if there is one, then those of the executable if its directory is known.
pub open spec fn search_order(resources: bool, executable: bool) -> Seq<SearchLocation> {
    let first = if resources {
        seq![SearchLocation::ResourceBin, SearchLocation::ResourceRoot]
    } else {
        Seq::empty()
    };
    let second = if executable {
        seq![SearchLocation::ExecutableDir, SearchLocation::ExecutableParent]
    } else {
        Seq::empty()
    };
    first + second
}

/// Whether the probe of name `name` in directory `location` found a file.
pub open spec fn found(probes: Seq<Seq<bool>>, location: int, name: int) -> bool {
    &&& 0 <= location < probes.len()
    &&& 0 <= name < probes[location].len()
    &&& probes[location][name]
}

/// Whether one place comes before another in the search: an earlier
/// directory, or in the same directory an earlier name.
pub open spec fn searched_before(l1: int, n1: int, l2: int, n2: int) -> bool {
    l1 < l2 || (l1 == l2 && n1 < n2)
}

/// Whether `(location, name)` is the first place in the search where a
/// file was found.
pub open spec fn first_found(probes: Seq<Seq<bool>>, location: int, name: int) -> bool {
    &&& found(probes, location, name)
    &&& forall|l: int, n: int|
        searched_before(l, n, location, name) ==> !#[trigger] found(probes, l, n)
}

/// Whether no probe found a file.
pub open spec fn none_found(probes: Seq<Seq<bool>>) -> bool {
    forall|l: int, n: int| !#[trigger] found(probes, l, n)
}

/// The executable that the search settles on. `override_exists` is `None`
/// without an override, else whether the path it names exists.
pub open spec fn resolves_to(
    override_exists: Option<bool>,
    probes: Seq<Seq<bool>>,
    result: Option<BinarySource>,
) -> bool {
    if override_exists == Some(true) {
        result == Some(BinarySource::Override)
    } else {
        match result {
            Some(BinarySource::Bundled { location, name }) => first_found(
                probes,
                location as int,
                name as int,
            ),
            Some(BinarySource::Override) => false,
            None => none_found(probes),
        }
    }
}

pub fn get_binary_names(platform: Platform) -> (names: Vec<&'static str>)
    ensures
        names.deep_view() == binary_names(platform),
{
    let mut names: Vec<&'static str> = Vec::new();
    match platform {
        Platform::Windows => {
            names.push("qbit-manage.exe");
            names.push("qbit-manage-windows-amd64.exe");
        },
        _ => {
            names.push("qbit-manage");
            names.push("qbit-manage-linux-amd64");
            names.push("qbit-manage-macos-x86_64");
            names.push("qbit-manage-macos-arm64");
        },
    }
    assert(names.deep_view() =~= binary_names(platform));
    names
}

pub fn get_fallback_binary_name(platform: Platform) -> (name: &'static str)
    ensures
        name@ == fallback_binary_name(platform),
{
    match platform {
        Platform::Windows => "qbit-manage.exe",
        _ => "qbit-manage",
    }
}

/// The directories to search, in order. `resources` and `executable` say
/// whether the resources directory and the executable's directory are
/// known.
pub fn search_locations(resources: bool, executable: bool) -> (locations: Vec<SearchLocation>)
    ensures
        locations@ == search_order(resources, executable),
{
    let mut locations: Vec<SearchLocation> = Vec::new();
    if resources {
        locations.push(SearchLocation::ResourceBin);
        locations.push(SearchLocation::ResourceRoot);
    }
    if executable {
        locations.push(SearchLocation::ExecutableDir);
        locations.push(SearchLocation::ExecutableParent);
    }
    assert(locations@ =~= search_order(resources, executable));
    locations
}

/// The first place, directory by directory and name by name, whose probe
/// found a file. `probes[l][n]` says whether name `n` exists in directory
/// `l`.
pub fn find_binary_in_paths(probes: &Vec<Vec<bool>>) -> (place: Option<(usize, usize)>)
    ensures
        match place {
            Some((location, name)) => first_found(probes.deep_view(), location as int, name as int),
            None => none_found(probes.deep_view()),
        },
{
    let ghost table = probes.deep_view();
    let mut l: usize = 0;
    while l < probes.len()
        invariant
            l <= probes.len(),
            table == probes.deep_view(),
            forall|a: int, b: int| a < l ==> !#[trigger] found(table, a, b),
        decreases probes.len() - l,
    {
        let row = &probes[l];
        assert(table[l as int] == row@);
        let mut n: usize = 0;
        while n < row.len()
            invariant
                l < probes.len(),
                n <= row.len(),
                table == probes.deep_view(),
                table[l as int] == row@,
                forall|a: int, b: int| a < l ==> !#[trigger] found(table, a, b),
                forall|b: int| b < n ==> !#[trigger] found(table, l as int, b),
            decreases row.len() - n,
        {
            if row[n] {
                return Some((l, n));
            }
            n += 1;
        }
        l += 1;
    }
    None
}

/// The executable to launch, if the search finds one: the override where
/// it names an existing path, else the first bundled candidate that
/// exists.
pub fn resolve_server_binary(override_exists: Option<bool>, probes: &Vec<Vec<bool>>) -> (source:
    Option<BinarySource>)
    ensures
        resolves_to(override_exists, probes.deep_view(), source),
{
    match override_exists {
        Some(true) => {
            return Some(BinarySource::Override);
        },
        _ => {},
    }
    match find_binary_in_paths(probes) {
        Some((location, name)) => Some(BinarySource::Bundled { location, name }),
        None => None,
    }
}

} // verus!
