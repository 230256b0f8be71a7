use sidecar_supervisor::platform::Platform;
use sidecar_supervisor::resolver::{
    find_binary_in_paths, get_binary_names, get_fallback_binary_name, resolve_server_binary,
    search_locations, BinarySource, SearchLocation,
};

#[test]
fn binary_names_by_platform() {
    assert_eq!(
        get_binary_names(Platform::Windows),
        vec!["qbit-manage.exe", "qbit-manage-windows-amd64.exe"]
    );
    let unix = vec![
        "qbit-manage",
        "qbit-manage-linux-amd64",
        "qbit-manage-macos-x86_64",
        "qbit-manage-macos-arm64",
    ];
    assert_eq!(get_binary_names(Platform::Linux), unix);
    assert_eq!(get_binary_names(Platform::MacOs), unix);
}

#[test]
fn fallback_name_by_platform() {
    assert_eq!(get_fallback_binary_name(Platform::Windows), "qbit-manage.exe");
    assert_eq!(get_fallback_binary_name(Platform::Linux), "qbit-manage");
    assert_eq!(get_fallback_binary_name(Platform::MacOs), "qbit-manage");
}

#[test]
fn search_goes_from_resources_to_executable() {
    assert_eq!(
        search_locations(true, true),
        vec![
            SearchLocation::ResourceBin,
            SearchLocation::ResourceRoot,
            SearchLocation::ExecutableDir,
            SearchLocation::ExecutableParent,
        ]
    );
    assert_eq!(
        search_locations(true, false),
        vec![SearchLocation::ResourceBin, SearchLocation::ResourceRoot]
    );
    assert_eq!(
        search_locations(false, true),
        vec![SearchLocation::ExecutableDir, SearchLocation::ExecutableParent]
    );
    assert_eq!(search_locations(false, false), vec![]);
}

#[test]
fn first_existing_candidate_wins() {
    let probes = vec![
        vec![false, false, false, false],
        vec![false, false, true, true],
        vec![true, true, true, true],
    ];
    assert_eq!(find_binary_in_paths(&probes), Some((1, 2)));
    let probes = vec![vec![false, true], vec![true, false]];
    assert_eq!(find_binary_in_paths(&probes), Some((0, 1)));
    let probes = vec![vec![true]];
    assert_eq!(find_binary_in_paths(&probes), Some((0, 0)));
}

#[test]
fn nothing_is_found_where_nothing_exists() {
    assert_eq!(find_binary_in_paths(&vec![]), None);
    assert_eq!(find_binary_in_paths(&vec![vec![], vec![]]), None);
    assert_eq!(find_binary_in_paths(&vec![vec![false, false], vec![false]]), None);
}

#[test]
fn rows_of_different_lengths_are_searched_in_order() {
    let probes = vec![vec![], vec![false], vec![false, false, true], vec![true]];
    assert_eq!(find_binary_in_paths(&probes), Some((2, 2)));
}

#[test]
fn existing_override_wins_over_bundled_candidates() {
    let probes = vec![vec![true, true]];
    assert_eq!(resolve_server_binary(Some(true), &probes), Some(BinarySource::Override));
    assert_eq!(resolve_server_binary(Some(true), &vec![]), Some(BinarySource::Override));
}

#[test]
fn missing_override_is_passed_over() {
    let probes = vec![vec![false, true]];
    assert_eq!(
        resolve_server_binary(Some(false), &probes),
        Some(BinarySource::Bundled { location: 0, name: 1 })
    );
    assert_eq!(
        resolve_server_binary(None, &probes),
        Some(BinarySource::Bundled { location: 0, name: 1 })
    );
}

#[test]
fn resolution_fails_silently_where_nothing_exists() {
    assert_eq!(resolve_server_binary(None, &vec![vec![false; 4]; 4]), None);
    assert_eq!(resolve_server_binary(Some(false), &vec![]), None);
}
