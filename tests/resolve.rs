use minecraft_downloader::args::ReleaseType;
use minecraft_downloader::catalog::{Latest, Manifest, Version};

#[test]
fn it_returns_the_latest_snapshot_version() {
    let mut manifest: Manifest = test_manifest();
    let expected: Version = Version {
        id: "1.16-pre2".to_string(),
        type_field: "snapshot".to_string(),
        url: "".to_string(),
        time: "".to_string(),
        release_time: "".to_string(),
    };
    let actual: Option<Version> = manifest.get(ReleaseType::snapshot, "latest");
    assert!(actual.is_some());
    assert_eq!(expected, actual.unwrap());
}

#[test]
fn it_returns_the_latest_release_version() {
    let mut manifest: Manifest = test_manifest();
    let expected: Version = Version {
        id: "1.15.2".to_string(),
        type_field: "release".to_string(),
        url: "".to_string(),
        time: "".to_string(),
        release_time: "".to_string(),
    };
    let actual: Option<Version> = manifest.get(ReleaseType::release, "latest");
    assert!(actual.is_some());
    assert_eq!(expected, actual.unwrap());
}

#[test]
fn it_will_return_a_snapshot_version_regardless_of_release_type() {
    let mut manifest: Manifest = test_manifest();
    let expected: Version = Version {
        id: "1.16-pre2".to_string(),
        type_field: "snapshot".to_string(),
        url: "".to_string(),
        time: "".to_string(),
        release_time: "".to_string(),
    };
    let actual: Option<Version> = manifest.get(ReleaseType::release, "1.16-pre2");
    assert!(actual.is_some());
    assert_eq!(expected, actual.unwrap());
}

#[test]
fn it_will_return_a_release_version_regardless_of_release_type() {
    let mut manifest: Manifest = test_manifest();
    let expected: Version = Version {
        id: "1.15.2".to_string(),
        type_field: "release".to_string(),
        url: "".to_string(),
        time: "".to_string(),
        release_time: "".to_string(),
    };
    let actual: Option<Version> = manifest.get(ReleaseType::snapshot, "1.15.2");
    assert!(actual.is_some());
    assert_eq!(expected, actual.unwrap());
}

#[test]
fn it_will_return_an_old_release_version_if_asked() {
    let mut manifest: Manifest = test_manifest();
    let expected: Version = Version {
        id: "1.14.4".to_string(),
        type_field: "release".to_string(),
        url: "".to_string(),
        time: "".to_string(),
        release_time: "".to_string(),
    };
    let actual: Option<Version> = manifest.get(ReleaseType::release, "1.14.4");
    assert!(actual.is_some());
    assert_eq!(expected, actual.unwrap());
}

#[test]
fn it_will_return_a_lower_snapshot_version_if_asked() {
    let mut manifest: Manifest = test_manifest();
    let expected: Version = Version {
        id: "1.14-pre7".to_string(),
        type_field: "snapshot".to_string(),
        url: "".to_string(),
        time: "".to_string(),
        release_time: "".to_string(),
    };
    let actual: Option<Version> = manifest.get(ReleaseType::snapshot, "1.14-pre7");
    assert!(actual.is_some());
    assert_eq!(expected, actual.unwrap());
}

#[test]
fn it_will_return_nothing_if_the_version_asked_does_not_exist() {
    let mut manifest: Manifest = test_manifest();
    let actual: Option<Version> = manifest.get(ReleaseType::release, "1.17.1");
    assert!(actual.is_none());
}

#[test]
fn it_will_return_the_latest_release_version_even_if_a_snapshot_is_requested_if_that_is_the_latest() {
    let mut manifest: Manifest = test_manifest();
    // make the current snapshot the same as teh release
    // this is what returns when the latest version is a release version
    manifest.latest.snapshot = "1.15.2".to_string();

    let actual: Option<Version> = manifest.get(ReleaseType::snapshot, "latest");
    assert!(actual.is_some());

    let expected: Version = Version {
        id: "1.15.2".to_string(),
        type_field: "release".to_string(),
        url: "".to_string(),
        time: "".to_string(),
        release_time: "".to_string(),
    };

    assert_eq!(expected, actual.unwrap());
}

fn test_manifest() -> Manifest {
    Manifest {
        latest: Latest {
            release: "1.15.2".to_string(),
            snapshot: "1.16-pre2".to_string(),
        },
        versions: vec![
            Version {
                id: "1.16-pre2".to_string(),
                type_field: "snapshot".to_string(),
                url: "".to_string(),
                time: "".to_string(),
                release_time: "".to_string(),
            },
            Version {
                id: "1.16-pre1".to_string(),
                type_field: "snapshot".to_string(),
                url: "".to_string(),
                time: "".to_string(),
                release_time: "".to_string(),
            },
            Version {
                id: "1.15.2".to_string(),
                type_field: "release".to_string(),
                url: "".to_string(),
                time: "".to_string(),
                release_time: "".to_string(),
            },
            Version {
                id: "1.14.4".to_string(),
                type_field: "release".to_string(),
                url: "".to_string(),
                time: "".to_string(),
                release_time: "".to_string(),
            },
            Version {
                id: "1.14-pre7".to_string(),
                type_field: "snapshot".to_string(),
                url: "".to_string(),
                time: "".to_string(),
                release_time: "".to_string(),
            },
        ],
    }
}

fn summary(id: &str, kind: &str) -> Version {
    Version {
        id: id.to_string(),
        type_field: kind.to_string(),
        url: "".to_string(),
        time: "".to_string(),
        release_time: "".to_string(),
    }
}

#[test]
fn explicit_ids_resolve_under_either_preference() {
    let mut manifest = test_manifest();
    let ids = ["1.16-pre2", "1.16-pre1", "1.15.2", "1.14.4", "1.14-pre7"];
    for id in ids.iter() {
        let by_release = manifest.get(ReleaseType::release, id);
        let by_snapshot = manifest.get(ReleaseType::snapshot, id);
        assert_eq!(by_release, by_snapshot);
        assert_eq!(by_release.unwrap().id, id.to_string());
    }
}

#[test]
fn latest_release_is_the_release_pointer() {
    let mut manifest = test_manifest();
    let pointer = manifest.latest.release.clone();
    let latest = manifest.get(ReleaseType::release, "latest");
    assert_eq!(latest, manifest.get(ReleaseType::snapshot, &pointer));
    assert_eq!(latest, Some(summary("1.15.2", "release")));
}

#[test]
fn latest_snapshot_is_the_snapshot_pointer() {
    let mut manifest = test_manifest();
    let pointer = manifest.latest.snapshot.clone();
    let latest = manifest.get(ReleaseType::snapshot, "latest");
    assert_eq!(latest, manifest.get(ReleaseType::release, &pointer));
    assert_eq!(latest, Some(summary("1.16-pre2", "snapshot")));
}

#[test]
fn an_unknown_id_resolves_to_nothing() {
    let mut manifest = test_manifest();
    assert_eq!(manifest.get(ReleaseType::release, "foobar"), None);
    assert_eq!(manifest.get(ReleaseType::snapshot, "foobar"), None);
}

#[test]
fn the_documented_scenario_resolves_as_stated() {
    let mut manifest = test_manifest();
    assert_eq!(manifest.get(ReleaseType::release, "1.14.4"), Some(summary("1.14.4", "release")));
    assert_eq!(manifest.get(ReleaseType::snapshot, "1.14-pre7"), Some(summary("1.14-pre7", "snapshot")));
    assert_eq!(manifest.get(ReleaseType::release, "latest"), Some(summary("1.15.2", "release")));
}

#[test]
fn a_pointer_to_a_missing_id_resolves_to_nothing() {
    let mut manifest = test_manifest();
    manifest.latest.snapshot = "1.17-pre1".to_string();
    assert_eq!(manifest.get(ReleaseType::snapshot, "latest"), None);
}

#[test]
fn an_empty_catalog_resolves_nothing() {
    let mut manifest = Manifest {
        latest: Latest { release: "1.15.2".to_string(), snapshot: "1.16-pre2".to_string() },
        versions: vec![],
    };
    assert_eq!(manifest.get(ReleaseType::release, "latest"), None);
    assert_eq!(manifest.find_by_id("1.15.2"), None);
}

#[test]
fn duplicate_ids_resolve_to_the_first_entry() {
    let mut manifest = test_manifest();
    let mut later = summary("1.15.2", "snapshot");
    later.url = "second".to_string();
    manifest.versions.push(later);
    let found = manifest.find_by_id("1.15.2").unwrap();
    assert_eq!(found.type_field, "release");
    assert_eq!(found.url, "");
}

#[test]
fn lookup_leaves_the_catalog_as_it_was() {
    let mut manifest = test_manifest();
    let before = manifest.clone();
    let _ = manifest.find_by_id("1.14-pre7");
    let _ = manifest.get(ReleaseType::snapshot, "latest");
    assert_eq!(manifest, before);
}

#[test]
fn ids_match_exactly() {
    let mut manifest = test_manifest();
    assert_eq!(manifest.find_by_id("1.15"), None);
    assert_eq!(manifest.find_by_id("1.15.2 "), None);
    assert_eq!(manifest.get(ReleaseType::release, "Latest"), None);
}

#[test]
fn copy_gives_an_equal_entry() {
    let v = Version {
        id: "1.15.2".to_string(),
        type_field: "release".to_string(),
        url: "https://example.com/1.15.2.json".to_string(),
        time: "2020-01-24T11:23:24+00:00".to_string(),
        release_time: "2020-01-17T10:03:52+00:00".to_string(),
    };
    assert_eq!(v.copy(), v);
}
