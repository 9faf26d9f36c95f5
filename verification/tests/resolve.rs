use command_minecraft_launcher::manifest::{
    ArtifactRef, AssetEntry, AssetIndex, GameVersion, GameVersionType, LibraryEntry, LoggingFile,
    ResolveError, VersionManifest,
};
use command_minecraft_launcher::platform::{Platform, PlatformRule, RuleAction};
use command_minecraft_launcher::resolver::DownloadManager;

fn artifact(path: &str, url: &str) -> ArtifactRef {
    ArtifactRef { path: path.to_string(), url: url.to_string() }
}

fn plain_library(path: &str, url: &str) -> LibraryEntry {
    LibraryEntry {
        artifact: Some(artifact(path, url)),
        natives_linux: None,
        natives_windows: None,
        natives_mac: None,
        rules: Vec::new(),
    }
}

fn manifest(libraries: Vec<LibraryEntry>) -> VersionManifest {
    VersionManifest {
        id: "1.19".to_string(),
        type_label: "release".to_string(),
        main_class: "net.minecraft.client.main.Main".to_string(),
        client_url: "https://example.test/client.jar".to_string(),
        logging_file: None,
        libraries,
        asset_index_id: "1.19".to_string(),
        asset_index_url: "https://example.test/assets.json".to_string(),
        arguments: None,
    }
}

fn asset(hash: &str) -> AssetEntry {
    AssetEntry { hash: hash.to_string(), size: 10 }
}

const HASH_A: &str = "aaaaaaaaaaaaaaaaaaaaaaaaaaaaaaaaaaaaaaaa";
const HASH_B: &str = "bbbbbbbbbbbbbbbbbbbbbbbbbbbbbbbbbbbbbbbb";

#[test]
fn absent_version_id_is_not_found() {
    let versions = vec![
        GameVersion {
            version_id: "1.19".to_string(),
            version_type: GameVersionType::Release,
            manifest_url: "https://example.test/1.19.json".to_string(),
        },
        GameVersion {
            version_id: "22w24a-pre".to_string(),
            version_type: GameVersionType::Snapshot,
            manifest_url: "https://example.test/22w24a-pre.json".to_string(),
        },
    ];
    let dm = DownloadManager::new();
    let r = dm.find_version(&versions, "22w24a");
    assert!(matches!(r, Err(ResolveError::VersionNotFound)));
}

#[test]
fn exact_version_id_is_found() {
    let versions = vec![GameVersion {
        version_id: "22w24a".to_string(),
        version_type: GameVersionType::Snapshot,
        manifest_url: "https://example.test/22w24a.json".to_string(),
    }];
    let dm = DownloadManager::new();
    let v = dm.find_version(&versions, "22w24a").unwrap();
    assert_eq!(v.manifest_url, "https://example.test/22w24a.json");
}

#[test]
fn client_jar_and_logging_file_are_queued() {
    let mut m = manifest(Vec::new());
    m.logging_file = Some(LoggingFile {
        id: "client-1.12.xml".to_string(),
        url: "https://example.test/log.xml".to_string(),
    });
    let index = AssetIndex { objects: Vec::new() };
    let dm = DownloadManager::new();
    let items = dm.resolve_work_items(&m, &index, "mine", Platform::Linux, &Vec::new());
    assert_eq!(items.len(), 2);
    assert_eq!(items[0].destination_path, "versions/mine/mine.jar");
    assert_eq!(items[0].source_url, "https://example.test/client.jar");
    assert_eq!(items[1].destination_path, "versions/mine/client-1.12.xml");
    assert_eq!(items[1].source_url, "https://example.test/log.xml");
}

#[test]
fn asset_destination_is_derived_from_hash() {
    let m = manifest(Vec::new());
    let index = AssetIndex { objects: vec![asset(HASH_A)] };
    let dm = DownloadManager::new();
    let items = dm.resolve_work_items(&m, &index, "v", Platform::Linux, &Vec::new());
    assert_eq!(items.len(), 2);
    assert_eq!(
        items[1].destination_path,
        format!("assets/objects/aa/{}", HASH_A)
    );
    assert_eq!(
        items[1].source_url,
        format!("https://resources.download.minecraft.net/aa/{}", HASH_A)
    );
}

#[test]
fn resolve_skips_existing_assets_on_rerun() {
    let m = manifest(Vec::new());
    let index = AssetIndex { objects: vec![asset(HASH_A), asset(HASH_B)] };
    let dm = DownloadManager::new();

    let first = dm.resolve_work_items(&m, &index, "v", Platform::Linux, &Vec::new());
    assert_eq!(first.len(), 3);

    // Pretend the first run downloaded every asset: a re-run against the
    // unchanged manifest must not re-queue any of them.
    let existing: Vec<String> = vec![
        format!("assets/objects/aa/{}", HASH_A),
        format!("assets/objects/bb/{}", HASH_B),
    ];
    let second = dm.resolve_work_items(&m, &index, "v", Platform::Linux, &existing);
    assert_eq!(second.len(), 1);
    assert_eq!(second[0].destination_path, "versions/v/v.jar");
    for item in &second {
        assert!(!existing.contains(&item.destination_path));
    }
}

#[test]
fn library_artifact_respects_rules_at_resolve_time() {
    let mut lib = plain_library("com/a/a.jar", "https://example.test/a.jar");
    lib.rules = vec![PlatformRule {
        action: RuleAction::Allow,
        platform: Some(Platform::Windows),
    }];
    let m = manifest(vec![lib]);
    let index = AssetIndex { objects: Vec::new() };
    let dm = DownloadManager::new();
    let on_linux = dm.resolve_work_items(&m, &index, "v", Platform::Linux, &Vec::new());
    assert_eq!(on_linux.len(), 1);
    let on_windows = dm.resolve_work_items(&m, &index, "v", Platform::Windows, &Vec::new());
    assert_eq!(on_windows.len(), 2);
    assert_eq!(on_windows[1].destination_path, "libraries/com/a/a.jar");
}

#[test]
fn native_classifiers_download_for_every_platform() {
    // Download-time classifier resolution is platform-agnostic: all present
    // native variants are fetched regardless of the current platform.
    let lib = LibraryEntry {
        artifact: None,
        natives_linux: Some(artifact("n/linux.jar", "https://example.test/nl.jar")),
        natives_windows: Some(artifact("n/windows.jar", "https://example.test/nw.jar")),
        natives_mac: Some(artifact("n/mac.jar", "https://example.test/nm.jar")),
        rules: vec![PlatformRule {
            action: RuleAction::Allow,
            platform: Some(Platform::Windows),
        }],
    };
    let m = manifest(vec![lib]);
    let index = AssetIndex { objects: Vec::new() };
    let dm = DownloadManager::new();
    let items = dm.resolve_work_items(&m, &index, "v", Platform::Linux, &Vec::new());
    let dests: Vec<&str> = items.iter().map(|i| i.destination_path.as_str()).collect();
    assert_eq!(
        dests,
        vec![
            "versions/v/v.jar",
            "libraries/n/linux.jar",
            "libraries/n/windows.jar",
            "libraries/n/mac.jar",
        ]
    );
}

#[test]
fn duplicate_destinations_are_deduplicated_before_enqueue() {
    let lib1 = plain_library("com/a/a.jar", "https://example.test/a.jar");
    let lib2 = plain_library("com/a/a.jar", "https://mirror.test/a.jar");
    let m = manifest(vec![lib1, lib2]);
    let index = AssetIndex { objects: Vec::new() };
    let dm = DownloadManager::new();
    let items = dm.resolve_work_items(&m, &index, "v", Platform::Linux, &Vec::new());
    assert_eq!(items.len(), 2);
    // The first occurrence wins.
    assert_eq!(items[1].destination_path, "libraries/com/a/a.jar");
    assert_eq!(items[1].source_url, "https://example.test/a.jar");
}

#[test]
fn malformed_asset_hash_fails_validation() {
    let good = AssetIndex { objects: vec![asset(HASH_A)] };
    assert!(good.validate());
    let short = AssetIndex { objects: vec![asset("abc123")] };
    assert!(!short.validate());
    let uppercase = AssetIndex {
        objects: vec![asset("AAAAAAAAAAAAAAAAAAAAAAAAAAAAAAAAAAAAAAAA")],
    };
    assert!(!uppercase.validate());
}

#[test]
fn version_type_names_decode() {
    assert_eq!(GameVersionType::from_name("release"), GameVersionType::Release);
    assert_eq!(GameVersionType::from_name("snapshot"), GameVersionType::Snapshot);
    assert_eq!(GameVersionType::from_name("old_beta"), GameVersionType::OldBeta);
    assert_eq!(GameVersionType::from_name("old_alpha"), GameVersionType::OldAlpha);
    assert_eq!(GameVersionType::from_name("something"), GameVersionType::Release);
}
