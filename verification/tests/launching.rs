use command_minecraft_launcher::manifest::{
    ArgToken, ArgumentLists, ArtifactRef, LaunchError, LibraryEntry, VersionManifest,
};
use command_minecraft_launcher::launch::{LaunchInfo, Launcher};
use command_minecraft_launcher::platform::{Platform, PlatformRule, RuleAction};

fn artifact(path: &str, url: &str) -> ArtifactRef {
    ArtifactRef { path: path.to_string(), url: url.to_string() }
}

fn plain_library(path: &str) -> LibraryEntry {
    LibraryEntry {
        artifact: Some(artifact(path, "https://example.test/lib.jar")),
        natives_linux: None,
        natives_windows: None,
        natives_mac: None,
        rules: Vec::new(),
    }
}

fn manifest(libraries: Vec<LibraryEntry>) -> VersionManifest {
    VersionManifest {
        id: "1.19".to_string(),
        type_label: "release".to_string(),
        main_class: "net.minecraft.client.main.Main".to_string(),
        client_url: "https://example.test/client.jar".to_string(),
        logging_file: None,
        libraries,
        asset_index_id: "1.19".to_string(),
        asset_index_url: "https://example.test/assets.json".to_string(),
        arguments: None,
    }
}

fn info(name: &str, player: &str) -> LaunchInfo {
    LaunchInfo {
        player_name: player.to_string(),
        uuid: "0123456789abcdef0123456789abcdef".to_string(),
        version: String::new(),
        name: name.to_string(),
        demo: false,
    }
}

#[test]
fn missing_manifest_refuses_launch() {
    let launcher = Launcher::new();
    let r = launcher.assemble(None, &info("v", "steve"), "/game", Platform::Linux);
    assert!(matches!(r, Err(LaunchError::ManifestMissing)));
}

#[test]
fn classpath_joins_applicable_libraries_then_jar() {
    // Three applicable libraries plus the main jar: exactly four segments,
    // manifest order first, the jar last.
    let m = manifest(vec![
        plain_library("com/a/a.jar"),
        plain_library("com/b/b.jar"),
        plain_library("com/c/c.jar"),
    ]);
    let launcher = Launcher::new();
    let cp = launcher.classpath(&m, "v1", Platform::Linux, "/game");
    let expected = "/game/libraries/com/a/a.jar:/game/libraries/com/b/b.jar:/game/libraries/com/c/c.jar:/game/versions/v1/v1.jar";
    assert_eq!(cp, expected);
    assert_eq!(cp.split(':').count(), 4);
}

#[test]
fn classpath_uses_semicolon_on_windows() {
    let m = manifest(vec![plain_library("com/a/a.jar")]);
    let launcher = Launcher::new();
    let cp = launcher.classpath(&m, "v1", Platform::Windows, "C:/game");
    assert_eq!(
        cp,
        "C:/game/libraries/com/a/a.jar;C:/game/versions/v1/v1.jar"
    );
}

#[test]
fn classpath_filters_by_rules_for_current_platform() {
    let mut windows_only = plain_library("com/w/w.jar");
    windows_only.rules = vec![PlatformRule {
        action: RuleAction::Allow,
        platform: Some(Platform::Windows),
    }];
    let m = manifest(vec![plain_library("com/a/a.jar"), windows_only]);
    let launcher = Launcher::new();
    let cp = launcher.classpath(&m, "v1", Platform::Linux, "/game");
    assert_eq!(cp, "/game/libraries/com/a/a.jar:/game/versions/v1/v1.jar");
}

#[test]
fn natives_filter_for_current_platform_only() {
    let lib = LibraryEntry {
        artifact: None,
        natives_linux: Some(artifact("n/linux.jar", "https://example.test/nl.jar")),
        natives_windows: Some(artifact("n/windows.jar", "https://example.test/nw.jar")),
        natives_mac: None,
        rules: Vec::new(),
    };
    let m = manifest(vec![lib]);
    let launcher = Launcher::new();
    let on_linux = launcher.natives_to_extract(&m, Platform::Linux);
    assert_eq!(on_linux, vec!["libraries/n/linux.jar"]);
    let on_mac = launcher.natives_to_extract(&m, Platform::Mac);
    assert!(on_mac.is_empty());
}

#[test]
fn manifest_without_argument_lists_yields_no_arguments() {
    let m = manifest(Vec::new());
    let launcher = Launcher::new();
    let args = launcher
        .assemble(Some(&m), &info("v", "steve"), "/game", Platform::Linux)
        .unwrap();
    assert!(args.is_empty());
}

#[test]
fn assembled_arguments_substitute_placeholders() {
    let mut m = manifest(vec![plain_library("com/a/a.jar")]);
    m.arguments = Some(ArgumentLists {
        jvm: vec![
            ArgToken::Text("-Djava.library.path=${natives_directory}".to_string()),
            ArgToken::Composite,
            ArgToken::Text("-cp".to_string()),
            ArgToken::Text("${classpath}".to_string()),
        ],
        game: vec![
            ArgToken::Text("--username".to_string()),
            ArgToken::Text("${auth_player_name}".to_string()),
            ArgToken::Text("--version".to_string()),
            ArgToken::Text("${version_name}".to_string()),
            ArgToken::Text("--assetsDir".to_string()),
            ArgToken::Text("${assets_root}".to_string()),
            ArgToken::Text("--assetIndex".to_string()),
            ArgToken::Text("${assets_index_name}".to_string()),
            ArgToken::Text("--uuid".to_string()),
            ArgToken::Text("${auth_uuid}".to_string()),
            ArgToken::Text("--accessToken".to_string()),
            ArgToken::Text("${auth_access_token}".to_string()),
            ArgToken::Text("--userType".to_string()),
            ArgToken::Text("${user_type}".to_string()),
            ArgToken::Text("--versionType".to_string()),
            ArgToken::Text("${version_type}".to_string()),
        ],
    });
    let launcher = Launcher::new();
    let who = info("v1", "steve");
    let args = launcher
        .assemble(Some(&m), &who, "/game", Platform::Linux)
        .unwrap();
    assert_eq!(
        args,
        vec![
            "-Djava.library.path=/game/versions/v1/natives",
            "-cp",
            "/game/libraries/com/a/a.jar:/game/versions/v1/v1.jar",
            "net.minecraft.client.main.Main",
            "--username",
            "steve",
            "--version",
            "1.19",
            "--assetsDir",
            "/game/assets",
            "--assetIndex",
            "1.19",
            "--uuid",
            "0123456789abcdef0123456789abcdef",
            "--accessToken",
            "0123456789abcdef0123456789abcdef",
            "--userType",
            "msa",
            "--versionType",
            "release",
        ]
    );
}

#[test]
fn composite_tokens_are_skipped() {
    let mut m = manifest(Vec::new());
    m.arguments = Some(ArgumentLists {
        jvm: vec![ArgToken::Composite, ArgToken::Text("-Xmx1G".to_string())],
        game: vec![ArgToken::Composite],
    });
    let launcher = Launcher::new();
    let args = launcher
        .assemble(Some(&m), &info("v", "p"), "/game", Platform::Linux)
        .unwrap();
    assert_eq!(args, vec!["-Xmx1G", "net.minecraft.client.main.Main"]);
}

#[test]
fn launcher_identity_placeholders() {
    let mut m = manifest(Vec::new());
    m.arguments = Some(ArgumentLists {
        jvm: Vec::new(),
        game: vec![
            ArgToken::Text("${launcher_name}".to_string()),
            ArgToken::Text("${launcher_version}".to_string()),
            ArgToken::Text("${game_directory}".to_string()),
        ],
    });
    let launcher = Launcher::new();
    let args = launcher
        .assemble(Some(&m), &info("v", "p"), "/game", Platform::Linux)
        .unwrap();
    assert_eq!(
        args,
        vec![
            "net.minecraft.client.main.Main",
            "command-minecraft-launcher",
            "0.0.0",
            "/game",
        ]
    );
}
