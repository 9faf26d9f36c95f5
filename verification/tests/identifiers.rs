use command_minecraft_launcher::auth::{Login, Post};
use command_minecraft_launcher::resolver::DownloadManager;
use command_minecraft_launcher::util::{generate_uuid_without_hyphens, strip_long_path_prefix};

#[test]
fn player_identifier_is_32_hex_digits() {
    let id = generate_uuid_without_hyphens("steve");
    assert_eq!(id.len(), 32);
    assert!(!id.contains('-'));
    assert!(id.chars().all(|c| c.is_ascii_hexdigit()));
}

#[test]
fn player_identifier_is_stable_and_name_dependent() {
    let a = generate_uuid_without_hyphens("steve");
    let b = generate_uuid_without_hyphens("steve");
    let c = generate_uuid_without_hyphens("alex");
    assert_eq!(a, b);
    assert_ne!(a, c);
}

#[test]
fn extended_length_prefix_is_stripped() {
    assert_eq!(strip_long_path_prefix(r"\\?\C:\game"), r"C:\game");
    assert_eq!(strip_long_path_prefix("/home/game"), "/home/game");
    assert_eq!(strip_long_path_prefix(""), "");
    // Only a leading marker is stripped.
    assert_eq!(strip_long_path_prefix(r"C:\\\?\x"), r"C:\\\?\x");
}

#[test]
fn fresh_login_is_signed_out() {
    let login = Login::new();
    assert!(!login.logged);
    assert!(login.name.is_empty());
    assert!(login.uuid.is_empty());
    assert!(login.refresh_id.is_empty());
}

#[test]
fn handles_construct() {
    let _dm = DownloadManager::new();
    let _post = Post::new();
}
