use you_have_mail_cli::storage::{get_config_file_path, join_path, PlainSecrets, SecretsType};

#[test]
fn config_file_path_joins_with_separator() {
    assert_eq!(get_config_file_path("/home/u/.config/app"), "/home/u/.config/app/config");
    assert_eq!(get_config_file_path("/home/u/.config/app/"), "/home/u/.config/app/config");
    assert_eq!(get_config_file_path(""), "config");
    assert_eq!(
        get_config_file_path("/tmp/x"),
        std::path::Path::new("/tmp/x").join("config").to_str().unwrap()
    );
}

#[test]
fn plain_secrets_file_in_directory() {
    let s = PlainSecrets::with_directory("/var/lib/app");
    assert_eq!(s.filepath(), "/var/lib/app/encryption_key");
    assert_eq!(join_path("a", "b"), "a/b");
}

#[test]
fn secrets_type_equality() {
    assert_eq!(SecretsType::Plain, SecretsType::Plain);
    assert_ne!(SecretsType::Plain, SecretsType::Keyring);
}
