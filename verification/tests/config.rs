use celia_media::config::constants;
use celia_media::config::{
    default_force_path_style, default_listen, default_presign_expiry_secs, default_region,
    AppConfig, BucketConfig, CredentialConfig, CredentialError,
};

fn plain(secret: &str) -> CredentialConfig {
    CredentialConfig::Plain { plain: secret.to_string() }
}

fn bucket(access_key: CredentialConfig, secret_key: CredentialConfig) -> BucketConfig {
    BucketConfig {
        endpoint_url: "http://localhost:9000".to_string(),
        bucket_name: "test".to_string(),
        access_key,
        secret_key,
        region: default_region(),
        force_path_style: default_force_path_style(),
        presign_expiry_secs: None,
        proxy: false,
    }
}

#[test]
fn test_read_plain_credential() {
    let credential = CredentialConfig::Plain { plain: "aaaaaa".to_string() };
    let secret: String = credential.into_secret(None);
    assert_eq!(secret, "aaaaaa");
}

#[test]
fn plain_credential_resolves_to_itself() {
    let credential = CredentialConfig::Plain { plain: "aaaaaa".to_string() };
    assert_eq!(credential.resolve(None).unwrap(), "aaaaaa");
}

#[test]
fn secret_that_can_be_had_is_returned() {
    let from_file = CredentialConfig::Path { path: "/run/secrets/key".to_string() };
    assert_eq!(from_file.into_secret(Some(b"secret\n".to_vec())), "secret\n");
    let from_env = CredentialConfig::Env { env: "CREDTEST_ENV_OK".to_string() };
    assert_eq!(from_env.into_secret(Some(b"from_env".to_vec())), "from_env");
    let literal = plain("aaaaaa");
    assert_eq!(literal.into_secret(Some(vec![0xff])), "aaaaaa");
}

#[test]
fn plain_credential_ignores_what_was_found() {
    let credential = plain("aaaaaa");
    let secret = credential.resolve(Some(b"other".to_vec())).unwrap();
    assert_eq!(secret, "aaaaaa");
}

#[test]
fn path_credential_is_the_file_content() {
    let credential = CredentialConfig::Path { path: "/run/secrets/key".to_string() };
    let secret = credential.resolve(Some(b"secret\n".to_vec())).unwrap();
    assert_eq!(secret, "secret\n");
}

#[test]
fn path_credential_keeps_text_beyond_ascii() {
    let credential = CredentialConfig::Path { path: "/run/secrets/key".to_string() };
    let secret = credential.resolve(Some("clé-ключ-鍵".as_bytes().to_vec())).unwrap();
    assert_eq!(secret, "clé-ключ-鍵");
}

#[test]
fn path_credential_of_empty_file_is_empty() {
    let credential = CredentialConfig::Path { path: "/run/secrets/key".to_string() };
    assert_eq!(credential.resolve(Some(Vec::new())).unwrap(), "");
}

#[test]
fn path_credential_without_file_fails() {
    let credential = CredentialConfig::Path { path: "/no/such/file".to_string() };
    let error = credential.resolve(None).unwrap_err();
    assert!(matches!(&error, CredentialError::UnreadableFile(path) if path == "/no/such/file"));
    assert_eq!(error.to_string(), "Unable to read credential file \"/no/such/file\"");
}

#[test]
fn path_credential_with_invalid_utf8_fails() {
    let credential = CredentialConfig::Path { path: "/run/secrets/key".to_string() };
    let error = credential.resolve(Some(vec![0x66, 0xff, 0x6f])).unwrap_err();
    assert!(
        matches!(&error, CredentialError::InvalidFileContent(path) if path == "/run/secrets/key")
    );
    assert_eq!(
        error.to_string(),
        "Unable to read content of credential file \"/run/secrets/key\""
    );
}

#[test]
fn env_credential_is_the_variable_value() {
    let credential = CredentialConfig::Env { env: "CREDTEST_ENV_OK".to_string() };
    let secret = credential.resolve(Some(b"from_env".to_vec())).unwrap();
    assert_eq!(secret, "from_env");
}

#[test]
fn env_credential_without_variable_fails() {
    let credential = CredentialConfig::Env { env: "CREDTEST_ENV_MISSING".to_string() };
    let error = credential.resolve(None).unwrap_err();
    assert!(matches!(&error, CredentialError::MissingEnv(name) if name == "CREDTEST_ENV_MISSING"));
    assert_eq!(
        error.to_string(),
        "Missing or unprocessable environment variable \"CREDTEST_ENV_MISSING\""
    );
}

#[test]
fn env_credential_with_invalid_utf8_fails() {
    let credential = CredentialConfig::Env { env: "CREDTEST_ENV_BAD".to_string() };
    let error = credential.resolve(Some(vec![0xc3, 0x28])).unwrap_err();
    assert!(matches!(&error, CredentialError::MissingEnv(name) if name == "CREDTEST_ENV_BAD"));
}

#[test]
fn credential_clone_is_equal() {
    let credential = CredentialConfig::Env { env: "AKIA".to_string() };
    assert_eq!(credential.clone(), credential);
    assert_ne!(credential, CredentialConfig::Path { path: "AKIA".to_string() });
    assert!(!credential.is_plain());
    assert!(plain("x").is_plain());
}

#[test]
fn default_values() {
    assert_eq!(default_listen(), "[::]:8080");
    assert_eq!(default_presign_expiry_secs(), 300);
    assert_eq!(default_region(), "us-east-1");
    assert!(default_force_path_style());
}

#[test]
fn default_listen_joins_address_and_port() {
    assert_eq!(
        default_listen(),
        format!("{}:{}", constants::DEFAULT_BIND_ADDR, constants::DEFAULT_BIND_PORT)
    );
    assert_eq!(constants::DEFAULT_BIND_ADDR, "[::]");
    assert_eq!(constants::DEFAULT_BIND_PORT, 8080);
    assert_eq!(constants::DEFAULT_PRESIGN_EXPIRY, 300);
    assert_eq!(constants::DEFAULT_S3_REGION, "us-east-1");
    assert!(constants::DEFAULT_S3_FORCE_PATH_STYLE);
    assert_eq!(constants::DEFAULT_CONFIG_PATH, "/etc/celia-media/config.yml");
}

#[test]
fn config_is_resolved_when_every_credential_is_plain() {
    let mut config = AppConfig {
        listen: default_listen(),
        presign_expiry_secs: default_presign_expiry_secs(),
        buckets: Vec::new(),
    };
    assert!(config.is_resolved());
    config.buckets.push(("a".to_string(), bucket(plain("key"), plain("secret"))));
    assert!(config.is_resolved());
    config.buckets.push((
        "b".to_string(),
        bucket(plain("key"), CredentialConfig::Path { path: "/secret2".to_string() }),
    ));
    assert!(!config.is_resolved());
    assert!(config.buckets[0].1.is_resolved());
    assert!(!config.buckets[1].1.is_resolved());
    config.buckets.push(("c".to_string(), bucket(plain("key"), plain("secret"))));
    assert!(!config.is_resolved());
}

#[test]
fn config_with_unresolved_access_key_is_not_resolved() {
    let config = AppConfig {
        listen: default_listen(),
        presign_expiry_secs: 600,
        buckets: vec![(
            "photos".to_string(),
            bucket(CredentialConfig::Env { env: "AKIA".to_string() }, plain("secret")),
        )],
    };
    assert!(!config.is_resolved());
}
