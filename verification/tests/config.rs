use transaction_signer::config::{ConfigError, ConfigVariable};
use transaction_signer::Config;

fn env(pairs: &[(&str, &str)]) -> Vec<(String, String)> {
    pairs.iter().map(|(key, value)| (key.to_string(), value.to_string())).collect()
}

#[test]
fn builds_with_a_private_key_when_kms_is_not_selected() {
    let config = Config::build(&env(&[
        ("RPC_URL", "http://localhost:8545"),
        ("DATABASE_URL", "postgres://localhost/transactions"),
        ("PRIVATE_KEY", "0xabc"),
    ]))
    .unwrap();

    assert_eq!(
        config,
        Config {
            use_kms: false,
            rpc_url: "http://localhost:8545".to_string(),
            private_key: Some("0xabc".to_string()),
            signer_kms_id: None,
            database_url: "postgres://localhost/transactions".to_string(),
        }
    );
}

#[test]
fn builds_with_a_kms_key_when_kms_is_selected() {
    let config = Config::build(&env(&[
        ("USE_KMS", "true"),
        ("SIGNER_KMS_ID", "key-1"),
        ("DATABASE_URL", "postgres://localhost/transactions"),
        ("RPC_URL", "http://localhost:8545"),
    ]))
    .unwrap();

    assert_eq!(
        config,
        Config {
            use_kms: true,
            rpc_url: "http://localhost:8545".to_string(),
            private_key: None,
            signer_kms_id: Some("key-1".to_string()),
            database_url: "postgres://localhost/transactions".to_string(),
        }
    );
}

#[test]
fn use_kms_is_selected_by_1_and_by_true_only() {
    let selected = |value: Option<&str>| {
        let mut pairs = env(&[
            ("RPC_URL", "rpc"),
            ("DATABASE_URL", "db"),
            ("PRIVATE_KEY", "key"),
            ("SIGNER_KMS_ID", "kms"),
        ]);
        if let Some(value) = value {
            pairs.push(("USE_KMS".to_string(), value.to_string()));
        }
        Config::build(&pairs).unwrap().use_kms
    };

    assert!(selected(Some("1")));
    assert!(selected(Some("true")));
    assert!(!selected(None));
    assert!(!selected(Some("false")));
    assert!(!selected(Some("0")));
    assert!(!selected(Some("")));
    assert!(!selected(Some("TRUE")));
    assert!(!selected(Some("True")));
    assert!(!selected(Some("yes")));
    assert!(!selected(Some(" 1")));
}

#[test]
fn the_credential_that_is_not_selected_is_left_out() {
    let pairs = |use_kms: &str| {
        env(&[
            ("RPC_URL", "rpc"),
            ("DATABASE_URL", "db"),
            ("USE_KMS", use_kms),
            ("PRIVATE_KEY", "key"),
            ("SIGNER_KMS_ID", "kms"),
        ])
    };

    let local = Config::build(&pairs("false")).unwrap();
    assert_eq!(local.private_key, Some("key".to_string()));
    assert_eq!(local.signer_kms_id, None);

    let remote = Config::build(&pairs("1")).unwrap();
    assert_eq!(remote.private_key, None);
    assert_eq!(remote.signer_kms_id, Some("kms".to_string()));
}

#[test]
fn a_missing_rpc_url_is_an_error() {
    let built = Config::build(&env(&[("DATABASE_URL", "db"), ("PRIVATE_KEY", "key")]));

    assert_eq!(built, Err(ConfigError::Missing(ConfigVariable::RpcUrl)));
}

#[test]
fn a_missing_database_url_is_an_error() {
    let built = Config::build(&env(&[("RPC_URL", "rpc"), ("PRIVATE_KEY", "key")]));

    assert_eq!(built, Err(ConfigError::Missing(ConfigVariable::DatabaseUrl)));
}

#[test]
fn a_missing_private_key_is_an_error_without_kms() {
    let built = Config::build(&env(&[
        ("RPC_URL", "rpc"),
        ("DATABASE_URL", "db"),
        ("SIGNER_KMS_ID", "kms"),
    ]));

    assert_eq!(built, Err(ConfigError::Missing(ConfigVariable::PrivateKey)));
}

#[test]
fn a_missing_kms_key_is_an_error_with_kms() {
    let built = Config::build(&env(&[
        ("RPC_URL", "rpc"),
        ("DATABASE_URL", "db"),
        ("USE_KMS", "1"),
        ("PRIVATE_KEY", "key"),
    ]));

    assert_eq!(built, Err(ConfigError::Missing(ConfigVariable::SignerKmsId)));
}

#[test]
fn the_first_missing_option_is_reported() {
    assert_eq!(Config::build(&env(&[])), Err(ConfigError::Missing(ConfigVariable::RpcUrl)));
    assert_eq!(
        Config::build(&env(&[("RPC_URL", "rpc")])),
        Err(ConfigError::Missing(ConfigVariable::DatabaseUrl))
    );
    assert_eq!(
        Config::build(&env(&[("RPC_URL", "rpc"), ("USE_KMS", "true")])),
        Err(ConfigError::Missing(ConfigVariable::DatabaseUrl))
    );
}

#[test]
fn messages_name_the_missing_option() {
    assert_eq!(
        ConfigError::Missing(ConfigVariable::RpcUrl).to_string(),
        "Missing env variable: RPC_URL"
    );
    assert_eq!(
        ConfigError::Missing(ConfigVariable::DatabaseUrl).to_string(),
        "Missing env variable: DATABASE_URL"
    );
    assert_eq!(
        ConfigError::Missing(ConfigVariable::SignerKmsId).to_string(),
        "Missing env variable: SIGNER_KMS_ID"
    );
    assert_eq!(
        ConfigError::Missing(ConfigVariable::PrivateKey).to_string(),
        "Missing env variable: PRIVATE_KEY"
    );
    assert_eq!(ConfigVariable::UseKms.name(), "USE_KMS");
}

#[test]
fn get_env_var_finds_a_value_by_its_name() {
    let pairs = env(&[("RPC_URL", "rpc"), ("DATABASE_URL", "db"), ("RPC_URL", "second")]);

    assert_eq!(Config::get_env_var(&pairs, "RPC_URL"), Some("rpc".to_string()));
    assert_eq!(Config::get_env_var(&pairs, "DATABASE_URL"), Some("db".to_string()));
    assert_eq!(Config::get_env_var(&pairs, "PRIVATE_KEY"), None);
    assert_eq!(Config::get_env_var(&pairs, "rpc_url"), None);
    assert_eq!(Config::get_env_var(&pairs, "RPC_URL "), None);
    assert_eq!(Config::get_env_var(&Vec::new(), "RPC_URL"), None);
}

#[test]
fn an_empty_value_is_a_value() {
    let config = Config::build(&env(&[
        ("RPC_URL", ""),
        ("DATABASE_URL", ""),
        ("PRIVATE_KEY", ""),
    ]))
    .unwrap();

    assert_eq!(config.rpc_url, "");
    assert_eq!(config.private_key, Some(String::new()));
}

#[test]
fn getters_hand_out_the_fields() {
    let config = Config::build(&env(&[
        ("RPC_URL", "rpc"),
        ("DATABASE_URL", "db"),
        ("USE_KMS", "1"),
        ("SIGNER_KMS_ID", "kms"),
    ]))
    .unwrap();

    assert!(config.use_kms());
    assert_eq!(config.rpc_url(), "rpc");
    assert_eq!(config.private_key(), None);
    assert_eq!(config.signer_kms_id(), Some("kms".to_string()));
}
