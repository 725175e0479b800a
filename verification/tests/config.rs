use echo_auth::config::{AppConfig, ConfigError, SecretKey, SecretValues};

fn all() -> SecretValues {
    SecretValues {
        jwt_secret: Some("s".to_string()),
        db_connection_uri: Some("postgres://db".to_string()),
        r2_access_key_id: Some("id".to_string()),
        r2_secret_access_key: Some("key".to_string()),
        r2_endpoint_url: Some("https://r2".to_string()),
        workos_api_key: Some("sk_test".to_string()),
        workos_client_id: Some("client_1".to_string()),
    }
}

#[test]
fn configuration_holds_the_secrets_given() {
    assert_eq!(
        AppConfig::new(all()),
        Ok(AppConfig {
            db_connection_uri: "postgres://db".to_string(),
            jwt_secret: "s".to_string(),
            r2_access_key_id: "id".to_string(),
            r2_secret_access_key: "key".to_string(),
            r2_endpoint_url: "https://r2".to_string(),
            workos_api_key: "sk_test".to_string(),
            workos_client_id: "client_1".to_string(),
        })
    );
}

#[test]
fn each_missing_secret_is_reported() {
    assert_eq!(
        AppConfig::new(SecretValues { jwt_secret: None, ..all() }),
        Err(ConfigError::NotFound(SecretKey::JwtSecret))
    );
    assert_eq!(
        AppConfig::new(SecretValues { db_connection_uri: None, ..all() }),
        Err(ConfigError::NotFound(SecretKey::DbConnectionUri))
    );
    assert_eq!(
        AppConfig::new(SecretValues { r2_access_key_id: None, ..all() }),
        Err(ConfigError::NotFound(SecretKey::R2AccessKeyId))
    );
    assert_eq!(
        AppConfig::new(SecretValues { r2_secret_access_key: None, ..all() }),
        Err(ConfigError::NotFound(SecretKey::R2SecretAccessKey))
    );
    assert_eq!(
        AppConfig::new(SecretValues { r2_endpoint_url: None, ..all() }),
        Err(ConfigError::NotFound(SecretKey::R2EndpointUrl))
    );
    assert_eq!(
        AppConfig::new(SecretValues { workos_api_key: None, ..all() }),
        Err(ConfigError::NotFound(SecretKey::WorkosApiKey))
    );
    assert_eq!(
        AppConfig::new(SecretValues { workos_client_id: None, ..all() }),
        Err(ConfigError::NotFound(SecretKey::WorkosClientId))
    );
}

#[test]
fn first_missing_secret_in_lookup_order_wins() {
    assert_eq!(
        AppConfig::new(SecretValues { r2_endpoint_url: None, db_connection_uri: None, ..all() }),
        Err(ConfigError::NotFound(SecretKey::DbConnectionUri))
    );
    assert_eq!(
        AppConfig::new(SecretValues {
            jwt_secret: None,
            db_connection_uri: None,
            r2_access_key_id: None,
            r2_secret_access_key: None,
            r2_endpoint_url: None,
            workos_api_key: None,
            workos_client_id: None,
        }),
        Err(ConfigError::NotFound(SecretKey::JwtSecret))
    );
}

#[test]
fn empty_secret_counts_as_present() {
    let made = AppConfig::new(SecretValues { jwt_secret: Some(String::new()), ..all() }).unwrap();
    assert_eq!(made.jwt_secret, "");
}

#[test]
fn secrets_are_stored_under_their_names() {
    assert_eq!(SecretKey::JwtSecret.name(), "JWT_SECRET");
    assert_eq!(SecretKey::DbConnectionUri.name(), "DB_CONNECTION_URI");
    assert_eq!(SecretKey::R2AccessKeyId.name(), "R2_ACCESS_KEY_ID");
    assert_eq!(SecretKey::R2SecretAccessKey.name(), "R2_SECRET_ACCESS_KEY");
    assert_eq!(SecretKey::R2EndpointUrl.name(), "R2_ENDPOINT_URL");
    assert_eq!(SecretKey::WorkosApiKey.name(), "WORKOS_API_KEY");
    assert_eq!(SecretKey::WorkosClientId.name(), "WORKOS_CLIENT_ID");
}

#[test]
fn missing_secret_is_reported_by_name() {
    assert_eq!(ConfigError::NotFound(SecretKey::JwtSecret).message(), "JWT_SECRET not found");
    assert_eq!(
        ConfigError::NotFound(SecretKey::WorkosClientId).message(),
        "WORKOS_CLIENT_ID not found"
    );
}
