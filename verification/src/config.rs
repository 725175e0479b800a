use vstd::prelude::*;

verus! {

/// Process-wide settings, read once at start-up and never changed afterwards.
#[derive(Clone, Debug, PartialEq, Eq)]
pub struct AppConfig {
    pub db_connection_uri: String,
    pub jwt_secret: String,
    pub r2_access_key_id: String,
    pub r2_secret_access_key: String,
    pub r2_endpoint_url: String,
    pub workos_api_key: String,
    pub workos_client_id: String,
}

/// The secrets the configuration is made of, in the order in which they are
/// looked up.
#[derive(Clone, Copy, Debug, PartialEq, Eq)]
pub enum SecretKey {
    JwtSecret,
    DbConnectionUri,
    R2AccessKeyId,
    R2SecretAccessKey,
    R2EndpointUrl,
    WorkosApiKey,
    WorkosClientId,
}

/// What the secret store answered for each key.
#[derive(Clone, Debug, PartialEq, Eq)]
pub struct SecretValues {
    pub jwt_secret: Option<String>,
    pub db_connection_uri: Option<String>,
    pub r2_access_key_id: Option<String>,
    pub r2_secret_access_key: Option<String>,
    pub r2_endpoint_url: Option<String>,
    pub workos_api_key: Option<String>,
    pub workos_client_id: Option<String>,
}

/// Why no configuration could be built.
#[derive(Clone, Copy, Debug, PartialEq, Eq)]
pub enum ConfigError {
    /// The secret store holds no value under this key.
    NotFound(SecretKey),
}

/// The name under which the secret store holds a key.
pub open spec fn key_name(key: SecretKey) -> Seq<char> {
    match key {
        SecretKey::JwtSecret => "JWT_SECRET"@,
        SecretKey::DbConnectionUri => "DB_CONNECTION_URI"@,
        SecretKey::R2AccessKeyId => "R2_ACCESS_KEY_ID"@,
        SecretKey::R2SecretAccessKey => "R2_SECRET_ACCESS_KEY"@,
        SecretKey::R2EndpointUrl => "R2_ENDPOINT_URL"@,
        SecretKey::WorkosApiKey => "WORKOS_API_KEY"@,
        SecretKey::WorkosClientId => "WORKOS_CLIENT_ID"@,
    }
}

/// The first key, in lookup order, for which the store had no value.
pub open spec fn first_missing(secrets: SecretValues) -> Option<SecretKey> {
    if secrets.jwt_secret is None {
        Some(SecretKey::JwtSecret)
    } else if secrets.db_connection_uri is None {
        Some(SecretKey::DbConnectionUri)
    } else if secrets.r2_access_key_id is None {
        Some(SecretKey::R2AccessKeyId)
    } else if secrets.r2_secret_access_key is None {
        Some(SecretKey::R2SecretAccessKey)
    } else if secrets.r2_endpoint_url is None {
        Some(SecretKey::R2EndpointUrl)
    } else if secrets.workos_api_key is None {
        Some(SecretKey::WorkosApiKey)
    } else if secrets.workos_client_id is None {
        Some(SecretKey::WorkosClientId)
    } else {
        None
    }
}

/// The configuration that holds exactly the given secrets.
pub open spec fn holds(config: AppConfig, secrets: SecretValues) -> bool {
    &&& secrets.jwt_secret == Some(config.jwt_secret)
    &&& secrets.db_connection_uri == Some(config.db_connection_uri)
    &&& secrets.r2_access_key_id == Some(config.r2_access_key_id)
    &&& secrets.r2_secret_access_key == Some(config.r2_secret_access_key)
    &&& secrets.r2_endpoint_url == Some(config.r2_endpoint_url)
    &&& secrets.workos_api_key == Some(config.workos_api_key)
    &&& secrets.workos_client_id == Some(config.workos_client_id)
}

impl SecretKey {
    /// The name under which the secret store holds this key.
    pub fn name(&self) -> (name: String)
        ensures
            name@ == key_name(*self),
    {
        match self {
            SecretKey::JwtSecret => String::from_str("JWT_SECRET"),
            SecretKey::DbConnectionUri => String::from_str("DB_CONNECTION_URI"),
            SecretKey::R2AccessKeyId => String::from_str("R2_ACCESS_KEY_ID"),
            SecretKey::R2SecretAccessKey => String::from_str("R2_SECRET_ACCESS_KEY"),
            SecretKey::R2EndpointUrl => String::from_str("R2_ENDPOINT_URL"),
            SecretKey::WorkosApiKey => String::from_str("WORKOS_API_KEY"),
            SecretKey::WorkosClientId => String::from_str("WORKOS_CLIENT_ID"),
        }
    }
}

impl ConfigError {
    /// The sentence reported for this failure: the key's name, then
    /// " not found".
    pub fn message(&self) -> (text: String)
        ensures
            text@ == key_name(self->0) + " not found"@,
    {
        match self {
            ConfigError::NotFound(key) => key.name().concat(" not found"),
        }
    }
}

impl AppConfig {
    /// Builds the configuration from what the secret store answered. Every
    /// secret is required; the first one missing, in lookup order, is
    /// reported.
    pub fn new(secrets: SecretValues) -> (made: Result<AppConfig, ConfigError>)
        ensures
            match made {
                Ok(config) => first_missing(secrets) is None && holds(config, secrets),
                Err(e) => first_missing(secrets) == Some(e->0),
            },
    {
        let jwt_secret = match secrets.jwt_secret {
            Some(v) => v,
            None => { return Err(ConfigError::NotFound(SecretKey::JwtSecret)); },
        };
        let db_connection_uri = match secrets.db_connection_uri {
            Some(v) => v,
            None => { return Err(ConfigError::NotFound(SecretKey::DbConnectionUri)); },
        };
        let r2_access_key_id = match secrets.r2_access_key_id {
            Some(v) => v,
            None => { return Err(ConfigError::NotFound(SecretKey::R2AccessKeyId)); },
        };
        let r2_secret_access_key = match secrets.r2_secret_access_key {
            Some(v) => v,
            None => { return Err(ConfigError::NotFound(SecretKey::R2SecretAccessKey)); },
        };
        let r2_endpoint_url = match secrets.r2_endpoint_url {
            Some(v) => v,
            None => { return Err(ConfigError::NotFound(SecretKey::R2EndpointUrl)); },
        };
        let workos_api_key = match secrets.workos_api_key {
            Some(v) => v,
            None => { return Err(ConfigError::NotFound(SecretKey::WorkosApiKey)); },
        };
        let workos_client_id = match secrets.workos_client_id {
            Some(v) => v,
            None => { return Err(ConfigError::NotFound(SecretKey::WorkosClientId)); },
        };
        Ok(
            AppConfig {
                db_connection_uri,
                jwt_secret,
                r2_access_key_id,
                r2_secret_access_key,
                r2_endpoint_url,
                workos_api_key,
                workos_client_id,
            },
        )
    }
}

} // verus!
