//! Settings of the multimedia service, as read from the environment.

use vstd::prelude::*;

verus! {

/// Everything the multimedia service is configured with.
pub struct Environment {
    pub mongodb_uri: String,
    pub mongodb_database: String,
    pub mongodb_collection: String,
    pub minio_server_url: String,
    pub minio_access_key: String,
    pub minio_secret_key: String,
    pub minio_bucket: String,
    pub app_config: AppConfig,
}

/// The part of the settings the request handlers need.
pub struct AppConfig {
    pub jwt_public_key: Vec<u8>,
    pub catalogue_service_url: String,
}

} // verus!
