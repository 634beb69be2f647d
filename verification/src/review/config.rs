//! Settings of the review service, as read from the environment.

use crate::text::owned;
use vstd::prelude::*;

verus! {

/// Everything the review service is configured with.
pub struct Environment {
    pub mongodb_uri: String,
    pub mongodb_database: String,
    pub reviews_collection: String,
    pub comments_collection: String,
    pub reports_collection: String,
    pub app_config: AppConfig,
}

/// The part of the settings the request handlers need.
pub struct AppConfig {
    pub jwt_public_key: Vec<u8>,
    pub catalogue_service_url: String,
}

/// A collection name: the configured one, or the default when none is set.
pub fn collection_name(configured: Option<String>, default: &str) -> (r: String)
    ensures
        match configured {
            Some(c) => r == c,
            None => r@ == default@,
        },
{
    match configured {
        Some(c) => c,
        None => owned(default),
    }
}

} // verus!
