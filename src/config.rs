use vstd::prelude::*;

verus! {

/// Settings the server reads at start-up.
#[derive(Debug, Clone)]
pub struct Config {
    pub database_url: String,
    pub jwt_secret: String,
    pub s3_key: String,
    pub s3_secret: String,
    pub s3_bucket: String,
    pub s3_region: String,
    pub s3_endpoint: String,
    pub livekit_server_url: String,
    pub livekit_turn_url: String,
    pub livekit_api_key: String,
    pub livekit_secret_key: String,
}

} // verus!
