use vstd::prelude::*;

verus! {

/// What the process is configured with, set once at start and handed to
/// whoever needs it.
pub struct Config {
    pub server_port: String,
    pub database_url: String,
    pub database_name: String,
    pub jwt_secret: String,
    pub resend_api_key: String,
    pub vronix_security_key: String,
}

} // verus!
