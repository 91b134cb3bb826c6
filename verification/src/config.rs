use vstd::prelude::*;

verus! {

/// Process-wide configuration, constructed once at startup and passed by
/// reference into the components that need it. The signing secret must stay
/// stable for the process lifetime: changing it silently invalidates every
/// outstanding session token.
pub struct Config {
    pub database_url: String,
    pub jwt_secret: String,
    pub smtp_username: String,
    pub smtp_password: String,
    pub smtp_server: String,
    pub smtp_port: u16,
}

} // verus!
