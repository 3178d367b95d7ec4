//! Process-wide configuration, constructed once at startup and passed
//! explicitly into the components that need it; nothing here is read
//! from ambient globals after construction.

use vstd::prelude::*;

verus! {

/// The configuration the process runs with.  The token-signing secret is
/// held immutably for the process lifetime; issuance and verification
/// only ever read it.
pub struct Config {
    pub database_url: String,
    pub supabase_url: String,
    pub supabase_key: String,
    pub anon_key: String,
    pub jwt_secret: String,
    pub cors_allowed_origins: String,
    pub api_port: u16,
}

} // verus!
