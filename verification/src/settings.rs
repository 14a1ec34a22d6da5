//! The configuration values the platform runs under.
//!
//! The embedding application reads these from its process environment and
//! hands the filled-in value to whatever needs one; nothing here performs
//! that read.

use vstd::prelude::*;

verus! {

/// Connection and credential settings, as plain values.
pub struct ENV {
    pub port: u16,
    pub addrs: String,
    pub db_url: String,
    pub allowed_origns: String,
    pub secret_key: String,
    pub icp_agent_endpoint: String,
    pub canister_principal_id: String,
    pub pinata_api_key: String,
    pub pinata_api_secret: String,
    pub pinata_jwt: String,
    pub pinata_ipfs_gateway: String,
}

} // verus!
