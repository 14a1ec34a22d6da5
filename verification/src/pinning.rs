//! The pinning client's computable half.
//!
//! Pinning and unpinning content are remote calls the embedding
//! application performs; the workflow receives their outcomes as the plain
//! events in [`crate::asset_flow`] and [`crate::folder_flow`]. What can be
//! computed locally — the public gateway URL of a pinned content hash —
//! stands here.

use vstd::prelude::*;
use vstd::string::StringExecFns;

use crate::settings::ENV;

verus! {

/// The pinning service, named as the owner of its operations.
pub struct Pinata;

/// The public URL of the content pinned under `hash`, behind `gateway`.
pub open spec fn spec_public_url(gateway: Seq<char>, hash: Seq<char>) -> Seq<char> {
    "https://"@ + gateway + "/ips/"@ + hash
}

impl Pinata {
    /// Builds the public gateway URL of a pinned content hash, using the
    /// configured gateway host.
    pub fn build_url(env: &ENV, hash: &str) -> (r: String)
        ensures
            r@ == spec_public_url(env.pinata_ipfs_gateway@, hash@),
    {
        let mut s = String::from_str("https://");
        s.append(env.pinata_ipfs_gateway.as_str());
        s.append("/ips/");
        s.append(hash);
        proof {
            assert(s@ =~= spec_public_url(env.pinata_ipfs_gateway@, hash@));
        }
        s
    }
}

} // verus!
