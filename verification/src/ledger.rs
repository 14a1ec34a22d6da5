//! Plain-value mirror of the remote ledger's result unions.
//!
//! The ledger canister answers each of its three operations (create a
//! collection, mint a token, burn a token) with an application-level
//! success/error union. The embedding application decodes the wire reply
//! and hands one of the outcome values below to the workflow; a reply that
//! could not be obtained or decoded at all is the `Transport` case, which
//! the workflow surfaces distinctly from an application-level rejection.

use vstd::prelude::*;

use crate::numerals::decimal_digits;
use crate::numerals::u64_to_decimal;

verus! {

/// Application-level rejection reasons the ledger can answer with.
#[derive(Clone, Copy, Debug, PartialEq, Eq, Structural)]
pub enum NftError {
    TokenNotFound,
    CollectionNotFound,
    InvalidTokenId,
    Unauthorized,
}

/// Outcome of a mint call, as decoded by the embedding application.
#[derive(Clone, Copy, Debug, PartialEq, Eq, Structural)]
pub enum MintOutcome {
    /// The ledger minted a token and answered with its identifiers.
    Minted { txn_id: u128, token_id: u64, collection_id: u64 },
    /// The ledger answered with an application-level error.
    Rejected { reason: NftError },
    /// The call could not be made, or its reply could not be decoded.
    Transport,
}

/// Outcome of a burn call.
#[derive(Clone, Copy, Debug, PartialEq, Eq, Structural)]
pub enum BurnOutcome {
    Burned { txn_id: u128 },
    Rejected { reason: NftError },
    Transport,
}

/// Outcome of a create-collection call.
#[derive(Clone, Copy, Debug, PartialEq, Eq, Structural)]
pub enum CreateOutcome {
    Created { txn_id: u128, collection_id: u64 },
    Rejected { reason: NftError },
    Transport,
}

/// The string that addresses a token for burning:
/// the token identifier, an `'x'`, and the collection identifier.
pub open spec fn spec_composite_token_ref(token_id: u64, collection_id: u64) -> Seq<char> {
    decimal_digits(token_id as nat) + seq!['x'] + decimal_digits(collection_id as nat)
}

/// Builds the composite reference under which the ledger addresses a token.
pub fn composite_token_ref(token_id: u64, collection_id: u64) -> (r: String)
    ensures
        r@ == spec_composite_token_ref(token_id, collection_id),
{
    let mut s = u64_to_decimal(token_id);
    s.append("x");
    let tail = u64_to_decimal(collection_id);
    s.append(tail.as_str());
    proof {
        reveal_strlit("x");
        assert(s@ =~= spec_composite_token_ref(token_id, collection_id));
    }
    s
}

} // verus!
