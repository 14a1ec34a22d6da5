//! The typed failures that every workflow entry point can surface.

use vstd::prelude::*;

use crate::ledger::NftError;

verus! {

/// Which kind of record a lookup failed to find.
#[derive(Clone, Copy, Debug, PartialEq, Eq, Structural)]
pub enum EntityKind {
    Folder,
    Client,
    Asset,
}

/// Every failure a workflow surfaces to its caller.
#[derive(Debug)]
pub enum ApiError {
    /// No caller session was supplied.
    Unauthenticated,
    /// The caller's client does not own the addressed record.
    Unauthorized,
    /// A record was addressed that does not exist; `id` renders the
    /// identifier the caller supplied.
    NotFound { entity: EntityKind, id: String },
    /// The caller's client has no active subscription package.
    NoActiveSubscription,
    /// Admitting the change would raise the client's storage use to
    /// `requested` megabytes, above its package's `limit`.
    QuotaExceeded { requested: u128, limit: u64 },
    /// The supplied content is not of the kind the operation asks for.
    InvalidContent,
    /// The upload carried no content type.
    MissingContentType,
    /// The ledger answered an operation with an application-level error.
    ContractError { reason: NftError },
    /// The pinning service or the ledger could not be reached, or a reply
    /// could not be decoded.
    TransportError,
    /// The store refused a write (a unique key was already taken).
    PersistenceError,
}

/// Spec-level value of an [`ApiError`].
pub enum ApiErrorV {
    Unauthenticated,
    Unauthorized,
    NotFound { entity: EntityKind, id: Seq<char> },
    NoActiveSubscription,
    QuotaExceeded { requested: u128, limit: u64 },
    InvalidContent,
    MissingContentType,
    ContractError { reason: NftError },
    TransportError,
    PersistenceError,
}

impl View for ApiError {
    type V = ApiErrorV;

    open spec fn view(&self) -> ApiErrorV {
        match self {
            ApiError::Unauthenticated => ApiErrorV::Unauthenticated,
            ApiError::Unauthorized => ApiErrorV::Unauthorized,
            ApiError::NotFound { entity, id } => ApiErrorV::NotFound {
                entity: *entity,
                id: id@,
            },
            ApiError::NoActiveSubscription => ApiErrorV::NoActiveSubscription,
            ApiError::QuotaExceeded { requested, limit } => ApiErrorV::QuotaExceeded {
                requested: *requested,
                limit: *limit,
            },
            ApiError::InvalidContent => ApiErrorV::InvalidContent,
            ApiError::MissingContentType => ApiErrorV::MissingContentType,
            ApiError::ContractError { reason } => ApiErrorV::ContractError { reason: *reason },
            ApiError::TransportError => ApiErrorV::TransportError,
            ApiError::PersistenceError => ApiErrorV::PersistenceError,
        }
    }
}

/// The views of both sides of a `Result` whose sides have views.
pub open spec fn result_view<T: View, E: View>(r: Result<T, E>) -> Result<T::V, E::V> {
    match r {
        Result::Ok(t) => Result::Ok(t@),
        Result::Err(e) => Result::Err(e@),
    }
}

} // verus!
