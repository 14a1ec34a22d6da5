//! Core workflow logic of a digital-asset platform: clients subscribe to
//! storage packages, upload content that is pinned to a content-addressed
//! store, and mint or burn tokens for it on a remote ledger.
//!
//! Everything that decides — authorization, storage-quota enforcement,
//! the create-vs-update branching of the asset and folder workflows, and
//! the bookkeeping of the persisted records — lives here and is verified.
//! The remote calls themselves (database, pinning service, ledger canister)
//! are performed by the embedding application, which drives the workflow
//! state machines in [`asset_flow`] and [`folder_flow`] and hands each
//! external outcome back as a plain value.

pub mod errors;
mod ids;
pub mod ledger;
pub mod numerals;
pub mod pinning;
pub mod quota;
pub mod settings;
pub mod store;
pub mod asset_flow;
pub mod folder_flow;
