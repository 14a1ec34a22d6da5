//! The asset upsert workflow: create a new asset or replace an existing
//! one, under authorization and storage-quota checks.
//!
//! One upload request runs in three phases.
//!
//! 1. [`prepare_asset_upsert`] validates the request against the store —
//!    folder lookup, caller session, client and package resolution, lazy
//!    creation of the usage row, ownership of an addressed asset, and the
//!    quota check — and returns an [`AssetPlan`] naming every external step
//!    still owed. No pin, mint or burn is asked for on any failure.
//! 2. The embedding application walks the plan's [`AssetFlow`] machine,
//!    performing one external call per state and feeding each outcome back
//!    through [`asset_flow_step`] until the machine is `Persist` or
//!    `Failed`.
//! 3. [`commit_asset_upsert`] writes the new or replaced record and the
//!    client's updated usage, preserving the store's invariant.

use vstd::prelude::*;

use crate::errors::ApiError;
use crate::errors::ApiErrorV;
use crate::errors::EntityKind;
use crate::errors::result_view;
use crate::ledger::BurnOutcome;
use crate::ledger::MintOutcome;
use crate::numerals::decimal_digits;
use crate::numerals::u64_to_decimal;
use crate::quota::check_and_reserve;
use crate::store::AssetRec;
use crate::store::AssetRecV;
use crate::store::Store;
use crate::store::StoreV;
use crate::store::UsageRec;
use crate::store::find_asset_by_uuid;
use crate::store::find_client_by_user;
use crate::store::find_folder_by_uuid;
use crate::store::find_package;
use crate::store::find_usage;
use crate::store::get_or_create_usage;
use crate::store::lemma_sum_member;
use crate::store::lemma_sum_nonneg;
use crate::store::usage_exists;
use crate::store::zero_usage;

verus! {

/// The authenticated caller of a workflow.
#[derive(Clone, Copy, Debug, PartialEq, Eq, Structural)]
pub struct Session {
    pub user_id: u64,
}

impl View for Session {
    type V = Session;

    open spec fn view(&self) -> Session {
        *self
    }
}

/// One upload request: create an asset (`asset_uuid` absent) or replace an
/// existing one (`asset_uuid` present).
pub struct AssetRequest {
    /// The target folder, addressed by its uuid.
    pub folder_uuid: String,
    /// The asset to replace, if this is an update.
    pub asset_uuid: Option<String>,
    pub name: String,
    pub description: String,
    /// Size of the uploaded content, in megabytes.
    pub size_mb: u64,
    /// Content type carried by the upload's metadata, if any.
    pub content_type: Option<String>,
}

/// Spec-level value of an [`AssetRequest`].
pub struct AssetRequestV {
    pub folder_uuid: Seq<char>,
    pub asset_uuid: Option<Seq<char>>,
    pub name: Seq<char>,
    pub description: Seq<char>,
    pub size_mb: u64,
    pub content_type: Option<Seq<char>>,
}

impl View for AssetRequest {
    type V = AssetRequestV;

    open spec fn view(&self) -> AssetRequestV {
        AssetRequestV {
            folder_uuid: self.folder_uuid@,
            asset_uuid: match self.asset_uuid {
                Some(u) => Some(u@),
                None => None,
            },
            name: self.name@,
            description: self.description@,
            size_mb: self.size_mb,
            content_type: match self.content_type {
                Some(c) => Some(c@),
                None => None,
            },
        }
    }
}

/// The validated remainder of an upload request: what the external calls
/// and the final write still need.
pub enum AssetPlan {
    /// Insert a new asset.
    Create {
        client_id: u64,
        /// The target folder's identifier: the collection to mint into.
        folder_id: u64,
        /// The fresh uuid of the new asset; also the mint's external
        /// reference.
        uuid: String,
        name: String,
        description: String,
        size_mb: u64,
        content_type: Option<String>,
        /// The client's storage use once the asset is persisted.
        new_usage_mb: u64,
    },
    /// Replace an existing asset: unpin and burn the old content, then pin
    /// and mint the new.
    Replace {
        client_id: u64,
        folder_id: u64,
        /// The replaced asset's uuid; also the mint's external reference.
        asset_uuid: String,
        /// Content hash to unpin.
        old_ipfs_hash: String,
        /// Token to burn, addressed together with `old_folder_id`.
        old_nft_id: u64,
        old_folder_id: u64,
        name: String,
        description: String,
        size_mb: u64,
        content_type: Option<String>,
        new_usage_mb: u64,
    },
}

/// Spec-level value of an [`AssetPlan`].
pub enum AssetPlanV {
    Create {
        client_id: u64,
        folder_id: u64,
        uuid: Seq<char>,
        name: Seq<char>,
        description: Seq<char>,
        size_mb: u64,
        content_type: Option<Seq<char>>,
        new_usage_mb: u64,
    },
    Replace {
        client_id: u64,
        folder_id: u64,
        asset_uuid: Seq<char>,
        old_ipfs_hash: Seq<char>,
        old_nft_id: u64,
        old_folder_id: u64,
        name: Seq<char>,
        description: Seq<char>,
        size_mb: u64,
        content_type: Option<Seq<char>>,
        new_usage_mb: u64,
    },
}

impl View for AssetPlan {
    type V = AssetPlanV;

    open spec fn view(&self) -> AssetPlanV {
        match self {
            AssetPlan::Create {
                client_id,
                folder_id,
                uuid,
                name,
                description,
                size_mb,
                content_type,
                new_usage_mb,
            } => AssetPlanV::Create {
                client_id: *client_id,
                folder_id: *folder_id,
                uuid: uuid@,
                name: name@,
                description: description@,
                size_mb: *size_mb,
                content_type: match content_type {
                    Some(c) => Some(c@),
                    None => None,
                },
                new_usage_mb: *new_usage_mb,
            },
            AssetPlan::Replace {
                client_id,
                folder_id,
                asset_uuid,
                old_ipfs_hash,
                old_nft_id,
                old_folder_id,
                name,
                description,
                size_mb,
                content_type,
                new_usage_mb,
            } => AssetPlanV::Replace {
                client_id: *client_id,
                folder_id: *folder_id,
                asset_uuid: asset_uuid@,
                old_ipfs_hash: old_ipfs_hash@,
                old_nft_id: *old_nft_id,
                old_folder_id: *old_folder_id,
                name: name@,
                description: description@,
                size_mb: *size_mb,
                content_type: match content_type {
                    Some(c) => Some(c@),
                    None => None,
                },
                new_usage_mb: *new_usage_mb,
            },
        }
    }
}

/// What a plan promises about the store it will be committed against:
/// the client's usage row exists and the plan's `new_usage_mb` is the
/// client's recorded use adjusted by the change's size delta; the target
/// folder exists and belongs to the plan's client; a replaced asset exists
/// and belongs to the plan's client.
pub open spec fn plan_valid(p: AssetPlanV, s: StoreV) -> bool {
    match p {
        AssetPlanV::Create { client_id, folder_id, size_mb, new_usage_mb, .. } => {
            &&& usage_exists(s.usages, client_id)
            &&& s.usage_of(client_id).used_storage_mb + size_mb == new_usage_mb
            &&& exists|j: int|
                0 <= j < s.folders.len() && #[trigger] s.folders[j].id == folder_id
                    && s.folders[j].client_id == client_id
        },
        AssetPlanV::Replace { client_id, folder_id, asset_uuid, size_mb, new_usage_mb, .. } => {
            &&& usage_exists(s.usages, client_id)
            &&& s.has_asset(asset_uuid)
            &&& s.asset_at(asset_uuid).client_id == client_id
            &&& s.usage_of(client_id).used_storage_mb - s.asset_at(asset_uuid).size_mb + size_mb
                == new_usage_mb
            &&& exists|j: int|
                0 <= j < s.folders.len() && #[trigger] s.folders[j].id == folder_id
                    && s.folders[j].client_id == client_id
        },
    }
}

/// The create-vs-update branch of the validation, once folder, client,
/// package and usage are resolved: authorization of a replacement and the
/// quota decision.
pub open spec fn spec_prepare_branch(
    s: StoreV,
    client_id: u64,
    folder_id: u64,
    capacity: u64,
    used: u64,
    req: AssetRequestV,
    fresh_uuid: Seq<char>,
) -> Result<AssetPlanV, ApiErrorV> {
    match req.asset_uuid {
        Some(uuid) => {
            if !s.has_asset(uuid) {
                Result::Err(ApiErrorV::NotFound { entity: EntityKind::Asset, id: uuid })
            } else if s.asset_at(uuid).client_id != client_id {
                Result::Err(ApiErrorV::Unauthorized)
            } else {
                let total = used - s.asset_at(uuid).size_mb + req.size_mb;
                if total > capacity {
                    Result::Err(
                        ApiErrorV::QuotaExceeded { requested: total as u128, limit: capacity },
                    )
                } else {
                    Result::Ok(
                        AssetPlanV::Replace {
                            client_id,
                            folder_id,
                            asset_uuid: uuid,
                            old_ipfs_hash: s.asset_at(uuid).ipfs_hash,
                            old_nft_id: s.asset_at(uuid).nft_id,
                            old_folder_id: s.asset_at(uuid).folder_id,
                            name: req.name,
                            description: req.description,
                            size_mb: req.size_mb,
                            content_type: req.content_type,
                            new_usage_mb: total as u64,
                        },
                    )
                }
            }
        },
        None => {
            let total = used + req.size_mb;
            if total > capacity {
                Result::Err(ApiErrorV::QuotaExceeded { requested: total as u128, limit: capacity })
            } else {
                Result::Ok(
                    AssetPlanV::Create {
                        client_id,
                        folder_id,
                        uuid: fresh_uuid,
                        name: req.name,
                        description: req.description,
                        size_mb: req.size_mb,
                        content_type: req.content_type,
                        new_usage_mb: total as u64,
                    },
                )
            }
        },
    }
}

/// The whole validation: the store it leaves behind (the usage row may be
/// lazily created) and the plan or error it answers.
pub open spec fn spec_prepare_asset(
    s: StoreV,
    session: Option<Session>,
    req: AssetRequestV,
    fresh_uuid: Seq<char>,
) -> (StoreV, Result<AssetPlanV, ApiErrorV>) {
    if !s.has_folder(req.folder_uuid) {
        (s, Result::Err(ApiErrorV::NotFound { entity: EntityKind::Folder, id: req.folder_uuid }))
    } else if session is None {
        (s, Result::Err(ApiErrorV::Unauthenticated))
    } else if !s.has_client_for_user(session->Some_0.user_id) {
        (
            s,
            Result::Err(
                ApiErrorV::NotFound {
                    entity: EntityKind::Client,
                    id: decimal_digits(session->Some_0.user_id as nat),
                },
            ),
        )
    } else {
        let client = s.client_for_user(session->Some_0.user_id);
        if client.active_package is None || !s.has_package(client.active_package->0) {
            (s, Result::Err(ApiErrorV::NoActiveSubscription))
        } else if s.folder_at(req.folder_uuid).client_id != client.id {
            (s, Result::Err(ApiErrorV::Unauthorized))
        } else {
            let s2 = if s.has_usage(client.id) {
                s
            } else {
                StoreV { usages: s.usages.push(zero_usage(client.id)), ..s }
            };
            let capacity = s.package(client.active_package->0).storage_capacity_mb;
            let folder_id = s.folder_at(req.folder_uuid).id;
            let used = s2.usage_of(client.id).used_storage_mb;
            (s2, spec_prepare_branch(s2, client.id, folder_id, capacity, used, req, fresh_uuid))
        }
    }
}

/// Validates an upload request and answers the plan of external work it
/// owes, or the error the request fails with.
///
/// The store is changed only by the lazy creation of the client's usage
/// row; in particular nothing is changed — and no plan asking for a pin,
/// mint or burn exists — when the request is rejected.
///
/// `fresh_uuid` is the identifier a created asset will carry; the caller
/// obtains it from the identifier generator.
pub fn prepare_asset_upsert(
    store: &mut Store,
    session: &Option<Session>,
    req: &AssetRequest,
    fresh_uuid: String,
) -> (r: Result<AssetPlan, ApiError>)
    requires
        old(store)@.wf(),
    ensures
        final(store)@.wf(),
        final(store)@ == spec_prepare_asset(old(store)@, *session, req@, fresh_uuid@).0,
        result_view(r) == spec_prepare_asset(old(store)@, *session, req@, fresh_uuid@).1,
        (r matches Result::Ok(p) ==> plan_valid(p@, final(store)@)),
{
    let folder_idx = match find_folder_by_uuid(store, &req.folder_uuid) {
        Some(i) => i,
        None => {
            return Err(
                ApiError::NotFound { entity: EntityKind::Folder, id: req.folder_uuid.clone() },
            );
        },
    };
    let sess = match session {
        Some(s) => *s,
        None => {
            return Err(ApiError::Unauthenticated);
        },
    };
    let client_idx = match find_client_by_user(store, sess.user_id) {
        Some(i) => i,
        None => {
            return Err(
                ApiError::NotFound {
                    entity: EntityKind::Client,
                    id: u64_to_decimal(sess.user_id),
                },
            );
        },
    };
    let package_id = match store.clients[client_idx].active_package {
        Some(p) => p,
        None => {
            return Err(ApiError::NoActiveSubscription);
        },
    };
    let package_idx = match find_package(store, package_id) {
        Some(i) => i,
        None => {
            return Err(ApiError::NoActiveSubscription);
        },
    };
    let client_id = store.clients[client_idx].id;
    // The target folder must belong to the caller's client: an asset may
    // only hang in a folder of its own client.
    if store.folders[folder_idx].client_id != client_id {
        return Err(ApiError::Unauthorized);
    }
    let capacity = store.packages[package_idx].storage_capacity_mb;
    let folder_id = store.folders[folder_idx].id;
    let ghost s_pre = store@;
    let usage_idx = get_or_create_usage(store, client_id);
    let used = store.usages[usage_idx].used_storage_mb;
    proof {
        assert(store@ == spec_prepare_asset(s_pre, *session, req@, fresh_uuid@).0);
    }
    match &req.asset_uuid {
        Some(uuid) => {
            let asset_idx = match find_asset_by_uuid(store, uuid) {
                Some(i) => i,
                None => {
                    return Err(
                        ApiError::NotFound { entity: EntityKind::Asset, id: uuid.clone() },
                    );
                },
            };
            if store.assets[asset_idx].client_id != client_id {
                return Err(ApiError::Unauthorized);
            }
            let old_size = store.assets[asset_idx].size_mb;
            let delta: i128 = req.size_mb as i128 - old_size as i128;
            proof {
                lemma_sum_member(store@.assets, asset_idx as int, client_id);
                assert(store@.usages[usage_idx as int].used_storage_mb == crate::store::sum_client_sizes(
                    store@.assets,
                    client_id,
                ));
            }
            let new_total = match check_and_reserve(used, delta, capacity) {
                Ok(t) => t,
                Err(e) => {
                    return Err(e);
                },
            };
            let plan = AssetPlan::Replace {
                client_id,
                folder_id,
                asset_uuid: uuid.clone(),
                old_ipfs_hash: store.assets[asset_idx].ipfs_hash.clone(),
                old_nft_id: store.assets[asset_idx].nft_id,
                old_folder_id: store.assets[asset_idx].folder_id,
                name: req.name.clone(),
                description: req.description.clone(),
                size_mb: req.size_mb,
                content_type: match &req.content_type {
                    Some(c) => Some(c.clone()),
                    None => None,
                },
                new_usage_mb: new_total,
            };
            proof {
                assert(plan_valid(plan@, store@));
            }
            Ok(plan)
        },
        None => {
            let delta: i128 = req.size_mb as i128;
            proof {
                lemma_sum_nonneg(store@.assets, client_id);
            }
            let new_total = match check_and_reserve(used, delta, capacity) {
                Ok(t) => t,
                Err(e) => {
                    return Err(e);
                },
            };
            let plan = AssetPlan::Create {
                client_id,
                folder_id,
                uuid: fresh_uuid,
                name: req.name.clone(),
                description: req.description.clone(),
                size_mb: req.size_mb,
                content_type: match &req.content_type {
                    Some(c) => Some(c.clone()),
                    None => None,
                },
                new_usage_mb: new_total,
            };
            proof {
                assert(plan_valid(plan@, store@));
            }
            Ok(plan)
        },
    }
}

/// The workflow's position between external calls. Each non-terminal state
/// names the one call the embedding application owes next.
pub enum AssetFlow {
    /// Unpin the replaced asset's old content.
    UnpinOld { plan: AssetPlan },
    /// Burn the replaced asset's old token, addressed by the composite
    /// reference of `old_nft_id` and `old_folder_id`.
    BurnOld { plan: AssetPlan },
    /// Pin the uploaded content.
    PinContent { plan: AssetPlan },
    /// Mint a token in the plan's folder, with the plan's asset uuid as
    /// external reference and `pin_hash` as content hash.
    MintToken { plan: AssetPlan, pin_hash: String },
    /// All external work done: commit the plan.
    Persist { plan: AssetPlan, pin_hash: String, token_id: u64 },
    /// The workflow failed; surface the error.
    Failed { error: ApiError },
}

/// Spec-level value of an [`AssetFlow`].
pub enum AssetFlowV {
    UnpinOld { plan: AssetPlanV },
    BurnOld { plan: AssetPlanV },
    PinContent { plan: AssetPlanV },
    MintToken { plan: AssetPlanV, pin_hash: Seq<char> },
    Persist { plan: AssetPlanV, pin_hash: Seq<char>, token_id: u64 },
    Failed { error: ApiErrorV },
}

impl View for AssetFlow {
    type V = AssetFlowV;

    open spec fn view(&self) -> AssetFlowV {
        match self {
            AssetFlow::UnpinOld { plan } => AssetFlowV::UnpinOld { plan: plan@ },
            AssetFlow::BurnOld { plan } => AssetFlowV::BurnOld { plan: plan@ },
            AssetFlow::PinContent { plan } => AssetFlowV::PinContent { plan: plan@ },
            AssetFlow::MintToken { plan, pin_hash } => AssetFlowV::MintToken {
                plan: plan@,
                pin_hash: pin_hash@,
            },
            AssetFlow::Persist { plan, pin_hash, token_id } => AssetFlowV::Persist {
                plan: plan@,
                pin_hash: pin_hash@,
                token_id: *token_id,
            },
            AssetFlow::Failed { error } => AssetFlowV::Failed { error: error@ },
        }
    }
}

/// The outcome of one external call, handed back to the machine.
pub enum FlowEvent {
    UnpinDone,
    UnpinFailed,
    Burn { outcome: BurnOutcome },
    Pinned { hash: String },
    PinFailed,
    Mint { outcome: MintOutcome },
}

/// Spec-level value of a [`FlowEvent`].
pub enum FlowEventV {
    UnpinDone,
    UnpinFailed,
    Burn { outcome: BurnOutcome },
    Pinned { hash: Seq<char> },
    PinFailed,
    Mint { outcome: MintOutcome },
}

impl View for FlowEvent {
    type V = FlowEventV;

    open spec fn view(&self) -> FlowEventV {
        match self {
            FlowEvent::UnpinDone => FlowEventV::UnpinDone,
            FlowEvent::UnpinFailed => FlowEventV::UnpinFailed,
            FlowEvent::Burn { outcome } => FlowEventV::Burn { outcome: *outcome },
            FlowEvent::Pinned { hash } => FlowEventV::Pinned { hash: hash@ },
            FlowEvent::PinFailed => FlowEventV::PinFailed,
            FlowEvent::Mint { outcome } => FlowEventV::Mint { outcome: *outcome },
        }
    }
}

/// Which event answers which state: each non-terminal state expects the
/// outcome of exactly the call it names.
pub open spec fn flow_expects(f: AssetFlowV, e: FlowEventV) -> bool {
    match f {
        AssetFlowV::UnpinOld { .. } => e is UnpinDone || e is UnpinFailed,
        AssetFlowV::BurnOld { .. } => e is Burn,
        AssetFlowV::PinContent { .. } => e is Pinned || e is PinFailed,
        AssetFlowV::MintToken { .. } => e is Mint,
        AssetFlowV::Persist { .. } => false,
        AssetFlowV::Failed { .. } => false,
    }
}

/// The transition relation: a replacement runs unpin, burn, pin, mint; a
/// creation runs pin, mint. A failed unpin or pin, and a ledger call that
/// could not be made or decoded, fail the workflow with `TransportError`;
/// a ledger answer of the error variant fails it with `ContractError`.
pub open spec fn spec_asset_flow_step(f: AssetFlowV, e: FlowEventV) -> AssetFlowV {
    match f {
        AssetFlowV::UnpinOld { plan } => match e {
            FlowEventV::UnpinDone => AssetFlowV::BurnOld { plan },
            _ => AssetFlowV::Failed { error: ApiErrorV::TransportError },
        },
        AssetFlowV::BurnOld { plan } => match e {
            FlowEventV::Burn { outcome } => match outcome {
                BurnOutcome::Burned { .. } => AssetFlowV::PinContent { plan },
                BurnOutcome::Rejected { reason } => AssetFlowV::Failed {
                    error: ApiErrorV::ContractError { reason },
                },
                BurnOutcome::Transport => AssetFlowV::Failed {
                    error: ApiErrorV::TransportError,
                },
            },
            _ => f,
        },
        AssetFlowV::PinContent { plan } => match e {
            FlowEventV::Pinned { hash } => AssetFlowV::MintToken { plan, pin_hash: hash },
            _ => AssetFlowV::Failed { error: ApiErrorV::TransportError },
        },
        AssetFlowV::MintToken { plan, pin_hash } => match e {
            FlowEventV::Mint { outcome } => match outcome {
                MintOutcome::Minted { token_id, .. } => AssetFlowV::Persist {
                    plan,
                    pin_hash,
                    token_id,
                },
                MintOutcome::Rejected { reason } => AssetFlowV::Failed {
                    error: ApiErrorV::ContractError { reason },
                },
                MintOutcome::Transport => AssetFlowV::Failed {
                    error: ApiErrorV::TransportError,
                },
            },
            _ => f,
        },
        _ => f,
    }
}

/// The plan a state still carries, if it has not failed.
pub open spec fn flow_plan(f: AssetFlowV) -> Option<AssetPlanV> {
    match f {
        AssetFlowV::UnpinOld { plan } => Some(plan),
        AssetFlowV::BurnOld { plan } => Some(plan),
        AssetFlowV::PinContent { plan } => Some(plan),
        AssetFlowV::MintToken { plan, .. } => Some(plan),
        AssetFlowV::Persist { plan, .. } => Some(plan),
        AssetFlowV::Failed { .. } => None,
    }
}

/// Enters the machine: a replacement starts by unpinning the old content,
/// a creation by pinning the new.
pub fn asset_flow_start(plan: AssetPlan) -> (r: AssetFlow)
    ensures
        (plan@ matches AssetPlanV::Replace { .. } ==> r@ == (AssetFlowV::UnpinOld {
            plan: plan@,
        })),
        (plan@ matches AssetPlanV::Create { .. } ==> r@ == (AssetFlowV::PinContent {
            plan: plan@,
        })),
{
    match &plan {
        AssetPlan::Replace { .. } => AssetFlow::UnpinOld { plan },
        AssetPlan::Create { .. } => AssetFlow::PinContent { plan },
    }
}

/// Advances the machine by one external outcome.
pub fn asset_flow_step(flow: AssetFlow, event: FlowEvent) -> (r: AssetFlow)
    requires
        flow_expects(flow@, event@),
    ensures
        r@ == spec_asset_flow_step(flow@, event@),
{
    match flow {
        AssetFlow::UnpinOld { plan } => match event {
            FlowEvent::UnpinDone => AssetFlow::BurnOld { plan },
            _ => AssetFlow::Failed { error: ApiError::TransportError },
        },
        AssetFlow::BurnOld { plan } => match event {
            FlowEvent::Burn { outcome } => match outcome {
                BurnOutcome::Burned { .. } => AssetFlow::PinContent { plan },
                BurnOutcome::Rejected { reason } => AssetFlow::Failed {
                    error: ApiError::ContractError { reason },
                },
                BurnOutcome::Transport => AssetFlow::Failed { error: ApiError::TransportError },
            },
            _ => unreached(),
        },
        AssetFlow::PinContent { plan } => match event {
            FlowEvent::Pinned { hash } => AssetFlow::MintToken { plan, pin_hash: hash },
            _ => AssetFlow::Failed { error: ApiError::TransportError },
        },
        AssetFlow::MintToken { plan, pin_hash } => match event {
            FlowEvent::Mint { outcome } => match outcome {
                MintOutcome::Minted { token_id, .. } => AssetFlow::Persist {
                    plan,
                    pin_hash,
                    token_id,
                },
                MintOutcome::Rejected { reason } => AssetFlow::Failed {
                    error: ApiError::ContractError { reason },
                },
                MintOutcome::Transport => AssetFlow::Failed { error: ApiError::TransportError },
            },
            _ => unreached(),
        },
        _ => unreached(),
    }
}

/// The record a committed `Create` plan inserts.
pub open spec fn created_asset(
    p: AssetPlanV,
    pin_hash: Seq<char>,
    token_id: u64,
) -> AssetRecV {
    match p {
        AssetPlanV::Create { client_id, folder_id, uuid, name, description, size_mb, content_type, .. } => AssetRecV {
            uuid,
            client_id,
            folder_id,
            nft_id: token_id,
            ipfs_hash: pin_hash,
            size_mb,
            content_type: content_type->0,
            name,
            description,
        },
        AssetPlanV::Replace { .. } => arbitrary(),
    }
}

/// The record a committed `Replace` plan leaves at the replaced asset's
/// index: same uuid and client, new token, content hash, size, folder,
/// name, description and content type.
pub open spec fn replaced_asset(
    old_rec: AssetRecV,
    p: AssetPlanV,
    pin_hash: Seq<char>,
    token_id: u64,
) -> AssetRecV {
    match p {
        AssetPlanV::Replace { folder_id, name, description, size_mb, content_type, .. } => AssetRecV {
            uuid: old_rec.uuid,
            client_id: old_rec.client_id,
            folder_id,
            nft_id: token_id,
            ipfs_hash: pin_hash,
            size_mb,
            content_type: content_type->0,
            name,
            description,
        },
        AssetPlanV::Create { .. } => arbitrary(),
    }
}

/// The store after committing `p`, and the committed row's index or the
/// error. An upload without a content type is rejected; inserting an asset
/// under an already-taken uuid is refused as the store's unique key would
/// be.
pub open spec fn spec_commit_asset(
    s: StoreV,
    p: AssetPlanV,
    pin_hash: Seq<char>,
    token_id: u64,
) -> (StoreV, Result<int, ApiErrorV>) {
    match p {
        AssetPlanV::Create { client_id, uuid, content_type, new_usage_mb, .. } => {
            if content_type is None {
                (s, Result::Err(ApiErrorV::MissingContentType))
            } else if s.has_asset(uuid) {
                (s, Result::Err(ApiErrorV::PersistenceError))
            } else {
                let ui = s.usage_index(client_id);
                let s2 = StoreV {
                    assets: s.assets.push(created_asset(p, pin_hash, token_id)),
                    usages: s.usages.update(
                        ui,
                        UsageRec { used_storage_mb: new_usage_mb, ..s.usages[ui] },
                    ),
                    ..s
                };
                (s2, Result::Ok(s.assets.len() as int))
            }
        },
        AssetPlanV::Replace { client_id, asset_uuid, content_type, new_usage_mb, .. } => {
            if content_type is None {
                (s, Result::Err(ApiErrorV::MissingContentType))
            } else {
                let ai = s.asset_index(asset_uuid);
                let ui = s.usage_index(client_id);
                let s2 = StoreV {
                    assets: s.assets.update(
                        ai,
                        replaced_asset(s.assets[ai], p, pin_hash, token_id),
                    ),
                    usages: s.usages.update(
                        ui,
                        UsageRec { used_storage_mb: new_usage_mb, ..s.usages[ui] },
                    ),
                    ..s
                };
                (s2, Result::Ok(ai))
            }
        },
    }
}

/// Persists a plan whose external work succeeded: inserts or overwrites
/// the asset row and records the client's new storage use, preserving the
/// store's invariant — in particular, the client's recorded use again
/// equals the sum of its assets' sizes.
pub fn commit_asset_upsert(
    store: &mut Store,
    plan: AssetPlan,
    pin_hash: String,
    token_id: u64,
) -> (r: Result<usize, ApiError>)
    requires
        old(store)@.wf(),
        plan_valid(plan@, old(store)@),
    ensures
        final(store)@.wf(),
        final(store)@ == spec_commit_asset(old(store)@, plan@, pin_hash@, token_id).0,
        ({
            let res = spec_commit_asset(old(store)@, plan@, pin_hash@, token_id).1;
            match r {
                Result::Ok(i) => res == Result::<int, ApiErrorV>::Ok(i as int),
                Result::Err(e) => res == Result::<int, ApiErrorV>::Err(e@),
            }
        }),
{
    let ghost s0 = store@;
    let ghost planv = plan@;
    match plan {
        AssetPlan::Create {
            client_id,
            folder_id,
            uuid,
            name,
            description,
            size_mb,
            content_type,
            new_usage_mb,
        } => {
            let ct = match content_type {
                Some(c) => c,
                None => {
                    return Err(ApiError::MissingContentType);
                },
            };
            match find_asset_by_uuid(store, &uuid) {
                Some(_) => {
                    return Err(ApiError::PersistenceError);
                },
                None => {},
            };
            let usage_idx = match find_usage(store, client_id) {
                Some(i) => i,
                None => unreached(),
            };
            let idx = store.assets.len();
            let new_rec = AssetRec {
                uuid,
                client_id,
                folder_id,
                nft_id: token_id,
                ipfs_hash: pin_hash,
                size_mb,
                content_type: ct,
                name,
                description,
            };
            proof {
                assert(new_rec@ == created_asset(planv, pin_hash@, token_id));
            }
            store.assets.push(new_rec);
            store.usages[usage_idx].used_storage_mb = new_usage_mb;
            proof {
                let s1 = store@;
                let ui = usage_idx as int;
                let a = created_asset(planv, pin_hash@, token_id);
                assert(s1.assets =~= s0.assets.push(a));
                assert(s1.usages =~= s0.usages.update(
                    ui,
                    UsageRec { used_storage_mb: new_usage_mb, ..s0.usages[ui] },
                ));
                assert(s1.clients =~= s0.clients);
                assert(s1.packages =~= s0.packages);
                assert(s1.folders =~= s0.folders);
                assert(s1 == spec_commit_asset(s0, planv, pin_hash@, token_id).0);
                lemma_commit_create_wf(s0, s1, planv, a, ui);
            }
            Ok(idx)
        },
        AssetPlan::Replace {
            client_id,
            folder_id,
            asset_uuid,
            old_ipfs_hash: _,
            old_nft_id: _,
            old_folder_id: _,
            name,
            description,
            size_mb,
            content_type,
            new_usage_mb,
        } => {
            let ct = match content_type {
                Some(c) => c,
                None => {
                    return Err(ApiError::MissingContentType);
                },
            };
            let asset_idx = match find_asset_by_uuid(store, &asset_uuid) {
                Some(i) => i,
                None => unreached(),
            };
            let usage_idx = match find_usage(store, client_id) {
                Some(i) => i,
                None => unreached(),
            };
            let ghost old_rec = s0.assets[asset_idx as int];
            store.assets[asset_idx].folder_id = folder_id;
            store.assets[asset_idx].nft_id = token_id;
            store.assets[asset_idx].ipfs_hash = pin_hash;
            store.assets[asset_idx].size_mb = size_mb;
            store.assets[asset_idx].content_type = ct;
            store.assets[asset_idx].name = name;
            store.assets[asset_idx].description = description;
            store.usages[usage_idx].used_storage_mb = new_usage_mb;
            proof {
                let s1 = store@;
                let ai = asset_idx as int;
                let ui = usage_idx as int;
                let a = replaced_asset(old_rec, planv, pin_hash@, token_id);
                assert(s1.assets[ai] == a);
                assert(s1.assets =~= s0.assets.update(ai, a));
                assert(s1.usages =~= s0.usages.update(
                    ui,
                    UsageRec { used_storage_mb: new_usage_mb, ..s0.usages[ui] },
                ));
                assert(s1.clients =~= s0.clients);
                assert(s1.packages =~= s0.packages);
                assert(s1.folders =~= s0.folders);
                assert(s1 == spec_commit_asset(s0, planv, pin_hash@, token_id).0);
                lemma_commit_replace_wf(s0, s1, planv, a, ai, ui);
            }
            Ok(asset_idx)
        },
    }
}

/// The view of a possibly absent pinned content hash.
pub open spec fn pin_view(pin: Option<String>) -> Option<Seq<char>> {
    match pin {
        Some(h) => Some(h@),
        None => None,
    }
}

/// The view of a row-index result.
pub open spec fn index_result_view(r: Result<usize, ApiError>) -> Result<int, ApiErrorV> {
    match r {
        Result::Ok(i) => Result::Ok(i as int),
        Result::Err(e) => Result::Err(e@),
    }
}

/// The outcome of one whole upload request, given the outcome of each
/// external call the plan could ask for: whether the unpin succeeded, the
/// burn's answer, the pinned content hash (`None` when pinning failed),
/// and the mint's answer. Outcomes of calls the request never reaches are
/// ignored.
pub open spec fn spec_run_asset(
    s: StoreV,
    session: Option<Session>,
    req: AssetRequestV,
    fresh_uuid: Seq<char>,
    unpin_ok: bool,
    burn: BurnOutcome,
    pin: Option<Seq<char>>,
    mint: MintOutcome,
) -> (StoreV, Result<int, ApiErrorV>) {
    let (s1, pr) = spec_prepare_asset(s, session, req, fresh_uuid);
    match pr {
        Result::Err(e) => (s1, Result::Err(e)),
        Result::Ok(plan) => {
            let old_gate = match plan {
                AssetPlanV::Replace { .. } => {
                    if !unpin_ok {
                        Some(ApiErrorV::TransportError)
                    } else {
                        match burn {
                            BurnOutcome::Burned { .. } => None,
                            BurnOutcome::Rejected { reason } => Some(
                                ApiErrorV::ContractError { reason },
                            ),
                            BurnOutcome::Transport => Some(ApiErrorV::TransportError),
                        }
                    }
                },
                AssetPlanV::Create { .. } => None,
            };
            match old_gate {
                Some(e) => (s1, Result::Err(e)),
                None => match pin {
                    None => (s1, Result::Err(ApiErrorV::TransportError)),
                    Some(hash) => match mint {
                        MintOutcome::Minted { token_id, .. } => spec_commit_asset(
                            s1,
                            plan,
                            hash,
                            token_id,
                        ),
                        MintOutcome::Rejected { reason } => (
                            s1,
                            Result::Err(ApiErrorV::ContractError { reason }),
                        ),
                        MintOutcome::Transport => (s1, Result::Err(ApiErrorV::TransportError)),
                    },
                },
            }
        },
    }
}

/// One whole upload request: validates it, walks the external steps with
/// the outcomes the caller observed, and persists the result. The asset's
/// fresh identifier is drawn inside, so the outcome is pinned down up to
/// that identifier.
pub fn create_update_asset(
    store: &mut Store,
    session: &Option<Session>,
    req: &AssetRequest,
    unpin_ok: bool,
    burn: BurnOutcome,
    pin: Option<String>,
    mint: MintOutcome,
) -> (r: Result<usize, ApiError>)
    requires
        old(store)@.wf(),
    ensures
        final(store)@.wf(),
        exists|u: Seq<char>|
            #[trigger] spec_run_asset(
                old(store)@,
                *session,
                req@,
                u,
                unpin_ok,
                burn,
                pin_view(pin),
                mint,
            ) == (final(store)@, index_result_view(r)),
{
    let fresh = crate::ids::new_uuid_string();
    let ghost u = fresh@;
    let ghost pinv = pin_view(pin);
    let plan = match prepare_asset_upsert(store, session, req, fresh) {
        Ok(p) => p,
        Err(e) => {
            proof {
                assert(spec_run_asset(old(store)@, *session, req@, u, unpin_ok, burn, pinv, mint)
                    == (store@, index_result_view(Result::Err(e))));
            }
            return Err(e);
        },
    };
    let mut flow = asset_flow_start(plan);
    if matches!(&flow, AssetFlow::UnpinOld { .. }) {
        let ev = if unpin_ok {
            FlowEvent::UnpinDone
        } else {
            FlowEvent::UnpinFailed
        };
        flow = asset_flow_step(flow, ev);
    }
    if matches!(&flow, AssetFlow::BurnOld { .. }) {
        flow = asset_flow_step(flow, FlowEvent::Burn { outcome: burn });
    }
    if matches!(&flow, AssetFlow::PinContent { .. }) {
        let ev = match pin {
            Some(hash) => FlowEvent::Pinned { hash },
            None => FlowEvent::PinFailed,
        };
        flow = asset_flow_step(flow, ev);
    }
    if matches!(&flow, AssetFlow::MintToken { .. }) {
        flow = asset_flow_step(flow, FlowEvent::Mint { outcome: mint });
    }
    match flow {
        AssetFlow::Persist { plan, pin_hash, token_id } => {
            let r = commit_asset_upsert(store, plan, pin_hash, token_id);
            proof {
                assert(spec_run_asset(old(store)@, *session, req@, u, unpin_ok, burn, pinv, mint)
                    == (store@, index_result_view(r)));
            }
            r
        },
        AssetFlow::Failed { error } => {
            proof {
                assert(spec_run_asset(old(store)@, *session, req@, u, unpin_ok, burn, pinv, mint)
                    == (store@, index_result_view(Result::Err(error))));
            }
            Err(error)
        },
        _ => unreached(),
    }
}

/// An update of an asset owned by a different client fails with
/// `Unauthorized`, whatever the outcomes of the external calls would have
/// been: no plan exists, so no pin, mint or burn is asked for, and no
/// record is touched.
pub proof fn lemma_update_unauthorized(
    s: StoreV,
    session: Option<Session>,
    req: AssetRequestV,
    fresh_uuid: Seq<char>,
    unpin_ok: bool,
    burn: BurnOutcome,
    pin: Option<Seq<char>>,
    mint: MintOutcome,
)
    requires
        s.wf(),
        s.has_folder(req.folder_uuid),
        session is Some,
        s.has_client_for_user(session->Some_0.user_id),
        ({
            let client = s.client_for_user(session->Some_0.user_id);
            &&& client.active_package is Some
            &&& s.has_package(client.active_package->0)
            &&& s.folder_at(req.folder_uuid).client_id == client.id
            &&& req.asset_uuid is Some
            &&& s.has_asset(req.asset_uuid->0)
            &&& s.asset_at(req.asset_uuid->0).client_id != client.id
        }),
    ensures
        spec_run_asset(s, session, req, fresh_uuid, unpin_ok, burn, pin, mint).1
            == Result::<int, ApiErrorV>::Err(ApiErrorV::Unauthorized),
        spec_run_asset(s, session, req, fresh_uuid, unpin_ok, burn, pin, mint).0.assets == s.assets,
        spec_run_asset(s, session, req, fresh_uuid, unpin_ok, burn, pin, mint).0.folders
            == s.folders,
        spec_run_asset(s, session, req, fresh_uuid, unpin_ok, burn, pin, mint).0.clients
            == s.clients,
{
}

/// A creation whose size would push the client's storage use over its
/// package's capacity fails with `QuotaExceeded`, reporting the prospective
/// total and the capacity exactly, whatever the outcomes of the external
/// calls would have been: no plan exists, so no pin or mint is asked for,
/// and no asset is written.
pub proof fn lemma_create_quota_exceeded(
    s: StoreV,
    session: Option<Session>,
    req: AssetRequestV,
    fresh_uuid: Seq<char>,
    unpin_ok: bool,
    burn: BurnOutcome,
    pin: Option<Seq<char>>,
    mint: MintOutcome,
)
    requires
        s.wf(),
        s.has_folder(req.folder_uuid),
        session is Some,
        s.has_client_for_user(session->Some_0.user_id),
        ({
            let client = s.client_for_user(session->Some_0.user_id);
            let used = if s.has_usage(client.id) {
                s.usage_of(client.id).used_storage_mb
            } else {
                0
            };
            &&& client.active_package is Some
            &&& s.has_package(client.active_package->0)
            &&& s.folder_at(req.folder_uuid).client_id == client.id
            &&& req.asset_uuid is None
            &&& used + req.size_mb > s.package(client.active_package->0).storage_capacity_mb
        }),
    ensures
        ({
            let client = s.client_for_user(session->Some_0.user_id);
            let used = if s.has_usage(client.id) {
                s.usage_of(client.id).used_storage_mb
            } else {
                0
            };
            spec_run_asset(s, session, req, fresh_uuid, unpin_ok, burn, pin, mint).1
                == Result::<int, ApiErrorV>::Err(
                ApiErrorV::QuotaExceeded {
                    requested: (used + req.size_mb) as u128,
                    limit: s.package(client.active_package->0).storage_capacity_mb,
                },
            )
        }),
        spec_run_asset(s, session, req, fresh_uuid, unpin_ok, burn, pin, mint).0.assets == s.assets,
{
    let client = s.client_for_user(session->Some_0.user_id);
    let s2 = spec_prepare_asset(s, session, req, fresh_uuid).0;
    if s.has_usage(client.id) {
        assert(s2 == s);
    } else {
        assert(s2.usages == s.usages.push(zero_usage(client.id)));
        let k = s2.usage_index(client.id);
        assert(s2.usages[s.usages.len() as int].client_id == client.id);
        assert(usage_exists(s2.usages, client.id));
        if k < s.usages.len() {
            assert(s.usages[k].client_id == client.id);
            assert(s.has_usage(client.id));
            assert(false);
        }
        assert(s2.usage_of(client.id) == zero_usage(client.id));
    }
}

/// Committing a valid `Create` plan preserves the store invariant.
proof fn lemma_commit_create_wf(s0: StoreV, s1: StoreV, p: AssetPlanV, a: AssetRecV, ui: int)
    requires
        s0.wf(),
        plan_valid(p, s0),
        p matches AssetPlanV::Create { .. },
        a.client_id == p->Create_client_id,
        a.folder_id == p->Create_folder_id,
        a.uuid == p->Create_uuid,
        a.size_mb == p->Create_size_mb,
        !s0.has_asset(a.uuid),
        0 <= ui < s0.usages.len(),
        s0.usages[ui].client_id == a.client_id,
        s1.assets == s0.assets.push(a),
        s1.usages == s0.usages.update(
            ui,
            UsageRec { used_storage_mb: p->Create_new_usage_mb, ..s0.usages[ui] },
        ),
        s1.clients == s0.clients,
        s1.packages == s0.packages,
        s1.folders == s0.folders,
    ensures
        s1.wf(),
{
    let client_id = a.client_id;
    crate::store::lemma_usage_index(s0, ui);
    assert forall|k: int| 0 <= k < s0.assets.len() implies #[trigger] s0.assets[k].uuid
        != a.uuid by {
        if s0.assets[k].uuid == a.uuid {
            assert(s0.has_asset(a.uuid));
        }
    }
    assert(s1.unique_keys());
    assert forall|i: int| 0 <= i < s1.assets.len() implies crate::store::folder_link_ok(
        s1.folders,
        #[trigger] s1.assets[i],
    ) && usage_exists(s1.usages, s1.assets[i].client_id) by {
        if i < s0.assets.len() {
            assert(crate::store::folder_link_ok(s0.folders, s0.assets[i]));
            assert(usage_exists(s0.usages, s0.assets[i].client_id));
            let k = choose|k: int|
                0 <= k < s0.usages.len() && #[trigger] s0.usages[k].client_id
                    == s0.assets[i].client_id;
            assert(s1.usages[k].client_id == s1.assets[i].client_id);
        } else {
            assert(s1.assets[i] == a);
            assert(s1.usages[ui].client_id == client_id);
        }
    }
    assert forall|j: int| 0 <= j < s1.usages.len() implies #[trigger] s1.usages[j].used_storage_mb
        == crate::store::sum_client_sizes(s1.assets, s1.usages[j].client_id) by {
        crate::store::lemma_sum_push(s0.assets, a, s1.usages[j].client_id);
        if j != ui {
            assert(s1.usages[j] == s0.usages[j]);
            assert(s0.usages[j].client_id != client_id);
        }
    }
    assert(s1.wf());
}

/// Committing a valid `Replace` plan preserves the store invariant.
proof fn lemma_commit_replace_wf(
    s0: StoreV,
    s1: StoreV,
    p: AssetPlanV,
    a: AssetRecV,
    ai: int,
    ui: int,
)
    requires
        s0.wf(),
        plan_valid(p, s0),
        p matches AssetPlanV::Replace { .. },
        0 <= ai < s0.assets.len(),
        s0.assets[ai].uuid == p->Replace_asset_uuid,
        a.uuid == s0.assets[ai].uuid,
        a.client_id == s0.assets[ai].client_id,
        a.folder_id == p->Replace_folder_id,
        a.size_mb == p->Replace_size_mb,
        0 <= ui < s0.usages.len(),
        s0.usages[ui].client_id == p->Replace_client_id,
        s1.assets == s0.assets.update(ai, a),
        s1.usages == s0.usages.update(
            ui,
            UsageRec { used_storage_mb: p->Replace_new_usage_mb, ..s0.usages[ui] },
        ),
        s1.clients == s0.clients,
        s1.packages == s0.packages,
        s1.folders == s0.folders,
    ensures
        s1.wf(),
{
    let client_id = p->Replace_client_id;
    crate::store::lemma_usage_index(s0, ui);
    crate::store::lemma_asset_index(s0, ai);
    assert(s0.asset_at(p->Replace_asset_uuid) == s0.assets[ai]);
    assert(a.client_id == client_id);
    assert(s1.unique_keys());
    assert forall|i: int| 0 <= i < s1.assets.len() implies crate::store::folder_link_ok(
        s1.folders,
        #[trigger] s1.assets[i],
    ) && usage_exists(s1.usages, s1.assets[i].client_id) by {
        if i != ai {
            assert(s1.assets[i] == s0.assets[i]);
        }
        assert(crate::store::folder_link_ok(s0.folders, s0.assets[i]));
        assert(usage_exists(s0.usages, s0.assets[i].client_id));
        let k = choose|k: int|
            0 <= k < s0.usages.len() && #[trigger] s0.usages[k].client_id
                == s0.assets[i].client_id;
        assert(s1.usages[k].client_id == s0.assets[i].client_id);
        if i == ai {
            assert(s1.usages[ui].client_id == client_id);
        }
    }
    assert forall|j: int| 0 <= j < s1.usages.len() implies #[trigger] s1.usages[j].used_storage_mb
        == crate::store::sum_client_sizes(s1.assets, s1.usages[j].client_id) by {
        crate::store::lemma_sum_update(s0.assets, ai, a, s1.usages[j].client_id);
        if j != ui {
            assert(s1.usages[j] == s0.usages[j]);
            assert(s0.usages[j].client_id != client_id);
        }
    }
    assert(s1.wf());
}

} // verus!
