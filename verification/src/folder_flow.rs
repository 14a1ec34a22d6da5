//! The folder upsert workflow: rename an existing folder, or create a new
//! one by minting a collection on the ledger.
//!
//! A rename needs no external work: [`prepare_folder_upsert`] validates it
//! and [`commit_folder_rename`] writes it. A creation validates the logo's
//! content type, then walks [`FolderFlow`]: pin the logo, create the
//! collection under the next sequence symbol, and persist a folder whose
//! local identifier is the collection identifier the ledger answered with.

use vstd::prelude::*;
use vstd::string::StrSliceExecFns;

use crate::asset_flow::Session;
use crate::errors::ApiError;
use crate::errors::ApiErrorV;
use crate::errors::EntityKind;
use crate::errors::result_view;
use crate::ledger::CreateOutcome;
use crate::numerals::spec_format_id;
use crate::numerals::format_id;
use crate::store::FolderRec;
use crate::store::FolderRecV;
use crate::store::Store;
use crate::store::StoreV;
use crate::store::find_client_by_user;
use crate::store::find_folder_by_id;
use crate::store::find_folder_by_uuid;
use crate::store::folder_link_ok;
use crate::store::usage_exists;

verus! {

/// The characters every image content type starts with.
pub open spec fn image_prefix() -> Seq<char> {
    seq!['i', 'm', 'a', 'g', 'e']
}

/// Whether `s` declares an image: it starts with `image`.
pub open spec fn spec_is_image_content_type(s: Seq<char>) -> bool {
    s.len() >= 5 && s.subrange(0, 5) == image_prefix()
}

/// Decides whether a content type declares an image.
pub fn is_image_content_type(ct: &str) -> (r: bool)
    ensures
        r == spec_is_image_content_type(ct@),
{
    let n = ct.unicode_len();
    if n < 5 {
        return false;
    }
    let r = ct.get_char(0) == 'i' && ct.get_char(1) == 'm' && ct.get_char(2) == 'a' && ct.get_char(
        3,
    ) == 'g' && ct.get_char(4) == 'e';
    proof {
        if r {
            assert(ct@.subrange(0, 5) =~= image_prefix());
        } else {
            if spec_is_image_content_type(ct@) {
                assert(ct@.subrange(0, 5)[0] == 'i' && ct@.subrange(0, 5)[1] == 'm'
                    && ct@.subrange(0, 5)[2] == 'a' && ct@.subrange(0, 5)[3] == 'g'
                    && ct@.subrange(0, 5)[4] == 'e');
                assert(false);
            }
        }
    }
    r
}

/// One folder request: rename an existing folder (`uuid` present) or
/// create a new one (`uuid` absent).
pub struct FolderRequest {
    /// The folder to rename, if this is an update.
    pub uuid: Option<String>,
    pub name: String,
    pub description: String,
    /// Content type carried by the uploaded logo's metadata, if any; only
    /// a creation reads it.
    pub logo_content_type: Option<String>,
}

/// Spec-level value of a [`FolderRequest`].
pub struct FolderRequestV {
    pub uuid: Option<Seq<char>>,
    pub name: Seq<char>,
    pub description: Seq<char>,
    pub logo_content_type: Option<Seq<char>>,
}

impl View for FolderRequest {
    type V = FolderRequestV;

    open spec fn view(&self) -> FolderRequestV {
        FolderRequestV {
            uuid: match self.uuid {
                Some(u) => Some(u@),
                None => None,
            },
            name: self.name@,
            description: self.description@,
            logo_content_type: match self.logo_content_type {
                Some(c) => Some(c@),
                None => None,
            },
        }
    }
}

/// The validated remainder of a folder request.
pub enum FolderPlan {
    /// Overwrite the folder's name and description; no external work.
    Rename { folder_uuid: String, name: String, description: String },
    /// Pin the logo, create a collection under `symbol`, and insert the
    /// folder row.
    Create {
        client_id: u64,
        /// The fresh uuid the new folder row will carry.
        uuid: String,
        name: String,
        description: String,
        /// The sequence symbol for the new collection, formatted from the
        /// folder count.
        symbol: String,
    },
}

/// Spec-level value of a [`FolderPlan`].
pub enum FolderPlanV {
    Rename { folder_uuid: Seq<char>, name: Seq<char>, description: Seq<char> },
    Create {
        client_id: u64,
        uuid: Seq<char>,
        name: Seq<char>,
        description: Seq<char>,
        symbol: Seq<char>,
    },
}

impl View for FolderPlan {
    type V = FolderPlanV;

    open spec fn view(&self) -> FolderPlanV {
        match self {
            FolderPlan::Rename { folder_uuid, name, description } => FolderPlanV::Rename {
                folder_uuid: folder_uuid@,
                name: name@,
                description: description@,
            },
            FolderPlan::Create { client_id, uuid, name, description, symbol } => FolderPlanV::Create {
                client_id: *client_id,
                uuid: uuid@,
                name: name@,
                description: description@,
                symbol: symbol@,
            },
        }
    }
}

/// What a folder plan promises about the store it is committed against.
pub open spec fn folder_plan_valid(p: FolderPlanV, s: StoreV) -> bool {
    match p {
        FolderPlanV::Rename { folder_uuid, .. } => s.has_folder(folder_uuid),
        FolderPlanV::Create { .. } => true,
    }
}

/// The validation of a folder request: the plan it answers, or the error
/// it fails with. A creation's symbol is the zero-padded sequence symbol
/// of the folder count plus one.
pub open spec fn spec_prepare_folder(
    s: StoreV,
    session: Option<Session>,
    req: FolderRequestV,
    fresh_uuid: Seq<char>,
) -> Result<FolderPlanV, ApiErrorV> {
    if session is None {
        Result::Err(ApiErrorV::Unauthenticated)
    } else if !s.has_client_for_user(session->Some_0.user_id) {
        Result::Err(ApiErrorV::NoActiveSubscription)
    } else {
        let client = s.client_for_user(session->Some_0.user_id);
        match req.uuid {
            Some(uuid) => {
                if !s.has_folder(uuid) {
                    Result::Err(ApiErrorV::NotFound { entity: EntityKind::Folder, id: uuid })
                } else if s.folder_at(uuid).client_id != client.id {
                    Result::Err(ApiErrorV::Unauthorized)
                } else {
                    Result::Ok(
                        FolderPlanV::Rename {
                            folder_uuid: uuid,
                            name: req.name,
                            description: req.description,
                        },
                    )
                }
            },
            None => {
                if req.logo_content_type is None || !spec_is_image_content_type(
                    req.logo_content_type->0,
                ) {
                    Result::Err(ApiErrorV::InvalidContent)
                } else {
                    Result::Ok(
                        FolderPlanV::Create {
                            client_id: client.id,
                            uuid: fresh_uuid,
                            name: req.name,
                            description: req.description,
                            symbol: spec_format_id((s.folders.len() + 1) as nat),
                        },
                    )
                }
            },
        }
    }
}

/// Validates a folder request and answers the plan of work it owes, or the
/// error it fails with. The store is not changed; no pin or ledger call is
/// asked for on any failure.
pub fn prepare_folder_upsert(
    store: &Store,
    session: &Option<Session>,
    req: &FolderRequest,
    fresh_uuid: String,
) -> (r: Result<FolderPlan, ApiError>)
    requires
        store@.wf(),
        store@.folders.len() + 1 <= u64::MAX,
    ensures
        result_view(r) == spec_prepare_folder(store@, *session, req@, fresh_uuid@),
        (r matches Result::Ok(p) ==> folder_plan_valid(p@, store@)),
{
    let sess = match session {
        Some(s) => *s,
        None => {
            return Err(ApiError::Unauthenticated);
        },
    };
    let client_idx = match find_client_by_user(store, sess.user_id) {
        Some(i) => i,
        None => {
            return Err(ApiError::NoActiveSubscription);
        },
    };
    let client_id = store.clients[client_idx].id;
    match &req.uuid {
        Some(uuid) => {
            let folder_idx = match find_folder_by_uuid(store, uuid) {
                Some(i) => i,
                None => {
                    return Err(
                        ApiError::NotFound { entity: EntityKind::Folder, id: uuid.clone() },
                    );
                },
            };
            if store.folders[folder_idx].client_id != client_id {
                return Err(ApiError::Unauthorized);
            }
            Ok(
                FolderPlan::Rename {
                    folder_uuid: uuid.clone(),
                    name: req.name.clone(),
                    description: req.description.clone(),
                },
            )
        },
        None => {
            let ok = match &req.logo_content_type {
                Some(ct) => is_image_content_type(ct.as_str()),
                None => false,
            };
            if !ok {
                return Err(ApiError::InvalidContent);
            }
            let count = store.folders.len() as u64;
            let symbol = format_id(count + 1);
            Ok(
                FolderPlan::Create {
                    client_id,
                    uuid: fresh_uuid,
                    name: req.name.clone(),
                    description: req.description.clone(),
                    symbol,
                },
            )
        },
    }
}

/// The folder workflow's position between external calls.
pub enum FolderFlow {
    /// Pin the uploaded logo.
    PinLogo { plan: FolderPlan },
    /// Create a collection named by the plan, with the pinned logo's
    /// public URL, under the plan's symbol.
    CreateCollection { plan: FolderPlan, logo_hash: String },
    /// All external work done: insert the folder row.
    PersistCreate { plan: FolderPlan, logo_hash: String, collection_id: u64 },
    /// A rename owes no external work: commit it.
    PersistRename { plan: FolderPlan },
    /// The workflow failed; surface the error.
    Failed { error: ApiError },
}

/// Spec-level value of a [`FolderFlow`].
pub enum FolderFlowV {
    PinLogo { plan: FolderPlanV },
    CreateCollection { plan: FolderPlanV, logo_hash: Seq<char> },
    PersistCreate { plan: FolderPlanV, logo_hash: Seq<char>, collection_id: u64 },
    PersistRename { plan: FolderPlanV },
    Failed { error: ApiErrorV },
}

impl View for FolderFlow {
    type V = FolderFlowV;

    open spec fn view(&self) -> FolderFlowV {
        match self {
            FolderFlow::PinLogo { plan } => FolderFlowV::PinLogo { plan: plan@ },
            FolderFlow::CreateCollection { plan, logo_hash } => FolderFlowV::CreateCollection {
                plan: plan@,
                logo_hash: logo_hash@,
            },
            FolderFlow::PersistCreate { plan, logo_hash, collection_id } => FolderFlowV::PersistCreate {
                plan: plan@,
                logo_hash: logo_hash@,
                collection_id: *collection_id,
            },
            FolderFlow::PersistRename { plan } => FolderFlowV::PersistRename { plan: plan@ },
            FolderFlow::Failed { error } => FolderFlowV::Failed { error: error@ },
        }
    }
}

/// The outcome of one external call of the folder workflow.
pub enum FolderEvent {
    Pinned { hash: String },
    PinFailed,
    Create { outcome: CreateOutcome },
}

/// Spec-level value of a [`FolderEvent`].
pub enum FolderEventV {
    Pinned { hash: Seq<char> },
    PinFailed,
    Create { outcome: CreateOutcome },
}

impl View for FolderEvent {
    type V = FolderEventV;

    open spec fn view(&self) -> FolderEventV {
        match self {
            FolderEvent::Pinned { hash } => FolderEventV::Pinned { hash: hash@ },
            FolderEvent::PinFailed => FolderEventV::PinFailed,
            FolderEvent::Create { outcome } => FolderEventV::Create { outcome: *outcome },
        }
    }
}

/// Which event answers which state.
pub open spec fn folder_flow_expects(f: FolderFlowV, e: FolderEventV) -> bool {
    match f {
        FolderFlowV::PinLogo { .. } => e is Pinned || e is PinFailed,
        FolderFlowV::CreateCollection { .. } => e is Create,
        _ => false,
    }
}

/// The transition relation of the folder workflow: pin the logo, then
/// create the collection. A failed pin fails the workflow with
/// `TransportError`; a ledger answer of the error variant with
/// `ContractError`; an unreachable ledger with `TransportError`.
pub open spec fn spec_folder_flow_step(f: FolderFlowV, e: FolderEventV) -> FolderFlowV {
    match f {
        FolderFlowV::PinLogo { plan } => match e {
            FolderEventV::Pinned { hash } => FolderFlowV::CreateCollection {
                plan,
                logo_hash: hash,
            },
            _ => FolderFlowV::Failed { error: ApiErrorV::TransportError },
        },
        FolderFlowV::CreateCollection { plan, logo_hash } => match e {
            FolderEventV::Create { outcome } => match outcome {
                CreateOutcome::Created { collection_id, .. } => FolderFlowV::PersistCreate {
                    plan,
                    logo_hash,
                    collection_id,
                },
                CreateOutcome::Rejected { reason } => FolderFlowV::Failed {
                    error: ApiErrorV::ContractError { reason },
                },
                CreateOutcome::Transport => FolderFlowV::Failed {
                    error: ApiErrorV::TransportError,
                },
            },
            _ => f,
        },
        _ => f,
    }
}

/// Enters the machine: a creation starts by pinning its logo, a rename is
/// ready to commit at once.
pub fn folder_flow_start(plan: FolderPlan) -> (r: FolderFlow)
    ensures
        (plan@ matches FolderPlanV::Create { .. } ==> r@ == (FolderFlowV::PinLogo {
            plan: plan@,
        })),
        (plan@ matches FolderPlanV::Rename { .. } ==> r@ == (FolderFlowV::PersistRename {
            plan: plan@,
        })),
{
    match &plan {
        FolderPlan::Create { .. } => FolderFlow::PinLogo { plan },
        FolderPlan::Rename { .. } => FolderFlow::PersistRename { plan },
    }
}

/// Advances the folder machine by one external outcome.
pub fn folder_flow_step(flow: FolderFlow, event: FolderEvent) -> (r: FolderFlow)
    requires
        folder_flow_expects(flow@, event@),
    ensures
        r@ == spec_folder_flow_step(flow@, event@),
{
    match flow {
        FolderFlow::PinLogo { plan } => match event {
            FolderEvent::Pinned { hash } => FolderFlow::CreateCollection { plan, logo_hash: hash },
            _ => FolderFlow::Failed { error: ApiError::TransportError },
        },
        FolderFlow::CreateCollection { plan, logo_hash } => match event {
            FolderEvent::Create { outcome } => match outcome {
                CreateOutcome::Created { collection_id, .. } => FolderFlow::PersistCreate {
                    plan,
                    logo_hash,
                    collection_id,
                },
                CreateOutcome::Rejected { reason } => FolderFlow::Failed {
                    error: ApiError::ContractError { reason },
                },
                CreateOutcome::Transport => FolderFlow::Failed { error: ApiError::TransportError },
            },
            _ => unreached(),
        },
        _ => unreached(),
    }
}

/// The renamed record a committed `Rename` plan leaves in place.
pub open spec fn renamed_folder(old_rec: FolderRecV, p: FolderPlanV) -> FolderRecV {
    FolderRecV { name: p->Rename_name, description: p->Rename_description, ..old_rec }
}

/// The store after committing a rename, and the folder's index.
pub open spec fn spec_commit_folder_rename(s: StoreV, p: FolderPlanV) -> (StoreV, int) {
    let fi = s.folder_index(p->Rename_folder_uuid);
    (StoreV { folders: s.folders.update(fi, renamed_folder(s.folders[fi], p)), ..s }, fi)
}

/// Overwrites the folder's name and description, preserving the store's
/// invariant.
pub fn commit_folder_rename(store: &mut Store, plan: FolderPlan) -> (r: usize)
    requires
        old(store)@.wf(),
        plan@ matches FolderPlanV::Rename { .. },
        folder_plan_valid(plan@, old(store)@),
    ensures
        final(store)@.wf(),
        final(store)@ == spec_commit_folder_rename(old(store)@, plan@).0,
        r as int == spec_commit_folder_rename(old(store)@, plan@).1,
{
    let ghost s0 = store@;
    let ghost planv = plan@;
    match plan {
        FolderPlan::Rename { folder_uuid, name, description } => {
            let folder_idx = match find_folder_by_uuid(store, &folder_uuid) {
                Some(i) => i,
                None => unreached(),
            };
            store.folders[folder_idx].name = name;
            store.folders[folder_idx].description = description;
            proof {
                let s1 = store@;
                let fi = folder_idx as int;
                assert(s1.folders =~= s0.folders.update(fi, renamed_folder(s0.folders[fi], planv)));
                assert(s1.clients =~= s0.clients);
                assert(s1.packages =~= s0.packages);
                assert(s1.usages =~= s0.usages);
                assert(s1.assets =~= s0.assets);
                assert(s1 == spec_commit_folder_rename(s0, planv).0);
                assert(s1.unique_keys());
                assert forall|i: int| 0 <= i < s1.assets.len() implies folder_link_ok(
                    s1.folders,
                    #[trigger] s1.assets[i],
                ) && usage_exists(s1.usages, s1.assets[i].client_id) by {
                    assert(folder_link_ok(s0.folders, s0.assets[i]));
                    let j = choose|j: int|
                        0 <= j < s0.folders.len() && #[trigger] s0.folders[j].id
                            == s0.assets[i].folder_id && s0.folders[j].client_id
                            == s0.assets[i].client_id;
                    assert(s1.folders[j].id == s1.assets[i].folder_id && s1.folders[j].client_id
                        == s1.assets[i].client_id);
                }
                assert(s1.wf());
            }
            folder_idx
        },
        _ => unreached(),
    }
}

/// The record a committed `Create` plan inserts: its identifier is the
/// collection identifier the ledger answered with.
pub open spec fn created_folder(
    p: FolderPlanV,
    logo_hash: Seq<char>,
    collection_id: u64,
) -> FolderRecV {
    FolderRecV {
        id: collection_id,
        uuid: p->Create_uuid,
        client_id: p->Create_client_id,
        name: p->Create_name,
        description: p->Create_description,
        logo_hash,
    }
}

/// The store after committing a creation, and the new row's index or the
/// error: the store refuses a folder whose uuid or collection identifier
/// is already taken, as its unique keys would.
pub open spec fn spec_commit_folder_create(
    s: StoreV,
    p: FolderPlanV,
    logo_hash: Seq<char>,
    collection_id: u64,
) -> (StoreV, Result<int, ApiErrorV>) {
    if s.has_folder(p->Create_uuid) || s.has_folder_with_id(collection_id) {
        (s, Result::Err(ApiErrorV::PersistenceError))
    } else {
        (
            StoreV { folders: s.folders.push(created_folder(p, logo_hash, collection_id)), ..s },
            Result::Ok(s.folders.len() as int),
        )
    }
}

/// Inserts the created folder row. The row's local identifier is forced to
/// the collection identifier the ledger returned.
pub fn commit_folder_create(
    store: &mut Store,
    plan: FolderPlan,
    logo_hash: String,
    collection_id: u64,
) -> (r: Result<usize, ApiError>)
    requires
        old(store)@.wf(),
        plan@ matches FolderPlanV::Create { .. },
    ensures
        final(store)@.wf(),
        final(store)@ == spec_commit_folder_create(old(store)@, plan@, logo_hash@, collection_id).0,
        ({
            let res = spec_commit_folder_create(old(store)@, plan@, logo_hash@, collection_id).1;
            match r {
                Result::Ok(i) => res == Result::<int, ApiErrorV>::Ok(i as int),
                Result::Err(e) => res == Result::<int, ApiErrorV>::Err(e@),
            }
        }),
        (r matches Result::Ok(i) ==> i < final(store)@.folders.len() && final(store)@.folders[i as int].id
            == collection_id),
{
    let ghost s0 = store@;
    let ghost planv = plan@;
    match plan {
        FolderPlan::Create { client_id, uuid, name, description, symbol: _ } => {
            match find_folder_by_uuid(store, &uuid) {
                Some(_) => {
                    return Err(ApiError::PersistenceError);
                },
                None => {},
            };
            match find_folder_by_id(store, collection_id) {
                Some(_) => {
                    return Err(ApiError::PersistenceError);
                },
                None => {},
            };
            let idx = store.folders.len();
            let new_rec = FolderRec {
                id: collection_id,
                uuid,
                client_id,
                name,
                description,
                logo_hash,
            };
            proof {
                assert(new_rec@ == created_folder(planv, logo_hash@, collection_id));
            }
            store.folders.push(new_rec);
            proof {
                let s1 = store@;
                let f = created_folder(planv, logo_hash@, collection_id);
                assert(s1.folders =~= s0.folders.push(f));
                assert(s1.clients =~= s0.clients);
                assert(s1.packages =~= s0.packages);
                assert(s1.usages =~= s0.usages);
                assert(s1.assets =~= s0.assets);
                assert(s1 == spec_commit_folder_create(s0, planv, logo_hash@, collection_id).0);
                assert forall|k: int| 0 <= k < s0.folders.len() implies #[trigger] s0.folders[k].uuid
                    != f.uuid && s0.folders[k].id != f.id by {
                    if s0.folders[k].uuid == f.uuid {
                        assert(s0.has_folder(f.uuid));
                    }
                    if s0.folders[k].id == f.id {
                        assert(s0.has_folder_with_id(f.id));
                    }
                }
                assert(s1.unique_keys());
                assert forall|i: int| 0 <= i < s1.assets.len() implies folder_link_ok(
                    s1.folders,
                    #[trigger] s1.assets[i],
                ) && usage_exists(s1.usages, s1.assets[i].client_id) by {
                    assert(folder_link_ok(s0.folders, s0.assets[i]));
                    let j = choose|j: int|
                        0 <= j < s0.folders.len() && #[trigger] s0.folders[j].id
                            == s0.assets[i].folder_id && s0.folders[j].client_id
                            == s0.assets[i].client_id;
                    assert(s1.folders[j].id == s1.assets[i].folder_id && s1.folders[j].client_id
                        == s1.assets[i].client_id);
                }
                assert(s1.wf());
            }
            Ok(idx)
        },
        _ => unreached(),
    }
}

/// The outcome of one whole folder request, given the outcome of each
/// external call a creation could ask for: the pinned logo hash (`None`
/// when pinning failed) and the create-collection answer. A rename reads
/// neither.
pub open spec fn spec_run_folder(
    s: StoreV,
    session: Option<Session>,
    req: FolderRequestV,
    fresh_uuid: Seq<char>,
    pin: Option<Seq<char>>,
    create: CreateOutcome,
) -> (StoreV, Result<int, ApiErrorV>) {
    match spec_prepare_folder(s, session, req, fresh_uuid) {
        Result::Err(e) => (s, Result::Err(e)),
        Result::Ok(plan) => match plan {
            FolderPlanV::Rename { .. } => {
                let (s2, fi) = spec_commit_folder_rename(s, plan);
                (s2, Result::Ok(fi))
            },
            FolderPlanV::Create { .. } => match pin {
                None => (s, Result::Err(ApiErrorV::TransportError)),
                Some(hash) => match create {
                    CreateOutcome::Created { collection_id, .. } => spec_commit_folder_create(
                        s,
                        plan,
                        hash,
                        collection_id,
                    ),
                    CreateOutcome::Rejected { reason } => (
                        s,
                        Result::Err(ApiErrorV::ContractError { reason }),
                    ),
                    CreateOutcome::Transport => (s, Result::Err(ApiErrorV::TransportError)),
                },
            },
        },
    }
}

/// One whole folder request: validates it, walks the external steps with
/// the outcomes the caller observed, and persists the result. A created
/// folder's fresh uuid is drawn inside, so the outcome is pinned down up
/// to that identifier.
pub fn create_update_folder(
    store: &mut Store,
    session: &Option<Session>,
    req: &FolderRequest,
    pin: Option<String>,
    create: CreateOutcome,
) -> (r: Result<usize, ApiError>)
    requires
        old(store)@.wf(),
        old(store)@.folders.len() + 1 <= u64::MAX,
    ensures
        final(store)@.wf(),
        exists|u: Seq<char>|
            #[trigger] spec_run_folder(
                old(store)@,
                *session,
                req@,
                u,
                crate::asset_flow::pin_view(pin),
                create,
            ) == (final(store)@, crate::asset_flow::index_result_view(r)),
{
    let fresh = crate::ids::new_uuid_string();
    let ghost u = fresh@;
    let ghost pinv = crate::asset_flow::pin_view(pin);
    let plan = match prepare_folder_upsert(store, session, req, fresh) {
        Ok(p) => p,
        Err(e) => {
            proof {
                assert(spec_run_folder(old(store)@, *session, req@, u, pinv, create) == (
                    store@,
                    crate::asset_flow::index_result_view(Result::Err(e)),
                ));
            }
            return Err(e);
        },
    };
    let mut flow = folder_flow_start(plan);
    if matches!(&flow, FolderFlow::PinLogo { .. }) {
        let ev = match pin {
            Some(hash) => FolderEvent::Pinned { hash },
            None => FolderEvent::PinFailed,
        };
        flow = folder_flow_step(flow, ev);
    }
    if matches!(&flow, FolderFlow::CreateCollection { .. }) {
        flow = folder_flow_step(flow, FolderEvent::Create { outcome: create });
    }
    match flow {
        FolderFlow::PersistRename { plan } => {
            let i = commit_folder_rename(store, plan);
            proof {
                assert(spec_run_folder(old(store)@, *session, req@, u, pinv, create) == (
                    store@,
                    crate::asset_flow::index_result_view(Result::Ok(i)),
                ));
            }
            Ok(i)
        },
        FolderFlow::PersistCreate { plan, logo_hash, collection_id } => {
            let r = commit_folder_create(store, plan, logo_hash, collection_id);
            proof {
                assert(spec_run_folder(old(store)@, *session, req@, u, pinv, create) == (
                    store@,
                    crate::asset_flow::index_result_view(r),
                ));
            }
            r
        },
        FolderFlow::Failed { error } => {
            proof {
                assert(spec_run_folder(old(store)@, *session, req@, u, pinv, create) == (
                    store@,
                    crate::asset_flow::index_result_view(Result::Err(error)),
                ));
            }
            Err(error)
        },
        _ => unreached(),
    }
}

} // verus!
