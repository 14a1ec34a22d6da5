//! The persisted records the workflows read and write, modelled as plain
//! values, and the well-formedness that every workflow step preserves.
//!
//! The embedding application keeps these records in its relational store;
//! the workflow logic here manipulates them as one [`Store`] value whose
//! invariant [`StoreV::wf`] ties each client's recorded storage use to the
//! sum of its assets' sizes.

use vstd::prelude::*;

verus! {

/// A client: the owner of folders, assets and a subscription.
pub struct ClientRec {
    pub id: u64,
    pub user_id: u64,
    /// The package of the client's active subscription, if any.
    pub active_package: Option<u64>,
    /// Opaque hash of the client's API secret.
    pub api_secret_hash: String,
}

/// Spec-level value of a [`ClientRec`].
pub struct ClientRecV {
    pub id: u64,
    pub user_id: u64,
    pub active_package: Option<u64>,
    pub api_secret_hash: Seq<char>,
}

impl View for ClientRec {
    type V = ClientRecV;

    open spec fn view(&self) -> ClientRecV {
        ClientRecV {
            id: self.id,
            user_id: self.user_id,
            active_package: self.active_package,
            api_secret_hash: self.api_secret_hash@,
        }
    }
}

/// A subscription package: what a client's subscription grants.
#[derive(Clone, Copy, Debug, PartialEq, Eq, Structural)]
pub struct PackageRec {
    pub id: u64,
    /// The storage ceiling, in megabytes.
    pub storage_capacity_mb: u64,
    pub monthly_request_limit: u64,
    pub max_sessions: u32,
}

impl View for PackageRec {
    type V = PackageRec;

    open spec fn view(&self) -> PackageRec {
        *self
    }
}

/// A client's usage row: at most one exists per client.
#[derive(Clone, Copy, Debug, PartialEq, Eq, Structural)]
pub struct UsageRec {
    pub client_id: u64,
    /// Cumulative storage used by the client's assets, in megabytes.
    pub used_storage_mb: u64,
    pub active_sessions: u32,
}

impl View for UsageRec {
    type V = UsageRec;

    open spec fn view(&self) -> UsageRec {
        *self
    }
}

/// A folder: the local face of a ledger collection. Its `id` is the
/// collection identifier the ledger returned when the folder was created.
pub struct FolderRec {
    pub id: u64,
    pub uuid: String,
    pub client_id: u64,
    pub name: String,
    pub description: String,
    /// Content hash of the folder's pinned logo.
    pub logo_hash: String,
}

/// Spec-level value of a [`FolderRec`].
pub struct FolderRecV {
    pub id: u64,
    pub uuid: Seq<char>,
    pub client_id: u64,
    pub name: Seq<char>,
    pub description: Seq<char>,
    pub logo_hash: Seq<char>,
}

impl View for FolderRec {
    type V = FolderRecV;

    open spec fn view(&self) -> FolderRecV {
        FolderRecV {
            id: self.id,
            uuid: self.uuid@,
            client_id: self.client_id,
            name: self.name@,
            description: self.description@,
            logo_hash: self.logo_hash@,
        }
    }
}

/// An asset: the local face of a minted token.
pub struct AssetRec {
    pub uuid: String,
    pub client_id: u64,
    pub folder_id: u64,
    /// The token the ledger minted for the asset's current content.
    pub nft_id: u64,
    /// Content hash of the asset's pinned content.
    pub ipfs_hash: String,
    pub size_mb: u64,
    pub content_type: String,
    pub name: String,
    pub description: String,
}

/// Spec-level value of an [`AssetRec`].
pub struct AssetRecV {
    pub uuid: Seq<char>,
    pub client_id: u64,
    pub folder_id: u64,
    pub nft_id: u64,
    pub ipfs_hash: Seq<char>,
    pub size_mb: u64,
    pub content_type: Seq<char>,
    pub name: Seq<char>,
    pub description: Seq<char>,
}

impl View for AssetRec {
    type V = AssetRecV;

    open spec fn view(&self) -> AssetRecV {
        AssetRecV {
            uuid: self.uuid@,
            client_id: self.client_id,
            folder_id: self.folder_id,
            nft_id: self.nft_id,
            ipfs_hash: self.ipfs_hash@,
            size_mb: self.size_mb,
            content_type: self.content_type@,
            name: self.name@,
            description: self.description@,
        }
    }
}

/// All records the workflows touch, as one value.
pub struct Store {
    pub clients: Vec<ClientRec>,
    pub packages: Vec<PackageRec>,
    pub usages: Vec<UsageRec>,
    pub folders: Vec<FolderRec>,
    pub assets: Vec<AssetRec>,
}

/// Spec-level value of a [`Store`].
pub struct StoreV {
    pub clients: Seq<ClientRecV>,
    pub packages: Seq<PackageRec>,
    pub usages: Seq<UsageRec>,
    pub folders: Seq<FolderRecV>,
    pub assets: Seq<AssetRecV>,
}

impl View for Store {
    type V = StoreV;

    open spec fn view(&self) -> StoreV {
        StoreV {
            clients: Seq::new(self.clients@.len(), |i: int| self.clients@[i]@),
            packages: Seq::new(self.packages@.len(), |i: int| self.packages@[i]@),
            usages: Seq::new(self.usages@.len(), |i: int| self.usages@[i]@),
            folders: Seq::new(self.folders@.len(), |i: int| self.folders@[i]@),
            assets: Seq::new(self.assets@.len(), |i: int| self.assets@[i]@),
        }
    }
}

/// Whether `folders` holds a folder with identifier `a.folder_id` owned by
/// `a`'s client.
pub open spec fn folder_link_ok(folders: Seq<FolderRecV>, a: AssetRecV) -> bool {
    exists|j: int|
        0 <= j < folders.len() && #[trigger] folders[j].id == a.folder_id && folders[j].client_id
            == a.client_id
}

/// Whether `usages` holds a row for `client_id`.
pub open spec fn usage_exists(usages: Seq<UsageRec>, client_id: u64) -> bool {
    exists|i: int| 0 <= i < usages.len() && #[trigger] usages[i].client_id == client_id
}

/// What asset `a` contributes to client `client`'s storage use.
pub open spec fn client_contrib(a: AssetRecV, client: u64) -> int {
    if a.client_id == client {
        a.size_mb as int
    } else {
        0
    }
}

/// The sum of `size_mb` over the assets of `client`.
pub open spec fn sum_client_sizes(assets: Seq<AssetRecV>, client: u64) -> int
    decreases assets.len(),
{
    if assets.len() == 0 {
        0
    } else {
        sum_client_sizes(assets.drop_last(), client) + client_contrib(assets.last(), client)
    }
}

pub proof fn lemma_sum_nonneg(assets: Seq<AssetRecV>, client: u64)
    ensures
        sum_client_sizes(assets, client) >= 0,
    decreases assets.len(),
{
    if assets.len() > 0 {
        lemma_sum_nonneg(assets.drop_last(), client);
    }
}

pub proof fn lemma_sum_push(assets: Seq<AssetRecV>, a: AssetRecV, client: u64)
    ensures
        sum_client_sizes(assets.push(a), client) == sum_client_sizes(assets, client)
            + client_contrib(a, client),
{
    assert(assets.push(a).drop_last() =~= assets);
}

pub proof fn lemma_sum_update(assets: Seq<AssetRecV>, i: int, a: AssetRecV, client: u64)
    requires
        0 <= i < assets.len(),
    ensures
        sum_client_sizes(assets.update(i, a), client) == sum_client_sizes(assets, client)
            - client_contrib(assets[i], client) + client_contrib(a, client),
    decreases assets.len(),
{
    if i == assets.len() - 1 {
        assert(assets.update(i, a).drop_last() =~= assets.drop_last());
        assert(assets.update(i, a).last() == a);
    } else {
        assert(assets.update(i, a).drop_last() =~= assets.drop_last().update(i, a));
        assert(assets.update(i, a).last() == assets.last());
        lemma_sum_update(assets.drop_last(), i, a, client);
    }
}

pub proof fn lemma_sum_absent(assets: Seq<AssetRecV>, client: u64)
    requires
        forall|i: int| 0 <= i < assets.len() ==> assets[i].client_id != client,
    ensures
        sum_client_sizes(assets, client) == 0,
    decreases assets.len(),
{
    if assets.len() > 0 {
        lemma_sum_absent(assets.drop_last(), client);
    }
}

/// An asset's own size never exceeds its client's total.
pub proof fn lemma_sum_member(assets: Seq<AssetRecV>, i: int, client: u64)
    requires
        0 <= i < assets.len(),
        assets[i].client_id == client,
    ensures
        assets[i].size_mb <= sum_client_sizes(assets, client),
    decreases assets.len(),
{
    lemma_sum_nonneg(assets.drop_last(), client);
    if i < assets.len() - 1 {
        lemma_sum_member(assets.drop_last(), i, client);
    }
}

impl StoreV {
    pub open spec fn has_client_for_user(self, user_id: u64) -> bool {
        exists|i: int| 0 <= i < self.clients.len() && self.clients[i].user_id == user_id
    }

    pub open spec fn client_index_for_user(self, user_id: u64) -> int {
        choose|i: int| 0 <= i < self.clients.len() && self.clients[i].user_id == user_id
    }

    pub open spec fn client_for_user(self, user_id: u64) -> ClientRecV {
        self.clients[self.client_index_for_user(user_id)]
    }

    pub open spec fn has_package(self, id: u64) -> bool {
        exists|i: int| 0 <= i < self.packages.len() && self.packages[i].id == id
    }

    pub open spec fn package_index(self, id: u64) -> int {
        choose|i: int| 0 <= i < self.packages.len() && self.packages[i].id == id
    }

    pub open spec fn package(self, id: u64) -> PackageRec {
        self.packages[self.package_index(id)]
    }

    pub open spec fn has_usage(self, client_id: u64) -> bool {
        usage_exists(self.usages, client_id)
    }

    pub open spec fn usage_index(self, client_id: u64) -> int {
        choose|i: int| 0 <= i < self.usages.len() && self.usages[i].client_id == client_id
    }

    pub open spec fn usage_of(self, client_id: u64) -> UsageRec {
        self.usages[self.usage_index(client_id)]
    }

    pub open spec fn has_folder(self, uuid: Seq<char>) -> bool {
        exists|i: int| 0 <= i < self.folders.len() && self.folders[i].uuid == uuid
    }

    pub open spec fn folder_index(self, uuid: Seq<char>) -> int {
        choose|i: int| 0 <= i < self.folders.len() && self.folders[i].uuid == uuid
    }

    pub open spec fn folder_at(self, uuid: Seq<char>) -> FolderRecV {
        self.folders[self.folder_index(uuid)]
    }

    pub open spec fn has_folder_with_id(self, id: u64) -> bool {
        exists|i: int| 0 <= i < self.folders.len() && self.folders[i].id == id
    }

    pub open spec fn has_asset(self, uuid: Seq<char>) -> bool {
        exists|i: int| 0 <= i < self.assets.len() && self.assets[i].uuid == uuid
    }

    pub open spec fn asset_index(self, uuid: Seq<char>) -> int {
        choose|i: int| 0 <= i < self.assets.len() && self.assets[i].uuid == uuid
    }

    pub open spec fn asset_at(self, uuid: Seq<char>) -> AssetRecV {
        self.assets[self.asset_index(uuid)]
    }

    /// Unique keys: client ids and owning users, usage rows per client,
    /// folder ids (collection identifiers) and uuids, asset uuids.
    pub open spec fn unique_keys(self) -> bool {
        &&& forall|i: int, j: int|
            0 <= i < j < self.clients.len() ==> #[trigger] self.clients[i].id != #[trigger] self.clients[j].id
                && self.clients[i].user_id != self.clients[j].user_id
        &&& forall|i: int, j: int|
            0 <= i < j < self.packages.len() ==> #[trigger] self.packages[i].id
                != #[trigger] self.packages[j].id
        &&& forall|i: int, j: int|
            0 <= i < j < self.usages.len() ==> #[trigger] self.usages[i].client_id
                != #[trigger] self.usages[j].client_id
        &&& forall|i: int, j: int|
            0 <= i < j < self.folders.len() ==> #[trigger] self.folders[i].id != #[trigger] self.folders[j].id
                && self.folders[i].uuid != self.folders[j].uuid
        &&& forall|i: int, j: int|
            0 <= i < j < self.assets.len() ==> #[trigger] self.assets[i].uuid != #[trigger] self.assets[j].uuid
    }

    /// Each asset hangs in a folder of its own client, and its client has a
    /// usage row.
    pub open spec fn assets_linked(self) -> bool {
        forall|i: int|
            0 <= i < self.assets.len() ==> folder_link_ok(self.folders, #[trigger] self.assets[i])
                && usage_exists(self.usages, self.assets[i].client_id)
    }

    /// Every usage row records exactly the sum of its client's asset sizes.
    pub open spec fn usage_consistent(self) -> bool {
        forall|j: int|
            0 <= j < self.usages.len() ==> #[trigger] self.usages[j].used_storage_mb
                == sum_client_sizes(self.assets, self.usages[j].client_id)
    }

    /// The store's invariant: what holds of the records after any sequence
    /// of successful workflow steps.
    pub open spec fn wf(self) -> bool {
        &&& self.unique_keys()
        &&& self.assets_linked()
        &&& self.usage_consistent()
    }
}

/// With unique owning users, a client found at `i` is the client the spec
/// lookup names.
pub proof fn lemma_client_index(s: StoreV, i: int)
    requires
        s.unique_keys(),
        0 <= i < s.clients.len(),
    ensures
        s.has_client_for_user(s.clients[i].user_id),
        s.client_index_for_user(s.clients[i].user_id) == i,
{
    let u = s.clients[i].user_id;
    assert(s.has_client_for_user(u));
    let k = s.client_index_for_user(u);
    if k != i {
        let a: int = if k < i { k } else { i };
        let b: int = if k < i { i } else { k };
        assert(s.clients[a].id != s.clients[b].id && s.clients[a].user_id != s.clients[b].user_id);
        assert(false);
    }
}

/// With unique package identifiers, a package found at `i` is the package
/// the spec lookup names.
pub proof fn lemma_package_index(s: StoreV, i: int)
    requires
        s.unique_keys(),
        0 <= i < s.packages.len(),
    ensures
        s.has_package(s.packages[i].id),
        s.package_index(s.packages[i].id) == i,
{
    let u = s.packages[i].id;
    assert(s.has_package(u));
    let k = s.package_index(u);
    if k != i {
        let a: int = if k < i { k } else { i };
        let b: int = if k < i { i } else { k };
        assert(s.packages[a].id != s.packages[b].id);
        assert(false);
    }
}

/// With at most one usage row per client, a row found at `i` is the row the
/// spec lookup names.
pub proof fn lemma_usage_index(s: StoreV, i: int)
    requires
        s.unique_keys(),
        0 <= i < s.usages.len(),
    ensures
        s.has_usage(s.usages[i].client_id),
        s.usage_index(s.usages[i].client_id) == i,
{
    let u = s.usages[i].client_id;
    assert(usage_exists(s.usages, u));
    let k = s.usage_index(u);
    if k != i {
        let a: int = if k < i { k } else { i };
        let b: int = if k < i { i } else { k };
        assert(s.usages[a].client_id != s.usages[b].client_id);
        assert(false);
    }
}

/// With unique folder uuids, a folder found at `i` is the folder the spec
/// lookup names.
pub proof fn lemma_folder_index(s: StoreV, i: int)
    requires
        s.unique_keys(),
        0 <= i < s.folders.len(),
    ensures
        s.has_folder(s.folders[i].uuid),
        s.folder_index(s.folders[i].uuid) == i,
{
    let u = s.folders[i].uuid;
    assert(s.has_folder(u));
    let k = s.folder_index(u);
    if k != i {
        let a: int = if k < i { k } else { i };
        let b: int = if k < i { i } else { k };
        assert(s.folders[a].id != s.folders[b].id && s.folders[a].uuid != s.folders[b].uuid);
        assert(false);
    }
}

/// With unique asset uuids, an asset found at `i` is the asset the spec
/// lookup names.
pub proof fn lemma_asset_index(s: StoreV, i: int)
    requires
        s.unique_keys(),
        0 <= i < s.assets.len(),
    ensures
        s.has_asset(s.assets[i].uuid),
        s.asset_index(s.assets[i].uuid) == i,
{
    let u = s.assets[i].uuid;
    assert(s.has_asset(u));
    let k = s.asset_index(u);
    if k != i {
        let a: int = if k < i { k } else { i };
        let b: int = if k < i { i } else { k };
        assert(s.assets[a].uuid != s.assets[b].uuid);
        assert(false);
    }
}

/// In a well-formed store, a client's recorded storage use equals the sum
/// of `size_mb` over that client's current assets.
pub proof fn lemma_usage_matches_assets(s: StoreV, j: int)
    requires
        s.wf(),
        0 <= j < s.usages.len(),
    ensures
        s.usages[j].used_storage_mb == sum_client_sizes(s.assets, s.usages[j].client_id),
{
}

impl Store {
    /// An empty store; trivially well-formed.
    pub fn new() -> (r: Store)
        ensures
            r@.wf(),
            r@.clients.len() == 0,
            r@.packages.len() == 0,
            r@.usages.len() == 0,
            r@.folders.len() == 0,
            r@.assets.len() == 0,
    {
        Store {
            clients: Vec::new(),
            packages: Vec::new(),
            usages: Vec::new(),
            folders: Vec::new(),
            assets: Vec::new(),
        }
    }
}

/// Index of the client owned by `user_id`, if one exists.
pub fn find_client_by_user(store: &Store, user_id: u64) -> (r: Option<usize>)
    requires
        store@.unique_keys(),
    ensures
        match r {
            Some(i) => i < store@.clients.len() && store@.clients[i as int].user_id == user_id
                && store@.has_client_for_user(user_id) && store@.client_index_for_user(user_id)
                == i,
            None => !store@.has_client_for_user(user_id),
        },
{
    let clients = &store.clients;
    let mut i: usize = 0;
    while i < clients.len()
        invariant
            store@.unique_keys(),
            clients == store.clients,
            i <= clients@.len(),
            forall|k: int| 0 <= k < i ==> clients@[k]@.user_id != user_id,
        decreases clients@.len() - i,
    {
        if clients[i].user_id == user_id {
            proof {
                lemma_client_index(store@, i as int);
            }
            return Some(i);
        }
        i = i + 1;
    }
    proof {
        if store@.has_client_for_user(user_id) {
            let k = store@.client_index_for_user(user_id);
            assert(store@.clients[k] == clients@[k]@);
            assert(false);
        }
    }
    None
}

/// Index of the package with identifier `id`, if one exists.
pub fn find_package(store: &Store, id: u64) -> (r: Option<usize>)
    requires
        store@.unique_keys(),
    ensures
        match r {
            Some(i) => i < store@.packages.len() && store@.packages[i as int].id == id
                && store@.has_package(id) && store@.package_index(id) == i,
            None => !store@.has_package(id),
        },
{
    let packages = &store.packages;
    let mut i: usize = 0;
    while i < packages.len()
        invariant
            store@.unique_keys(),
            packages == store.packages,
            i <= packages@.len(),
            forall|k: int| 0 <= k < i ==> packages@[k]@.id != id,
        decreases packages@.len() - i,
    {
        if packages[i].id == id {
            proof {
                lemma_package_index(store@, i as int);
            }
            return Some(i);
        }
        i = i + 1;
    }
    proof {
        if store@.has_package(id) {
            let k = store@.package_index(id);
            assert(store@.packages[k] == packages@[k]@);
            assert(false);
        }
    }
    None
}

/// Index of the usage row of `client_id`, if one exists.
pub fn find_usage(store: &Store, client_id: u64) -> (r: Option<usize>)
    requires
        store@.unique_keys(),
    ensures
        match r {
            Some(i) => i < store@.usages.len() && store@.usages[i as int].client_id == client_id
                && store@.has_usage(client_id) && store@.usage_index(client_id) == i,
            None => !store@.has_usage(client_id),
        },
{
    let usages = &store.usages;
    let mut i: usize = 0;
    while i < usages.len()
        invariant
            store@.unique_keys(),
            usages == store.usages,
            i <= usages@.len(),
            forall|k: int| 0 <= k < i ==> usages@[k]@.client_id != client_id,
        decreases usages@.len() - i,
    {
        if usages[i].client_id == client_id {
            proof {
                lemma_usage_index(store@, i as int);
            }
            return Some(i);
        }
        i = i + 1;
    }
    proof {
        if store@.has_usage(client_id) {
            let k = store@.usage_index(client_id);
            assert(store@.usages[k] == usages@[k]@);
            assert(false);
        }
    }
    None
}

/// Index of the folder carrying `uuid`, if one exists.
pub fn find_folder_by_uuid(store: &Store, uuid: &String) -> (r: Option<usize>)
    requires
        store@.unique_keys(),
    ensures
        match r {
            Some(i) => i < store@.folders.len() && store@.folders[i as int].uuid == uuid@
                && store@.has_folder(uuid@) && store@.folder_index(uuid@) == i,
            None => !store@.has_folder(uuid@),
        },
{
    let folders = &store.folders;
    let mut i: usize = 0;
    while i < folders.len()
        invariant
            store@.unique_keys(),
            folders == store.folders,
            i <= folders@.len(),
            forall|k: int| 0 <= k < i ==> folders@[k]@.uuid != uuid@,
        decreases folders@.len() - i,
    {
        if folders[i].uuid == *uuid {
            proof {
                lemma_folder_index(store@, i as int);
            }
            return Some(i);
        }
        i = i + 1;
    }
    proof {
        if store@.has_folder(uuid@) {
            let k = store@.folder_index(uuid@);
            assert(store@.folders[k] == folders@[k]@);
            assert(false);
        }
    }
    None
}

/// Index of the folder whose identifier (the ledger collection id) is
/// `id`, if one exists.
pub fn find_folder_by_id(store: &Store, id: u64) -> (r: Option<usize>)
    ensures
        match r {
            Some(i) => i < store@.folders.len() && store@.folders[i as int].id == id
                && store@.has_folder_with_id(id),
            None => !store@.has_folder_with_id(id),
        },
{
    let folders = &store.folders;
    let mut i: usize = 0;
    while i < folders.len()
        invariant
            folders == store.folders,
            i <= folders@.len(),
            forall|k: int| 0 <= k < i ==> folders@[k]@.id != id,
        decreases folders@.len() - i,
    {
        if folders[i].id == id {
            proof {
                assert(store@.folders[i as int].id == id);
            }
            return Some(i);
        }
        i = i + 1;
    }
    proof {
        if store@.has_folder_with_id(id) {
            let k = choose|k: int|
                0 <= k < store@.folders.len() && #[trigger] store@.folders[k].id == id;
            assert(store@.folders[k] == folders@[k]@);
            assert(false);
        }
    }
    None
}

/// Index of the asset carrying `uuid`, if one exists.
pub fn find_asset_by_uuid(store: &Store, uuid: &String) -> (r: Option<usize>)
    requires
        store@.unique_keys(),
    ensures
        match r {
            Some(i) => i < store@.assets.len() && store@.assets[i as int].uuid == uuid@
                && store@.has_asset(uuid@) && store@.asset_index(uuid@) == i,
            None => !store@.has_asset(uuid@),
        },
{
    let assets = &store.assets;
    let mut i: usize = 0;
    while i < assets.len()
        invariant
            store@.unique_keys(),
            assets == store.assets,
            i <= assets@.len(),
            forall|k: int| 0 <= k < i ==> assets@[k]@.uuid != uuid@,
        decreases assets@.len() - i,
    {
        if assets[i].uuid == *uuid {
            proof {
                lemma_asset_index(store@, i as int);
            }
            return Some(i);
        }
        i = i + 1;
    }
    proof {
        if store@.has_asset(uuid@) {
            let k = store@.asset_index(uuid@);
            assert(store@.assets[k] == assets@[k]@);
            assert(false);
        }
    }
    None
}

/// The usage row a client starts with.
pub open spec fn zero_usage(client_id: u64) -> UsageRec {
    UsageRec { client_id, used_storage_mb: 0, active_sessions: 0 }
}

/// Returns the index of `client_id`'s usage row, creating the
/// zero-initialized row first if the client has none. Idempotent: a second
/// call returns the same row and changes nothing.
pub fn get_or_create_usage(store: &mut Store, client_id: u64) -> (idx: usize)
    requires
        old(store)@.wf(),
    ensures
        final(store)@.wf(),
        final(store)@.clients == old(store)@.clients,
        final(store)@.packages == old(store)@.packages,
        final(store)@.folders == old(store)@.folders,
        final(store)@.assets == old(store)@.assets,
        idx < final(store)@.usages.len(),
        final(store)@.usages[idx as int].client_id == client_id,
        final(store)@.has_usage(client_id),
        final(store)@.usage_index(client_id) == idx,
        old(store)@.has_usage(client_id) ==> final(store)@ == old(store)@,
        !old(store)@.has_usage(client_id) ==> final(store)@.usages == old(store)@.usages.push(
            zero_usage(client_id),
        ),
{
    let found = find_usage(store, client_id);
    match found {
        Some(i) => {
            proof {
                assert(old(store)@.usages[i as int].client_id == client_id);
                assert(old(store)@.has_usage(client_id));
            }
            i
        },
        None => {
            let idx = store.usages.len();
            store.usages.push(UsageRec { client_id, used_storage_mb: 0, active_sessions: 0 });
            proof {
                let s0 = old(store)@;
                let s1 = store@;
                assert(s1.usages =~= s0.usages.push(zero_usage(client_id)));
                assert(s1.clients =~= s0.clients);
                assert(s1.packages =~= s0.packages);
                assert(s1.folders =~= s0.folders);
                assert(s1.assets =~= s0.assets);
                assert(forall|k: int|
                    0 <= k < s0.usages.len() ==> #[trigger] s0.usages[k].client_id != client_id);
                assert forall|i: int| 0 <= i < s0.assets.len() implies #[trigger] s0.assets[i].client_id
                    != client_id by {
                    assert(usage_exists(s0.usages, s0.assets[i].client_id));
                    let j = choose|j: int|
                        0 <= j < s0.usages.len() && #[trigger] s0.usages[j].client_id
                            == s0.assets[i].client_id;
                    assert(s0.usages[j].client_id != client_id);
                }
                lemma_sum_absent(s1.assets, client_id);
                assert(s1.unique_keys());
                assert forall|i: int| 0 <= i < s1.assets.len() implies folder_link_ok(
                    s1.folders,
                    #[trigger] s1.assets[i],
                ) && usage_exists(s1.usages, s1.assets[i].client_id) by {
                    assert(folder_link_ok(s0.folders, s0.assets[i]));
                    assert(usage_exists(s0.usages, s0.assets[i].client_id));
                    let j = choose|j: int|
                        0 <= j < s0.usages.len() && #[trigger] s0.usages[j].client_id
                            == s0.assets[i].client_id;
                    assert(s1.usages[j].client_id == s1.assets[i].client_id);
                }
                assert(s1.assets_linked());
                assert forall|j: int| 0 <= j < s1.usages.len() implies #[trigger] s1.usages[j].used_storage_mb
                    == sum_client_sizes(s1.assets, s1.usages[j].client_id) by {
                    if j < s0.usages.len() {
                        assert(s1.usages[j] == s0.usages[j]);
                    } else {
                        assert(s1.usages[j] == zero_usage(client_id));
                    }
                }
                assert(s1.wf());
                lemma_usage_index(s1, idx as int);
            }
            idx
        },
    }
}

} // verus!
