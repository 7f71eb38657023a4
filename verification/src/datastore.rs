//! The datastore command layer: one typed request per operation, constructed
//! from the command's arguments, the branch-scoped configuration and the
//! resolved credential.
//!
//! Every operation resolves a datastore name and scope by the same precedence:
//! an explicit value wins, the configured default is the fallback, and with
//! neither the operation fails with a typed error before any request exists.
//! The caller performs the prepared requests; nothing here touches the
//! network.

use vstd::prelude::*;

use crate::config::Config;
use crate::config::ConfigError;
use crate::config::spec_lookup;
use crate::credentials::MissingCredential;
use crate::credentials::getenv;

verus! {

/// The page size used when a listing gives none.
pub const DEFAULT_RETURN_LIMIT: u64 = 100;

/// The environment variable the cloud credential falls back to.
pub const API_KEY_VAR: &'static str = "OPENCLOUD_KEY";

/// Sort order of an entry-version listing.
#[derive(Debug, Clone, Copy, PartialEq, Eq, Structural)]
pub enum ListEntrySortOrder {
    Ascending,
    Descending,
}

impl ListEntrySortOrder {
    /// The order as the remote store's protocol spells it.
    pub fn as_str(&self) -> (r: &'static str)
        ensures
            r@ == spec_sort_order(*self),
    {
        match self {
            ListEntrySortOrder::Ascending => "Ascending",
            ListEntrySortOrder::Descending => "Descending",
        }
    }
}

/// The protocol spelling of a sort order.
pub open spec fn spec_sort_order(o: ListEntrySortOrder) -> Seq<char> {
    match o {
        ListEntrySortOrder::Ascending => "Ascending"@,
        ListEntrySortOrder::Descending => "Descending"@,
    }
}

/// The page size a listing runs with: the given one, or the default.
pub open spec fn spec_limit(limit: Option<u64>) -> u64 {
    match limit {
        Some(v) => v,
        None => DEFAULT_RETURN_LIMIT,
    }
}

/// An explicit value wins over the configured default.
pub open spec fn spec_resolved(explicit: Option<String>, configured: Option<String>) -> Option<
    String,
> {
    match explicit {
        Some(v) => Some(v),
        None => configured,
    }
}

fn resolve_string(explicit: Option<String>, configured: &Option<String>) -> (r: Option<String>)
    ensures
        r == spec_resolved(explicit, *configured),
{
    match explicit {
        Some(v) => Some(v),
        None => match configured {
            Some(v) => Some(v.clone()),
            None => None,
        },
    }
}

fn limit_or_default(limit: Option<u64>) -> (r: u64)
    ensures
        r == spec_limit(limit),
{
    match limit {
        Some(v) => v,
        None => DEFAULT_RETURN_LIMIT,
    }
}

/// A request to list the datastores of a universe.
#[derive(Debug, Clone)]
pub struct ListStoresRequest {
    pub prefix: Option<String>,
    pub limit: u64,
    pub cursor: Option<String>,
}

/// A request to list the entries of a datastore.
#[derive(Debug, Clone)]
pub struct ListEntriesRequest {
    pub name: String,
    /// Unset exactly when `all_scopes` asks for every scope.
    pub scope: Option<String>,
    pub all_scopes: bool,
    pub prefix: Option<String>,
    pub limit: u64,
    pub cursor: Option<String>,
}

/// A request for one entry's value.
#[derive(Debug, Clone)]
pub struct GetEntryRequest {
    pub name: String,
    pub scope: String,
    pub key: String,
}

/// A request to set or create one entry.
#[derive(Debug, Clone)]
pub struct SetEntryRequest {
    pub name: String,
    pub scope: String,
    pub key: String,
    pub data: String,
    pub match_version: Option<String>,
    pub exclusive_create: Option<bool>,
    /// Kept in the given order, duplicates included: the remote store owns any
    /// deduplication.
    pub user_ids: Option<Vec<u64>>,
    pub attributes: Option<String>,
}

/// A request to increment one entry.
#[derive(Debug, Clone)]
pub struct IncrementEntryRequest {
    pub name: String,
    pub scope: String,
    pub key: String,
    /// The amount as the operator wrote it; no arithmetic happens locally and
    /// the remote store reads the number.
    pub increment_by: String,
    pub user_ids: Option<Vec<u64>>,
    pub attributes: Option<String>,
}

/// A request to delete one entry. Deleting an already-deleted key is not an
/// error: the remote store answers the second delete as it answers the first.
#[derive(Debug, Clone)]
pub struct DeleteEntryRequest {
    pub name: String,
    pub scope: String,
    pub key: String,
}

/// A request to list the versions of one entry.
#[derive(Debug, Clone)]
pub struct ListVersionsRequest {
    pub name: String,
    pub scope: String,
    pub key: String,
    pub start_time: Option<String>,
    pub end_time: Option<String>,
    /// The protocol spelling of the sort order.
    pub sort_order: String,
    pub limit: u64,
    pub cursor: Option<String>,
}

/// A request for the value of one entry version.
#[derive(Debug, Clone)]
pub struct GetVersionRequest {
    pub name: String,
    pub scope: String,
    pub key: String,
    pub version_id: String,
}

/// What `prepare_list_stores` promises of its result.
pub open spec fn list_stores_post(
    prefix: Option<String>,
    limit: Option<u64>,
    cursor: Option<String>,
    r: ListStoresRequest,
) -> bool {
    &&& r.prefix == prefix
    &&& r.limit == spec_limit(limit)
    &&& r.cursor == cursor
}

/// A listing of every datastore; no name or scope takes part.
pub fn prepare_list_stores(
    prefix: Option<String>,
    limit: Option<u64>,
    cursor: Option<String>,
) -> (r: ListStoresRequest)
    ensures
        list_stores_post(prefix, limit, cursor, r),
{
    ListStoresRequest { prefix, limit: limit_or_default(limit), cursor }
}

/// What `prepare_list_entries` promises of its result.
pub open spec fn list_entries_post(
    cfg: Config,
    datastore_name: Option<String>,
    scope: Option<String>,
    all_scopes: bool,
    prefix: Option<String>,
    limit: Option<u64>,
    cursor: Option<String>,
    r: Result<ListEntriesRequest, ConfigError>,
) -> bool {
    let n = spec_resolved(datastore_name, cfg.datastore_name);
    let s = spec_resolved(scope, cfg.datastore_scope);
    match r {
        Ok(req) => {
            &&& n == Some(req.name)
            &&& req.all_scopes == all_scopes
            &&& (all_scopes ==> req.scope is None)
            &&& (!all_scopes ==> s == Some(req.scope->0) && req.scope is Some)
            &&& req.prefix == prefix
            &&& req.limit == spec_limit(limit)
            &&& req.cursor == cursor
        },
        Err(e) => {
            ||| (n is None && e == ConfigError::MissingDatastoreName)
            ||| (n is Some && !all_scopes && s is None && e == ConfigError::MissingDatastoreScope)
        },
    }
}

/// A listing of a datastore's entries. With `all_scopes` the request asks for
/// every scope and its scope field stays unset, whatever default is
/// configured; otherwise the scope resolves by the usual precedence.
pub fn prepare_list_entries(
    config: &Config,
    datastore_name: Option<String>,
    scope: Option<String>,
    all_scopes: bool,
    prefix: Option<String>,
    limit: Option<u64>,
    cursor: Option<String>,
) -> (r: Result<ListEntriesRequest, ConfigError>)
    ensures
        list_entries_post(*config, datastore_name, scope, all_scopes, prefix, limit, cursor, r),
{
    let name = match resolve_string(datastore_name, &config.datastore_name) {
        Some(v) => v,
        None => {
            return Err(ConfigError::MissingDatastoreName);
        },
    };
    let req_scope = if all_scopes {
        None
    } else {
        match resolve_string(scope, &config.datastore_scope) {
            Some(v) => Some(v),
            None => {
                return Err(ConfigError::MissingDatastoreScope);
            },
        }
    };
    Ok(
        ListEntriesRequest {
            name,
            scope: req_scope,
            all_scopes,
            prefix,
            limit: limit_or_default(limit),
            cursor,
        },
    )
}

/// What name and scope an entry-addressed request resolves to, and which error
/// stands when one is missing.
pub open spec fn name_scope_post(
    cfg: Config,
    datastore_name: Option<String>,
    scope: Option<String>,
    r: Result<(String, String), ConfigError>,
) -> bool {
    let n = spec_resolved(datastore_name, cfg.datastore_name);
    let s = spec_resolved(scope, cfg.datastore_scope);
    match r {
        Ok(p) => n == Some(p.0) && s == Some(p.1),
        Err(e) => {
            ||| (n is None && e == ConfigError::MissingDatastoreName)
            ||| (n is Some && s is None && e == ConfigError::MissingDatastoreScope)
        },
    }
}

/// The datastore name and scope an operation runs against: an explicit value
/// wins, the configured default is the fallback, and with neither the
/// operation fails before any request is built.
pub fn resolve_name_scope(
    config: &Config,
    datastore_name: Option<String>,
    scope: Option<String>,
) -> (r: Result<(String, String), ConfigError>)
    ensures
        name_scope_post(*config, datastore_name, scope, r),
{
    let name = match resolve_string(datastore_name, &config.datastore_name) {
        Some(v) => v,
        None => {
            return Err(ConfigError::MissingDatastoreName);
        },
    };
    match resolve_string(scope, &config.datastore_scope) {
        Some(s) => Ok((name, s)),
        None => Err(ConfigError::MissingDatastoreScope),
    }
}

/// What `prepare_get` promises of its result.
pub open spec fn get_post(
    cfg: Config,
    datastore_name: Option<String>,
    scope: Option<String>,
    key: String,
    r: Result<GetEntryRequest, ConfigError>,
) -> bool {
    match r {
        Ok(req) => name_scope_post(cfg, datastore_name, scope, Ok((req.name, req.scope)))
            && req.key == key,
        Err(e) => name_scope_post(cfg, datastore_name, scope, Err(e)),
    }
}

/// A read of one entry's value.
pub fn prepare_get(
    config: &Config,
    datastore_name: Option<String>,
    scope: Option<String>,
    key: String,
) -> (r: Result<GetEntryRequest, ConfigError>)
    ensures
        get_post(*config, datastore_name, scope, key, r),
{
    let (name, scope) = resolve_name_scope(config, datastore_name, scope)?;
    Ok(GetEntryRequest { name, scope, key })
}

/// What `prepare_set` promises of its result.
pub open spec fn set_post(
    cfg: Config,
    datastore_name: Option<String>,
    scope: Option<String>,
    key: String,
    data: String,
    match_version: Option<String>,
    exclusive_create: Option<bool>,
    user_ids: Option<Vec<u64>>,
    attributes: Option<String>,
    r: Result<SetEntryRequest, ConfigError>,
) -> bool {
    match r {
        Ok(req) => {
            &&& name_scope_post(cfg, datastore_name, scope, Ok((req.name, req.scope)))
            &&& req.key == key
            &&& req.data == data
            &&& req.match_version == match_version
            &&& req.exclusive_create == exclusive_create
            &&& req.user_ids == user_ids
            &&& req.attributes == attributes
        },
        Err(e) => name_scope_post(cfg, datastore_name, scope, Err(e)),
    }
}

/// A write of one entry. The payload, version pin, exclusive-create flag,
/// user-id list and attributes pass through unmodified; a pre-existing key
/// under exclusive create is the remote store's own distinct answer.
pub fn prepare_set(
    config: &Config,
    datastore_name: Option<String>,
    scope: Option<String>,
    key: String,
    data: String,
    match_version: Option<String>,
    exclusive_create: Option<bool>,
    user_ids: Option<Vec<u64>>,
    attributes: Option<String>,
) -> (r: Result<SetEntryRequest, ConfigError>)
    ensures
        set_post(
            *config,
            datastore_name,
            scope,
            key,
            data,
            match_version,
            exclusive_create,
            user_ids,
            attributes,
            r,
        ),
{
    let (name, scope) = resolve_name_scope(config, datastore_name, scope)?;
    Ok(
        SetEntryRequest {
            name,
            scope,
            key,
            data,
            match_version,
            exclusive_create,
            user_ids,
            attributes,
        },
    )
}

/// What `prepare_increment` promises of its result.
pub open spec fn increment_post(
    cfg: Config,
    datastore_name: Option<String>,
    scope: Option<String>,
    key: String,
    increment_by: String,
    user_ids: Option<Vec<u64>>,
    attributes: Option<String>,
    r: Result<IncrementEntryRequest, ConfigError>,
) -> bool {
    match r {
        Ok(req) => {
            &&& name_scope_post(cfg, datastore_name, scope, Ok((req.name, req.scope)))
            &&& req.key == key
            &&& req.increment_by == increment_by
            &&& req.user_ids == user_ids
            &&& req.attributes == attributes
        },
        Err(e) => name_scope_post(cfg, datastore_name, scope, Err(e)),
    }
}

/// An increment of one entry. The amount passes through exactly as written; no
/// arithmetic happens locally, and a non-numeric current value is the remote
/// store's error to report.
pub fn prepare_increment(
    config: &Config,
    datastore_name: Option<String>,
    scope: Option<String>,
    key: String,
    increment_by: String,
    user_ids: Option<Vec<u64>>,
    attributes: Option<String>,
) -> (r: Result<IncrementEntryRequest, ConfigError>)
    ensures
        increment_post(
            *config,
            datastore_name,
            scope,
            key,
            increment_by,
            user_ids,
            attributes,
            r,
        ),
{
    let (name, scope) = resolve_name_scope(config, datastore_name, scope)?;
    Ok(IncrementEntryRequest { name, scope, key, increment_by, user_ids, attributes })
}

/// What `prepare_delete` promises of its result.
pub open spec fn delete_post(
    cfg: Config,
    datastore_name: Option<String>,
    scope: Option<String>,
    key: String,
    r: Result<DeleteEntryRequest, ConfigError>,
) -> bool {
    match r {
        Ok(req) => name_scope_post(cfg, datastore_name, scope, Ok((req.name, req.scope)))
            && req.key == key,
        Err(e) => name_scope_post(cfg, datastore_name, scope, Err(e)),
    }
}

/// A delete of one entry. Preparation looks at no remote state, so two
/// consecutive deletes of one key prepare the same request, and the remote
/// store treats the second as idempotent success.
pub fn prepare_delete(
    config: &Config,
    datastore_name: Option<String>,
    scope: Option<String>,
    key: String,
) -> (r: Result<DeleteEntryRequest, ConfigError>)
    ensures
        delete_post(*config, datastore_name, scope, key, r),
{
    let (name, scope) = resolve_name_scope(config, datastore_name, scope)?;
    Ok(DeleteEntryRequest { name, scope, key })
}

/// What `prepare_list_versions` promises of its result.
pub open spec fn list_versions_post(
    cfg: Config,
    datastore_name: Option<String>,
    scope: Option<String>,
    key: String,
    start_time: Option<String>,
    end_time: Option<String>,
    sort_order: Option<ListEntrySortOrder>,
    limit: Option<u64>,
    cursor: Option<String>,
    r: Result<ListVersionsRequest, ConfigError>,
) -> bool {
    match r {
        Ok(req) => {
            &&& name_scope_post(cfg, datastore_name, scope, Ok((req.name, req.scope)))
            &&& req.key == key
            &&& req.start_time == start_time
            &&& req.end_time == end_time
            &&& req.sort_order@ == spec_sort_order(
                match sort_order {
                    Some(o) => o,
                    None => ListEntrySortOrder::Ascending,
                },
            )
            &&& req.limit == spec_limit(limit)
            &&& req.cursor == cursor
        },
        Err(e) => name_scope_post(cfg, datastore_name, scope, Err(e)),
    }
}

/// A listing of one entry's versions; the sort order defaults to ascending.
pub fn prepare_list_versions(
    config: &Config,
    datastore_name: Option<String>,
    scope: Option<String>,
    key: String,
    start_time: Option<String>,
    end_time: Option<String>,
    sort_order: Option<ListEntrySortOrder>,
    limit: Option<u64>,
    cursor: Option<String>,
) -> (r: Result<ListVersionsRequest, ConfigError>)
    ensures
        list_versions_post(
            *config,
            datastore_name,
            scope,
            key,
            start_time,
            end_time,
            sort_order,
            limit,
            cursor,
            r,
        ),
{
    let (name, scope) = resolve_name_scope(config, datastore_name, scope)?;
    let order = match sort_order {
        Some(o) => o,
        None => ListEntrySortOrder::Ascending,
    };
    Ok(
        ListVersionsRequest {
            name,
            scope,
            key,
            start_time,
            end_time,
            sort_order: order.as_str().to_owned(),
            limit: limit_or_default(limit),
            cursor,
        },
    )
}

/// What `prepare_get_version` promises of its result.
pub open spec fn get_version_post(
    cfg: Config,
    datastore_name: Option<String>,
    scope: Option<String>,
    key: String,
    version_id: String,
    r: Result<GetVersionRequest, ConfigError>,
) -> bool {
    match r {
        Ok(req) => name_scope_post(cfg, datastore_name, scope, Ok((req.name, req.scope)))
            && req.key == key && req.version_id == version_id,
        Err(e) => name_scope_post(cfg, datastore_name, scope, Err(e)),
    }
}

/// One datastore operation with its typed arguments, as the command line
/// hands them over.
#[derive(Debug, Clone)]
pub enum DataStoreCommands {
    /// List every datastore of the branch's universe.
    ListStores {
        branch_name: Option<String>,
        prefix: Option<String>,
        limit: Option<u64>,
        cursor: Option<String>,
        api_key: Option<String>,
    },
    /// List the entries of one datastore.
    List {
        branch_name: Option<String>,
        datastore_name: Option<String>,
        scope: Option<String>,
        all_scopes: bool,
        prefix: Option<String>,
        limit: Option<u64>,
        cursor: Option<String>,
        api_key: Option<String>,
    },
    /// Read one entry's value.
    Get {
        branch_name: Option<String>,
        datastore_name: Option<String>,
        scope: Option<String>,
        key: String,
        api_key: Option<String>,
    },
    /// Set or create one entry's value.
    SetEntry {
        branch_name: Option<String>,
        datastore_name: Option<String>,
        scope: Option<String>,
        key: String,
        match_version: Option<String>,
        exclusive_create: Option<bool>,
        data: String,
        user_ids: Option<Vec<u64>>,
        attributes: Option<String>,
        api_key: Option<String>,
    },
    /// Increment or create one entry's value.
    Increment {
        branch_name: Option<String>,
        datastore_name: Option<String>,
        scope: Option<String>,
        key: String,
        increment_by: String,
        user_ids: Option<Vec<u64>>,
        attributes: Option<String>,
        api_key: Option<String>,
    },
    /// Delete one entry.
    Delete {
        branch_name: Option<String>,
        datastore_name: Option<String>,
        scope: Option<String>,
        key: String,
        api_key: Option<String>,
    },
    /// List the versions of one entry.
    ListVersions {
        branch_name: Option<String>,
        datastore_name: Option<String>,
        scope: Option<String>,
        key: String,
        start_time: Option<String>,
        end_time: Option<String>,
        sort_order: Option<ListEntrySortOrder>,
        limit: Option<u64>,
        cursor: Option<String>,
        api_key: Option<String>,
    },
    /// Read the value of one entry version.
    GetVersion {
        branch_name: Option<String>,
        datastore_name: Option<String>,
        scope: Option<String>,
        key: String,
        version_id: String,
        api_key: Option<String>,
    },
}

/// The branch a command names, before defaulting.
pub open spec fn spec_branch_name(cmd: DataStoreCommands) -> Option<String> {
    match cmd {
        DataStoreCommands::ListStores { branch_name, .. } => branch_name,
        DataStoreCommands::List { branch_name, .. } => branch_name,
        DataStoreCommands::Get { branch_name, .. } => branch_name,
        DataStoreCommands::SetEntry { branch_name, .. } => branch_name,
        DataStoreCommands::Increment { branch_name, .. } => branch_name,
        DataStoreCommands::Delete { branch_name, .. } => branch_name,
        DataStoreCommands::ListVersions { branch_name, .. } => branch_name,
        DataStoreCommands::GetVersion { branch_name, .. } => branch_name,
    }
}

/// The explicit credential a command carries, before the environment fallback.
pub open spec fn spec_api_key(cmd: DataStoreCommands) -> Option<String> {
    match cmd {
        DataStoreCommands::ListStores { api_key, .. } => api_key,
        DataStoreCommands::List { api_key, .. } => api_key,
        DataStoreCommands::Get { api_key, .. } => api_key,
        DataStoreCommands::SetEntry { api_key, .. } => api_key,
        DataStoreCommands::Increment { api_key, .. } => api_key,
        DataStoreCommands::Delete { api_key, .. } => api_key,
        DataStoreCommands::ListVersions { api_key, .. } => api_key,
        DataStoreCommands::GetVersion { api_key, .. } => api_key,
    }
}

impl DataStoreCommands {
    /// The branch this command names, to scope the configuration load by.
    pub fn branch_name(&self) -> (r: &Option<String>)
        ensures
            *r == spec_branch_name(*self),
    {
        match self {
            DataStoreCommands::ListStores { branch_name, .. } => branch_name,
            DataStoreCommands::List { branch_name, .. } => branch_name,
            DataStoreCommands::Get { branch_name, .. } => branch_name,
            DataStoreCommands::SetEntry { branch_name, .. } => branch_name,
            DataStoreCommands::Increment { branch_name, .. } => branch_name,
            DataStoreCommands::Delete { branch_name, .. } => branch_name,
            DataStoreCommands::ListVersions { branch_name, .. } => branch_name,
            DataStoreCommands::GetVersion { branch_name, .. } => branch_name,
        }
    }
}

/// A fully prepared request, one variant per operation.
#[derive(Debug, Clone)]
pub enum PreparedRequest {
    ListStores(ListStoresRequest),
    ListEntries(ListEntriesRequest),
    GetEntry(GetEntryRequest),
    SetEntry(SetEntryRequest),
    IncrementEntry(IncrementEntryRequest),
    DeleteEntry(DeleteEntryRequest),
    ListVersions(ListVersionsRequest),
    GetVersion(GetVersionRequest),
}

/// Everything the caller needs to perform one operation: the resolved
/// credential, the universe, and the typed request.
#[derive(Debug, Clone)]
pub struct Dispatch {
    pub auth: String,
    pub universe_id: u64,
    pub request: PreparedRequest,
}

/// Why a command could not be dispatched. Both kinds are found before any
/// request exists, so a failed command costs no network round-trip.
#[derive(Debug)]
pub enum CommandError {
    /// Neither an explicit credential nor the environment variable was set.
    Credential(MissingCredential),
    /// A configuration lookup failed: universe, name or scope.
    Config(ConfigError),
}

impl CommandError {
    /// The failure rendered as text.
    pub fn message(&self) -> (r: String)
        ensures
            r@ == match *self {
                CommandError::Credential(c) => "environment variable \""@ + c.var_name@
                    + "\" is not set"@,
                CommandError::Config(e) => match e {
                    ConfigError::UniverseNotFound { branch } => "No universe id found for branch "@
                        + branch@,
                    ConfigError::PlacesNotFound { branch } => "No places found for branch "@
                        + branch@,
                    ConfigError::MissingDatastoreName => "No datastore name given or configured"@,
                    ConfigError::MissingDatastoreScope => "No datastore scope given or configured"@,
                },
            },
    {
        match self {
            CommandError::Credential(c) => c.message(),
            CommandError::Config(e) => e.message(),
        }
    }
}

/// The credential an operation runs with: the command's own wins over the
/// environment's.
pub open spec fn spec_auth(api_key: Option<String>, env: Option<String>) -> Option<String> {
    match api_key {
        Some(v) => Some(v),
        None => env,
    }
}

/// What resolving the credential and the universe promises: the credential is
/// staged first, the universe second, and each failure is typed.
pub open spec fn auth_universe_post(
    api_key: Option<String>,
    env: Option<String>,
    cfg: Config,
    r: Result<(String, u64), CommandError>,
) -> bool {
    let auth = spec_auth(api_key, env);
    let uni = spec_lookup(cfg.universes@, cfg.branch@);
    match r {
        Ok(p) => auth == Some(p.0) && uni == Some(p.1),
        Err(e) => match e {
            CommandError::Credential(c) => auth is None && c.var_name@ == API_KEY_VAR@,
            CommandError::Config(ce) => auth is Some && uni is None && ce == (
            ConfigError::UniverseNotFound { branch: cfg.branch }),
        },
    }
}

pub(crate) fn auth_and_universe(
    api_key: Option<String>,
    env_api_key: Option<String>,
    config: &Config,
) -> (r: Result<(String, u64), CommandError>)
    ensures
        auth_universe_post(api_key, env_api_key, *config, r),
{
    let auth = match getenv(api_key, env_api_key, API_KEY_VAR) {
        Ok(v) => v,
        Err(c) => {
            return Err(CommandError::Credential(c));
        },
    };
    match config.get_universe_id() {
        Ok(u) => Ok((auth, u)),
        Err(e) => Err(CommandError::Config(e)),
    }
}

/// What the prepared request must look like for a given command.
pub open spec fn request_post(cmd: DataStoreCommands, cfg: Config, req: PreparedRequest) -> bool {
    match cmd {
        DataStoreCommands::ListStores { prefix, limit, cursor, .. } => req is ListStores
            && list_stores_post(prefix, limit, cursor, req->ListStores_0),
        DataStoreCommands::List {
            datastore_name,
            scope,
            all_scopes,
            prefix,
            limit,
            cursor,
            ..
        } => req is ListEntries && list_entries_post(
            cfg,
            datastore_name,
            scope,
            all_scopes,
            prefix,
            limit,
            cursor,
            Ok(req->ListEntries_0),
        ),
        DataStoreCommands::Get { datastore_name, scope, key, .. } => req is GetEntry && get_post(
            cfg,
            datastore_name,
            scope,
            key,
            Ok(req->GetEntry_0),
        ),
        DataStoreCommands::SetEntry {
            datastore_name,
            scope,
            key,
            match_version,
            exclusive_create,
            data,
            user_ids,
            attributes,
            ..
        } => req is SetEntry && set_post(
            cfg,
            datastore_name,
            scope,
            key,
            data,
            match_version,
            exclusive_create,
            user_ids,
            attributes,
            Ok(req->SetEntry_0),
        ),
        DataStoreCommands::Increment {
            datastore_name,
            scope,
            key,
            increment_by,
            user_ids,
            attributes,
            ..
        } => req is IncrementEntry && increment_post(
            cfg,
            datastore_name,
            scope,
            key,
            increment_by,
            user_ids,
            attributes,
            Ok(req->IncrementEntry_0),
        ),
        DataStoreCommands::Delete { datastore_name, scope, key, .. } => req is DeleteEntry
            && delete_post(cfg, datastore_name, scope, key, Ok(req->DeleteEntry_0)),
        DataStoreCommands::ListVersions {
            datastore_name,
            scope,
            key,
            start_time,
            end_time,
            sort_order,
            limit,
            cursor,
            ..
        } => req is ListVersions && list_versions_post(
            cfg,
            datastore_name,
            scope,
            key,
            start_time,
            end_time,
            sort_order,
            limit,
            cursor,
            Ok(req->ListVersions_0),
        ),
        DataStoreCommands::GetVersion { datastore_name, scope, key, version_id, .. } => req
            is GetVersion && get_version_post(
            cfg,
            datastore_name,
            scope,
            key,
            version_id,
            Ok(req->GetVersion_0),
        ),
    }
}

/// Which name-or-scope error a command fails with, when one does.
pub open spec fn request_err(cmd: DataStoreCommands, cfg: Config, e: ConfigError) -> bool {
    match cmd {
        DataStoreCommands::ListStores { .. } => false,
        DataStoreCommands::List { datastore_name, scope, all_scopes, prefix, limit, cursor, .. } => {
            list_entries_post(cfg, datastore_name, scope, all_scopes, prefix, limit, cursor, Err(e))
        },
        DataStoreCommands::Get { datastore_name, scope, key, .. } => get_post(
            cfg,
            datastore_name,
            scope,
            key,
            Err(e),
        ),
        DataStoreCommands::SetEntry {
            datastore_name,
            scope,
            key,
            match_version,
            exclusive_create,
            data,
            user_ids,
            attributes,
            ..
        } => set_post(
            cfg,
            datastore_name,
            scope,
            key,
            data,
            match_version,
            exclusive_create,
            user_ids,
            attributes,
            Err(e),
        ),
        DataStoreCommands::Increment {
            datastore_name,
            scope,
            key,
            increment_by,
            user_ids,
            attributes,
            ..
        } => increment_post(cfg, datastore_name, scope, key, increment_by, user_ids, attributes, Err(e)),
        DataStoreCommands::Delete { datastore_name, scope, key, .. } => delete_post(
            cfg,
            datastore_name,
            scope,
            key,
            Err(e),
        ),
        DataStoreCommands::ListVersions {
            datastore_name,
            scope,
            key,
            start_time,
            end_time,
            sort_order,
            limit,
            cursor,
            ..
        } => list_versions_post(
            cfg,
            datastore_name,
            scope,
            key,
            start_time,
            end_time,
            sort_order,
            limit,
            cursor,
            Err(e),
        ),
        DataStoreCommands::GetVersion { datastore_name, scope, key, version_id, .. } => {
            get_version_post(cfg, datastore_name, scope, key, version_id, Err(e))
        },
    }
}

/// The whole dispatcher contract: credential first, universe second, then the
/// operation's own resolution; each stage's failure is typed and no request
/// exists unless every stage passed.
pub open spec fn dispatch_post(
    cmd: DataStoreCommands,
    cfg: Config,
    env: Option<String>,
    r: Result<Dispatch, CommandError>,
) -> bool {
    let auth = spec_auth(spec_api_key(cmd), env);
    let uni = spec_lookup(cfg.universes@, cfg.branch@);
    match r {
        Ok(d) => {
            &&& auth == Some(d.auth)
            &&& uni == Some(d.universe_id)
            &&& request_post(cmd, cfg, d.request)
        },
        Err(e) => match e {
            CommandError::Credential(c) => auth is None && c.var_name@ == API_KEY_VAR@,
            CommandError::Config(ce) => auth is Some && if uni is None {
                ce == (ConfigError::UniverseNotFound { branch: cfg.branch })
            } else {
                request_err(cmd, cfg, ce)
            },
        },
    }
}

impl DataStoreCommands {
    /// Resolve everything one operation needs and build its request, without
    /// performing it. The credential is resolved first, the universe second,
    /// the name and scope last, so a misconfigured command fails before any
    /// network call would be made.
    pub fn prepare(self, config: &Config, env_api_key: Option<String>) -> (r: Result<
        Dispatch,
        CommandError,
    >)
        ensures
            dispatch_post(self, *config, env_api_key, r),
    {
        match self {
            DataStoreCommands::ListStores { branch_name: _, prefix, limit, cursor, api_key } => {
                let (auth, universe_id) = match auth_and_universe(api_key, env_api_key, config) {
                    Ok(p) => p,
                    Err(e) => {
                        return Err(e);
                    },
                };
                let req = prepare_list_stores(prefix, limit, cursor);
                Ok(Dispatch { auth, universe_id, request: PreparedRequest::ListStores(req) })
            },
            DataStoreCommands::List {
                branch_name: _,
                datastore_name,
                scope,
                all_scopes,
                prefix,
                limit,
                cursor,
                api_key,
            } => {
                let (auth, universe_id) = match auth_and_universe(api_key, env_api_key, config) {
                    Ok(p) => p,
                    Err(e) => {
                        return Err(e);
                    },
                };
                match prepare_list_entries(
                    config,
                    datastore_name,
                    scope,
                    all_scopes,
                    prefix,
                    limit,
                    cursor,
                ) {
                    Ok(req) => Ok(
                        Dispatch { auth, universe_id, request: PreparedRequest::ListEntries(req) },
                    ),
                    Err(e) => Err(CommandError::Config(e)),
                }
            },
            DataStoreCommands::Get { branch_name: _, datastore_name, scope, key, api_key } => {
                let (auth, universe_id) = match auth_and_universe(api_key, env_api_key, config) {
                    Ok(p) => p,
                    Err(e) => {
                        return Err(e);
                    },
                };
                match prepare_get(config, datastore_name, scope, key) {
                    Ok(req) => Ok(
                        Dispatch { auth, universe_id, request: PreparedRequest::GetEntry(req) },
                    ),
                    Err(e) => Err(CommandError::Config(e)),
                }
            },
            DataStoreCommands::SetEntry {
                branch_name: _,
                datastore_name,
                scope,
                key,
                match_version,
                exclusive_create,
                data,
                user_ids,
                attributes,
                api_key,
            } => {
                let (auth, universe_id) = match auth_and_universe(api_key, env_api_key, config) {
                    Ok(p) => p,
                    Err(e) => {
                        return Err(e);
                    },
                };
                match prepare_set(
                    config,
                    datastore_name,
                    scope,
                    key,
                    data,
                    match_version,
                    exclusive_create,
                    user_ids,
                    attributes,
                ) {
                    Ok(req) => Ok(
                        Dispatch { auth, universe_id, request: PreparedRequest::SetEntry(req) },
                    ),
                    Err(e) => Err(CommandError::Config(e)),
                }
            },
            DataStoreCommands::Increment {
                branch_name: _,
                datastore_name,
                scope,
                key,
                increment_by,
                user_ids,
                attributes,
                api_key,
            } => {
                let (auth, universe_id) = match auth_and_universe(api_key, env_api_key, config) {
                    Ok(p) => p,
                    Err(e) => {
                        return Err(e);
                    },
                };
                match prepare_increment(
                    config,
                    datastore_name,
                    scope,
                    key,
                    increment_by,
                    user_ids,
                    attributes,
                ) {
                    Ok(req) => Ok(
                        Dispatch {
                            auth,
                            universe_id,
                            request: PreparedRequest::IncrementEntry(req),
                        },
                    ),
                    Err(e) => Err(CommandError::Config(e)),
                }
            },
            DataStoreCommands::Delete { branch_name: _, datastore_name, scope, key, api_key } => {
                let (auth, universe_id) = match auth_and_universe(api_key, env_api_key, config) {
                    Ok(p) => p,
                    Err(e) => {
                        return Err(e);
                    },
                };
                match prepare_delete(config, datastore_name, scope, key) {
                    Ok(req) => Ok(
                        Dispatch { auth, universe_id, request: PreparedRequest::DeleteEntry(req) },
                    ),
                    Err(e) => Err(CommandError::Config(e)),
                }
            },
            DataStoreCommands::ListVersions {
                branch_name: _,
                datastore_name,
                scope,
                key,
                start_time,
                end_time,
                sort_order,
                limit,
                cursor,
                api_key,
            } => {
                let (auth, universe_id) = match auth_and_universe(api_key, env_api_key, config) {
                    Ok(p) => p,
                    Err(e) => {
                        return Err(e);
                    },
                };
                match prepare_list_versions(
                    config,
                    datastore_name,
                    scope,
                    key,
                    start_time,
                    end_time,
                    sort_order,
                    limit,
                    cursor,
                ) {
                    Ok(req) => Ok(
                        Dispatch { auth, universe_id, request: PreparedRequest::ListVersions(req) },
                    ),
                    Err(e) => Err(CommandError::Config(e)),
                }
            },
            DataStoreCommands::GetVersion {
                branch_name: _,
                datastore_name,
                scope,
                key,
                version_id,
                api_key,
            } => {
                let (auth, universe_id) = match auth_and_universe(api_key, env_api_key, config) {
                    Ok(p) => p,
                    Err(e) => {
                        return Err(e);
                    },
                };
                match prepare_get_version(config, datastore_name, scope, key, version_id) {
                    Ok(req) => Ok(
                        Dispatch { auth, universe_id, request: PreparedRequest::GetVersion(req) },
                    ),
                    Err(e) => Err(CommandError::Config(e)),
                }
            },
        }
    }
}

/// The datastore command group: one subcommand with its arguments.
#[derive(Debug, Clone)]
pub struct DataStore {
    pub command: DataStoreCommands,
}

impl DataStore {
    /// See `DataStoreCommands::prepare`; the group dispatches to its one
    /// subcommand.
    pub fn prepare(self, config: &Config, env_api_key: Option<String>) -> (r: Result<
        Dispatch,
        CommandError,
    >)
        ensures
            dispatch_post(self.command, *config, env_api_key, r),
    {
        self.command.prepare(config, env_api_key)
    }
}

/// A read of one entry version's value.
pub fn prepare_get_version(
    config: &Config,
    datastore_name: Option<String>,
    scope: Option<String>,
    key: String,
    version_id: String,
) -> (r: Result<GetVersionRequest, ConfigError>)
    ensures
        get_version_post(*config, datastore_name, scope, key, version_id, r),
{
    let (name, scope) = resolve_name_scope(config, datastore_name, scope)?;
    Ok(GetVersionRequest { name, scope, key, version_id })
}

} // verus!
