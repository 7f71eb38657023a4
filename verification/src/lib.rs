//! Branch-scoped configuration, credential resolution, and the paginated
//! DataStore command layer of a game-platform deployment tool.
//!
//! The library holds the decision logic of the tool: mapping a branch name to
//! a universe id and its deployable places, resolving datastore names and
//! scopes by precedence, constructing one typed request per datastore
//! operation, driving the cursor paginator's state machine, and rendering each
//! response shape as text. File, terminal and network work stays with the
//! caller, which hands the library plain values and performs the requests the
//! library prepares.

mod commands;
mod config;
mod credentials;
mod datastore;
mod format;
mod paginator;
mod rbx;
mod text;

pub use commands::BuildParams;
pub use commands::DeployCommand;
pub use commands::DeployParams;
pub use commands::DeployPlan;
pub use commands::DeployStep;
pub use commands::EventParams;
pub use commands::ImportCommand;
pub use commands::ImportPlan;
pub use commands::MessagePlan;
pub use commands::OpenCommand;
pub use commands::OpenPlaceParams;
pub use commands::RefreshCommand;
pub use commands::RunCommand;
pub use commands::SendCommand;
pub use commands::SyncCommand;
pub use commands::SyncParams;
pub use commands::build_output_path;
pub use commands::event_plan;
pub use commands::filter_project_file;
pub use commands::open_output;
pub use commands::place_file_input;
pub use commands::refresh_candidate;
pub use commands::spec_project_name;
pub use config::Config;
pub use config::ConfigError;
pub use config::branch_or_default;
pub use config::spec_lookup;
pub use config::universe_id;
pub use credentials::MissingCredential;
pub use credentials::getenv;
pub use datastore::API_KEY_VAR;
pub use datastore::CommandError;
pub use datastore::DataStore;
pub use datastore::DataStoreCommands;
pub use datastore::Dispatch;
pub use datastore::PreparedRequest;
pub use datastore::DEFAULT_RETURN_LIMIT;
pub use datastore::DeleteEntryRequest;
pub use datastore::GetEntryRequest;
pub use datastore::GetVersionRequest;
pub use datastore::IncrementEntryRequest;
pub use datastore::ListEntriesRequest;
pub use datastore::ListEntrySortOrder;
pub use datastore::ListStoresRequest;
pub use datastore::ListVersionsRequest;
pub use datastore::SetEntryRequest;
pub use datastore::prepare_delete;
pub use datastore::prepare_get;
pub use datastore::prepare_get_version;
pub use datastore::prepare_increment;
pub use datastore::prepare_list_entries;
pub use datastore::prepare_list_stores;
pub use datastore::prepare_list_versions;
pub use datastore::prepare_set;
pub use datastore::resolve_name_scope;
pub use format::EntryInfo;
pub use format::EntryListPage;
pub use format::FormatError;
pub use format::StoreInfo;
pub use format::StoreListPage;
pub use format::VersionInfo;
pub use format::VersionListPage;
pub use format::format_datastore_list_entry;
pub use format::format_datastore_list_entry_version;
pub use format::format_datastore_list_store;
pub use format::format_json;
pub use format::json_canon;
pub use paginator::InputOutcome;
pub use paginator::PagerState;
pub use paginator::Paginator;
pub use paginator::classify_input;
pub use paginator::has_more;
pub use paginator::lemma_pagination_fetch_count;
pub use paginator::spec_run;
pub use rbx::Message;
pub use rbx::Place;
pub use rbx::Remodel;
pub use rbx::Universe;
pub use text::Hue;
pub use text::u64_to_string;
