//! The branch-scoped configuration: universe ids, deployable places, and the
//! default datastore name and scope.
//!
//! The configuration file is read and decoded by the caller, which hands the
//! decoded document here as plain values. Every lookup is by exact branch-name
//! match; a branch with no entry is a typed error, never a silent default.

use vstd::prelude::*;

verus! {

/// A configuration lookup that failed.
#[derive(Debug, Clone, PartialEq, Eq)]
pub enum ConfigError {
    /// The branch has no entry under the universes table.
    UniverseNotFound { branch: String },
    /// The branch has no entry under the places table.
    PlacesNotFound { branch: String },
    /// No datastore name was given and none is configured.
    MissingDatastoreName,
    /// No datastore scope was given and none is configured.
    MissingDatastoreScope,
}

impl ConfigError {
    /// The failure rendered as text.
    pub fn message(&self) -> (r: String)
        ensures
            r@ == match *self {
                ConfigError::UniverseNotFound { branch } => "No universe id found for branch "@
                    + branch@,
                ConfigError::PlacesNotFound { branch } => "No places found for branch "@ + branch@,
                ConfigError::MissingDatastoreName => "No datastore name given or configured"@,
                ConfigError::MissingDatastoreScope => "No datastore scope given or configured"@,
            },
    {
        match self {
            ConfigError::UniverseNotFound { branch } => {
                let mut s = String::new();
                s.append("No universe id found for branch ");
                s.append(branch.as_str());
                s
            },
            ConfigError::PlacesNotFound { branch } => {
                let mut s = String::new();
                s.append("No places found for branch ");
                s.append(branch.as_str());
                s
            },
            ConfigError::MissingDatastoreName => "No datastore name given or configured".to_owned(),
            ConfigError::MissingDatastoreScope => "No datastore scope given or configured".to_owned(),
        }
    }
}

/// The first value keyed by `key`, or `None` when no pair carries it.
pub open spec fn spec_lookup<V>(entries: Seq<(String, V)>, key: Seq<char>) -> Option<V>
    decreases entries.len(),
{
    if entries.len() == 0 {
        None
    } else if entries.first().0@ == key {
        Some(entries.first().1)
    } else {
        spec_lookup(entries.drop_first(), key)
    }
}

proof fn lemma_lookup_step<V>(entries: Seq<(String, V)>, key: Seq<char>, i: int)
    requires
        0 <= i < entries.len(),
        entries[i].0@ != key,
    ensures
        spec_lookup(entries.skip(i), key) == spec_lookup(entries.skip(i + 1), key),
{
    assert(entries.skip(i).drop_first() =~= entries.skip(i + 1));
}

/// The index of the first pair keyed by `key`.
fn lookup_index<V>(entries: &Vec<(String, V)>, key: &String) -> (r: Option<usize>)
    ensures
        match r {
            Some(i) => i < entries@.len() && entries@[i as int].0@ == key@ && spec_lookup(
                entries@,
                key@,
            ) == Some(entries@[i as int].1),
            None => spec_lookup(entries@, key@) is None,
        },
{
    let ghost all = entries@;
    proof {
        assert(all.skip(0) =~= all);
    }
    let mut i: usize = 0;
    while i < entries.len()
        invariant
            i <= all.len(),
            entries@ == all,
            spec_lookup(all.skip(i as int), key@) == spec_lookup(all, key@),
        decreases all.len() - i,
    {
        if entries[i].0 == *key {
            assert(all.skip(i as int).first() == all[i as int]);
            return Some(i);
        }
        proof {
            lemma_lookup_step(all, key@, i as int);
        }
        i = i + 1;
    }
    assert(all.skip(all.len() as int) =~= Seq::<(String, V)>::empty());
    None
}

/// One branch's slice of the configuration document, decoded to plain values.
/// Tables keep the document's key order; a lookup takes the first match.
pub struct Config {
    /// The branch the lookups are scoped to.
    pub branch: String,
    /// The universes table: branch name to universe id.
    pub universes: Vec<(String, u64)>,
    /// The places table: branch name to a table of place name to place id.
    pub places: Vec<(String, Vec<(String, u64)>)>,
    /// The configured default datastore name, when the document carries one.
    pub datastore_name: Option<String>,
    /// The configured default datastore scope, when the document carries one.
    pub datastore_scope: Option<String>,
}

impl Config {
    /// A configuration over already-decoded tables, scoped to `branch`.
    pub fn new(
        branch: String,
        universes: Vec<(String, u64)>,
        places: Vec<(String, Vec<(String, u64)>)>,
        datastore_name: Option<String>,
        datastore_scope: Option<String>,
    ) -> (r: Config)
        ensures
            r.branch == branch,
            r.universes == universes,
            r.places == places,
            r.datastore_name == datastore_name,
            r.datastore_scope == datastore_scope,
    {
        Config { branch, universes, places, datastore_name, datastore_scope }
    }

    /// The universe id configured for this branch: exactly the entry under the
    /// universes table, and an error when the branch has none.
    pub fn get_universe_id(&self) -> (r: Result<u64, ConfigError>)
        ensures
            match r {
                Ok(v) => spec_lookup(self.universes@, self.branch@) == Some(v),
                Err(e) => spec_lookup(self.universes@, self.branch@) is None && e == (
                ConfigError::UniverseNotFound { branch: self.branch }),
            },
    {
        match lookup_index(&self.universes, &self.branch) {
            Some(i) => Ok(self.universes[i].1),
            None => Err(ConfigError::UniverseNotFound { branch: self.branch.clone() }),
        }
    }

    /// The place table configured for this branch, and an error when the
    /// branch has none.
    pub fn get_places(&self) -> (r: Result<&Vec<(String, u64)>, ConfigError>)
        ensures
            match r {
                Ok(v) => spec_lookup(self.places@, self.branch@) == Some(*v),
                Err(e) => spec_lookup(self.places@, self.branch@) is None && e == (
                ConfigError::PlacesNotFound { branch: self.branch }),
            },
    {
        match lookup_index(&self.places, &self.branch) {
            Some(i) => Ok(&self.places[i].1),
            None => Err(ConfigError::PlacesNotFound { branch: self.branch.clone() }),
        }
    }

    /// The configured default datastore name and scope, either of which the
    /// document may omit.
    pub fn get_datastore(&self) -> (r: (Option<String>, Option<String>))
        ensures
            r.0 == self.datastore_name,
            r.1 == self.datastore_scope,
    {
        let name = match &self.datastore_name {
            Some(v) => Some(v.clone()),
            None => None,
        };
        let scope = match &self.datastore_scope {
            Some(v) => Some(v.clone()),
            None => None,
        };
        (name, scope)
    }
}

/// The universe id a command runs against, resolved from the configuration.
pub fn universe_id(config: &Config) -> (r: Result<u64, ConfigError>)
    ensures
        match r {
            Ok(v) => spec_lookup(config.universes@, config.branch@) == Some(v),
            Err(e) => spec_lookup(config.universes@, config.branch@) is None && e == (
            ConfigError::UniverseNotFound { branch: config.branch }),
        },
{
    config.get_universe_id()
}

/// The branch a command addresses: the given name, or the default branch when
/// none was given.
pub fn branch_or_default(branch_name: Option<String>) -> (r: String)
    ensures
        match branch_name {
            Some(v) => r == v,
            None => r@ == "main"@,
        },
{
    match branch_name {
        Some(v) => v,
        None => "main".to_owned(),
    }
}

} // verus!
