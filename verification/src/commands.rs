//! The auxiliary commands' decision logic: which branch to deploy, which
//! places in what order, which file to open or import, which project a file
//! refreshes. The processes and network calls those decisions drive stay with
//! the caller.

use vstd::prelude::*;

use crate::config::Config;
use crate::config::ConfigError;
use crate::config::spec_lookup;
use crate::datastore::API_KEY_VAR;
use crate::datastore::CommandError;
use crate::datastore::auth_and_universe;
use crate::datastore::spec_auth;
use crate::text::Hue;
use crate::text::paint;
use crate::text::spec_paint;

verus! {

/// What to build: a project and the output it lands in.
#[derive(Debug, Clone)]
pub struct BuildParams {
    pub project_name: Option<String>,
    pub output_name: Option<String>,
}

/// Which place file to open.
#[derive(Debug, Clone)]
pub struct OpenPlaceParams {
    pub file_path: Option<String>,
}

/// The credential an image sync runs with, before the environment fallback.
#[derive(Debug, Clone)]
pub struct SyncParams {
    pub auth: Option<String>,
}

/// A given name, or the default when none was given.
pub open spec fn spec_or_default(v: Option<String>, d: Seq<char>) -> Seq<char> {
    match v {
        Some(s) => s@,
        None => d,
    }
}

/// The project a build runs on and the file it produces: the named project or
/// the default one, built to the named output or the project's own, under the
/// build directory.
pub fn build_output_path(params: &BuildParams) -> (r: (String, String))
    ensures
        r.0@ == spec_or_default(params.project_name, "default"@),
        r.1@ == "build/"@ + spec_or_default(params.output_name, r.0@) + ".rbxl"@,
{
    let project = match &params.project_name {
        Some(v) => v.clone(),
        None => "default".to_owned(),
    };
    let base = match &params.output_name {
        Some(v) => v.clone(),
        None => project.clone(),
    };
    let mut output = String::new();
    output.append("build/");
    output.append(base.as_str());
    output.append(".rbxl");
    proof {
        assert(output@ =~= "build/"@ + spec_or_default(params.output_name, project@) + ".rbxl"@);
    }
    (project, output)
}

/// The place file an open command reads: the given path, or the default
/// build's output.
pub fn place_file_input(params: &OpenPlaceParams) -> (r: String)
    ensures
        r@ == spec_or_default(params.file_path, "build/default.rbxl"@),
{
    match &params.file_path {
        Some(v) => v.clone(),
        None => "build/default.rbxl".to_owned(),
    }
}

/// The line reported when a place file is opened.
pub fn open_output(file_path: String) -> (r: String)
    ensures
        r@ == spec_paint(Hue::Green, "Running"@) + " `"@ + file_path@ + "`"@,
{
    let mut s = paint(&Hue::Green, "Running");
    s.append(" `");
    s.append(file_path.as_str());
    s.append("`");
    s
}

/// Open a place file in the studio application.
#[derive(Debug, Clone)]
pub struct OpenCommand {
    pub file_path: Option<String>,
}

impl OpenCommand {
    /// The place file this command opens: the given path, or the default
    /// build's output.
    pub fn input_path(&self) -> (r: String)
        ensures
            r@ == spec_or_default(self.file_path, "build/default.rbxl"@),
    {
        match &self.file_path {
            Some(v) => v.clone(),
            None => "build/default.rbxl".to_owned(),
        }
    }
}

/// Build a project and open the result.
#[derive(Debug, Clone)]
pub struct RunCommand {
    pub project_name: Option<String>,
    pub output_name: Option<String>,
}

impl RunCommand {
    /// What this command builds before opening the output.
    pub fn build_params(&self) -> (r: BuildParams)
        ensures
            r.project_name == self.project_name,
            r.output_name == self.output_name,
    {
        BuildParams {
            project_name: match &self.project_name {
                Some(v) => Some(v.clone()),
                None => None,
            },
            output_name: match &self.output_name {
                Some(v) => Some(v.clone()),
                None => None,
            },
        }
    }
}

/// Sync images to the platform's content store.
#[derive(Debug, Clone)]
pub struct SyncCommand {
    pub auth: Option<String>,
}

/// Build every place of a branch and publish the results.
#[derive(Debug, Clone)]
pub struct DeployCommand {
    pub branch_name: Option<String>,
    pub message: Option<String>,
    pub api_key: Option<String>,
}

/// A deploy without an announcement message.
#[derive(Debug, Clone)]
pub struct DeployParams {
    pub branch_name: Option<String>,
    pub api_key: Option<String>,
}

/// One place to build and publish.
#[derive(Debug, Clone)]
pub struct DeployStep {
    pub place_name: String,
    pub place_id: u64,
    /// The build output's name: the place's file under the deploy directory.
    pub output_name: String,
}

/// Everything a deploy performs, in order: the resolved credential and
/// universe, one step per configured place, and the update topic when a
/// message is to be announced.
#[derive(Debug, Clone)]
pub struct DeployPlan {
    pub auth: String,
    pub universe_id: u64,
    pub steps: Vec<DeployStep>,
    pub topic: Option<String>,
}

/// What `DeployCommand::plan` promises: the credential is staged first, the
/// universe second, the place table third; the steps mirror the configured
/// places one for one, in the table's order.
pub open spec fn deploy_plan_post(
    cmd: DeployCommand,
    cfg: Config,
    env: Option<String>,
    r: Result<DeployPlan, CommandError>,
) -> bool {
    let auth = spec_auth(cmd.api_key, env);
    let uni = spec_lookup(cfg.universes@, cfg.branch@);
    let places = spec_lookup(cfg.places@, cfg.branch@);
    match r {
        Ok(p) => {
            &&& auth == Some(p.auth)
            &&& uni == Some(p.universe_id)
            &&& places is Some
            &&& p.steps@.len() == places->0@.len()
            &&& forall|i: int|
                0 <= i < p.steps@.len() ==> {
                    &&& (#[trigger] p.steps@[i]).place_name == places->0@[i].0
                    &&& p.steps@[i].place_id == places->0@[i].1
                    &&& p.steps@[i].output_name@ == "deploy/"@ + places->0@[i].0@
                }
            &&& match cmd.message {
                Some(_) => p.topic is Some && p.topic->0@ == "updates-"@ + cfg.branch@,
                None => p.topic is None,
            }
        },
        Err(e) => match e {
            CommandError::Credential(c) => auth is None && c.var_name@ == API_KEY_VAR@,
            CommandError::Config(ce) => auth is Some && if uni is None {
                ce == (ConfigError::UniverseNotFound { branch: cfg.branch })
            } else {
                places is None && ce == (ConfigError::PlacesNotFound { branch: cfg.branch })
            },
        },
    }
}

impl DeployCommand {
    /// Resolve everything a deploy performs, without performing it: the
    /// credential, the universe, one build-and-publish step per configured
    /// place, and the update topic when a message is to be announced.
    pub fn plan(&self, config: &Config, env_api_key: Option<String>) -> (r: Result<
        DeployPlan,
        CommandError,
    >)
        ensures
            deploy_plan_post(*self, *config, env_api_key, r),
    {
        let key = match &self.api_key {
            Some(v) => Some(v.clone()),
            None => None,
        };
        let (auth, universe_id) = match auth_and_universe(key, env_api_key, config) {
            Ok(p) => p,
            Err(e) => {
                return Err(e);
            },
        };
        let places = match config.get_places() {
            Ok(p) => p,
            Err(e) => {
                return Err(CommandError::Config(e));
            },
        };
        let mut steps: Vec<DeployStep> = Vec::new();
        let mut i: usize = 0;
        while i < places.len()
            invariant
                i <= places@.len(),
                steps@.len() == i,
                forall|j: int|
                    0 <= j < i ==> {
                        &&& (#[trigger] steps@[j]).place_name == places@[j].0
                        &&& steps@[j].place_id == places@[j].1
                        &&& steps@[j].output_name@ == "deploy/"@ + places@[j].0@
                    },
            decreases places@.len() - i,
        {
            let mut output_name = String::new();
            output_name.append("deploy/");
            output_name.append(places[i].0.as_str());
            steps.push(
                DeployStep { place_name: places[i].0.clone(), place_id: places[i].1, output_name },
            );
            i = i + 1;
        }
        let topic = match &self.message {
            Some(_) => {
                let mut t = String::new();
                t.append("updates-");
                t.append(config.branch.as_str());
                Some(t)
            },
            None => None,
        };
        Ok(DeployPlan { auth, universe_id, steps, topic })
    }
}

/// A message published to a topic's subscribers.
#[derive(Debug, Clone)]
pub struct EventParams {
    pub branch_name: Option<String>,
    pub topic: Option<String>,
    pub message: Option<String>,
    pub api_key: Option<String>,
}

/// Everything a message send performs: the resolved credential and universe,
/// and the topic and payload as given.
#[derive(Debug, Clone)]
pub struct MessagePlan {
    pub auth: String,
    pub universe_id: u64,
    pub topic: String,
    pub message: String,
}

/// What planning a message send promises.
pub open spec fn message_plan_post(
    api_key: Option<String>,
    topic: Option<String>,
    message: Option<String>,
    cfg: Config,
    env: Option<String>,
    r: Result<MessagePlan, CommandError>,
) -> bool {
    let auth = spec_auth(api_key, env);
    let uni = spec_lookup(cfg.universes@, cfg.branch@);
    match r {
        Ok(p) => {
            &&& auth == Some(p.auth)
            &&& uni == Some(p.universe_id)
            &&& Some(p.topic) == topic
            &&& Some(p.message) == message
        },
        Err(e) => match e {
            CommandError::Credential(c) => auth is None && c.var_name@ == API_KEY_VAR@,
            CommandError::Config(ce) => auth is Some && uni is None && ce == (
            ConfigError::UniverseNotFound { branch: cfg.branch }),
        },
    }
}

/// Resolve everything a message send performs, without performing it. The
/// caller checks that a topic and a message were given before asking for the
/// plan.
pub fn event_plan(params: &EventParams, config: &Config, env_api_key: Option<String>) -> (r: Result<
    MessagePlan,
    CommandError,
>)
    requires
        params.topic is Some,
        params.message is Some,
    ensures
        message_plan_post(params.api_key, params.topic, params.message, *config, env_api_key, r),
{
    let key = match &params.api_key {
        Some(v) => Some(v.clone()),
        None => None,
    };
    let (auth, universe_id) = match auth_and_universe(key, env_api_key, config) {
        Ok(p) => p,
        Err(e) => {
            return Err(e);
        },
    };
    let topic = match &params.topic {
        Some(v) => v.clone(),
        None => unreached(),
    };
    let message = match &params.message {
        Some(v) => v.clone(),
        None => unreached(),
    };
    Ok(MessagePlan { auth, universe_id, topic, message })
}

/// Send a message to a topic's subscribers.
#[derive(Debug, Clone)]
pub struct SendCommand {
    pub branch_name: Option<String>,
    pub topic: Option<String>,
    pub message: Option<String>,
    pub api_key: Option<String>,
}

impl SendCommand {
    /// Resolve everything this send performs, without performing it. The
    /// caller checks that a topic and a message were given first.
    pub fn prepare(&self, config: &Config, env_api_key: Option<String>) -> (r: Result<
        MessagePlan,
        CommandError,
    >)
        requires
            self.topic is Some,
            self.message is Some,
        ensures
            message_plan_post(
                self.api_key,
                self.topic,
                self.message,
                *config,
                env_api_key,
                r,
            ),
    {
        let params = EventParams {
            branch_name: match &self.branch_name {
                Some(v) => Some(v.clone()),
                None => None,
            },
            topic: match &self.topic {
                Some(v) => Some(v.clone()),
                None => None,
            },
            message: match &self.message {
                Some(v) => Some(v.clone()),
                None => None,
            },
            api_key: match &self.api_key {
                Some(v) => Some(v.clone()),
                None => None,
            },
        };
        event_plan(&params, config, env_api_key)
    }
}

/// What an import command works on.
#[derive(Debug, Clone)]
pub enum ImportPlan {
    /// One map read from a local place file.
    LocalMap { file_path: String, map_name: String },
    /// One map by name.
    NamedMap { map_name: String },
    /// The bulk sets: assets, maps, or both.
    Bulk { assets: bool, maps: bool },
    /// No option was given; there is nothing to import.
    Nothing,
}

/// Import assets and maps.
#[derive(Debug, Clone)]
pub struct ImportCommand {
    pub game_assets: bool,
    pub game_maps: bool,
    pub file_path: Option<String>,
    pub map_name: Option<String>,
    pub auth: Option<String>,
}

impl ImportCommand {
    /// What this command imports: a named map wins (from a local file when one
    /// is given), then the bulk sets, and with no option given, nothing.
    pub fn plan(&self) -> (r: ImportPlan)
        ensures
            match self.map_name {
                Some(m) => match self.file_path {
                    Some(f) => r == (ImportPlan::LocalMap { file_path: f, map_name: m }),
                    None => r == (ImportPlan::NamedMap { map_name: m }),
                },
                None => if self.game_assets || self.game_maps {
                    r == (ImportPlan::Bulk { assets: self.game_assets, maps: self.game_maps })
                } else {
                    r == ImportPlan::Nothing
                },
            },
    {
        match &self.map_name {
            Some(m) => match &self.file_path {
                Some(f) => ImportPlan::LocalMap { file_path: f.clone(), map_name: m.clone() },
                None => ImportPlan::NamedMap { map_name: m.clone() },
            },
            None => {
                if self.game_assets || self.game_maps {
                    ImportPlan::Bulk { assets: self.game_assets, maps: self.game_maps }
                } else {
                    ImportPlan::Nothing
                }
            },
        }
    }
}

/// Refresh project files through the scripted asset tool.
#[derive(Debug, Clone)]
pub struct RefreshCommand {
    pub all_projects: bool,
    pub project_name: Option<String>,
    pub auth: Option<String>,
}

/// A path separator as a project file path uses one.
pub open spec fn is_sep(c: char) -> bool {
    c == '/' || c == '\\'
}

/// The index of the last path separator.
pub open spec fn spec_last_sep(s: Seq<char>) -> Option<int>
    decreases s.len(),
{
    if s.len() == 0 {
        None
    } else if is_sep(s.last()) {
        Some(s.len() - 1)
    } else {
        spec_last_sep(s.drop_last())
    }
}

/// The project name a project file path carries: the non-empty,
/// separator-free segment between the last path separator and the
/// ".project.json" suffix, with at least one character before the separator.
pub open spec fn spec_project_name(s: Seq<char>) -> Option<Seq<char>> {
    let suffix = ".project.json"@;
    if s.len() >= suffix.len() && s.skip(s.len() - suffix.len()) == suffix {
        let body = s.take(s.len() - suffix.len());
        match spec_last_sep(body) {
            Some(p) => if p >= 1 && p + 1 < body.len() {
                Some(body.skip(p + 1))
            } else {
                None
            },
            None => None,
        }
    } else {
        None
    }
}

proof fn lemma_last_sep_at(s: Seq<char>, p: int)
    requires
        0 <= p < s.len(),
        is_sep(s[p]),
        forall|j: int| p < j < s.len() ==> !is_sep(s[j]),
    ensures
        spec_last_sep(s) == Some(p),
    decreases s.len(),
{
    if p < s.len() - 1 {
        assert(!is_sep(s.last()));
        lemma_last_sep_at(s.drop_last(), p);
    }
}

proof fn lemma_no_sep(s: Seq<char>)
    requires
        forall|j: int| 0 <= j < s.len() ==> !is_sep(s[j]),
    ensures
        spec_last_sep(s) is None,
    decreases s.len(),
{
    if s.len() > 0 {
        lemma_no_sep(s.drop_last());
    }
}

/// The project name of a project file path, exactly as `spec_project_name`
/// reads it: nothing when the path lacks the suffix, a separator, a character
/// before the separator, or a name between the two.
pub fn filter_project_file(filename: &str) -> (r: Option<String>)
    ensures
        match r {
            Some(name) => spec_project_name(filename@) == Some(name@),
            None => spec_project_name(filename@) is None,
        },
{
    proof {
        reveal_strlit(".project.json");
    }
    let suffix = ".project.json";
    let n = filename.unicode_len();
    if n < 13 {
        return None;
    }
    // Compare the tail against the suffix, character by character.
    let mut k: usize = 0;
    while k < 13
        invariant
            n == filename@.len(),
            13 <= n,
            k <= 13,
            suffix@ == ".project.json"@,
            suffix@.len() == 13,
            forall|j: int| 0 <= j < k ==> filename@[n - 13 + j] == suffix@[j],
        decreases 13 - k,
    {
        if filename.get_char(n - 13 + k) != suffix.get_char(k) {
            proof {
                reveal_strlit(".project.json");
                let tail = filename@.skip(n as int - 13);
                assert(tail[k as int] == filename@[n - 13 + k as int]);
                assert(tail[k as int] != ".project.json"@[k as int]);
            }
            return None;
        }
        k = k + 1;
    }
    proof {
        assert(filename@.skip(n as int - 13) =~= ".project.json"@);
    }
    let body_len = n - 13;
    let ghost body = filename@.take(body_len as int);
    // Scan backwards for the last separator of the body.
    let mut q: usize = body_len;
    let mut found = false;
    while !found && q > 0
        invariant
            n == filename@.len(),
            body_len == n - 13,
            q <= body_len,
            body == filename@.take(body_len as int),
            forall|j: int| q <= j < body_len ==> !is_sep(filename@[j]),
            found ==> q >= 1 && is_sep(filename@[q as int - 1]),
        decreases q, (if found { 0int } else { 1int }),
    {
        let c = filename.get_char(q - 1);
        if c == '/' || c == '\\' {
            found = true;
        } else {
            q = q - 1;
        }
    }
    if !found {
        proof {
            lemma_no_sep(body);
        }
        return None;
    }
    let p = q - 1;
    proof {
        lemma_last_sep_at(body, p as int);
    }
    if p == 0 {
        return None;
    }
    if q == body_len {
        return None;
    }
    let name = filename.substring_char(q, body_len).to_owned();
    proof {
        assert(name@ =~= body.skip(p as int + 1));
    }
    Some(name)
}

/// The project a file refreshes under a bulk refresh: its project name, unless
/// it is the default project, which the bulk refresh skips.
pub fn refresh_candidate(filename: &str) -> (r: Option<String>)
    ensures
        match r {
            Some(name) => spec_project_name(filename@) == Some(name@) && name@ != "default"@,
            None => spec_project_name(filename@) is None || spec_project_name(filename@) == Some(
                "default"@,
            ),
        },
{
    match filter_project_file(filename) {
        Some(name) => {
            let default_name: String = "default".to_owned();
            if name == default_name {
                None
            } else {
                Some(name)
            }
        },
        None => None,
    }
}

} // verus!
