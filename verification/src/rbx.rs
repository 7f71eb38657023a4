//! Handles on the remote platform: messaging, place publishing, and the
//! scripted asset tool. The network and process calls stay with the caller;
//! here live the handles' data and the text they build.

use vstd::prelude::*;

use crate::text::Hue;
use crate::text::paint;
use crate::text::spec_dec;
use crate::text::spec_paint;
use crate::text::u64_to_string;

verus! {

/// A messaging handle: the credential and the universe the topic lives in.
#[derive(Debug, Clone)]
pub struct Message {
    pub api_key: String,
    pub universe_id: u64,
}

impl Message {
    /// A handle for publishing messages to one universe's topics.
    pub fn new(api_key: &str, universe_id: u64) -> (r: Message)
        ensures
            r.api_key@ == api_key@,
            r.universe_id == universe_id,
    {
        Message { api_key: api_key.to_owned(), universe_id }
    }

    /// The line reported after a message was published.
    pub fn publish_report(&self, topic: &str, data: &str) -> (r: String)
        ensures
            r@ == spec_paint(Hue::Green, "Published"@) + " message \""@ + data@
                + "\" with topic: "@ + topic@,
    {
        let mut s = paint(&Hue::Green, "Published");
        s.append(" message \"");
        s.append(data);
        s.append("\" with topic: ");
        s.append(topic);
        s
    }
}

/// A place-publishing handle scoped to one universe.
#[derive(Debug, Clone)]
pub struct Place {
    pub api_key: String,
    pub universe_id: u64,
}

impl Place {
    /// A handle for publishing place files into one universe.
    pub fn new(api_key: &str, universe_id: u64) -> (r: Place)
        ensures
            r.api_key@ == api_key@,
            r.universe_id == universe_id,
    {
        Place { api_key: api_key.to_owned(), universe_id }
    }

    /// The line reported after a place was published.
    pub fn publish_report(&self, place_id: u64, version_number: u64) -> (r: String)
        ensures
            r@ == "Published place ("@ + spec_dec(place_id as nat) + ") with version number: "@
                + spec_dec(version_number as nat),
    {
        let mut s = String::new();
        s.append("Published place (");
        s.append(u64_to_string(place_id).as_str());
        s.append(") with version number: ");
        s.append(u64_to_string(version_number).as_str());
        s
    }
}

/// A universe-publishing handle: publishes the places of one universe.
#[derive(Debug, Clone)]
pub struct Universe {
    pub api_key: String,
    pub universe_id: u64,
}

impl Universe {
    /// A handle for publishing a universe's places.
    pub fn new(api_key: &str, universe_id: u64) -> (r: Universe)
        ensures
            r.api_key@ == api_key@,
            r.universe_id == universe_id,
    {
        Universe { api_key: api_key.to_owned(), universe_id }
    }

    /// The line reported after one of the universe's places was published.
    pub fn publish_report(&self, place_name: &str, place_id: u64, version_number: u64) -> (r:
        String)
        ensures
            r@ == spec_paint(Hue::Green, "Published"@) + " "@ + place_name@ + " ("@ + spec_dec(
                place_id as nat,
            ) + ") with version number: "@ + spec_dec(version_number as nat),
    {
        let mut s = paint(&Hue::Green, "Published");
        s.append(" ");
        s.append(place_name);
        s.append(" (");
        s.append(u64_to_string(place_id).as_str());
        s.append(") with version number: ");
        s.append(u64_to_string(version_number).as_str());
        s
    }
}

/// One argument quoted for a Lua call.
pub open spec fn spec_lua_quoted(a: String) -> Seq<char> {
    "\""@ + a@ + "\""@
}

/// The first `i` arguments rendered, quoted and comma-separated.
pub open spec fn spec_lua_args_to(args: Seq<String>, i: int) -> Seq<char>
    decreases i,
{
    if i <= 0 {
        Seq::<char>::empty()
    } else if i == 1 {
        spec_lua_quoted(args[0])
    } else {
        spec_lua_args_to(args, i - 1) + ", "@ + spec_lua_quoted(args[i - 1])
    }
}

/// An argument list rendered for a Lua call.
pub open spec fn spec_lua_args(args: Seq<String>) -> Seq<char> {
    spec_lua_args_to(args, args.len() as int)
}

/// The script one scripted call runs: the fixed scaffold that loads the
/// library, then the method applied to its quoted arguments.
pub open spec fn spec_remodel_script(method: Seq<char>, args: Seq<String>) -> Seq<char> {
    "local lib = remodel.readModelFile(\"remodel/lib.lua\")\nlib."@ + method + "("@
        + spec_lua_args(args) + ")\n"@
}

/// The scripted asset tool: holds the session credential and builds each
/// call's script; the caller writes the script out and runs the process.
#[derive(Debug, Clone)]
pub struct Remodel {
    pub auth: String,
}

impl Remodel {
    /// A handle carrying the session credential.
    pub fn new(auth: String) -> (r: Remodel)
        ensures
            r.auth == auth,
    {
        Remodel { auth }
    }

    /// The argument list of a scripted call: each argument quoted, the
    /// arguments joined with a comma and a space.
    pub fn lua_args(args: &Vec<String>) -> (r: String)
        ensures
            r@ == spec_lua_args(args@),
    {
        let mut result = String::new();
        let mut i: usize = 0;
        while i < args.len()
            invariant
                i <= args@.len(),
                result@ == spec_lua_args_to(args@, i as int),
            decreases args@.len() - i,
        {
            if i > 0 {
                result.append(", ");
            }
            result.append("\"");
            result.append(args[i].as_str());
            result.append("\"");
            proof {
                assert(result@ =~= spec_lua_args_to(args@, i as int + 1));
            }
            i = i + 1;
        }
        result
    }

    /// The whole script of one call, ready to run.
    pub fn script_source(method: &str, args: &Vec<String>) -> (r: String)
        ensures
            r@ == spec_remodel_script(method@, args@),
    {
        let mut s = String::new();
        s.append("local lib = remodel.readModelFile(\"remodel/lib.lua\")\nlib.");
        s.append(method);
        s.append("(");
        s.append(Remodel::lua_args(args).as_str());
        s.append(")\n");
        s
    }
}

} // verus!
