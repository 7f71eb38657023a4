//! Credential resolution: an explicit value wins over the environment.

use vstd::prelude::*;

verus! {

/// A credential that could not be resolved: neither an explicit value nor the
/// named environment variable carried one.
#[derive(Debug)]
pub struct MissingCredential {
    pub var_name: String,
}

impl MissingCredential {
    /// The failure rendered as text, naming the variable that was not set.
    pub fn message(&self) -> (r: String)
        ensures
            r@ == "environment variable \""@ + self.var_name@ + "\" is not set"@,
    {
        let mut s = String::new();
        s.append("environment variable \"");
        s.append(self.var_name.as_str());
        s.append("\" is not set");
        s
    }
}

/// Resolve a credential. An explicit value wins; otherwise the value read from
/// the environment variable named `var_name` is taken; with neither present the
/// resolution fails, naming the variable. The caller reads the variable and
/// passes its value in, so no lookup of ambient state happens here.
pub fn getenv(explicit: Option<String>, env_value: Option<String>, var_name: &str) -> (r: Result<
    String,
    MissingCredential,
>)
    ensures
        explicit is Some ==> r == Ok::<String, MissingCredential>(explicit->0),
        explicit is None && env_value is Some ==> r == Ok::<String, MissingCredential>(
            env_value->0,
        ),
        explicit is None && env_value is None ==> r is Err && r->Err_0.var_name@ == var_name@,
{
    match explicit {
        Some(v) => Ok(v),
        None => match env_value {
            Some(v) => Ok(v),
            None => Err(MissingCredential { var_name: var_name.to_owned() }),
        },
    }
}

} // verus!
