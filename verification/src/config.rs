//! The settings the handshake needs, resolved from a snapshot of the process
//! environment.

use crate::text::same_text;
use vstd::prelude::*;
use vstd::string::StringExecFns;

verus! {

/// Name of the variable that holds the client identifier.
pub const API_KEY_VAR: &'static str = "SHOPIFY_API_KEY";

/// Name of the variable that holds the client secret.
pub const API_SECRET_VAR: &'static str = "SHOPIFY_API_SECRET";

/// Name of the variable that holds the comma-separated scope list.
pub const SCOPES_VAR: &'static str = "SHOPIFY_SCOPES";

/// Name of the variable that holds this service's own base address.
pub const HOST_VAR: &'static str = "BACKEND_HOST";

/// Name of the variable that holds this service's own port.
pub const PORT_VAR: &'static str = "BACKEND_PORT";

/// The settings of one process. Read-only once made.
#[derive(Debug, PartialEq, Eq)]
pub struct Config {
    pub shopify_api_key: String,
    pub shopify_api_secret: String,
    pub shopify_scopes: String,
    pub backend_host: String,
    pub backend_port: String,
}

/// A `Config` as the contracts see it.
pub struct ConfigView {
    pub shopify_api_key: Seq<char>,
    pub shopify_api_secret: Seq<char>,
    pub shopify_scopes: Seq<char>,
    pub backend_host: Seq<char>,
    pub backend_port: Seq<char>,
}

impl View for Config {
    type V = ConfigView;

    open spec fn view(&self) -> ConfigView {
        ConfigView {
            shopify_api_key: self.shopify_api_key@,
            shopify_api_secret: self.shopify_api_secret@,
            shopify_scopes: self.shopify_scopes@,
            backend_host: self.backend_host@,
            backend_port: self.backend_port@,
        }
    }
}

impl ConfigView {
    /// Every setting is a non-empty string.
    pub open spec fn complete(self) -> bool {
        &&& self.shopify_api_key.len() > 0
        &&& self.shopify_api_secret.len() > 0
        &&& self.shopify_scopes.len() > 0
        &&& self.backend_host.len() > 0
        &&& self.backend_port.len() > 0
    }
}

/// A required variable is absent from the environment, or empty.
#[derive(Debug, PartialEq, Eq)]
pub struct MissingConfig {
    pub variable: String,
}

/// The environment as the contracts see it: pairs of name and value.
pub type Bindings = Seq<(Seq<char>, Seq<char>)>;

/// The value of the first pair of `vars` named `name`.
pub open spec fn lookup(vars: Bindings, name: Seq<char>) -> Option<Seq<char>>
    decreases vars.len(),
{
    if vars.len() == 0 {
        None
    } else if vars[0].0 == name {
        Some(vars[0].1)
    } else {
        lookup(vars.drop_first(), name)
    }
}

/// `name` is bound in `vars` to a non-empty value.
pub open spec fn is_set(vars: Bindings, name: Seq<char>) -> bool {
    lookup(vars, name) matches Some(value) && value.len() > 0
}

/// The first required variable, in the order of the fields of `Config`, that
/// `vars` does not set.
pub open spec fn first_missing(vars: Bindings) -> Option<Seq<char>> {
    if !is_set(vars, API_KEY_VAR@) {
        Some(API_KEY_VAR@)
    } else if !is_set(vars, API_SECRET_VAR@) {
        Some(API_SECRET_VAR@)
    } else if !is_set(vars, SCOPES_VAR@) {
        Some(SCOPES_VAR@)
    } else if !is_set(vars, HOST_VAR@) {
        Some(HOST_VAR@)
    } else if !is_set(vars, PORT_VAR@) {
        Some(PORT_VAR@)
    } else {
        None
    }
}

/// The settings that `vars` holds, where it sets every required variable.
pub open spec fn settings_of(vars: Bindings) -> ConfigView
    recommends
        first_missing(vars) is None,
{
    ConfigView {
        shopify_api_key: lookup(vars, API_KEY_VAR@)->0,
        shopify_api_secret: lookup(vars, API_SECRET_VAR@)->0,
        shopify_scopes: lookup(vars, SCOPES_VAR@)->0,
        backend_host: lookup(vars, HOST_VAR@)->0,
        backend_port: lookup(vars, PORT_VAR@)->0,
    }
}

/// The value that `vars` binds to `name`, if it is bound and not empty.
fn required(vars: &Vec<(String, String)>, name: &'static str) -> (r: Result<String, MissingConfig>)
    ensures
        match r {
            Ok(value) => is_set(vars.deep_view(), name@) && lookup(vars.deep_view(), name@)
                == Some(value@),
            Err(e) => !is_set(vars.deep_view(), name@) && e.variable@ == name@,
        },
{
    let ghost all = vars.deep_view();
    assert(all.skip(0) =~= all);
    let mut i: usize = 0;
    while i < vars.len()
        invariant
            all == vars.deep_view(),
            i <= vars.len(),
            lookup(all, name@) == lookup(all.skip(i as int), name@),
        decreases vars.len() - i,
    {
        proof {
            let rest = all.skip(i as int);
            assert(rest[0] == all[i as int]);
            assert(rest.drop_first() =~= all.skip(i + 1));
        }
        if same_text(vars[i].0.as_str(), name) {
            if vars[i].1.as_str().is_empty() {
                return Err(MissingConfig { variable: name.to_owned() });
            }
            return Ok(vars[i].1.clone());
        }
        i += 1;
    }
    Err(MissingConfig { variable: name.to_owned() })
}

impl Config {
    /// Reads the settings out of `vars`, a snapshot of the environment.
    ///
    /// Fails on the first required variable that is absent or empty, and
    /// names it.
    pub fn from_env(vars: &Vec<(String, String)>) -> (r: Result<Config, MissingConfig>)
        ensures
            match r {
                Ok(config) => first_missing(vars.deep_view()) is None && config@ == settings_of(
                    vars.deep_view(),
                ) && config@.complete(),
                Err(e) => first_missing(vars.deep_view()) == Some(e.variable@),
            },
    {
        let shopify_api_key = match required(vars, API_KEY_VAR) {
            Ok(value) => value,
            Err(e) => { return Err(e); },
        };
        let shopify_api_secret = match required(vars, API_SECRET_VAR) {
            Ok(value) => value,
            Err(e) => { return Err(e); },
        };
        let shopify_scopes = match required(vars, SCOPES_VAR) {
            Ok(value) => value,
            Err(e) => { return Err(e); },
        };
        let backend_host = match required(vars, HOST_VAR) {
            Ok(value) => value,
            Err(e) => { return Err(e); },
        };
        let backend_port = match required(vars, PORT_VAR) {
            Ok(value) => value,
            Err(e) => { return Err(e); },
        };
        Ok(Config { shopify_api_key, shopify_api_secret, shopify_scopes, backend_host, backend_port })
    }
}

impl MissingConfig {
    /// What to tell the operator: the variable's name, and that it must be
    /// set.
    pub fn message(&self) -> (text: String)
        ensures
            text@ == self.variable@ + " must be set"@,
    {
        let mut text = self.variable.clone();
        text.append(" must be set");
        text
    }
}

} // verus!
