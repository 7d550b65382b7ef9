//! Backend instance configuration: the two authentication modes, URL
//! normalization, decoding instance entries from JSON, and the resolution
//! of the whole environment configuration to complete credentials.

use vstd::prelude::*;
use vstd::string::StringExecFns;

use crate::json::{JVal, Json};
use crate::strutil::{chars_of, contains_chars, has_substr, parse_u32_chars, spec_parse_dec,
    str_eq, string_of, trim_chars, trim_spec};

verus! {

broadcast use {vstd::std_specs::vec::group_vec_axioms, vstd::seq::group_seq_axioms};

/// How an instance authenticates: a bearer token against the modern
/// endpoint paths, or username and password over the legacy JSON-RPC
/// dialect.
#[derive(Debug, Clone, Copy, PartialEq, Eq)]
pub enum OdooAuthMode {
    ApiKey,
    Password,
}

impl Default for OdooAuthMode {
    fn default() -> (r: Self)
        ensures
            r == OdooAuthMode::ApiKey,
    {
        OdooAuthMode::ApiKey
    }
}

/// One configured backend instance.
#[derive(Debug)]
pub struct OdooInstanceConfig {
    pub url: String,
    pub db: Option<String>,
    pub api_key: Option<String>,
    pub username: Option<String>,
    pub password: Option<String>,
    pub version: Option<String>,
    pub timeout_ms: Option<u64>,
    pub max_retries: Option<u64>,
    /// Extra members of the instance entry, kept as they came.
    pub extra: Vec<(String, Json)>,
}

/// The major version before the first `.`, when it parses as a number.
pub open spec fn spec_major_version(v: Seq<char>) -> Option<int> {
    let head = v.take(crate::strutil::find_char(v, '.') as int);
    let token = if head.len() == 0 {
        v
    } else {
        head
    };
    spec_parse_dec(token, u32::MAX as int)
}

/// An optional string that is missing or whitespace only.
pub open spec fn spec_blank(s: Option<Seq<char>>) -> bool {
    match s {
        None => true,
        Some(t) => trim_spec(t).len() == 0,
    }
}

pub open spec fn view_opt(s: Option<String>) -> Option<Seq<char>> {
    match s {
        Some(t) => Some(t@),
        None => None,
    }
}

fn blank(s: &Option<String>) -> (r: bool)
    ensures
        r == spec_blank(view_opt(*s)),
{
    match s {
        None => true,
        Some(t) => {
            let cs = chars_of(t.as_str());
            let tr = trim_chars(&cs);
            tr.len() == 0
        },
    }
}

/// The authentication mode of an instance: an explicit version below 19
/// selects the legacy dialect; otherwise username and password without a
/// usable key do; otherwise the token dialect is used.
pub open spec fn spec_auth_mode(c: OdooInstanceConfig) -> OdooAuthMode {
    if c.version matches Some(v) && (spec_major_version(v@) matches Some(m) && m < 19) {
        OdooAuthMode::Password
    } else if spec_blank(view_opt(c.api_key)) && c.username is Some && c.password is Some {
        OdooAuthMode::Password
    } else {
        OdooAuthMode::ApiKey
    }
}

impl OdooInstanceConfig {
    pub fn auth_mode(&self) -> (r: OdooAuthMode)
        ensures
            r == spec_auth_mode(*self),
    {
        match &self.version {
            Some(v) => {
                let vc = chars_of(v.as_str());
                let dot = crate::strutil::find_char_from(&vc, '.', 0);
                proof {
                    assert(vc@.skip(0) =~= vc@);
                }
                let head = crate::strutil::subrange_chars(&vc, 0, dot);
                proof {
                    assert(vc@.subrange(0, dot as int) =~= vc@.take(dot as int));
                }
                let token = if head.len() == 0 {
                    vc
                } else {
                    head
                };
                match parse_u32_chars(&token) {
                    Some(m) => {
                        if m < 19 {
                            return OdooAuthMode::Password;
                        }
                    },
                    None => (),
                }
            },
            None => (),
        }
        if blank(&self.api_key) && self.username.is_some() && self.password.is_some() {
            OdooAuthMode::Password
        } else {
            OdooAuthMode::ApiKey
        }
    }
}

/// A URL with an explicit scheme kept as given (after trimming); one
/// without gets `http://` in front.
pub open spec fn spec_normalize_url(raw: Seq<char>) -> Seq<char> {
    let t = trim_spec(raw);
    if has_substr(t, "://"@) {
        t
    } else {
        "http://"@ + t
    }
}

pub fn normalize_url(raw: &str) -> (r: String)
    ensures
        r@ == spec_normalize_url(raw@),
{
    let cs = chars_of(raw);
    let t = trim_chars(&cs);
    let ts = string_of(&t);
    if contains_chars(&t, "://") {
        ts
    } else {
        let mut s = "http://".to_owned();
        s.append(ts.as_str());
        s
    }
}

/// Why an environment configuration cannot be resolved.
#[derive(Debug)]
pub enum EnvConfigError {
    /// No instance is configured at all.
    NoInstances,
    /// Token mode without a usable key anywhere.
    MissingApiKey { instance: String },
    /// Legacy mode without a username anywhere.
    MissingUsername { instance: String },
    /// Legacy mode without a password anywhere.
    MissingPassword { instance: String },
    /// Legacy mode without a database name.
    MissingDb { instance: String },
}

/// The process-wide backend configuration: instance name to instance.
pub struct OdooEnvConfig {
    pub instances: Vec<(String, OdooInstanceConfig)>,
}

/// The globally supplied fallback credentials.
pub struct GlobalCreds {
    pub api_key: Option<String>,
    pub username: Option<String>,
    pub password: Option<String>,
    pub version: Option<String>,
}

/// Completes one instance in place, the way the environment loader does:
/// the URL is normalized, a missing version takes the global one, and the
/// credentials that the selected mode needs are filled from the globals
/// or reported missing.
pub fn resolve_instance(name: &str, cfg: &mut OdooInstanceConfig, globals: &GlobalCreds) -> (r:
    Result<(), EnvConfigError>)
    ensures
        match r {
            Ok(_) => {
                &&& final(cfg).url@ == spec_normalize_url(old(cfg).url@)
                &&& view_opt(final(cfg).db) == view_opt(old(cfg).db)
                &&& view_opt(final(cfg).version) == (if old(cfg).version is Some {
                    view_opt(old(cfg).version)
                } else {
                    view_opt(globals.version)
                })
                &&& match spec_auth_mode(*final(cfg)) {
                    OdooAuthMode::ApiKey => {
                        &&& view_opt(final(cfg).api_key) == (if spec_blank(
                            view_opt(old(cfg).api_key),
                        ) {
                            view_opt(globals.api_key)
                        } else {
                            view_opt(old(cfg).api_key)
                        })
                        &&& !spec_blank(view_opt(final(cfg).api_key))
                        &&& view_opt(final(cfg).username) == view_opt(old(cfg).username)
                        &&& view_opt(final(cfg).password) == view_opt(old(cfg).password)
                    },
                    OdooAuthMode::Password => {
                        &&& view_opt(final(cfg).username) == (if spec_blank(
                            view_opt(old(cfg).username),
                        ) {
                            view_opt(globals.username)
                        } else {
                            view_opt(old(cfg).username)
                        })
                        &&& view_opt(final(cfg).password) == (if spec_blank(
                            view_opt(old(cfg).password),
                        ) {
                            view_opt(globals.password)
                        } else {
                            view_opt(old(cfg).password)
                        })
                        &&& view_opt(final(cfg).api_key) == view_opt(old(cfg).api_key)
                        &&& final(cfg).username is Some
                        &&& final(cfg).password is Some
                        &&& !spec_blank(view_opt(final(cfg).db))
                    },
                }
            },
            Err(e) => match e {
                EnvConfigError::MissingApiKey { instance } => instance@ == name@ && spec_blank(
                    view_opt(globals.api_key),
                ),
                EnvConfigError::MissingUsername { instance } => instance@ == name@ && globals.username
                    is None,
                EnvConfigError::MissingPassword { instance } => instance@ == name@
                    && globals.password is None,
                EnvConfigError::MissingDb { instance } => instance@ == name@,
                EnvConfigError::NoInstances => false,
            },
        },
{
    let nu = normalize_url(cfg.url.as_str());
    cfg.url = nu;
    if cfg.version.is_none() {
        cfg.version = match &globals.version {
            Some(v) => Some(v.clone()),
            None => None,
        };
    }
    let mode = cfg.auth_mode();
    match mode {
        OdooAuthMode::ApiKey => {
            if blank(&cfg.api_key) {
                match &globals.api_key {
                    Some(k) => {
                        let kc = chars_of(k.as_str());
                        if trim_chars(&kc).len() == 0 {
                            return Err(
                                EnvConfigError::MissingApiKey { instance: name.to_owned() },
                            );
                        }
                        cfg.api_key = Some(k.clone());
                    },
                    None => {
                        return Err(EnvConfigError::MissingApiKey { instance: name.to_owned() });
                    },
                }
            }
            Ok(())
        },
        OdooAuthMode::Password => {
            if blank(&cfg.username) {
                match &globals.username {
                    Some(u) => {
                        cfg.username = Some(u.clone());
                    },
                    None => {
                        return Err(EnvConfigError::MissingUsername { instance: name.to_owned() });
                    },
                }
            }
            if blank(&cfg.password) {
                match &globals.password {
                    Some(p) => {
                        cfg.password = Some(p.clone());
                    },
                    None => {
                        return Err(EnvConfigError::MissingPassword { instance: name.to_owned() });
                    },
                }
            }
            if blank(&cfg.db) {
                return Err(EnvConfigError::MissingDb { instance: name.to_owned() });
            }
            Ok(())
        },
    }
}

/// The seeded environment file, with the definition-file paths pointing
/// into the given configuration directory.
pub fn generate_default_env_template(config_path: &str) -> (r: String)
    ensures
        r@ == "# Odoo Rust MCP Server Configuration\n# Multi-instance configuration (default)\n\n# =============================================================================\n# Multi-Instance Configuration (Default - Recommended)\n# =============================================================================\n# Uses instances.json for multiple Odoo instances\n# The path below will be automatically set based on your config directory\n# ODOO_INSTANCES_JSON is set automatically if instances.json exists\n\n# =============================================================================\n# Single Instance Configuration (Alternative - uncomment if not using multi-instance)\n# =============================================================================\n# # Odoo 19+ (API Key authentication)\n# ODOO_URL=http://localhost:8069\n# ODOO_DB=mydb\n# ODOO_API_KEY=YOUR_API_KEY\n#\n# # Odoo < 19 (Username/Password authentication)\n# # ODOO_VERSION=18\n# # ODOO_USERNAME=admin\n# # ODOO_PASSWORD=admin\n\n# =============================================================================\n# Config UI Authentication\n# =============================================================================\n# Login credentials for the web-based configuration interface.\n# IMPORTANT: Change these default credentials immediately after first install!\nCONFIG_UI_USERNAME=admin\nCONFIG_UI_PASSWORD=changeme\n\n# =============================================================================\n# MCP HTTP Transport Authentication\n# =============================================================================\n# Enable/disable HTTP transport authentication (default: disabled)\n# When enabled, clients must include \"Authorization: Bearer <token>\" header\nMCP_AUTH_ENABLED=false\n# MCP_AUTH_TOKEN=your-secure-random-token-here\n\n# =============================================================================\n# MCP Config Paths\n# =============================================================================\n# Path to MCP configuration files (tools, prompts, server settings)\n# These are automatically set to your user config directory\nMCP_TOOLS_JSON="@
            + config_path@ + "/tools.json\nMCP_PROMPTS_JSON="@ + config_path@
            + "/prompts.json\nMCP_SERVER_JSON="@ + config_path@ + "/server.json\n"@,
{
    let mut s =
        "# Odoo Rust MCP Server Configuration\n# Multi-instance configuration (default)\n\n# =============================================================================\n# Multi-Instance Configuration (Default - Recommended)\n# =============================================================================\n# Uses instances.json for multiple Odoo instances\n# The path below will be automatically set based on your config directory\n# ODOO_INSTANCES_JSON is set automatically if instances.json exists\n\n# =============================================================================\n# Single Instance Configuration (Alternative - uncomment if not using multi-instance)\n# =============================================================================\n# # Odoo 19+ (API Key authentication)\n# ODOO_URL=http://localhost:8069\n# ODOO_DB=mydb\n# ODOO_API_KEY=YOUR_API_KEY\n#\n# # Odoo < 19 (Username/Password authentication)\n# # ODOO_VERSION=18\n# # ODOO_USERNAME=admin\n# # ODOO_PASSWORD=admin\n\n# =============================================================================\n# Config UI Authentication\n# =============================================================================\n# Login credentials for the web-based configuration interface.\n# IMPORTANT: Change these default credentials immediately after first install!\nCONFIG_UI_USERNAME=admin\nCONFIG_UI_PASSWORD=changeme\n\n# =============================================================================\n# MCP HTTP Transport Authentication\n# =============================================================================\n# Enable/disable HTTP transport authentication (default: disabled)\n# When enabled, clients must include \"Authorization: Bearer <token>\" header\nMCP_AUTH_ENABLED=false\n# MCP_AUTH_TOKEN=your-secure-random-token-here\n\n# =============================================================================\n# MCP Config Paths\n# =============================================================================\n# Path to MCP configuration files (tools, prompts, server settings)\n# These are automatically set to your user config directory\nMCP_TOOLS_JSON=".to_owned();
    s.append(config_path);
    s.append("/tools.json\nMCP_PROMPTS_JSON=");
    s.append(config_path);
    s.append("/prompts.json\nMCP_SERVER_JSON=");
    s.append(config_path);
    s.append("/server.json\n");
    s
}

} // verus!
