//! Configuration: the endpoints to use, and where the configuration, the skills and the
//! session live. Reading the environment and the disk is the caller's.
use vstd::prelude::*;
use vstd::string::StringExecFns;

use crate::text::{join, join_path};

verus! {

/// The whole configuration file.
pub struct Config {
    pub local: LocalConfig,
    pub openrouter: OpenRouterConfig,
    pub jev: JevConfig,
}

/// The local endpoint.
pub struct LocalConfig {
    pub base_url: String,
}

/// The OpenRouter endpoint.
pub struct OpenRouterConfig {
    pub base_url: String,
}

/// The evaluation endpoint.
pub struct JevConfig {
    pub url: String,
}

/// The directory of the configuration: `$XDG_CONFIG_HOME/mi`, or `~/.config/mi`.
pub open spec fn config_dir_path(xdg_config_home: Option<Seq<char>>, home: Seq<char>) -> Seq<char> {
    let base = match xdg_config_home {
        Some(x) => x,
        None => join_path(home, ".config"@),
    };
    join_path(base, "mi"@)
}

/// The directory of the configuration.
pub fn config_dir(xdg_config_home: Option<&str>, home: &str) -> (res: String)
    ensures
        res@ == config_dir_path(
            match xdg_config_home {
                Some(x) => Some(x@),
                None => None,
            },
            home@,
        ),
{
    let base = match xdg_config_home {
        Some(x) => String::from_str(x),
        None => join(home, ".config"),
    };
    join(base.as_str(), "mi")
}

/// The configuration file.
pub fn config_path(xdg_config_home: Option<&str>, home: &str) -> (res: String)
    ensures
        res@ == join_path(
            config_dir_path(
                match xdg_config_home {
                    Some(x) => Some(x@),
                    None => None,
                },
                home@,
            ),
            "config.json"@,
        ),
{
    let dir = config_dir(xdg_config_home, home);
    join(dir.as_str(), "config.json")
}

/// The directory of the skills: `~/.agents/skills`.
pub fn skills_dir(home: &str) -> (res: String)
    ensures
        res@ == join_path(join_path(home@, ".agents"@), "skills"@),
{
    let agents = join(home, ".agents");
    join(agents.as_str(), "skills")
}

/// The session file: `$XDG_STATE_HOME/mi/session.json`, or `~/.local/state/mi/session.json`.
pub fn session_path(xdg_state_home: Option<&str>, home: &str) -> (res: String)
    ensures
        res@ == join_path(
            join_path(
                match xdg_state_home {
                    Some(x) => x@,
                    None => join_path(home@, ".local/state"@),
                },
                "mi"@,
            ),
            "session.json"@,
        ),
{
    let base = match xdg_state_home {
        Some(x) => String::from_str(x),
        None => join(home, ".local/state"),
    };
    let mi = join(base.as_str(), "mi");
    join(mi.as_str(), "session.json")
}

} // verus!
