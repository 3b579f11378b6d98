//! Values of the `[package]` section and the `package.json` of the npm package.
use vstd::prelude::*;
use crate::config::{Config, ConfigV};
use crate::config::cfg::{TomlValue, TomlValueV, value_get, value_lookup, table_get, table_lookup};
use crate::error::{E, EV, res_view};
use crate::text::push_str;

verus! {

/// What [`value`] gives for a key: the string under it, or the error that explains why not.
pub open spec fn value_spec(v: TomlValueV, key: Seq<char>) -> Result<Seq<char>, EV> {
    match value_get(v, key) {
        None => Err(EV::Other("Fail to find \""@ + key + "\" in [package] section of Cargo.toml"@)),
        Some(TomlValueV::String(s)) => Ok(s),
        Some(_) => Err(EV::Other("Fail to convert \""@ + key + "\" into string ([package] section of Cargo.toml)"@)),
    }
}

/// Reads the string under `key` of a TOML table (such as `name` or `version` of `[package]`).
pub fn value(v: &TomlValue, key: &str) -> (res: Result<String, E>)
    ensures
        match (res, value_spec(v@, key@)) {
            (Ok(s), Ok(t)) => s@ == t,
            (Err(e), Err(f)) => e@ == f,
            _ => false,
        },
{
    match value_lookup(v, key) {
        None => {
            let mut m = "Fail to find \"".to_owned();
            push_str(&mut m, key);
            push_str(&mut m, "\" in [package] section of Cargo.toml");
            Err(E::Other(m))
        },
        Some(TomlValue::String(s)) => Ok(s.clone()),
        Some(_) => {
            let mut m = "Fail to convert \"".to_owned();
            push_str(&mut m, key);
            push_str(&mut m, "\" into string ([package] section of Cargo.toml)");
            Err(E::Other(m))
        },
    }
}

/// The text of the `package.json` written beside the node module.
pub open spec fn package_json_text(name: Seq<char>, version: Seq<char>, node_module: Seq<char>) -> Seq<char> {
    "{\n    \"name\": \""@ + name + "\",\n    \"version\": \""@ + version
        + "\",\n    \"files\": [\n        \""@ + node_module
        + "\",\n        \"lib.js\",\n        \"lib.d.ts\"\n    ],\n    \"module\": \"lib.js\",\n    \"main\": \"lib.js\",\n    \"types\": \"lib.d.ts\"\n}"@
}

/// Composes the `package.json` of the npm package from the crate's name and version
/// and the file name of the node module.
pub fn package_json(name: &str, version: &str, node_module: &str) -> (res: String)
    ensures
        res@ == package_json_text(name@, version@, node_module@),
{
    let mut s = "{\n    \"name\": \"".to_owned();
    push_str(&mut s, name);
    push_str(&mut s, "\",\n    \"version\": \"");
    push_str(&mut s, version);
    push_str(&mut s, "\",\n    \"files\": [\n        \"");
    push_str(&mut s, node_module);
    push_str(&mut s, "\",\n        \"lib.js\",\n        \"lib.d.ts\"\n    ],\n    \"module\": \"lib.js\",\n    \"main\": \"lib.js\",\n    \"types\": \"lib.d.ts\"\n}");
    s
}

/// The `package.json` of the npm package for a configuration read from
/// `Cargo.toml` (see [`Config::overwrite`]), or the error of what it lacks.
pub open spec fn package_file_spec(cfg: ConfigV) -> Result<Seq<char>, EV> {
    match table_get(cfg.cargo->0, "package"@) {
        None => Err(EV::Other("Fail to find [package] in Cargo.toml"@)),
        Some(p) => match value_spec(p, "name"@) {
            Err(e) => Err(e),
            Ok(name) => match value_spec(p, "version"@) {
                Err(e) => Err(e),
                Ok(version) => match cfg.node_mod_dist {
                    None => Err(EV::Other("No path to folder with node module. Set correct path in [tslink] of Cargo.toml; field \"node\""@)),
                    Some(_) => match cfg.node_mod_filename {
                        None => Err(EV::Other("No node module file name. Set correct path in [tslink] of Cargo.toml; field \"node\""@)),
                        Some(node_module) => Ok(package_json_text(name, version, node_module)),
                    },
                },
            },
        },
    }
}

/// The `package.json` of the npm package (see [`package_file_spec`]); it is
/// written into the folder of the node module.
pub fn package_file(config: &Config) -> (res: Result<String, E>)
    requires
        config.cargo is Some,
    ensures
        crate::error::text_res(res) == package_file_spec(config@),
{
    let cargo = config.get_cargo();
    let package = match table_lookup(cargo, "package") {
        Some(p) => p,
        None => {
            return Err(E::Other("Fail to find [package] in Cargo.toml".to_owned()));
        },
    };
    let name = value(package, "name")?;
    let version = value(package, "version")?;
    if config.node_mod_dist.is_none() {
        return Err(E::Other("No path to folder with node module. Set correct path in [tslink] of Cargo.toml; field \"node\"".to_owned()));
    }
    match &config.node_mod_filename {
        Some(node_module) => Ok(package_json(name.as_str(), version.as_str(), node_module.as_str())),
        None => Err(E::Other("No node module file name. Set correct path in [tslink] of Cargo.toml; field \"node\"".to_owned())),
    }
}

} // verus!
