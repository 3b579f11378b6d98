//! The global configuration of the generator.
pub mod cfg;

use vstd::prelude::*;
use cfg::{Cfg, CfgV, EnumRepresentation, SnakeCaseNaming, TomlTable, TomlValue, TomlValueV, cfg_of,
    opt_view, pairs_view, snake_case_naming_text, table_get, table_lookup, table_view};
use crate::error::{E, EV};
use crate::package::{value, value_spec};
use crate::text::{camel_case_of, opt_text, path_file_name, path_file_name_of, path_parent,
    path_parent_of, push_str, split_on, split_spec, str_eq, to_camel_case, views};

verus! {

/// Settings that decide how Rust items are translated into TypeScript and JavaScript.
pub struct Config {
    /// Whether the configuration has been read.
    pub inited: bool,
    /// The parsed `Cargo.toml`, once read.
    pub cargo: Option<TomlTable>,
    /// Whether the generated files may be written.
    pub io_allowed: bool,
    /// The file name of the node module (such as `index.node`).
    pub node_mod_filename: Option<String>,
    /// The folder of the node module, where `lib.js`, `lib.d.ts` and `package.json` go.
    pub node_mod_dist: Option<String>,
    /// Which entities are renamed into camel case; each at most once.
    pub snake_case_naming: Vec<SnakeCaseNaming>,
    /// Whether functions return errors instead of throwing them.
    pub exception_suppression: bool,
    /// Whether integers over 32 bits become `BigInt`.
    pub int_over_32_as_big_int: bool,
    /// Rust type names mapped to other names, each key once.
    pub type_map: Vec<(String, String)>,
    /// How enums with data are written.
    pub enum_representation: EnumRepresentation,
}

/// The mathematical value of a [`Config`].
pub struct ConfigV {
    pub inited: bool,
    pub cargo: Option<Seq<(Seq<char>, TomlValueV)>>,
    pub io_allowed: bool,
    pub node_mod_filename: Option<Seq<char>>,
    pub node_mod_dist: Option<Seq<char>>,
    pub snake_case_naming: Seq<SnakeCaseNaming>,
    pub exception_suppression: bool,
    pub int_over_32_as_big_int: bool,
    pub type_map: Seq<(Seq<char>, Seq<char>)>,
    pub enum_representation: EnumRepresentation,
}

impl View for Config {
    type V = ConfigV;

    open spec fn view(&self) -> ConfigV {
        ConfigV {
            inited: self.inited,
            cargo: match self.cargo {
                Some(c) => Some(table_view(c@)),
                None => None,
            },
            io_allowed: self.io_allowed,
            node_mod_filename: opt_view(self.node_mod_filename),
            node_mod_dist: opt_view(self.node_mod_dist),
            snake_case_naming: self.snake_case_naming@,
            exception_suppression: self.exception_suppression,
            int_over_32_as_big_int: self.int_over_32_as_big_int,
            type_map: pairs_view(self.type_map@),
            enum_representation: self.enum_representation,
        }
    }
}

/// The configuration before anything was read.
pub open spec fn default_config() -> ConfigV {
    ConfigV {
        inited: false,
        cargo: None,
        io_allowed: false,
        node_mod_filename: None,
        node_mod_dist: None,
        snake_case_naming: seq![],
        exception_suppression: false,
        int_over_32_as_big_int: false,
        type_map: seq![],
        enum_representation: EnumRepresentation::Flat,
    }
}

/// Whether the crate being processed is this generator itself (its own tests),
/// or the error for a `Cargo.toml` without `[package]` or a string `name`.
pub open spec fn self_testing_spec(cargo: Seq<(Seq<char>, TomlValueV)>) -> Result<bool, EV> {
    match table_get(cargo, "package"@) {
        None => Err(EV::Other("Fail to find [package] in Cargo.toml"@)),
        Some(p) => match value_spec(p, "name"@) {
            Err(e) => Err(e),
            Ok(n) => Ok(n == "tslink"@),
        },
    }
}

/// The naming option that a text names.
pub open spec fn naming_of(t: Seq<char>) -> Option<SnakeCaseNaming> {
    if t == "methods"@ {
        Some(SnakeCaseNaming::Methods)
    } else if t == "fields"@ {
        Some(SnakeCaseNaming::Fields)
    } else {
        None
    }
}

/// Adds the naming options of `pieces` to a set, one after another, and stops at the
/// first piece that names none (given back as the second part).
pub open spec fn add_namings(set: Seq<SnakeCaseNaming>, pieces: Seq<Seq<char>>) -> (Seq<SnakeCaseNaming>, Option<Seq<char>>)
    decreases pieces.len(),
{
    if pieces.len() == 0 {
        (set, None)
    } else {
        match naming_of(pieces[0]) {
            None => (set, Some(pieces[0])),
            Some(n) => add_namings(if set.contains(n) { set } else { set.push(n) }, pieces.drop_first()),
        }
    }
}

/// Where the node module lives: the folder of `node`, else a folder of the
/// generator's own tests (named by `id`) or `./dist`.
pub open spec fn node_dist_spec(node: Option<Seq<char>>, self_testing: bool, id: Seq<char>) -> Seq<char> {
    let fallback = if self_testing { "./target/selftests/"@ + id } else { "./dist"@ };
    match node {
        Some(n) => match path_parent_of(n) {
            Some(p) => p,
            None => fallback,
        },
        None => fallback,
    }
}

/// The configuration after [`Config::overwrite_with`] on a parsed `Cargo.toml`,
/// and the result of that call.
pub open spec fn overwrite_spec(old: ConfigV, cargo: Seq<(Seq<char>, TomlValueV)>, io_allowed: bool, id: Seq<char>) -> (ConfigV, Result<(), EV>) {
    let cfg = cfg_of(cargo);
    let read = ConfigV { inited: true, io_allowed: io_allowed, cargo: Some(cargo), ..old };
    match self_testing_spec(cargo) {
        Err(e) => (read, Err(e)),
        Ok(st) => {
            let placed = ConfigV {
                node_mod_dist: Some(node_dist_spec(cfg.node, st, id)),
                node_mod_filename: match cfg.node {
                    Some(n) => path_file_name_of(n),
                    None => None,
                },
                ..read
            };
            let (named, bad) = match cfg.snake_case_naming {
                Some(t) => add_namings(old.snake_case_naming, split_spec(t, ',')),
                None => (old.snake_case_naming, None),
            };
            match bad {
                Some(b) => (
                    ConfigV { snake_case_naming: named, ..placed },
                    Err(EV::IO("Unknown option for snake_case_naming option: \""@ + b + "\""@)),
                ),
                None => (
                    ConfigV {
                        snake_case_naming: named,
                        exception_suppression: cfg.exception_suppression,
                        int_over_32_as_big_int: cfg.int_over_32_as_big_int,
                        type_map: cfg.type_map,
                        enum_representation: cfg.enum_representation,
                        ..placed
                    },
                    Ok(()),
                ),
            }
        },
    }
}

/// The first value mapped to `key`, if any.
pub open spec fn pairs_get(m: Seq<(Seq<char>, Seq<char>)>, key: Seq<char>) -> Option<Seq<char>>
    decreases m.len(),
{
    if m.len() == 0 {
        None
    } else if m[0].0 == key {
        Some(m[0].1)
    } else {
        pairs_get(m.drop_first(), key)
    }
}

/// A name renamed by a naming rule: camel case when the rule is in the set.
pub open spec fn renamed_by(set: Seq<SnakeCaseNaming>, rule: SnakeCaseNaming, origin: Seq<char>) -> Seq<char> {
    if set.contains(rule) { camel_case_of(origin) } else { origin }
}

/// A type name with the user's mapping applied.
pub open spec fn reftype_spec(type_map: Seq<(Seq<char>, Seq<char>)>, origin: Seq<char>) -> Seq<char> {
    match pairs_get(type_map, origin) {
        Some(t) => t,
        None => origin,
    }
}

/// A fresh identifier for the output folder of the generator's own tests, made
/// with uuid's `Uuid::new_v4` and written in uuid's hyphenated form; it differs
/// from call to call, and nothing more of it is stated here.
#[verifier::external_body]
fn new_selftest_id() -> (res: String) {
    format!("{}", uuid::Uuid::new_v4())
}

fn contains_naming(set: &Vec<SnakeCaseNaming>, n: SnakeCaseNaming) -> (res: bool)
    ensures
        res == set@.contains(n),
{
    let mut i: usize = 0;
    while i < set.len()
        invariant
            i <= set@.len(),
            forall|k: int| 0 <= k < i ==> set@[k] != n,
        decreases set.len() - i,
    {
        if set[i] == n {
            assert(set@[i as int] == n);
            return true;
        }
        i += 1;
    }
    false
}

impl Default for Config {
    fn default() -> (res: Self)
        ensures
            res@ == default_config(),
    {
        let type_map: Vec<(String, String)> = Vec::new();
        assert(pairs_view(type_map@) =~= seq![]);
        Config {
            inited: false,
            cargo: None,
            io_allowed: false,
            node_mod_filename: None,
            node_mod_dist: None,
            snake_case_naming: Vec::new(),
            exception_suppression: false,
            int_over_32_as_big_int: false,
            type_map,
            enum_representation: EnumRepresentation::Flat,
        }
    }
}

impl Config {
    /// Reads the configuration from a parsed `Cargo.toml`, naming the output folder of
    /// the generator's own tests by `selftest_id`.
    #[verifier::loop_isolation(false)]
    pub fn overwrite_with(&mut self, cargo: TomlTable, io_allowed: bool, selftest_id: &str) -> (res: Result<(), E>)
        ensures
            (final(self)@, match res { Ok(_) => Ok(()), Err(e) => Err(e@) })
                == overwrite_spec(old(self)@, table_view(cargo@), io_allowed, selftest_id@),
    {
        let ghost old_v = self@;
        let ghost cargo_v = table_view(cargo@);
        self.inited = true;
        self.io_allowed = io_allowed;
        let cfg = Cfg::new(&cargo);
        assert(cfg@ == cfg_of(cargo_v));
        self.cargo = Some(cargo);
        let is_self_testing = match self.is_self_testing() {
            Ok(b) => b,
            Err(e) => {
                return Err(e);
            },
        };
        let fallback = if is_self_testing {
            let mut p = "./target/selftests/".to_owned();
            push_str(&mut p, selftest_id);
            p
        } else {
            "./dist".to_owned()
        };
        self.node_mod_dist = match &cfg.node {
            Some(n) => match path_parent(n.as_str()) {
                Some(p) => Some(p),
                None => Some(fallback),
            },
            None => Some(fallback),
        };
        self.node_mod_filename = match &cfg.node {
            Some(n) => path_file_name(n.as_str()),
            None => None,
        };
        let ghost read = ConfigV { inited: true, io_allowed: io_allowed, cargo: Some(cargo_v), ..old_v };
        assert(self_testing_spec(cargo_v) == Ok::<bool, EV>(is_self_testing));
        let ghost placed = ConfigV {
            node_mod_dist: Some(node_dist_spec(cfg@.node, is_self_testing, selftest_id@)),
            node_mod_filename: match cfg@.node {
                Some(n) => path_file_name_of(n),
                None => None,
            },
            ..read
        };
        assert(self@ == placed);
        if let Some(snake_case_naming) = &cfg.snake_case_naming {
            let pieces = split_on(snake_case_naming.as_str(), ',');
            let ghost all = views(pieces@);
            let mut i: usize = 0;
            assert(all.skip(0) =~= all);
            while i < pieces.len()
                invariant
                    i <= pieces@.len(),
                    all == views(pieces@),
                    all == split_spec(snake_case_naming@, ','),
                    cfg@.snake_case_naming == Some(snake_case_naming@),
                    self@ == (ConfigV { snake_case_naming: self@.snake_case_naming, ..placed }),
                    add_namings(old_v.snake_case_naming, all) == add_namings(self.snake_case_naming@, all.skip(i as int)),
                decreases pieces.len() - i,
            {
                let ghost rest = all.skip(i as int);
                assert(rest[0] == pieces@[i as int]@);
                assert(rest.drop_first() =~= all.skip(i + 1));
                let condition = match SnakeCaseNaming::try_from_str(pieces[i].as_str()) {
                    Ok(c) => c,
                    Err(msg) => {
                        assert(naming_of(rest[0]) is None) by {
                            reveal_strlit("methods");
                            reveal_strlit("fields");
                        }
                        assert(add_namings(self.snake_case_naming@, rest) == (self.snake_case_naming@, Some(rest[0])));
                        let ghost expected = overwrite_spec(old_v, cargo_v, io_allowed, selftest_id@);
                        assert(expected.0 == ConfigV { snake_case_naming: self@.snake_case_naming, ..placed });
                        assert(expected.1 == Err::<(), EV>(EV::IO("Unknown option for snake_case_naming option: \""@ + rest[0] + "\""@)));
                        return Err(E::IO(msg));
                    },
                };
                assert(naming_of(rest[0]) == Some(condition)) by {
                    reveal_strlit("methods");
                    reveal_strlit("fields");
                }
                if !contains_naming(&self.snake_case_naming, condition) {
                    self.snake_case_naming.push(condition);
                }
                i += 1;
            }
            assert(all.skip(pieces@.len() as int) =~= seq![]);
        }
        self.exception_suppression = cfg.exception_suppression;
        self.int_over_32_as_big_int = cfg.int_over_32_as_big_int;
        self.type_map = cfg.type_map;
        self.enum_representation = cfg.enum_representation;
        Ok(())
    }

    /// Reads the configuration from a parsed `Cargo.toml`; the output folder of the
    /// generator's own tests gets a fresh random name.
    pub fn overwrite(&mut self, cargo: TomlTable, io_allowed: bool) -> (res: Result<(), E>)
        ensures
            exists|id: Seq<char>| (final(self)@, match res { Ok(_) => Ok(()), Err(e) => Err(e@) })
                == #[trigger] overwrite_spec(old(self)@, table_view(cargo@), io_allowed, id),
    {
        let id = new_selftest_id();
        self.overwrite_with(cargo, io_allowed, id.as_str())
    }

    /// The parsed `Cargo.toml`.
    pub fn get_cargo(&self) -> (res: &TomlTable)
        requires
            self.cargo is Some,
        ensures
            table_view(res@) == self@.cargo->0,
    {
        self.cargo.as_ref().unwrap()
    }

    /// Whether the crate being processed is this generator itself.
    pub fn is_self_testing(&self) -> (res: Result<bool, E>)
        requires
            self.cargo is Some,
        ensures
            match (res, self_testing_spec(self@.cargo->0)) {
                (Ok(b), Ok(c)) => b == c,
                (Err(e), Err(f)) => e@ == f,
                _ => false,
            },
    {
        let cargo = self.get_cargo();
        let package = match table_lookup(cargo, "package") {
            Some(p) => p,
            None => {
                return Err(E::Other("Fail to find [package] in Cargo.toml".to_owned()));
            },
        };
        let name = value(package, "name")?;
        Ok(str_eq(name.as_str(), "tslink"))
    }

    /// A field name as TypeScript sees it: in camel case when fields are renamed.
    pub fn rename_field(&self, origin: &str) -> (res: String)
        ensures
            res@ == renamed_by(self.snake_case_naming@, SnakeCaseNaming::Fields, origin@),
    {
        if contains_naming(&self.snake_case_naming, SnakeCaseNaming::Fields) {
            to_camel_case(origin)
        } else {
            origin.to_owned()
        }
    }

    /// A method name as TypeScript sees it: in camel case when methods are renamed.
    pub fn rename_method(&self, origin: &str) -> (res: String)
        ensures
            res@ == renamed_by(self.snake_case_naming@, SnakeCaseNaming::Methods, origin@),
    {
        if contains_naming(&self.snake_case_naming, SnakeCaseNaming::Methods) {
            to_camel_case(origin)
        } else {
            origin.to_owned()
        }
    }

    /// A type name with the user's `type_map` applied.
    pub fn overwrite_reftype(&self, origin: &str) -> (res: String)
        ensures
            res@ == reftype_spec(pairs_view(self.type_map@), origin@),
    {
        let mut i: usize = 0;
        let ghost m = pairs_view(self.type_map@);
        assert(m.skip(0) =~= m);
        while i < self.type_map.len()
            invariant
                i <= self.type_map@.len(),
                m == pairs_view(self.type_map@),
                pairs_get(m, origin@) == pairs_get(m.skip(i as int), origin@),
            decreases self.type_map.len() - i,
        {
            assert(m.skip(i as int).drop_first() =~= m.skip(i + 1));
            if str_eq(self.type_map[i].0.as_str(), origin) {
                return self.type_map[i].1.clone();
            }
            i += 1;
        }
        origin.to_owned()
    }
}

/// What `str::to_lowercase` gives for a text.
pub uninterp spec fn lowercase_of(s: Seq<char>) -> Seq<char>;

/// Lower-cases a text with std's `str::to_lowercase`; the result is named, not described.
#[verifier::external_body]
fn to_lowercase(s: &str) -> (res: String)
    ensures
        res@ == lowercase_of(s@),
{
    s.to_lowercase()
}

/// Whether a value of the `TSLINK_BUILD` environment variable allows writing the
/// generated files: `1`, `true` or `on`, in any case and with white space around.
pub open spec fn build_enabled_spec(value: Option<Seq<char>>) -> bool {
    match value {
        Some(v) => {
            let t = crate::text::trimmed(lowercase_of(v));
            t == "1"@ || t == "true"@ || t == "on"@
        },
        None => false,
    }
}

/// Whether a value of the `TSLINK_BUILD` environment variable (absent: `None`)
/// allows writing the generated files (see [`build_enabled_spec`]).
pub fn build_enabled(value: &Option<String>) -> (res: bool)
    ensures
        res == build_enabled_spec(opt_text(*value)),
{
    match value {
        Some(v) => {
            let lower = to_lowercase(v.as_str());
            let t = crate::text::trim(lower.as_str());
            str_eq(t.as_str(), "1") || str_eq(t.as_str(), "true") || str_eq(t.as_str(), "on")
        },
        None => false,
    }
}

#[verifier::external_type_specification]
#[verifier::external_body]
pub struct ExTomlValue(toml::Value);

/// The top-level table that toml's `from_str` reads from a document's text, or
/// `None` where it refuses the text.
pub uninterp spec fn cargo_table_of(text: Seq<char>) -> Option<Seq<(Seq<char>, TomlValueV)>>;

/// A value of a parsed TOML document as the settings read it: one arm per kind
/// of value, tables converted entry by entry.
#[verifier::external_body]
fn value_of(v: &toml::Value) -> TomlValue {
    match v {
        toml::Value::String(s) => TomlValue::String(s.clone()),
        toml::Value::Boolean(b) => TomlValue::Boolean(*b),
        toml::Value::Table(t) => TomlValue::Table(t.iter().map(|(k, x)| (k.clone(), value_of(x))).collect()),
        _ => TomlValue::Other,
    }
}

/// Parses the text of a `Cargo.toml` with toml's `from_str` into a table: the
/// result is the named table of the text, or a `PasringToml` error where toml
/// refuses the text. Which texts toml accepts, and the table it reads, are named,
/// not described.
#[verifier::external_body]
pub fn parse_cargo_toml(text: &str) -> (res: Result<TomlTable, E>)
    ensures
        match res {
            Ok(t) => cargo_table_of(text@) == Some(cfg::table_view(t@)),
            Err(e) => cargo_table_of(text@) is None && e is PasringToml,
        },
{
    match toml::from_str::<toml::Table>(text) {
        Ok(t) => Ok(t.iter().map(|(k, v)| (k.clone(), value_of(v))).collect()),
        Err(e) => Err(E::PasringToml(e.to_string())),
    }
}

/// Reads the configuration once from the text of `Cargo.toml` and the value of the
/// `TSLINK_BUILD` environment variable: a configuration already read stays as it
/// is; a text that toml refuses gives a `PasringToml` error and leaves the
/// configuration unchanged; otherwise the outcome of [`Config::overwrite`] on the
/// parsed table, writing allowed as [`build_enabled_spec`] says.
pub fn setup_from(config: &mut Config, cargo_text: &str, build_flag: &Option<String>) -> (res: Result<(), E>)
    ensures
        old(config)@.inited ==> res is Ok && final(config)@ == old(config)@,
        !old(config)@.inited ==> match cargo_table_of(cargo_text@) {
            None => res matches Err(e) && e is PasringToml && final(config)@ == old(config)@,
            Some(t) => exists|id: Seq<char>| (final(config)@, match res { Ok(_) => Ok(()), Err(e) => Err(e@) })
                == #[trigger] overwrite_spec(old(config)@, t, build_enabled_spec(opt_text(*build_flag)), id),
        },
{
    if config.inited {
        return Ok(());
    }
    let table = match parse_cargo_toml(cargo_text) {
        Ok(t) => t,
        Err(e) => return Err(e),
    };
    let io_allowed = build_enabled(build_flag);
    let ghost before = config@;
    let res = config.overwrite(table, io_allowed);
    proof {
        let id = choose|id: Seq<char>| (config@, match res { Ok(_) => Ok(()), Err(e) => Err(e@) })
            == #[trigger] overwrite_spec(before, cfg::table_view(table@), io_allowed, id);
        assert((config@, match res { Ok(_) => Ok(()), Err(e) => Err(e@) })
            == overwrite_spec(old(config)@, cargo_table_of(cargo_text@)->Some_0, build_enabled_spec(opt_text(*build_flag)), id));
    }
    res
}

} // verus!
