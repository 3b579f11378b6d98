//! Settings read from the `[tslink]` (or `[package.metadata.tslink]`) table of `Cargo.toml`.
use vstd::prelude::*;
use crate::text::{str_eq, views};

verus! {

/// A value of a TOML document, as far as the settings read it.
pub enum TomlValue {
    String(String),
    Boolean(bool),
    Table(Vec<(String, TomlValue)>),
    /// Any other kind of value (numbers, arrays, dates).
    Other,
}

/// A TOML table: keys with their values, each key once.
pub type TomlTable = Vec<(String, TomlValue)>;

/// The mathematical value of a [`TomlValue`].
pub enum TomlValueV {
    String(Seq<char>),
    Boolean(bool),
    Table(Seq<(Seq<char>, TomlValueV)>),
    Other,
}

/// The view of a TOML table.
pub open spec fn table_view(t: Seq<(String, TomlValue)>) -> Seq<(Seq<char>, TomlValueV)>
    decreases t,
{
    Seq::new(
        t.len(),
        |i: int| if 0 <= i < t.len() { (t[i].0@, toml_view(t[i].1)) } else { (seq![], TomlValueV::Other) },
    )
}

/// The view of a TOML value.
pub open spec fn toml_view(v: TomlValue) -> TomlValueV
    decreases v,
{
    match v {
        TomlValue::String(s) => TomlValueV::String(s@),
        TomlValue::Boolean(b) => TomlValueV::Boolean(b),
        TomlValue::Table(t) => TomlValueV::Table(table_view(t@)),
        TomlValue::Other => TomlValueV::Other,
    }
}

impl View for TomlValue {
    type V = TomlValueV;

    open spec fn view(&self) -> TomlValueV {
        toml_view(*self)
    }
}

/// The value under `key` in a table: that of the first entry with this key.
pub open spec fn table_get(t: Seq<(Seq<char>, TomlValueV)>, key: Seq<char>) -> Option<TomlValueV>
    decreases t.len(),
{
    if t.len() == 0 {
        None
    } else if t[0].0 == key {
        Some(t[0].1)
    } else {
        table_get(t.drop_first(), key)
    }
}

/// `toml::Value::get` with a key: the entry of a table, nothing for other values.
pub open spec fn value_get(v: TomlValueV, key: Seq<char>) -> Option<TomlValueV> {
    match v {
        TomlValueV::Table(t) => table_get(t, key),
        _ => None,
    }
}

/// The index of the first entry of a table with a given key.
pub fn table_find(t: &TomlTable, key: &str) -> (res: Option<usize>)
    ensures
        match res {
            Some(i) => i < t@.len() && table_get(table_view(t@), key@) == Some(t@[i as int].1@)
                && t@[i as int].0@ == key@,
            None => table_get(table_view(t@), key@) is None,
        },
{
    let mut i: usize = 0;
    assert(table_view(t@).skip(0) =~= table_view(t@));
    while i < t.len()
        invariant
            i <= t@.len(),
            table_get(table_view(t@), key@) == table_get(table_view(t@).skip(i as int), key@),
        decreases t.len() - i,
    {
        let ghost tv = table_view(t@).skip(i as int);
        assert(tv[0] == table_view(t@)[i as int]);
        assert(tv.drop_first() == table_view(t@).skip(i + 1));
        if str_eq(t[i].0.as_str(), key) {
            return Some(i);
        }
        i += 1;
    }
    None
}

/// Reads a value from a table by key.
pub fn table_lookup<'a>(t: &'a TomlTable, key: &str) -> (res: Option<&'a TomlValue>)
    ensures
        match res {
            Some(v) => table_get(table_view(t@), key@) == Some(v@),
            None => table_get(table_view(t@), key@) is None,
        },
{
    match table_find(t, key) {
        Some(i) => Some(&t[i].1),
        None => None,
    }
}

/// Reads a value by key from a value that may be a table (`toml::Value::get`).
pub fn value_lookup<'a>(v: &'a TomlValue, key: &str) -> (res: Option<&'a TomlValue>)
    ensures
        match res {
            Some(x) => value_get(v@, key@) == Some(x@),
            None => value_get(v@, key@) is None,
        },
{
    match v {
        TomlValue::Table(t) => table_lookup(t, key),
        _ => None,
    }
}

/// Which kind of entities are renamed from `snake_case` to `camelCase`.
#[derive(Clone, Copy, Debug, PartialEq, Eq, Hash, Structural)]
pub enum SnakeCaseNaming {
    Methods,
    Fields,
}

/// The text that stands for a [`SnakeCaseNaming`] in the configuration.
pub open spec fn snake_case_naming_text(n: SnakeCaseNaming) -> Seq<char> {
    match n {
        SnakeCaseNaming::Methods => "methods"@,
        SnakeCaseNaming::Fields => "fields"@,
    }
}

impl SnakeCaseNaming {
    /// The text of the option (`methods` or `fields`).
    pub fn to_string(&self) -> (res: String)
        ensures
            res@ == snake_case_naming_text(*self),
    {
        match self {
            SnakeCaseNaming::Methods => "methods".to_owned(),
            SnakeCaseNaming::Fields => "fields".to_owned(),
        }
    }

    /// Reads the option from its text; any other text is refused with a message.
    pub fn try_from_str(value: &str) -> (res: Result<SnakeCaseNaming, String>)
        ensures
            match res {
                Ok(n) => snake_case_naming_text(n) == value@,
                Err(msg) => value@ != "methods"@ && value@ != "fields"@
                    && msg@ == "Unknown option for snake_case_naming option: \""@ + value@ + "\""@,
            },
    {
        if str_eq(value, "methods") {
            Ok(SnakeCaseNaming::Methods)
        } else if str_eq(value, "fields") {
            Ok(SnakeCaseNaming::Fields)
        } else {
            let mut msg = "Unknown option for snake_case_naming option: \"".to_owned();
            crate::text::push_str(&mut msg, value);
            crate::text::push_str(&mut msg, "\"");
            Err(msg)
        }
    }
}

/// How an enum with data-carrying variants is written in TypeScript.
#[derive(Clone, Copy, Debug, PartialEq, Eq, Structural)]
pub enum EnumRepresentation {
    /// One interface with an optional field per variant.
    DiscriminatedUnion,
    /// The default: one interface with an optional field per variant, as for
    /// `DiscriminatedUnion`.
    Flat,
    /// A union of string literals for unit variants and object types for the others.
    Union,
}

/// The text that stands for an [`EnumRepresentation`] in the configuration.
pub open spec fn enum_representation_text(r: EnumRepresentation) -> Seq<char> {
    match r {
        EnumRepresentation::DiscriminatedUnion => "discriminated"@,
        EnumRepresentation::Flat => "flat"@,
        EnumRepresentation::Union => "union"@,
    }
}

/// The representation named by a text, if any.
pub open spec fn enum_representation_of(value: Seq<char>) -> Option<EnumRepresentation> {
    if value == "discriminated"@ {
        Some(EnumRepresentation::DiscriminatedUnion)
    } else if value == "flat"@ {
        Some(EnumRepresentation::Flat)
    } else if value == "union"@ {
        Some(EnumRepresentation::Union)
    } else {
        None
    }
}

impl Default for EnumRepresentation {
    fn default() -> (res: Self)
        ensures
            res == EnumRepresentation::Flat,
    {
        EnumRepresentation::Flat
    }
}

impl EnumRepresentation {
    /// The text of the option (`discriminated`, `flat` or `union`).
    pub fn to_string(&self) -> (res: String)
        ensures
            res@ == enum_representation_text(*self),
    {
        match self {
            EnumRepresentation::DiscriminatedUnion => "discriminated".to_owned(),
            EnumRepresentation::Flat => "flat".to_owned(),
            EnumRepresentation::Union => "union".to_owned(),
        }
    }

    /// Reads the option from its text; any other text is refused with a message.
    pub fn try_from_str(value: &str) -> (res: Result<EnumRepresentation, String>)
        ensures
            match res {
                Ok(r) => enum_representation_of(value@) == Some(r),
                Err(msg) => enum_representation_of(value@) is None
                    && msg@ == "Unknown option for enum_representation option: \""@ + value@ + "\""@,
            },
    {
        if str_eq(value, "discriminated") {
            Ok(EnumRepresentation::DiscriminatedUnion)
        } else if str_eq(value, "flat") {
            Ok(EnumRepresentation::Flat)
        } else if str_eq(value, "union") {
            Ok(EnumRepresentation::Union)
        } else {
            let mut msg = "Unknown option for enum_representation option: \"".to_owned();
            crate::text::push_str(&mut msg, value);
            crate::text::push_str(&mut msg, "\"");
            Err(msg)
        }
    }
}

/// The settings of the `[tslink]` table.
pub struct Cfg {
    pub node: Option<String>,
    pub snake_case_naming: Option<String>,
    pub exception_suppression: bool,
    pub int_over_32_as_big_int: bool,
    pub type_map: Vec<(String, String)>,
    pub enum_representation: EnumRepresentation,
}

/// The mathematical value of a [`Cfg`].
pub struct CfgV {
    pub node: Option<Seq<char>>,
    pub snake_case_naming: Option<Seq<char>>,
    pub exception_suppression: bool,
    pub int_over_32_as_big_int: bool,
    pub type_map: Seq<(Seq<char>, Seq<char>)>,
    pub enum_representation: EnumRepresentation,
}

/// The view of an optional string.
pub open spec fn opt_view(o: Option<String>) -> Option<Seq<char>> {
    match o {
        Some(s) => Some(s@),
        None => None,
    }
}

/// The view of a list of string pairs.
pub open spec fn pairs_view(v: Seq<(String, String)>) -> Seq<(Seq<char>, Seq<char>)> {
    v.map_values(|p: (String, String)| (p.0@, p.1@))
}

impl View for Cfg {
    type V = CfgV;

    open spec fn view(&self) -> CfgV {
        CfgV {
            node: opt_view(self.node),
            snake_case_naming: opt_view(self.snake_case_naming),
            exception_suppression: self.exception_suppression,
            int_over_32_as_big_int: self.int_over_32_as_big_int,
            type_map: pairs_view(self.type_map@),
            enum_representation: self.enum_representation,
        }
    }
}

/// The default settings: nothing set.
pub open spec fn default_cfg() -> CfgV {
    CfgV {
        node: None,
        snake_case_naming: None,
        exception_suppression: false,
        int_over_32_as_big_int: false,
        type_map: seq![],
        enum_representation: EnumRepresentation::Flat,
    }
}

/// The settings table: `[tslink]` when the document has that key, else
/// `[package.metadata.tslink]`; only a table counts.
pub open spec fn settings_table(cargo: Seq<(Seq<char>, TomlValueV)>) -> Option<Seq<(Seq<char>, TomlValueV)>> {
    let found = if table_get(cargo, "tslink"@) is Some {
        table_get(cargo, "tslink"@)
    } else {
        match table_get(cargo, "package"@) {
            Some(p) => match value_get(p, "metadata"@) {
                Some(m) => value_get(m, "tslink"@),
                None => None,
            },
            None => None,
        }
    };
    match found {
        Some(TomlValueV::Table(t)) => Some(t),
        _ => None,
    }
}

/// A string value, if the value is one.
pub open spec fn as_str(v: Option<TomlValueV>) -> Option<Seq<char>> {
    match v {
        Some(TomlValueV::String(s)) => Some(s),
        _ => None,
    }
}

/// A boolean value, `false` when absent or of another kind.
pub open spec fn as_bool_or_false(v: Option<TomlValueV>) -> bool {
    match v {
        Some(TomlValueV::Boolean(b)) => b,
        _ => false,
    }
}

/// The entries of a table whose values are strings, in order.
pub open spec fn string_entries(t: Seq<(Seq<char>, TomlValueV)>) -> Seq<(Seq<char>, Seq<char>)>
    decreases t.len(),
{
    if t.len() == 0 {
        seq![]
    } else {
        let rest = string_entries(t.drop_first());
        match t[0].1 {
            TomlValueV::String(s) => seq![(t[0].0, s)] + rest,
            _ => rest,
        }
    }
}

/// The settings that a `Cargo.toml` document gives.
pub open spec fn cfg_of(cargo: Seq<(Seq<char>, TomlValueV)>) -> CfgV {
    match settings_table(cargo) {
        None => default_cfg(),
        Some(s) => CfgV {
            node: as_str(table_get(s, "node"@)),
            snake_case_naming: as_str(table_get(s, "snake_case_naming"@)),
            exception_suppression: as_bool_or_false(table_get(s, "exception_suppression"@)),
            int_over_32_as_big_int: as_bool_or_false(table_get(s, "int_over_32_as_big_int"@)),
            type_map: match table_get(s, "type_map"@) {
                Some(TomlValueV::Table(m)) => string_entries(m),
                _ => seq![],
            },
            enum_representation: match as_str(table_get(s, "enum_representation"@)) {
                Some(r) => match enum_representation_of(r) {
                    Some(r) => r,
                    None => EnumRepresentation::Flat,
                },
                None => EnumRepresentation::Flat,
            },
        },
    }
}

fn opt_string(v: Option<&TomlValue>) -> (res: Option<String>)
    ensures
        opt_view(res) == as_str(match v { Some(x) => Some(x@), None => None }),
{
    match v {
        Some(TomlValue::String(s)) => Some(s.clone()),
        _ => None,
    }
}

fn bool_or_false(v: Option<&TomlValue>) -> (res: bool)
    ensures
        res == as_bool_or_false(match v { Some(x) => Some(x@), None => None }),
{
    match v {
        Some(TomlValue::Boolean(b)) => *b,
        _ => false,
    }
}

fn string_pairs(t: &TomlTable) -> (res: Vec<(String, String)>)
    ensures
        pairs_view(res@) == string_entries(table_view(t@)),
{
    let mut res: Vec<(String, String)> = Vec::new();
    let mut i: usize = t.len();
    let ghost tv = table_view(t@);
    assert(tv.skip(tv.len() as int) =~= seq![]);
    let mut rev: Vec<(String, String)> = Vec::new();
    // collect from the back so that the spec's recursion on the front matches
    while i > 0
        invariant
            i <= t@.len(),
            tv == table_view(t@),
            pairs_view(rev@).reverse() == string_entries(tv.skip(i as int)),
        decreases i,
    {
        i -= 1;
        assert(tv.skip(i as int).drop_first() =~= tv.skip(i + 1));
        assert(tv.skip(i as int)[0] == tv[i as int]);
        match &t[i].1 {
            TomlValue::String(s) => {
                let ghost before = rev@;
                rev.push((t[i].0.clone(), s.clone()));
                assert(pairs_view(rev@) =~= pairs_view(before).push((t@[i as int].0@, s@)));
                assert(pairs_view(rev@).reverse() =~= seq![(t@[i as int].0@, s@)] + pairs_view(before).reverse());
            },
            _ => {},
        }
    }
    let mut j: usize = rev.len();
    while j > 0
        invariant
            j <= rev@.len(),
            pairs_view(res@) == pairs_view(rev@).reverse().take(rev@.len() - j),
        decreases j,
    {
        j -= 1;
        let p = (rev[j].0.clone(), rev[j].1.clone());
        let ghost before = res@;
        res.push(p);
        assert(pairs_view(res@) =~= pairs_view(before).push((rev@[j as int].0@, rev@[j as int].1@)));
        assert(pairs_view(rev@).reverse().take(rev@.len() - j) =~= pairs_view(rev@).reverse().take(rev@.len() - j - 1).push(pairs_view(rev@)[j as int]));
    }
    assert(pairs_view(rev@).reverse().take(rev@.len() as int) =~= pairs_view(rev@).reverse());
    assert(tv.skip(0) =~= tv);
    res
}

impl Default for Cfg {
    fn default() -> (res: Self)
        ensures
            res@ == default_cfg(),
    {
        let type_map: Vec<(String, String)> = Vec::new();
        assert(pairs_view(type_map@) =~= seq![]);
        Cfg {
            node: None,
            snake_case_naming: None,
            exception_suppression: false,
            int_over_32_as_big_int: false,
            type_map,
            enum_representation: EnumRepresentation::Flat,
        }
    }
}

impl Cfg {
    /// Reads the settings from a parsed `Cargo.toml`.
    pub fn new(cargo: &TomlTable) -> (res: Self)
        ensures
            res@ == cfg_of(table_view(cargo@)),
    {
        let found = if table_find(cargo, "tslink").is_some() {
            table_lookup(cargo, "tslink")
        } else {
            match table_lookup(cargo, "package") {
                Some(p) => match value_lookup(p, "metadata") {
                    Some(m) => value_lookup(m, "tslink"),
                    None => None,
                },
                None => None,
            }
        };
        let settings = match found {
            Some(TomlValue::Table(t)) => t,
            _ => {
                return Cfg::default();
            },
        };
        let enum_representation = match table_lookup(settings, "enum_representation") {
            Some(TomlValue::String(s)) => match EnumRepresentation::try_from_str(s.as_str()) {
                Ok(r) => r,
                Err(_) => EnumRepresentation::Flat,
            },
            _ => EnumRepresentation::Flat,
        };
        let type_map = match table_lookup(settings, "type_map") {
            Some(TomlValue::Table(m)) => string_pairs(m),
            _ => {
                let v: Vec<(String, String)> = Vec::new();
                assert(pairs_view(v@) =~= seq![]);
                v
            },
        };
        assert(settings_table(table_view(cargo@)) == Some(table_view(settings@)));
        Cfg {
            node: opt_string(table_lookup(settings, "node")),
            snake_case_naming: opt_string(table_lookup(settings, "snake_case_naming")),
            exception_suppression: bool_or_false(table_lookup(settings, "exception_suppression")),
            int_over_32_as_big_int: bool_or_false(table_lookup(settings, "int_over_32_as_big_int")),
            type_map,
            enum_representation,
        }
    }
}

} // verus!
