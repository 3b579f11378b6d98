//! Enums and their variants, read with the types of their values.
use vstd::prelude::*;
use crate::args::{Args, ArgsV, ArgsWriter, args_ignore};
use crate::nature::syntax::{FieldsExpr, TypeExpr, VariantExpr};
use crate::text::str_eq;
use crate::types::{Types, TypesV, type_types, variant_view, variants_view, types_seq_view, enums_view};

verus! {

/// A variant of an enum: its name, the types of its values and the arguments of its enum.
pub struct Variant {
    pub name: String,
    pub fields: Vec<Types>,
    pub args: Args,
}

/// The mathematical value of a [`Variant`].
pub struct VariantV {
    pub name: Seq<char>,
    pub fields: Seq<TypesV>,
    pub args: ArgsV,
}

impl View for Variant {
    type V = VariantV;

    open spec fn view(&self) -> VariantV {
        variant_view(*self)
    }
}

/// The written types of the values of a variant, named or not.
pub open spec fn field_types(fields: FieldsExpr) -> Seq<TypeExpr> {
    match fields {
        FieldsExpr::Named(v) => Seq::new(v@.len(), |i: int| v@[i].ty),
        FieldsExpr::Unnamed(v) => v@,
        FieldsExpr::Unit => seq![],
    }
}

/// The types read so far (`acc`) with those of `tys` added in order, and whether a
/// type was refused (with its message); the types before it stay read.
pub open spec fn read_types(tys: Seq<TypeExpr>, acc: Seq<TypesV>) -> (Seq<TypesV>, Result<(), Seq<char>>)
    decreases tys.len(),
{
    if tys.len() == 0 {
        (acc, Ok(()))
    } else {
        match type_types(tys[0]) {
            Err(e) => (acc, Err(e)),
            Ok(t) => read_types(tys.drop_first(), acc.push(t)),
        }
    }
}

impl ArgsWriter for Variant {
    fn get_args(&self) -> (res: &Args)
        ensures
            *res == self.args,
    {
        &self.args
    }
}

impl Variant {
    /// A variant without values.
    pub fn new(name: &str, args: Args) -> (res: Self)
        ensures
            res@ == (VariantV { name: name@, fields: seq![], args: args@ }),
    {
        let v = Variant { name: name.to_owned(), fields: Vec::new(), args };
        assert(types_seq_view(v.fields@) =~= seq![]);
        v
    }

    /// Reads the types of the variant's values (see [`read_types`]).
    pub fn read(&mut self, fields: &FieldsExpr) -> (res: Result<(), String>)
        ensures
            final(self)@ == (VariantV { fields: read_types(field_types(*fields), old(self)@.fields).0, ..old(self)@ }),
            match read_types(field_types(*fields), old(self)@.fields).1 {
                Ok(_) => res is Ok,
                Err(m) => res matches Err(e) && e@ == m,
            },
    {
        let ghost tys = field_types(*fields);
        let ghost start = old(self)@.fields;
        let n: usize = match fields {
            FieldsExpr::Named(v) => v.len(),
            FieldsExpr::Unnamed(v) => v.len(),
            FieldsExpr::Unit => 0,
        };
        let mut i: usize = 0;
        assert(tys.skip(0) =~= tys);
        while i < n
            invariant
                i <= n,
                n == tys.len(),
                tys == field_types(*fields),
                start == old(self)@.fields,
                self@.name == old(self)@.name,
                self@.args == old(self)@.args,
                read_types(tys, start) == read_types(tys.skip(i as int), self@.fields),
            decreases n - i,
        {
            let ty = match fields {
                FieldsExpr::Named(v) => &v[i].ty,
                FieldsExpr::Unnamed(v) => &v[i],
                FieldsExpr::Unit => {
                    return Ok(());
                },
            };
            assert(*ty == tys[i as int]);
            assert(tys.skip(i as int)[0] == tys[i as int]);
            assert(tys.skip(i as int).drop_first() =~= tys.skip(i + 1));
            let t = match Types::from_type(ty) {
                Ok(t) => t,
                Err(e) => {
                    return Err(e);
                },
            };
            let ghost before = types_seq_view(self.fields@);
            let ghost tv = t@;
            self.fields.push(t);
            assert(types_seq_view(self.fields@) =~= before.push(tv));
            i += 1;
        }
        assert(tys.skip(i as int) =~= Seq::<TypeExpr>::empty());
        Ok(())
    }
}

/// An enum: its variants, the arguments of its attribute and its name.
pub struct Enums {
    pub variants: Vec<Variant>,
    pub args: Args,
    pub name: String,
}

/// The mathematical value of an [`Enums`].
pub struct EnumsV {
    pub variants: Seq<VariantV>,
    pub args: ArgsV,
    pub name: Seq<char>,
}

impl View for Enums {
    type V = EnumsV;

    open spec fn view(&self) -> EnumsV {
        enums_view(*self)
    }
}

/// Whether a variant named `name` is among `vs`.
pub open spec fn has_variant(vs: Seq<VariantV>, name: Seq<char>) -> bool {
    exists|k: int| 0 <= k < vs.len() && #[trigger] vs[k].name == name
}

/// The variants read so far (`acc`) with those of `vs` added in order, leaving out
/// those that `args` ignores; and the message of the first variant refused (a value
/// type refused, or a name read twice), the variants before it staying read.
pub open spec fn read_variants(vs: Seq<VariantExpr>, args: ArgsV, acc: Seq<VariantV>) -> (Seq<VariantV>, Result<(), Seq<char>>)
    decreases vs.len(),
{
    if vs.len() == 0 {
        (acc, Ok(()))
    } else {
        let name = vs[0].ident@;
        if args_ignore(args, name) {
            read_variants(vs.drop_first(), args, acc)
        } else {
            let (fs, r) = read_types(field_types(vs[0].fields), seq![]);
            match r {
                Err(e) => (acc, Err(e)),
                Ok(_) => if has_variant(acc, name) {
                    (acc, Err("Enum Variant \""@ + name + "\" already exists"@))
                } else {
                    read_variants(vs.drop_first(), args, acc.push(VariantV { name, fields: fs, args }))
                },
            }
        }
    }
}

impl ArgsWriter for Enums {
    fn get_args(&self) -> (res: &Args)
        ensures
            *res == self.args,
    {
        &self.args
    }
}

impl Enums {
    /// An enum without variants.
    pub fn new(name: &str, args: Args) -> (res: Self)
        ensures
            res@ == (EnumsV { variants: seq![], args: args@, name: name@ }),
    {
        let e = Enums { variants: Vec::new(), name: name.to_owned(), args };
        assert(variants_view(e.variants@) =~= seq![]);
        e
    }

    /// Reads the variants of the enum (see [`read_variants`]).
    pub fn read(&mut self, variants: &Vec<VariantExpr>) -> (res: Result<(), String>)
        ensures
            final(self)@ == (EnumsV { variants: read_variants(variants@, old(self)@.args, old(self)@.variants).0, ..old(self)@ }),
            match read_variants(variants@, old(self)@.args, old(self)@.variants).1 {
                Ok(_) => res is Ok,
                Err(m) => res matches Err(e) && e@ == m,
            },
    {
        let ghost vs = variants@;
        let ghost args = old(self)@.args;
        let ghost start = old(self)@.variants;
        let mut i: usize = 0;
        assert(vs.skip(0) =~= vs);
        while i < variants.len()
            invariant
                i <= vs.len(),
                vs == variants@,
                start == old(self)@.variants,
                args == old(self)@.args,
                self@.args == args,
                self@.name == old(self)@.name,
                read_variants(vs, args, start) == read_variants(vs.skip(i as int), args, self@.variants),
            decreases variants.len() - i,
        {
            let ghost rest = vs.skip(i as int);
            assert(rest[0] == vs[i as int]);
            assert(rest.drop_first() =~= vs.skip(i + 1));
            let variant = &variants[i];
            let name = &variant.ident;
            if self.args.is_ignored(name) {
                i += 1;
                continue;
            }
            let mut v = Variant::new(name.as_str(), self.args.clone());
            v.read(&variant.fields)?;
            if self.has_variant_named(name) {
                let mut m = "Enum Variant \"".to_owned();
                crate::text::push_str(&mut m, name.as_str());
                crate::text::push_str(&mut m, "\" already exists");
                return Err(m);
            }
            let ghost before = variants_view(self.variants@);
            let ghost vv = v@;
            self.variants.push(v);
            assert(variants_view(self.variants@) =~= before.push(vv));
            i += 1;
        }
        assert(vs.skip(i as int) =~= Seq::<VariantExpr>::empty());
        Ok(())
    }

    fn has_variant_named(&self, name: &String) -> (res: bool)
        ensures
            res == has_variant(self@.variants, name@),
    {
        let ghost cur = self@.variants;
        let mut k: usize = 0;
        while k < self.variants.len()
            invariant
                k <= self.variants@.len(),
                cur == self@.variants,
                cur.len() == self.variants@.len(),
                forall|j: int| 0 <= j < k ==> cur[j].name != name@,
            decreases self.variants.len() - k,
        {
            assert(cur[k as int] == self.variants@[k as int]@);
            if str_eq(self.variants[k].name.as_str(), name.as_str()) {
                assert(cur[k as int].name == name@);
                return true;
            }
            k += 1;
        }
        false
    }

    /// Whether no variant carries values.
    pub fn is_flat(&self) -> (res: bool)
        ensures
            res == forall|k: int| 0 <= k < self@.variants.len() ==> (#[trigger] self@.variants[k]).fields.len() == 0,
    {
        let mut i: usize = 0;
        while i < self.variants.len()
            invariant
                i <= self.variants@.len(),
                self@.variants.len() == self.variants@.len(),
                forall|k: int| 0 <= k < i ==> (#[trigger] self@.variants[k]).fields.len() == 0,
            decreases self.variants.len() - i,
        {
            assert(self@.variants[i as int] == self.variants@[i as int]@);
            if self.variants[i].fields.len() > 0 {
                return false;
            }
            i += 1;
        }
        true
    }
}

} // verus!
