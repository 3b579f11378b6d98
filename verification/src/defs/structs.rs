//! Structs with their fields and methods, each kept under its name.
use vstd::prelude::*;
use crate::args::{Args, ArgsV, ArgsWriter, args_ignore, ignores_self, args_from_attrs};
use crate::context::attrs_view;
use crate::nature::syntax::{FieldsExpr, FnSigExpr, ImplItemExpr, NamedFieldExpr, has_receiver};
use crate::text::str_eq;
use crate::types::{Types, TypesV, type_types, fn_types, self_returned, field_view, fields_view, structs_view};

verus! {

/// A field or method of a struct: its type, its name and the arguments of its own attribute.
pub struct Field {
    pub ty: Types,
    pub name: String,
    pub args: Option<Args>,
}

/// The mathematical value of a [`Field`].
pub struct FieldV {
    pub ty: TypesV,
    pub name: Seq<char>,
    pub args: Option<ArgsV>,
}

impl View for Field {
    type V = FieldV;

    open spec fn view(&self) -> FieldV {
        field_view(*self)
    }
}

impl Field {
    /// A field of the given name and type.
    pub fn new(name: String, ty: Types, args: Option<Args>) -> (res: Self)
        ensures
            res.name == name,
            res.ty == ty,
            res.args == args,
    {
        Field { name, ty, args }
    }
}

/// A struct: its fields and methods by name (each name once), the arguments of its
/// attribute and its name.
pub struct Structs {
    pub fields: Vec<(String, Field)>,
    pub args: Args,
    pub name: String,
}

/// The mathematical value of a [`Structs`].
pub struct StructsV {
    pub fields: Seq<(Seq<char>, FieldV)>,
    pub args: ArgsV,
    pub name: Seq<char>,
}

impl View for Structs {
    type V = StructsV;

    open spec fn view(&self) -> StructsV {
        structs_view(*self)
    }
}

/// The index of the entry named `name`, or -1.
pub open spec fn field_index(fs: Seq<(Seq<char>, FieldV)>, name: Seq<char>) -> int
    decreases fs.len(),
{
    if fs.len() == 0 {
        -1
    } else if fs[0].0 == name {
        0
    } else {
        let r = field_index(fs.drop_first(), name);
        if r < 0 { -1 } else { r + 1 }
    }
}

/// The entries after setting `name` to `f`: it takes the place of the entry of
/// that name, or comes last.
pub open spec fn put_field(fs: Seq<(Seq<char>, FieldV)>, name: Seq<char>, f: FieldV) -> Seq<(Seq<char>, FieldV)> {
    let j = field_index(fs, name);
    if j < 0 { fs.push((name, f)) } else { fs.update(j, (name, f)) }
}

/// Facts about `field_index`: where it points, and that nothing before it matches.
pub proof fn lemma_field_index(fs: Seq<(Seq<char>, FieldV)>, name: Seq<char>)
    ensures
        -1 <= field_index(fs, name) < fs.len(),
        field_index(fs, name) >= 0 ==> fs[field_index(fs, name)].0 == name,
        field_index(fs, name) >= 0 ==> forall|k: int| 0 <= k < field_index(fs, name) ==> fs[k].0 != name,
        field_index(fs, name) < 0 ==> forall|k: int| 0 <= k < fs.len() ==> fs[k].0 != name,
    decreases fs.len(),
{
    if fs.len() > 0 && fs[0].0 != name {
        lemma_field_index(fs.drop_first(), name);
        assert forall|k: int| 0 < k < fs.len() implies fs[k] == fs.drop_first()[k - 1] by {}
    }
}

/// The fields read so far (`acc`) with the named fields `fs` set in order, leaving
/// out those whose own attribute ignores them; and the message of the first one
/// refused, the fields before it staying set.
pub open spec fn read_named(fs: Seq<NamedFieldExpr>, acc: Seq<(Seq<char>, FieldV)>) -> (Seq<(Seq<char>, FieldV)>, Result<(), Seq<char>>)
    decreases fs.len(),
{
    if fs.len() == 0 {
        (acc, Ok(()))
    } else {
        match args_from_attrs(attrs_view(fs[0].attrs@)) {
            Err(m) => (acc, Err(m)),
            Ok(a) => if ignores_self(a) {
                read_named(fs.drop_first(), acc)
            } else {
                match type_types(fs[0].ty) {
                    Err(e) => (acc, Err(e)),
                    Ok(t) => read_named(fs.drop_first(), put_field(acc, fs[0].ident@, FieldV { ty: t, name: fs[0].ident@, args: a })),
                }
            },
        }
    }
}

/// The fields read so far (`acc`) with the methods among `items` set in order,
/// leaving out those that their own attribute or the struct's arguments `pargs`
/// ignore; and the message of the first one refused, those before it staying set.
pub open spec fn read_methods(items: Seq<ImplItemExpr>, pargs: ArgsV, acc: Seq<(Seq<char>, FieldV)>) -> (Seq<(Seq<char>, FieldV)>, Result<(), Seq<char>>)
    decreases items.len(),
{
    if items.len() == 0 {
        (acc, Ok(()))
    } else {
        match items[0] {
            ImplItemExpr::Fn(f) => match args_from_attrs(attrs_view(f.attrs@)) {
                Err(m) => (acc, Err(m)),
                Ok(a) => if ignores_self(a) || args_ignore(pargs, f.sig.ident@) {
                    read_methods(items.drop_first(), pargs, acc)
                } else {
                    match fn_types(f.sig) {
                        Err(e) => (acc, Err(e)),
                        Ok(t) => read_methods(items.drop_first(), pargs, put_field(acc, f.sig.ident@, FieldV { ty: t, name: f.sig.ident@, args: a })),
                    }
                },
            },
            ImplItemExpr::Other => read_methods(items.drop_first(), pargs, acc),
        }
    }
}

/// The view of optional arguments.
pub open spec fn opt_args_view(a: Option<Args>) -> Option<ArgsV> {
    match a {
        Some(x) => Some(x@),
        None => None,
    }
}

impl ArgsWriter for Structs {
    fn get_args(&self) -> (res: &Args)
        ensures
            *res == self.args,
    {
        &self.args
    }
}

impl Structs {
    /// Whether a function belongs to a struct: it takes `self`, or it returns
    /// `Self`; the message of a signature that cannot be read otherwise.
    pub fn is_struct_method(sig: &FnSigExpr) -> (res: Result<bool, String>)
        ensures
            has_receiver(sig.inputs@) ==> res == Ok::<bool, String>(true),
            !has_receiver(sig.inputs@) ==> match fn_types(*sig) {
                Ok(t) => res == Ok::<bool, String>(self_returned(t)),
                Err(m) => res matches Err(e) && e@ == m,
            },
    {
        let mut i: usize = 0;
        while i < sig.inputs.len()
            invariant
                i <= sig.inputs@.len(),
                forall|k: int| 0 <= k < i ==> !(#[trigger] sig.inputs@[k] is Receiver),
            decreases sig.inputs.len() - i,
        {
            if let crate::nature::syntax::FnArgExpr::Receiver = &sig.inputs[i] {
                assert(sig.inputs@[i as int] is Receiver);
                return Ok(true);
            }
            i += 1;
        }
        let t = Types::from_fn(sig)?;
        Ok(t.is_self_returned())
    }

    fn ignore(args: &Option<Args>) -> (res: bool)
        ensures
            res == ignores_self(opt_args_view(*args)),
    {
        match args {
            Some(args) => args.ignore_self(),
            None => false,
        }
    }

    /// A struct without fields.
    pub fn new(name: &str, args: Args) -> (res: Self)
        ensures
            res@ == (StructsV { fields: seq![], args: args@, name: name@ }),
    {
        let s = Structs { fields: Vec::new(), args, name: name.to_owned() };
        assert(fields_view(s.fields@) =~= seq![]);
        s
    }

    fn put(&mut self, name: String, field: Field)
        ensures
            final(self)@ == (StructsV { fields: put_field(old(self)@.fields, name@, field@), ..old(self)@ }),
    {
        let ghost fv = self@.fields;
        proof { lemma_field_index(fv, name@); }
        let mut i: usize = 0;
        while i < self.fields.len()
            invariant
                i <= self.fields@.len(),
                fv == self@.fields,
                fv.len() == self.fields@.len(),
                *self == *old(self),
                forall|k: int| 0 <= k < i ==> fv[k].0 != name@,
            decreases self.fields.len() - i,
        {
            assert(fv[i as int].0 == self.fields@[i as int].0@);
            if str_eq(self.fields[i].0.as_str(), name.as_str()) {
                proof { lemma_field_index(fv, name@); }
                assert(field_index(fv, name@) == i);
                let ghost fview = field@;
                let ghost nview = name@;
                self.fields.set(i, (name, field));
                assert(fields_view(self.fields@) =~= fv.update(i as int, (nview, fview)));
                return;
            }
            i += 1;
        }
        proof { lemma_field_index(fv, name@); }
        assert(field_index(fv, name@) < 0);
        let ghost fview = field@;
        let ghost nview = name@;
        self.fields.push((name, field));
        assert(fields_view(self.fields@) =~= fv.push((nview, fview)));
    }

    /// Reads the named fields of the struct (see [`read_named`]); other shapes of
    /// fields add nothing.
    pub fn read(&mut self, fields: &FieldsExpr) -> (res: Result<(), String>)
        ensures
            match *fields {
                FieldsExpr::Named(v) => {
                    &&& final(self)@ == (StructsV { fields: read_named(v@, old(self)@.fields).0, ..old(self)@ })
                    &&& match read_named(v@, old(self)@.fields).1 {
                        Ok(_) => res is Ok,
                        Err(m) => res matches Err(e) && e@ == m,
                    }
                },
                _ => final(self)@ == old(self)@ && res is Ok,
            },
    {
        match fields {
            FieldsExpr::Named(v) => {
                let ghost fs = v@;
                let ghost start = old(self)@.fields;
                let mut i: usize = 0;
                assert(fs.skip(0) =~= fs);
                while i < v.len()
                    invariant
                        i <= fs.len(),
                        fs == v@,
                        *fields == FieldsExpr::Named(*v),
                        start == old(self)@.fields,
                        self@.args == old(self)@.args,
                        self@.name == old(self)@.name,
                        read_named(fs, start) == read_named(fs.skip(i as int), self@.fields),
                    decreases v.len() - i,
                {
                    let ghost rest = fs.skip(i as int);
                    assert(rest[0] == fs[i as int]);
                    assert(rest.drop_first() =~= fs.skip(i + 1));
                    let field = &v[i];
                    assert(*field == fs[i as int]);
                    let args = match Args::from_attrs(&field.attrs) {
                        Ok(a) => a,
                        Err(m) => {
                            assert(read_named(rest, self@.fields) == (self@.fields, Err::<(), Seq<char>>(m@)));
                            return Err(m);
                        },
                    };
                    assert(opt_args_view(args) == args_from_attrs(attrs_view(field.attrs@))->Ok_0);
                    if Self::ignore(&args) {
                        i += 1;
                        continue;
                    }
                    let ty = match Types::from_type(&field.ty) {
                        Ok(t) => t,
                        Err(m) => {
                            assert(read_named(rest, self@.fields) == (self@.fields, Err::<(), Seq<char>>(m@)));
                            return Err(m);
                        },
                    };
                    let f = Field::new(field.ident.clone(), ty, args);
                    assert(f@ == (FieldV { ty: ty@, name: field.ident@, args: opt_args_view(args) }));
                    self.put(field.ident.clone(), f);
                    i += 1;
                }
                assert(fs.skip(i as int) =~= Seq::<NamedFieldExpr>::empty());
                Ok(())
            },
            _ => Ok(()),
        }
    }

    /// Reads the methods of an `impl` block of the struct (see [`read_methods`]).
    pub fn read_impl(&mut self, items: &Vec<ImplItemExpr>, parent_args: &Args) -> (res: Result<(), String>)
        ensures
            final(self)@ == (StructsV { fields: read_methods(items@, parent_args@, old(self)@.fields).0, ..old(self)@ }),
            match read_methods(items@, parent_args@, old(self)@.fields).1 {
                Ok(_) => res is Ok,
                Err(m) => res matches Err(e) && e@ == m,
            },
    {
        let ghost its = items@;
        let ghost start = old(self)@.fields;
        let mut i: usize = 0;
        assert(its.skip(0) =~= its);
        while i < items.len()
            invariant
                i <= its.len(),
                its == items@,
                start == old(self)@.fields,
                self@.args == old(self)@.args,
                self@.name == old(self)@.name,
                read_methods(its, parent_args@, start) == read_methods(its.skip(i as int), parent_args@, self@.fields),
            decreases items.len() - i,
        {
            let ghost rest = its.skip(i as int);
            assert(rest[0] == its[i as int]);
            assert(rest.drop_first() =~= its.skip(i + 1));
            if let ImplItemExpr::Fn(fn_item) = &items[i] {
                assert(rest[0] == ImplItemExpr::Fn(*fn_item));
                let args = match Args::from_attrs(&fn_item.attrs) {
                    Ok(a) => a,
                    Err(m) => {
                        assert(read_methods(rest, parent_args@, self@.fields) == (self@.fields, Err::<(), Seq<char>>(m@)));
                        return Err(m);
                    },
                };
                assert(opt_args_view(args) == args_from_attrs(attrs_view(fn_item.attrs@))->Ok_0);
                if Self::ignore(&args) {
                    i += 1;
                    continue;
                }
                let name = fn_item.sig.ident.clone();
                if parent_args.is_ignored(&name) {
                    i += 1;
                    continue;
                }
                let ty = match Types::from_fn(&fn_item.sig) {
                    Ok(t) => t,
                    Err(m) => {
                        assert(read_methods(rest, parent_args@, self@.fields) == (self@.fields, Err::<(), Seq<char>>(m@)));
                        return Err(m);
                    },
                };
                let f = Field::new(name.clone(), ty, args);
                assert(f@ == (FieldV { ty: ty@, name: name@, args: opt_args_view(args) }));
                self.put(name, f);
            }
            i += 1;
        }
        assert(its.skip(i as int) =~= Seq::<ImplItemExpr>::empty());
        Ok(())
    }
}

} // verus!
