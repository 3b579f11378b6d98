//! TypeScript (`.ts`) output: the writer of one file, its imports and exports,
//! and the index of exports per folder.

use vstd::prelude::*;
use crate::text::{contains, contains_text, push_str, str_eq};
pub mod spec;
pub mod render;

verus! {

/// `import { entity } from "./module";`
pub struct Import {
    pub entity: String,
    pub module: String,
}

/// `export { entity } from "./module";`
pub struct Export {
    pub entity: String,
    pub module: String,
}

/// The line that imports `entity` from `module`.
pub open spec fn import_line(entity: Seq<char>, module: Seq<char>) -> Seq<char> {
    "import { "@ + entity + " } from \"./"@ + module + "\";"@
}

/// The line that re-exports `entity` from `module`.
pub open spec fn export_line(entity: Seq<char>, module: Seq<char>) -> Seq<char> {
    "export { "@ + entity + " } from \"./"@ + module + "\";"@
}

impl View for Import {
    type V = (Seq<char>, Seq<char>);

    open spec fn view(&self) -> (Seq<char>, Seq<char>) {
        (self.entity@, self.module@)
    }
}

impl View for Export {
    type V = (Seq<char>, Seq<char>);

    open spec fn view(&self) -> (Seq<char>, Seq<char>) {
        (self.entity@, self.module@)
    }
}

impl Import {
    /// The import line.
    pub fn to_string(&self) -> (res: String)
        ensures
            res@ == import_line(self.entity@, self.module@),
    {
        let mut s = "import { ".to_owned();
        push_str(&mut s, self.entity.as_str());
        push_str(&mut s, " } from \"./");
        push_str(&mut s, self.module.as_str());
        push_str(&mut s, "\";");
        s
    }
}

impl Export {
    /// The export line.
    pub fn to_string(&self) -> (res: String)
        ensures
            res@ == export_line(self.entity@, self.module@),
    {
        let mut s = "export { ".to_owned();
        push_str(&mut s, self.entity.as_str());
        push_str(&mut s, " } from \"./");
        push_str(&mut s, self.module.as_str());
        push_str(&mut s, "\";");
        s
    }

    /// A copy of the export.
    pub fn clone(&self) -> (res: Self)
        ensures
            res@ == self@,
    {
        Export { entity: self.entity.clone(), module: self.module.clone() }
    }
}

/// The views of a list of pairs of strings.
pub open spec fn pairs_of<T: View<V = (Seq<char>, Seq<char>)>>(v: Seq<T>) -> Seq<(Seq<char>, Seq<char>)> {
    v.map_values(|x: T| x@)
}

/// `s` with `x` added at the end, unless `x` is already in it.
pub open spec fn add_once<A>(s: Seq<A>, x: A) -> Seq<A> {
    if s.contains(x) { s } else { s.push(x) }
}

/// The exports to list in the `index.ts` of each folder, each pair once.
pub struct Indexer {
    pub exports: Vec<(String, Export)>,
    pub inited: bool,
}

/// The mathematical value of an [`Indexer`]'s exports: folder, entity, module.
pub open spec fn index_view(v: Seq<(String, Export)>) -> Seq<(Seq<char>, (Seq<char>, Seq<char>))> {
    v.map_values(|p: (String, Export)| (p.0@, p.1@))
}

impl Default for Indexer {
    fn default() -> (res: Self)
        ensures
            res.exports@.len() == 0,
            !res.inited,
    {
        Indexer { exports: Vec::new(), inited: false }
    }
}

impl Indexer {
    /// Records that the `index.ts` of `dest` re-exports `export`; a pair already
    /// recorded is not recorded again.
    pub fn add(&mut self, dest: &str, export: Export)
        ensures
            final(self).inited == old(self).inited,
            index_view(final(self).exports@) == add_once(index_view(old(self).exports@), (dest@, export@)),
    {
        let ghost ev = index_view(self.exports@);
        let mut i: usize = 0;
        while i < self.exports.len()
            invariant
                i <= self.exports@.len(),
                ev == index_view(self.exports@),
                forall|k: int| 0 <= k < i ==> ev[k] != (dest@, export@),
            decreases self.exports.len() - i,
        {
            let (d, e) = &self.exports[i];
            if str_eq(d.as_str(), dest) && str_eq(e.entity.as_str(), export.entity.as_str()) && str_eq(e.module.as_str(), export.module.as_str()) {
                assert(ev[i as int] == (dest@, export@));
                return;
            }
            i += 1;
        }
        assert(!ev.contains((dest@, export@)));
        self.exports.push((dest.to_owned(), export));
        assert(index_view(self.exports@) =~= ev.push((dest@, export@)));
    }
}

/// The body of a `.ts` file under construction, with the imports it needs and
/// the exports it announces for its folder's index.
pub struct Writer {
    pub buffer: String,
    pub imports: Vec<Import>,
    pub exports: Vec<Export>,
    /// What the file held when writing began; an import already in it is not repeated.
    pub content: String,
}

/// The mathematical value of a [`Writer`].
pub struct WriterV {
    pub buffer: Seq<char>,
    pub imports: Seq<(Seq<char>, Seq<char>)>,
    pub exports: Seq<(Seq<char>, Seq<char>)>,
    pub content: Seq<char>,
}

impl View for Writer {
    type V = WriterV;

    open spec fn view(&self) -> WriterV {
        WriterV {
            buffer: self.buffer@,
            imports: pairs_of(self.imports@),
            exports: pairs_of(self.exports@),
            content: self.content@,
        }
    }
}

/// The writer after appending `s` to its body.
pub open spec fn w_push(w: WriterV, s: Seq<char>) -> WriterV {
    WriterV { buffer: w.buffer + s, ..w }
}

/// The writer after asking for an import of `entity` from `module`: nothing
/// changes where the file already holds that line or it is already asked for.
pub open spec fn w_import(w: WriterV, entity: Seq<char>, module: Seq<char>) -> WriterV {
    if contains_text(w.content, import_line(entity, module)) {
        w
    } else {
        WriterV { imports: add_once(w.imports, (entity, module)), ..w }
    }
}

/// The writer after announcing an export of `entity` from `module`.
pub open spec fn w_export(w: WriterV, entity: Seq<char>, module: Seq<char>) -> WriterV {
    WriterV { exports: add_once(w.exports, (entity, module)), ..w }
}

impl Writer {
    /// An empty body for a file that held `content`.
    pub fn new(content: String) -> (res: Self)
        ensures
            res@ == (WriterV { buffer: seq![], imports: seq![], exports: seq![], content: content@ }),
    {
        let w = Writer { buffer: String::new(), imports: Vec::new(), exports: Vec::new(), content };
        assert(pairs_of(w.imports@) =~= seq![]);
        assert(pairs_of(w.exports@) =~= seq![]);
        w
    }

    /// A copy of the writer.
    pub fn copy(&self) -> (res: Self)
        ensures
            res@ == self@,
    {
        let mut imports: Vec<Import> = Vec::new();
        let mut i: usize = 0;
        while i < self.imports.len()
            invariant
                i <= self.imports@.len(),
                pairs_of(imports@) == pairs_of(self.imports@).take(i as int),
            decreases self.imports.len() - i,
        {
            let ghost before = pairs_of(imports@);
            let x = &self.imports[i];
            imports.push(Import { entity: x.entity.clone(), module: x.module.clone() });
            assert(pairs_of(imports@) =~= before.push(self.imports@[i as int]@));
            assert(pairs_of(self.imports@).take(i + 1) =~= pairs_of(self.imports@).take(i as int).push(self.imports@[i as int]@));
            i += 1;
        }
        let mut exports: Vec<Export> = Vec::new();
        let mut j: usize = 0;
        while j < self.exports.len()
            invariant
                j <= self.exports@.len(),
                pairs_of(exports@) == pairs_of(self.exports@).take(j as int),
            decreases self.exports.len() - j,
        {
            let ghost before = pairs_of(exports@);
            exports.push(self.exports[j].clone());
            assert(pairs_of(exports@) =~= before.push(self.exports@[j as int]@));
            assert(pairs_of(self.exports@).take(j + 1) =~= pairs_of(self.exports@).take(j as int).push(self.exports@[j as int]@));
            j += 1;
        }
        assert(pairs_of(self.imports@).take(self.imports@.len() as int) =~= pairs_of(self.imports@));
        assert(pairs_of(self.exports@).take(self.exports@.len() as int) =~= pairs_of(self.exports@));
        Writer { buffer: self.buffer.clone(), imports, exports, content: self.content.clone() }
    }

    /// Appends text to the body.
    pub fn push(&mut self, data: &str)
        ensures
            final(self)@ == w_push(old(self)@, data@),
    {
        push_str(&mut self.buffer, data);
    }

    /// Asks for an import of `name` from `module`.
    pub fn add_import(&mut self, name: &str, module: &str)
        ensures
            final(self)@ == w_import(old(self)@, name@, module@),
    {
        let line = Import { entity: name.to_owned(), module: module.to_owned() }.to_string();
        if contains(self.content.as_str(), line.as_str()) {
            return;
        }
        let ghost iv = pairs_of(self.imports@);
        let mut i: usize = 0;
        while i < self.imports.len()
            invariant
                i <= self.imports@.len(),
                iv == pairs_of(self.imports@),
                forall|k: int| 0 <= k < i ==> iv[k] != (name@, module@),
            decreases self.imports.len() - i,
        {
            if str_eq(self.imports[i].entity.as_str(), name) && str_eq(self.imports[i].module.as_str(), module) {
                assert(iv[i as int] == (name@, module@));
                return;
            }
            i += 1;
        }
        assert(!iv.contains((name@, module@)));
        self.imports.push(Import { entity: name.to_owned(), module: module.to_owned() });
        assert(pairs_of(self.imports@) =~= iv.push((name@, module@)));
    }

    /// Announces that this file exports `name` from `module`.
    pub fn add_export(&mut self, name: &str, module: &str)
        ensures
            final(self)@ == w_export(old(self)@, name@, module@),
    {
        let ghost ev = pairs_of(self.exports@);
        let mut i: usize = 0;
        while i < self.exports.len()
            invariant
                i <= self.exports@.len(),
                ev == pairs_of(self.exports@),
                forall|k: int| 0 <= k < i ==> ev[k] != (name@, module@),
            decreases self.exports.len() - i,
        {
            if str_eq(self.exports[i].entity.as_str(), name) && str_eq(self.exports[i].module.as_str(), module) {
                assert(ev[i as int] == (name@, module@));
                return;
            }
            i += 1;
        }
        assert(!ev.contains((name@, module@)));
        self.exports.push(Export { entity: name.to_owned(), module: module.to_owned() });
        assert(pairs_of(self.exports@) =~= ev.push((name@, module@)));
    }
}

} // verus!
