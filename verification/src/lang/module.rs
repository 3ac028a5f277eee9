//! The symbol table of one compilation unit.
use crate::lang::{
    Const, Func, FuncSignature, Import, StructType, Symbol, SymbolModel, SymbolRef, Variable,
};
use vstd::prelude::*;
use vstd::string::*;

verus! {

/// One source file's symbols: functions, constants, variables, struct types
/// and imports, in one flat namespace.
#[derive(Debug)]
pub struct Module {
    identifier: String,
    functions: Vec<(String, Func)>,
    constants: Vec<(String, Const)>,
    variables: Vec<(String, Variable)>,
    types: Vec<(String, StructType)>,
    imports: Vec<(String, Import)>,
    exports: Vec<(String, FuncSignature)>,
}

/// Whether the store has an entry under `name`.
pub open spec fn has_key<T>(entries: Seq<(String, T)>, name: Seq<char>) -> bool {
    exists|i: int| 0 <= i < entries.len() && (#[trigger] entries[i]).0@ == name
}

/// The index of an entry under `name`.
pub open spec fn key_index<T>(entries: Seq<(String, T)>, name: Seq<char>) -> int {
    choose|i: int| 0 <= i < entries.len() && (#[trigger] entries[i]).0@ == name
}

/// Whether no two entries of the store have the same name.
pub open spec fn unique_keys<T>(entries: Seq<(String, T)>) -> bool {
    forall|i: int, j: int|
        0 <= i < j < entries.len() ==> (#[trigger] entries[i]).0@ != (#[trigger] entries[j]).0@
}

/// Whether no name has an entry in both stores.
pub open spec fn disjoint_keys<T, U>(a: Seq<(String, T)>, b: Seq<(String, U)>) -> bool {
    forall|i: int, j: int|
        0 <= i < a.len() && 0 <= j < b.len() ==> (#[trigger] a[i]).0@ != (#[trigger] b[j]).0@
}

proof fn lemma_key_index<T>(entries: Seq<(String, T)>, i: int)
    requires
        unique_keys(entries),
        0 <= i < entries.len(),
    ensures
        has_key(entries, entries[i].0@),
        key_index(entries, entries[i].0@) == i,
{
    let j = key_index(entries, entries[i].0@);
    assert(0 <= j < entries.len() && entries[j].0@ == entries[i].0@);
}

proof fn lemma_push_entry<T>(entries: Seq<(String, T)>, entry: (String, T))
    requires
        unique_keys(entries),
        !has_key(entries, entry.0@),
    ensures
        unique_keys(entries.push(entry)),
        forall|name: Seq<char>| #[trigger]
            has_key(entries.push(entry), name) == (has_key(entries, name) || name == entry.0@),
        forall|name: Seq<char>|
            has_key(entries, name) ==> #[trigger] key_index(entries.push(entry), name)
                == key_index(entries, name),
        key_index(entries.push(entry), entry.0@) == entries.len(),
{
    let pushed = entries.push(entry);
    assert forall|i: int, j: int| 0 <= i < j < pushed.len() implies (#[trigger] pushed[i]).0@ != (
    #[trigger] pushed[j]).0@ by {
        if j == entries.len() {
            assert(entries[i].0@ != entry.0@);
        } else {
            assert(entries[i].0@ != entries[j].0@);
        }
    }
    assert forall|name: Seq<char>| #[trigger]
        has_key(pushed, name) == (has_key(entries, name) || name == entry.0@) by {
        if has_key(pushed, name) {
            let i = key_index(pushed, name);
            if i < entries.len() {
                assert(entries[i].0@ == name);
            }
        }
        if has_key(entries, name) {
            let i = key_index(entries, name);
            assert(pushed[i].0@ == name);
        }
        if name == entry.0@ {
            assert(pushed[entries.len() as int].0@ == name);
        }
    }
    assert forall|name: Seq<char>| has_key(entries, name) implies #[trigger] key_index(
        pushed,
        name,
    ) == key_index(entries, name) by {
        let i = key_index(entries, name);
        assert(pushed[i].0@ == name);
        lemma_key_index(pushed, i);
    }
    lemma_key_index(pushed, entries.len() as int);
}

proof fn lemma_remove_entry<T>(entries: Seq<(String, T)>, at: int)
    requires
        unique_keys(entries),
        0 <= at < entries.len(),
    ensures
        unique_keys(entries.remove(at)),
        forall|name: Seq<char>| #[trigger]
            has_key(entries.remove(at), name) == (has_key(entries, name) && name
                != entries[at].0@),
        forall|name: Seq<char>|
            has_key(entries.remove(at), name) ==> (#[trigger] entries.remove(at)[key_index(
                entries.remove(at),
                name,
            )]) == entries[key_index(entries, name)],
{
    let removed = entries.remove(at);
    assert forall|i: int, j: int| 0 <= i < j < removed.len() implies (#[trigger] removed[i]).0@
        != (#[trigger] removed[j]).0@ by {
        let oi = if i < at { i } else { i + 1 };
        let oj = if j < at { j } else { j + 1 };
        assert(removed[i] == entries[oi]);
        assert(removed[j] == entries[oj]);
    }
    assert forall|name: Seq<char>| #[trigger]
        has_key(removed, name) == (has_key(entries, name) && name != entries[at].0@) by {
        if has_key(removed, name) {
            let i = key_index(removed, name);
            let oi = if i < at { i } else { i + 1 };
            assert(removed[i] == entries[oi]);
            assert(entries[oi].0@ == name);
            if oi < at {
                assert(entries[oi].0@ != entries[at].0@);
            } else {
                assert(entries[at].0@ != entries[oi].0@);
            }
        }
        if has_key(entries, name) && name != entries[at].0@ {
            let oi = key_index(entries, name);
            let i = if oi < at { oi } else { oi - 1 };
            assert(removed[i] == entries[oi]);
            assert(removed[i].0@ == name);
        }
    }
    assert forall|name: Seq<char>| has_key(removed, name) implies (#[trigger] removed[key_index(
        removed,
        name,
    )]) == entries[key_index(entries, name)] by {
        let i = key_index(removed, name);
        let oi = if i < at { i } else { i + 1 };
        assert(removed[i] == entries[oi]);
        lemma_key_index(entries, oi);
    }
}

proof fn lemma_disjoint_key<T, U>(a: Seq<(String, T)>, b: Seq<(String, U)>, name: Seq<char>)
    requires
        disjoint_keys(a, b),
    ensures
        !(has_key(a, name) && has_key(b, name)),
{
    if has_key(a, name) && has_key(b, name) {
        let i = key_index(a, name);
        let j = key_index(b, name);
        assert(a[i].0@ != b[j].0@);
    }
}

proof fn lemma_push_disjoint<T, U>(a: Seq<(String, T)>, entry: (String, T), b: Seq<(String, U)>)
    requires
        !has_key(b, entry.0@),
    ensures
        disjoint_keys(a, b) ==> disjoint_keys(a.push(entry), b),
        disjoint_keys(b, a) ==> disjoint_keys(b, a.push(entry)),
{
    let pushed = a.push(entry);
    if disjoint_keys(a, b) {
        assert forall|i: int, j: int| 0 <= i < pushed.len() && 0 <= j < b.len() implies (
        #[trigger] pushed[i]).0@ != (#[trigger] b[j]).0@ by {
            if i < a.len() {
                assert(a[i].0@ != b[j].0@);
            }
        }
    }
    if disjoint_keys(b, a) {
        assert forall|j: int, i: int| 0 <= j < b.len() && 0 <= i < pushed.len() implies (
        #[trigger] b[j]).0@ != (#[trigger] pushed[i]).0@ by {
            if i < a.len() {
                assert(b[j].0@ != a[i].0@);
            }
        }
    }
}

proof fn lemma_remove_disjoint<T, U>(a: Seq<(String, T)>, at: int, b: Seq<(String, U)>)
    requires
        0 <= at < a.len(),
    ensures
        disjoint_keys(a, b) ==> disjoint_keys(a.remove(at), b),
        disjoint_keys(b, a) ==> disjoint_keys(b, a.remove(at)),
{
    let removed = a.remove(at);
    if disjoint_keys(a, b) {
        assert forall|i: int, j: int| 0 <= i < removed.len() && 0 <= j < b.len() implies (
        #[trigger] removed[i]).0@ != (#[trigger] b[j]).0@ by {
            let oi = if i < at { i } else { i + 1 };
            assert(removed[i] == a[oi]);
            assert(a[oi].0@ != b[j].0@);
        }
    }
    if disjoint_keys(b, a) {
        assert forall|j: int, i: int| 0 <= j < b.len() && 0 <= i < removed.len() implies (
        #[trigger] b[j]).0@ != (#[trigger] removed[i]).0@ by {
            let oi = if i < at { i } else { i + 1 };
            assert(removed[i] == a[oi]);
            assert(b[j].0@ != a[oi].0@);
        }
    }
}

/// The index of the entry under `key`, if there is one.
fn find<T>(entries: &Vec<(String, T)>, key: &String) -> (r: Option<usize>)
    requires
        unique_keys(entries@),
    ensures
        match r {
            Some(i) => has_key(entries@, key@) && i == key_index(entries@, key@) && i
                < entries@.len(),
            None => !has_key(entries@, key@),
        },
{
    let mut i: usize = 0;
    while i < entries.len()
        invariant
            i <= entries@.len(),
            unique_keys(entries@),
            forall|k: int| 0 <= k < i ==> (#[trigger] entries@[k]).0@ != key@,
        decreases entries@.len() - i,
    {
        if entries[i].0 == *key {
            proof {
                lemma_key_index(entries@, i as int);
            }
            return Some(i);
        }
        i += 1;
    }
    None
}

impl Module {
    /// Whether the stores are in order: no name twice in a store, and no name
    /// in two stores.
    pub closed spec fn wf(&self) -> bool {
        &&& unique_keys(self.functions@)
        &&& unique_keys(self.constants@)
        &&& unique_keys(self.variables@)
        &&& unique_keys(self.types@)
        &&& unique_keys(self.imports@)
        &&& disjoint_keys(self.functions@, self.constants@)
        &&& disjoint_keys(self.functions@, self.variables@)
        &&& disjoint_keys(self.functions@, self.types@)
        &&& disjoint_keys(self.functions@, self.imports@)
        &&& disjoint_keys(self.constants@, self.variables@)
        &&& disjoint_keys(self.constants@, self.types@)
        &&& disjoint_keys(self.constants@, self.imports@)
        &&& disjoint_keys(self.variables@, self.types@)
        &&& disjoint_keys(self.variables@, self.imports@)
        &&& disjoint_keys(self.types@, self.imports@)
    }

    /// Whether some store holds `name`.
    pub closed spec fn holds(&self, name: Seq<char>) -> bool {
        has_key(self.functions@, name) || has_key(self.constants@, name) || has_key(
            self.variables@,
            name,
        ) || has_key(self.types@, name) || has_key(self.imports@, name)
    }

    /// The symbol that `name` resolves to: the stores are asked in the order
    /// functions, constants, variables, struct types, imports.
    pub closed spec fn symbol(&self, name: Seq<char>) -> SymbolModel {
        if has_key(self.functions@, name) {
            SymbolModel::Function(self.functions@[key_index(self.functions@, name)].1)
        } else if has_key(self.constants@, name) {
            SymbolModel::Constant(self.constants@[key_index(self.constants@, name)].1@)
        } else if has_key(self.variables@, name) {
            SymbolModel::Variable(self.variables@[key_index(self.variables@, name)].1@)
        } else if has_key(self.types@, name) {
            SymbolModel::Type(self.types@[key_index(self.types@, name)].1)
        } else {
            SymbolModel::Import(self.imports@[key_index(self.imports@, name)].1@)
        }
    }

    /// The name that the module was created with.
    pub closed spec fn identifier(&self) -> Seq<char> {
        self.identifier@
    }
}

impl View for Module {
    type V = Map<Seq<char>, SymbolModel>;

    /// The namespace of the module: each name that is defined, with the
    /// symbol it resolves to.
    closed spec fn view(&self) -> Map<Seq<char>, SymbolModel> {
        Map::new(|name: Seq<char>| self.holds(name), |name: Seq<char>| self.symbol(name))
    }
}

impl Module {
    /// An empty module named `ident`.
    pub fn new(ident: String) -> (r: Self)
        ensures
            r.wf(),
            r@ == Map::<Seq<char>, SymbolModel>::empty(),
            r.identifier() == ident@,
    {
        let r = Module {
            identifier: ident,
            constants: Vec::new(),
            variables: Vec::new(),
            functions: Vec::new(),
            types: Vec::new(),
            imports: Vec::new(),
            exports: Vec::new(),
        };
        assert(r@ =~= Map::<Seq<char>, SymbolModel>::empty());
        r
    }

    /// The symbol that `ident` resolves to, if it is defined.
    pub fn lookup(&self, ident: &str) -> (r: Option<SymbolRef<'_>>)
        requires
            self.wf(),
        ensures
            r is Some == self@.contains_key(ident@),
            r is Some ==> r->0@ == self@[ident@],
    {
        let key = String::from_str(ident);
        if let Some(i) = find(&self.functions, &key) {
            return Some(SymbolRef::Function(&self.functions[i].1));
        }
        if let Some(i) = find(&self.constants, &key) {
            return Some(SymbolRef::Constant(&self.constants[i].1));
        }
        if let Some(i) = find(&self.variables, &key) {
            return Some(SymbolRef::Variable(&self.variables[i].1));
        }
        if let Some(i) = find(&self.types, &key) {
            return Some(SymbolRef::Type(&self.types[i].1));
        }
        if let Some(i) = find(&self.imports, &key) {
            return Some(SymbolRef::Import(&self.imports[i].1));
        }
        None
    }

    /// Removes the definition of `ident`, if there is one, and returns the
    /// symbol it resolved to.
    pub fn undefine(&mut self, ident: &str) -> (r: Option<Symbol>)
        requires
            old(self).wf(),
        ensures
            final(self).wf(),
            final(self).identifier() == old(self).identifier(),
            r is Some == old(self)@.contains_key(ident@),
            r is Some ==> r->0@ == old(self)@[ident@],
            final(self)@ == old(self)@.remove(ident@),
    {
        let key = String::from_str(ident);
        let ghost name = ident@;
        proof {
            lemma_disjoint_key(self.functions@, self.constants@, name);
            lemma_disjoint_key(self.functions@, self.variables@, name);
            lemma_disjoint_key(self.functions@, self.types@, name);
            lemma_disjoint_key(self.functions@, self.imports@, name);
            lemma_disjoint_key(self.constants@, self.variables@, name);
            lemma_disjoint_key(self.constants@, self.types@, name);
            lemma_disjoint_key(self.constants@, self.imports@, name);
            lemma_disjoint_key(self.variables@, self.types@, name);
            lemma_disjoint_key(self.variables@, self.imports@, name);
            lemma_disjoint_key(self.types@, self.imports@, name);
        }
        if let Some(i) = find(&self.functions, &key) {
            proof {
                lemma_remove_entry(self.functions@, i as int);
                lemma_remove_disjoint(self.functions@, i as int, self.constants@);
                lemma_remove_disjoint(self.functions@, i as int, self.variables@);
                lemma_remove_disjoint(self.functions@, i as int, self.types@);
                lemma_remove_disjoint(self.functions@, i as int, self.imports@);
            }
            let entry = self.functions.remove(i);
            assert(self@ =~= old(self)@.remove(name));
            return Some(Symbol::Function(entry.1));
        }
        if let Some(i) = find(&self.constants, &key) {
            proof {
                lemma_remove_entry(self.constants@, i as int);
                lemma_remove_disjoint(self.constants@, i as int, self.functions@);
                lemma_remove_disjoint(self.constants@, i as int, self.variables@);
                lemma_remove_disjoint(self.constants@, i as int, self.types@);
                lemma_remove_disjoint(self.constants@, i as int, self.imports@);
            }
            let entry = self.constants.remove(i);
            assert(self@ =~= old(self)@.remove(name));
            return Some(Symbol::Constant(entry.1));
        }
        if let Some(i) = find(&self.variables, &key) {
            proof {
                lemma_remove_entry(self.variables@, i as int);
                lemma_remove_disjoint(self.variables@, i as int, self.functions@);
                lemma_remove_disjoint(self.variables@, i as int, self.constants@);
                lemma_remove_disjoint(self.variables@, i as int, self.types@);
                lemma_remove_disjoint(self.variables@, i as int, self.imports@);
            }
            let entry = self.variables.remove(i);
            assert(self@ =~= old(self)@.remove(name));
            return Some(Symbol::Variable(entry.1));
        }
        if let Some(i) = find(&self.types, &key) {
            proof {
                lemma_remove_entry(self.types@, i as int);
                lemma_remove_disjoint(self.types@, i as int, self.functions@);
                lemma_remove_disjoint(self.types@, i as int, self.constants@);
                lemma_remove_disjoint(self.types@, i as int, self.variables@);
                lemma_remove_disjoint(self.types@, i as int, self.imports@);
            }
            let entry = self.types.remove(i);
            assert(self@ =~= old(self)@.remove(name));
            return Some(Symbol::Type(entry.1));
        }
        if let Some(i) = find(&self.imports, &key) {
            proof {
                lemma_remove_entry(self.imports@, i as int);
                lemma_remove_disjoint(self.imports@, i as int, self.functions@);
                lemma_remove_disjoint(self.imports@, i as int, self.constants@);
                lemma_remove_disjoint(self.imports@, i as int, self.variables@);
                lemma_remove_disjoint(self.imports@, i as int, self.types@);
            }
            let entry = self.imports.remove(i);
            assert(self@ =~= old(self)@.remove(name));
            return Some(Symbol::Import(entry.1));
        }
        assert(self@ =~= old(self)@.remove(name));
        None
    }

    /// Defines `ident` as `symb`, unless the name is taken: a name that
    /// resolves already keeps its symbol, and the module stays as it is.
    pub fn define(&mut self, ident: String, symb: Symbol) -> (r: Result<(), ()>)
        requires
            old(self).wf(),
        ensures
            final(self).wf(),
            final(self).identifier() == old(self).identifier(),
            r is Err == old(self)@.contains_key(ident@),
            r is Err ==> *final(self) == *old(self),
            r is Ok ==> final(self)@ == old(self)@.insert(ident@, symb@),
    {
        if self.lookup(ident.as_str()).is_some() {
            return Err(());  // Already defined
        }
        let ghost name = ident@;
        match symb {
            Symbol::Function(f) => {
                proof {
                    lemma_push_entry(self.functions@, (ident, f));
                    lemma_push_disjoint(self.functions@, (ident, f), self.constants@);
                    lemma_push_disjoint(self.functions@, (ident, f), self.variables@);
                    lemma_push_disjoint(self.functions@, (ident, f), self.types@);
                    lemma_push_disjoint(self.functions@, (ident, f), self.imports@);
                }
                self.functions.push((ident, f));
            },
            Symbol::Variable(v) => {
                proof {
                    lemma_push_entry(self.variables@, (ident, v));
                    lemma_push_disjoint(self.variables@, (ident, v), self.functions@);
                    lemma_push_disjoint(self.variables@, (ident, v), self.constants@);
                    lemma_push_disjoint(self.variables@, (ident, v), self.types@);
                    lemma_push_disjoint(self.variables@, (ident, v), self.imports@);
                }
                self.variables.push((ident, v));
            },
            Symbol::Constant(c) => {
                proof {
                    lemma_push_entry(self.constants@, (ident, c));
                    lemma_push_disjoint(self.constants@, (ident, c), self.functions@);
                    lemma_push_disjoint(self.constants@, (ident, c), self.variables@);
                    lemma_push_disjoint(self.constants@, (ident, c), self.types@);
                    lemma_push_disjoint(self.constants@, (ident, c), self.imports@);
                }
                self.constants.push((ident, c));
            },
            Symbol::Type(t) => {
                proof {
                    lemma_push_entry(self.types@, (ident, t));
                    lemma_push_disjoint(self.types@, (ident, t), self.functions@);
                    lemma_push_disjoint(self.types@, (ident, t), self.constants@);
                    lemma_push_disjoint(self.types@, (ident, t), self.variables@);
                    lemma_push_disjoint(self.types@, (ident, t), self.imports@);
                }
                self.types.push((ident, t));
            },
            Symbol::Import(i) => {
                proof {
                    lemma_push_entry(self.imports@, (ident, i));
                    lemma_push_disjoint(self.imports@, (ident, i), self.functions@);
                    lemma_push_disjoint(self.imports@, (ident, i), self.constants@);
                    lemma_push_disjoint(self.imports@, (ident, i), self.variables@);
                    lemma_push_disjoint(self.imports@, (ident, i), self.types@);
                }
                self.imports.push((ident, i));
            },
        }
        assert(self@ =~= old(self)@.insert(name, symb@));
        Ok(())
    }

    /// Defines `ident` as `symb`, in the place of what the name resolved to
    /// before, which is returned.
    pub fn redefine(&mut self, ident: String, symb: Symbol) -> (r: Option<Symbol>)
        requires
            old(self).wf(),
        ensures
            final(self).wf(),
            final(self).identifier() == old(self).identifier(),
            r is Some == old(self)@.contains_key(ident@),
            r is Some ==> r->0@ == old(self)@[ident@],
            final(self)@ == old(self)@.insert(ident@, symb@),
    {
        let res = self.undefine(ident.as_str());
        let ghost name = ident@;
        let _ = self.define(ident, symb);
        assert(self@ =~= old(self)@.insert(name, symb@));
        res
    }

    /// Installs `import` under its local alias, unless the alias is taken by
    /// any name of the module, which then stays as it is.
    pub fn import(&mut self, import: Import) -> (r: Result<(), ()>)
        requires
            old(self).wf(),
        ensures
            final(self).wf(),
            final(self).identifier() == old(self).identifier(),
            r is Err == old(self)@.contains_key(import@.alias),
            r is Err ==> *final(self) == *old(self),
            r is Ok ==> final(self)@ == old(self)@.insert(
                import@.alias,
                SymbolModel::Import(import@),
            ),
    {
        let alias = import.alias.clone();
        self.define(alias, Symbol::Import(import))
    }
}

} // verus!

