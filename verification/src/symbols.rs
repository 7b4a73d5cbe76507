//! Symbol tables: what the analyzer records of the names that a program or
//! the body of a function declares.

use vstd::prelude::*;
use crate::value::{Value, ValueView};

verus! {

/// Names a symbol table of a program: the table of the program itself, or
/// the table of the body of the function at the given position.
#[derive(Debug, Clone, Copy, PartialEq, Eq, Structural)]
pub enum Scope {
    Program,
    Function(usize),
}

/// What the analyzer records of a name: the declared value, the signature
/// (the number of parameters of a function, 0 of a variable), and whether
/// the name has been referred to.
#[derive(Debug)]
pub struct Symbol {
    pub name: String,
    pub value: Value,
    pub signature: usize,
    pub is_used: bool,
}

/// The model of a symbol.
pub struct SymbolView {
    pub name: Seq<char>,
    pub value: ValueView,
    pub signature: usize,
    pub is_used: bool,
}

impl View for Symbol {
    type V = SymbolView;

    open spec fn view(&self) -> SymbolView {
        SymbolView {
            name: self.name@,
            value: self.value@,
            signature: self.signature,
            is_used: self.is_used,
        }
    }
}

impl Symbol {
    /// A symbol that has not been referred to yet.
    pub fn new(name: String, value: Value, signature: usize) -> (r: Symbol)
        ensures
            r@ == (SymbolView { name: name@, value: value@, signature, is_used: false }),
    {
        Symbol { name, value, signature, is_used: false }
    }
}

impl Clone for Symbol {
    fn clone(&self) -> (r: Symbol)
        ensures
            r@ == self@,
    {
        Symbol {
            name: self.name.clone(),
            value: self.value.clone(),
            signature: self.signature,
            is_used: self.is_used,
        }
    }
}

/// A symbol table: the symbols in the order in which they were declared,
/// and the table in which a name that is not found here is to be looked up.
#[derive(Debug)]
pub struct Symbols {
    pub parent: Option<Scope>,
    pub entries: Vec<Symbol>,
}

/// The model of a symbol table.
pub struct SymbolsView {
    pub parent: Option<Scope>,
    pub entries: Seq<SymbolView>,
}

impl View for Symbols {
    type V = SymbolsView;

    open spec fn view(&self) -> SymbolsView {
        SymbolsView {
            parent: self.parent,
            entries: Seq::new(self.entries@.len(), |i: int| self.entries@[i]@),
        }
    }
}

impl SymbolsView {
    /// The table without symbols and without a parent.
    pub open spec fn empty() -> SymbolsView {
        SymbolsView { parent: None, entries: Seq::empty() }
    }

    /// Whether the table holds a symbol of that name.
    pub open spec fn contains(self, name: Seq<char>) -> bool {
        exists|i: int| 0 <= i < self.entries.len() && #[trigger] self.entries[i].name == name
    }

    /// No two symbols of the table have the same name.
    pub open spec fn unique(self) -> bool {
        forall|i: int, j: int|
            0 <= i < j < self.entries.len() ==> #[trigger] self.entries[i].name
                != #[trigger] self.entries[j].name
    }

    /// The table with one symbol more, declared last.
    pub open spec fn declare(self, symbol: SymbolView) -> SymbolsView {
        SymbolsView { parent: self.parent, entries: self.entries.push(symbol) }
    }

    /// The table in which the symbols of that name count as referred to.
    pub open spec fn mark(self, name: Seq<char>) -> SymbolsView {
        SymbolsView {
            parent: self.parent,
            entries: Seq::new(
                self.entries.len(),
                |i: int|
                    if self.entries[i].name == name {
                        SymbolView { is_used: true, ..self.entries[i] }
                    } else {
                        self.entries[i]
                    },
            ),
        }
    }

    /// The table with another parent.
    pub open spec fn adopt(self, parent: Option<Scope>) -> SymbolsView {
        SymbolsView { parent, entries: self.entries }
    }
}

/// The values that the first `n` symbols give to their names: where a name
/// occurs more than once, the symbol that was declared last counts.
pub open spec fn values_of(entries: Seq<SymbolView>, n: int) -> Map<Seq<char>, ValueView>
    decreases n,
{
    if n <= 0 {
        Map::empty()
    } else {
        values_of(entries, n - 1).insert(entries[n - 1].name, entries[n - 1].value)
    }
}

impl Symbols {
    /// An empty table with the given parent.
    pub fn new(parent: Option<Scope>) -> (r: Symbols)
        ensures
            r@ == (SymbolsView { parent, entries: Seq::empty() }),
    {
        let r = Symbols { parent, entries: Vec::new() };
        assert(r@.entries =~= Seq::empty());
        r
    }

    /// The position of the first symbol of that name.
    pub fn find(&self, name: &str) -> (r: Option<usize>)
        ensures
            match r {
                Some(i) => {
                    &&& i < self@.entries.len()
                    &&& self@.entries[i as int].name == name@
                    &&& forall|j: int| 0 <= j < i ==> (#[trigger] self@.entries[j]).name != name@
                },
                None => !self@.contains(name@),
            },
    {
        let wanted = name.to_owned();
        let mut i: usize = 0;
        while i < self.entries.len()
            invariant
                i <= self.entries.len(),
                wanted@ == name@,
                forall|j: int| 0 <= j < i ==> (#[trigger] self@.entries[j]).name != name@,
            decreases self.entries.len() - i,
        {
            if self.entries[i].name == wanted {
                return Some(i);
            }
            i = i + 1;
        }
        None
    }

    /// Whether the table holds a symbol of that name.
    pub fn contains(&self, name: &str) -> (r: bool)
        ensures
            r == self@.contains(name@),
    {
        self.find(name).is_some()
    }

    /// Declares a symbol, unless the table holds one of that name already:
    /// then the table stays as it is and the result is `false`.
    pub fn insert(&mut self, symbol: Symbol) -> (fresh: bool)
        ensures
            fresh == !old(self)@.contains(symbol@.name),
            fresh ==> final(self)@ == old(self)@.declare(symbol@),
            !fresh ==> final(self)@ == old(self)@,
            old(self)@.unique() ==> final(self)@.unique(),
    {
        if self.contains(symbol.name.as_str()) {
            false
        } else {
            let ghost declared = symbol@;
            self.entries.push(symbol);
            assert(self@.entries =~= old(self)@.entries.push(declared));
            true
        }
    }

    /// Records that the name has been referred to. The result says whether
    /// the table holds a symbol of that name.
    pub fn mark_used(&mut self, name: &str) -> (found: bool)
        ensures
            found == old(self)@.contains(name@),
            final(self)@ == old(self)@.mark(name@),
    {
        let wanted = name.to_owned();
        let mut found = false;
        let mut i: usize = 0;
        while i < self.entries.len()
            invariant
                i <= self.entries.len(),
                wanted@ == name@,
                self.parent == old(self).parent,
                self@.entries.len() == old(self)@.entries.len(),
                forall|j: int| 0 <= j < i ==> #[trigger] self@.entries[j] == old(
                    self,
                )@.mark(name@).entries[j],
                forall|j: int| i <= j < self@.entries.len() ==> #[trigger] self@.entries[j] == old(
                    self,
                )@.entries[j],
                found == exists|j: int| 0 <= j < i && #[trigger] old(
                    self,
                )@.entries[j].name == name@,
            decreases self.entries.len() - i,
        {
            let ghost before = self@;
            if self.entries[i].name == wanted {
                self.entries[i].is_used = true;
                found = true;
            }
            proof {
                assert(before.entries[i as int] == old(self)@.entries[i as int]);
                assert(self@.entries[i as int] == old(self)@.mark(name@).entries[i as int]);
                assert forall|j: int| 0 <= j < i implies #[trigger] self@.entries[j] == old(
                    self,
                )@.mark(name@).entries[j] by {
                    assert(self@.entries[j] == before.entries[j]);
                }
                assert forall|j: int| i < j < self@.entries.len() implies #[trigger] self@.entries[j]
                    == old(self)@.entries[j] by {
                    assert(self@.entries[j] == before.entries[j]);
                }
            }
            i = i + 1;
        }
        assert(self@.entries =~= old(self)@.mark(name@).entries);
        found
    }
}

} // verus!
