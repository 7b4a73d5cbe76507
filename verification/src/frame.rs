//! Frames: what the names stand for during a call. A frame maps names to
//! values and may be linked to the frame of an enclosing scope and to the
//! global frame.

use vstd::prelude::*;
use vstd::hash_map::StringHashMap;
use crate::symbols::{values_of, Symbols};
use crate::tree::{parameter_names, Parameter};
use crate::value::{value_views, Value, ValueView};

verus! {

/// A frame. The global frame has neither link; the frame of a call is
/// linked to the global frame.
pub struct Frame<'a> {
    pub globals: Option<&'a Frame<'a>>,
    pub values: StringHashMap<Value>,
    pub parent: Option<&'a Frame<'a>>,
}

/// The model of a frame.
pub struct FrameView {
    pub globals: Option<Box<FrameView>>,
    pub values: Map<Seq<char>, ValueView>,
    pub parent: Option<Box<FrameView>>,
}

/// The model of a frame.
pub open spec fn frame_view(frame: &Frame) -> FrameView
    decreases frame,
{
    FrameView {
        globals: match frame.globals {
            Some(g) => Some(Box::new(frame_view(g))),
            None => None,
        },
        values: frame.values@.map_values(|v: Value| v@),
        parent: match frame.parent {
            Some(p) => Some(Box::new(frame_view(p))),
            None => None,
        },
    }
}

impl<'a> View for Frame<'a> {
    type V = FrameView;

    open spec fn view(&self) -> FrameView {
        frame_view(self)
    }
}

/// The values after the first `n` of the names were bound to the first `n`
/// of the arguments, one after the other.
pub open spec fn bound(
    values: Map<Seq<char>, ValueView>,
    names: Seq<Seq<char>>,
    arguments: Seq<ValueView>,
    n: int,
) -> Map<Seq<char>, ValueView>
    decreases n,
{
    if n <= 0 {
        values
    } else {
        bound(values, names, arguments, n - 1).insert(names[n - 1], arguments[n - 1])
    }
}

impl FrameView {
    /// The value of a name: the one that this frame gives it; else the one
    /// that the enclosing scope gives it, if that is not `Nil`; else the one
    /// that the global frame gives it; `Nil` where none of them knows the
    /// name.
    pub open spec fn lookup(self, name: Seq<char>) -> ValueView
        decreases self, 1int,
    {
        if self.values.contains_key(name) {
            self.values[name]
        } else if !(self.lookup_parent(name) is Nil) {
            self.lookup_parent(name)
        } else {
            self.lookup_global(name)
        }
    }

    /// The value that the enclosing scope gives to a name, `Nil` where there
    /// is no enclosing scope.
    pub open spec fn lookup_parent(self, name: Seq<char>) -> ValueView
        decreases self, 0int,
    {
        match self.parent {
            Some(parent) => parent.lookup(name),
            None => ValueView::Nil,
        }
    }

    /// The value that the global frame gives to a name, `Nil` where this
    /// frame has no link to it.
    pub open spec fn lookup_global(self, name: Seq<char>) -> ValueView
        decreases self, 0int,
    {
        match self.globals {
            Some(globals) => globals.lookup(name),
            None => ValueView::Nil,
        }
    }

    /// The frame in which the name has the given value.
    pub open spec fn assign(self, name: Seq<char>, value: ValueView) -> FrameView {
        FrameView { values: self.values.insert(name, value), ..self }
    }
}

impl<'a> Frame<'a> {
    /// A frame without values, with the given links.
    pub fn new(global: Option<&'a Frame<'a>>, parent: Option<&'a Frame<'a>>) -> (r: Frame<'a>)
        ensures
            r.globals == global,
            r.parent == parent,
            r@.values == Map::<Seq<char>, ValueView>::empty(),
    {
        let r = Frame { globals: global, values: StringHashMap::new(), parent };
        assert(r@.values =~= Map::empty());
        r
    }

    /// The global frame to which this frame is linked.
    pub fn get_globals(&self) -> (r: Option<&'a Frame<'a>>)
        ensures
            r == self.globals,
    {
        self.globals
    }

    /// Gives every name of the symbol table the value of its symbol.
    pub fn init_symbols(&mut self, symbols: &Symbols)
        ensures
            final(self).globals == old(self).globals,
            final(self).parent == old(self).parent,
            final(self)@.values == old(self)@.values.union_prefer_right(
                values_of(symbols@.entries, symbols@.entries.len() as int),
            ),
    {
        let mut i: usize = 0;
        assert(self@.values =~= old(self)@.values.union_prefer_right(
            values_of(symbols@.entries, 0),
        ));
        while i < symbols.entries.len()
            invariant
                i <= symbols.entries.len(),
                self.globals == old(self).globals,
                self.parent == old(self).parent,
                self@.values == old(self)@.values.union_prefer_right(
                    values_of(symbols@.entries, i as int),
                ),
            decreases symbols.entries.len() - i,
        {
            let ghost before = self@.values;
            let symbol = &symbols.entries[i];
            self.values.insert(symbol.name.clone(), symbol.value.clone());
            i = i + 1;
            proof {
                let entry = symbols@.entries[i - 1];
                assert(entry == symbol@);
                assert(self@.values =~= before.insert(entry.name, entry.value));
                assert(before.insert(entry.name, entry.value) =~= old(
                    self,
                )@.values.union_prefer_right(values_of(symbols@.entries, i as int)));
            }
        }
    }

    /// Binds the parameters to the arguments, in order.
    pub fn init_parameters(&mut self, parameters: &Vec<Parameter>, arguments: Vec<Value>)
        requires
            parameters.len() == arguments.len(),
        ensures
            final(self).globals == old(self).globals,
            final(self).parent == old(self).parent,
            final(self)@.values == bound(
                old(self)@.values,
                parameter_names(parameters@),
                value_views(arguments@),
                parameters.len() as int,
            ),
    {
        let ghost names = parameter_names(parameters@);
        let ghost given = value_views(arguments@);
        let mut i: usize = 0;
        while i < parameters.len()
            invariant
                i <= parameters.len(),
                parameters.len() == arguments.len(),
                names == parameter_names(parameters@),
                given == value_views(arguments@),
                self.globals == old(self).globals,
                self.parent == old(self).parent,
                self@.values == bound(old(self)@.values, names, given, i as int),
            decreases parameters.len() - i,
        {
            let ghost before = self@.values;
            self.values.insert(parameters[i].name.clone(), arguments[i].clone());
            i = i + 1;
            proof {
                assert(self@.values =~= before.insert(names[i - 1], given[i - 1]));
            }
        }
    }

    /// Gives the name the value, in this frame.
    pub fn assign(&mut self, name: &String, value: Value)
        ensures
            final(self).globals == old(self).globals,
            final(self).parent == old(self).parent,
            final(self)@ == old(self)@.assign(name@, value@),
    {
        self.values.insert(name.clone(), value);
        assert(self@.values =~= old(self)@.values.insert(name@, value@));
    }

    /// The value of a name: see [`FrameView::lookup`].
    pub fn lookup(&self, name: &String) -> (r: Value)
        ensures
            r@ == self@.lookup(name@),
        decreases self, 1int,
    {
        match self.values.get(name.as_str()) {
            Some(value) => value.clone(),
            None => {
                let up = self.lookup_parent(name);
                match up {
                    Value::Nil => self.lookup_global(name),
                    _ => up,
                }
            },
        }
    }

    /// The value that the global frame gives to a name.
    pub fn lookup_global(&self, name: &String) -> (r: Value)
        ensures
            r@ == self@.lookup_global(name@),
        decreases self, 0int,
    {
        match self.globals {
            None => Value::Nil,
            Some(globals) => globals.lookup(name),
        }
    }

    /// The value that the enclosing scope gives to a name.
    pub fn lookup_parent(&self, name: &String) -> (r: Value)
        ensures
            r@ == self@.lookup_parent(name@),
        decreases self, 0int,
    {
        match self.parent {
            None => Value::Nil,
            Some(parent) => parent.lookup(name),
        }
    }
}

} // verus!
