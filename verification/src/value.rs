//! The value model: what an expression evaluates to and what a variable
//! holds.

use vstd::prelude::*;
use vstd::string::StringExecFns;
use crate::logger::{Logger, LoggerView};
use std::cmp::Ordering;
use crate::text::{
    decimal,
    i32_to_string,
    int_order,
    order_i32,
    order_text,
    text_order,
    usize_to_string,
    Order,
};

verus! {

/// A handle on a function of a program: the name of the function and its
/// position among the functions of the program.
#[derive(Debug)]
pub struct FuncRef {
    pub name: String,
    pub index: usize,
}

/// A runtime value. A single-precision number is held as a decimal numeral:
/// the one that was written for it, or the one that an answer gave (see
/// [`crate::floats`]).
#[derive(Debug)]
pub enum Value {
    Nil,
    Bool(bool),
    I32(i32),
    F32(String),
    Chars(String),
    Func(FuncRef, usize),
}

/// The model of a value. A function is its name, its position among the
/// functions of the program, and the number of its parameters.
pub enum ValueView {
    Nil,
    Bool(bool),
    I32(i32),
    F32(Seq<char>),
    Chars(Seq<char>),
    Func(Seq<char>, usize, usize),
}

impl View for Value {
    type V = ValueView;

    open spec fn view(&self) -> ValueView {
        match self {
            Value::Nil => ValueView::Nil,
            Value::Bool(b) => ValueView::Bool(*b),
            Value::I32(i) => ValueView::I32(*i),
            Value::F32(numeral) => ValueView::F32(numeral@),
            Value::Chars(s) => ValueView::Chars(s@),
            Value::Func(func, arity) => ValueView::Func(func.name@, func.index, *arity),
        }
    }
}

impl ValueView {
    /// Equality of values: two values of the same variant are equal when
    /// they hold the same thing; values of different variants differ, and a
    /// function equals nothing, not even itself.
    pub open spec fn equals(self, other: ValueView) -> bool {
        match (self, other) {
            (ValueView::Nil, ValueView::Nil) => true,
            (ValueView::Bool(a), ValueView::Bool(b)) => a == b,
            (ValueView::I32(a), ValueView::I32(b)) => a == b,
            (ValueView::F32(a), ValueView::F32(b)) => a == b,
            (ValueView::Chars(a), ValueView::Chars(b)) => a == b,
            _ => false,
        }
    }

    /// The order of values: two values of the same variant stand in the
    /// order of what they hold, booleans with `false` before `true`,
    /// integers as numbers, strings in lexicographic order. `Nil` equals
    /// itself. Of two single-precision numbers no more is known than that
    /// one numeral equals itself. Values of different variants and
    /// functions are in no order.
    pub open spec fn order(self, other: ValueView) -> Option<Order> {
        match (self, other) {
            (ValueView::Nil, ValueView::Nil) => Some(Order::Equal),
            (ValueView::Bool(a), ValueView::Bool(b)) => Some(
                if a == b {
                    Order::Equal
                } else if b {
                    Order::Less
                } else {
                    Order::Greater
                },
            ),
            (ValueView::I32(a), ValueView::I32(b)) => Some(int_order(a as int, b as int)),
            (ValueView::F32(a), ValueView::F32(b)) => if a == b {
                Some(Order::Equal)
            } else {
                None
            },
            (ValueView::Chars(a), ValueView::Chars(b)) => Some(text_order(a, b)),
            _ => None,
        }
    }

    /// The textual form of a value, as `print` writes it.
    pub open spec fn text(self) -> Seq<char> {
        match self {
            ValueView::Nil => "nil"@,
            ValueView::Bool(b) => if b {
                "true"@
            } else {
                "false"@
            },
            ValueView::I32(i) => decimal(i as int),
            ValueView::F32(numeral) => numeral,
            ValueView::Chars(s) => s,
            ValueView::Func(name, _, arity) => "<func "@ + name + " "@ + decimal(arity as int)
                + ">"@,
        }
    }
}

/// The models of a list of values.
pub open spec fn value_views(values: Seq<Value>) -> Seq<ValueView> {
    Seq::new(values.len(), |i: int| values[i]@)
}

/// Equality of values holds of every value with itself, except of a
/// function, for which no equality is defined.
pub proof fn lemma_value_equals_itself(v: ValueView)
    ensures
        v.equals(v) <==> !(v is Func),
{
}

impl Clone for Value {
    fn clone(&self) -> (r: Value)
        ensures
            r@ == self@,
    {
        match self {
            Value::Nil => Value::Nil,
            Value::Bool(b) => Value::Bool(*b),
            Value::I32(i) => Value::I32(*i),
            Value::F32(numeral) => Value::F32(numeral.clone()),
            Value::Chars(s) => Value::Chars(s.clone()),
            Value::Func(func, arity) => Value::Func(
                FuncRef { name: func.name.clone(), index: func.index },
                *arity,
            ),
        }
    }
}

impl PartialEq for Value {
    fn eq(&self, other: &Value) -> (r: bool) {
        match (self, other) {
            (Value::Nil, Value::Nil) => true,
            (Value::Bool(a), Value::Bool(b)) => *a == *b,
            (Value::I32(a), Value::I32(b)) => *a == *b,
            (Value::F32(a), Value::F32(b)) => *a == *b,
            (Value::Chars(a), Value::Chars(b)) => *a == *b,
            _ => false,
        }
    }
}

impl vstd::std_specs::cmp::PartialEqSpecImpl for Value {
    open spec fn obeys_eq_spec() -> bool {
        true
    }

    open spec fn eq_spec(&self, other: &Value) -> bool {
        self@.equals(other@)
    }
}

/// The order as the standard library names it.
pub open spec fn ordering_of(order: Option<Order>) -> Option<Ordering> {
    match order {
        Some(Order::Less) => Some(Ordering::Less),
        Some(Order::Equal) => Some(Ordering::Equal),
        Some(Order::Greater) => Some(Ordering::Greater),
        None => None,
    }
}

/// The order as the standard library names it.
fn to_ordering(order: Order) -> (r: Option<Ordering>)
    ensures
        r == ordering_of(Some(order)),
{
    match order {
        Order::Less => Some(Ordering::Less),
        Order::Equal => Some(Ordering::Equal),
        Order::Greater => Some(Ordering::Greater),
    }
}

impl PartialOrd for Value {
    fn partial_cmp(&self, other: &Value) -> (r: Option<Ordering>) {
        match (self, other) {
            (Value::Nil, Value::Nil) => Some(Ordering::Equal),
            (Value::Bool(a), Value::Bool(b)) => {
                if *a == *b {
                    Some(Ordering::Equal)
                } else if *b {
                    Some(Ordering::Less)
                } else {
                    Some(Ordering::Greater)
                }
            },
            (Value::I32(a), Value::I32(b)) => to_ordering(order_i32(*a, *b)),
            (Value::F32(a), Value::F32(b)) => {
                if *a == *b {
                    Some(Ordering::Equal)
                } else {
                    None
                }
            },
            (Value::Chars(a), Value::Chars(b)) => to_ordering(order_text(a.as_str(), b.as_str())),
            _ => None,
        }
    }
}

impl vstd::std_specs::cmp::PartialOrdSpecImpl for Value {
    open spec fn obeys_partial_cmp_spec() -> bool {
        true
    }

    open spec fn partial_cmp_spec(&self, other: &Value) -> Option<Ordering> {
        ordering_of(self@.order(other@))
    }
}

impl Value {
    /// Whether two values are the same: of one variant, and holding the
    /// same. Unlike `==`, this holds of a function and itself.
    pub fn same(&self, other: &Value) -> (r: bool)
        ensures
            r == (self@ == other@),
    {
        match (self, other) {
            (Value::Nil, Value::Nil) => true,
            (Value::Bool(a), Value::Bool(b)) => *a == *b,
            (Value::I32(a), Value::I32(b)) => *a == *b,
            (Value::F32(a), Value::F32(b)) => *a == *b,
            (Value::Chars(a), Value::Chars(b)) => *a == *b,
            (Value::Func(f, m), Value::Func(g, n)) => f.name == g.name && f.index == g.index
                && *m == *n,
            _ => false,
        }
    }

    /// The textual form of the value.
    pub fn to_text(&self) -> (r: String)
        ensures
            r@ == self@.text(),
    {
        match self {
            Value::Nil => "nil".to_owned(),
            Value::Bool(b) => if *b {
                "true".to_owned()
            } else {
                "false".to_owned()
            },
            Value::I32(i) => i32_to_string(*i),
            Value::F32(numeral) => numeral.clone(),
            Value::Chars(s) => s.clone(),
            Value::Func(func, arity) => {
                let mut out = "<func ".to_owned();
                out.append(func.name.as_str());
                out.append(" ");
                out.append(usize_to_string(*arity).as_str());
                out.append(">");
                out
            },
        }
    }

    /// Writes the textual form of the value as one line of the output.
    pub fn print(&self, logger: &mut Logger)
        ensures
            final(logger)@ == (LoggerView {
                level: old(logger)@.level,
                output: old(logger)@.output.push(self@.text()),
            }),
    {
        logger.print(self.to_text());
    }
}

} // verus!
