//! Single-precision numbers. This library holds such a number as the
//! decimal numeral that was written for it and does no arithmetic on it:
//! what an operator gives on such numbers is an answer that the caller
//! supplies.
//!
//! A run that needs an answer that it was not given fails with
//! `FloatPending`, which holds the operator and the operands. The caller
//! works the answer out, records it, and runs the program again: a run is a
//! function of the program and of the answers, and an answer more changes
//! no run that did not want one
//! ([`lemma_more_answers_same_run`](crate::machine::lemma_more_answers_same_run)),
//! so the second run goes the way of the first and further.

use vstd::prelude::*;
use crate::tree::BinaryOp;
use crate::value::{Value, ValueView};

verus! {

/// What an operator gives on two operands.
#[derive(Debug)]
pub struct Answer {
    pub op: BinaryOp,
    pub left: Value,
    pub right: Value,
    pub result: Value,
}

/// The model of an answer.
pub struct AnswerView {
    pub op: BinaryOp,
    pub left: ValueView,
    pub right: ValueView,
    pub result: ValueView,
}

impl View for Answer {
    type V = AnswerView;

    open spec fn view(&self) -> AnswerView {
        AnswerView { op: self.op, left: self.left@, right: self.right@, result: self.result@ }
    }
}

/// The answers that a run is given, in the order in which they were
/// recorded.
#[derive(Debug)]
pub struct Floats {
    pub answers: Vec<Answer>,
}

impl View for Floats {
    type V = Seq<AnswerView>;

    open spec fn view(&self) -> Seq<AnswerView> {
        Seq::new(self.answers@.len(), |i: int| self.answers@[i]@)
    }
}

/// Whether a value is of the kind that the operator gives on numbers: a
/// single-precision number for an arithmetic operator, a boolean for the
/// others.
pub open spec fn fits(op: BinaryOp, result: ValueView) -> bool {
    match op {
        BinaryOp::Arithmetic(_) => result is F32,
        _ => result is Bool,
    }
}

/// Whether an answer is one to the given question: it names the operator
/// and the operands, and its result is of the kind that the operator
/// gives.
pub open spec fn answers_to(answer: AnswerView, op: BinaryOp, left: ValueView, right: ValueView)
    -> bool {
    answer.op == op && answer.left == left && answer.right == right && fits(op, answer.result)
}

/// The answer that is given to a question: that of the first answer from
/// position `from` on that is one to it.
pub open spec fn answer_from(
    answers: Seq<AnswerView>,
    from: int,
    op: BinaryOp,
    left: ValueView,
    right: ValueView,
) -> Option<ValueView>
    decreases answers.len() - from,
{
    if !(0 <= from < answers.len()) {
        None
    } else if answers_to(answers[from], op, left, right) {
        Some(answers[from].result)
    } else {
        answer_from(answers, from + 1, op, left, right)
    }
}

/// The answer that is given to a question, if there is one.
pub open spec fn answer(answers: Seq<AnswerView>, op: BinaryOp, left: ValueView, right: ValueView)
    -> Option<ValueView> {
    answer_from(answers, 0, op, left, right)
}

impl Floats {
    /// No answers.
    pub fn new() -> (r: Floats)
        ensures
            r@ == Seq::<AnswerView>::empty(),
    {
        let r = Floats { answers: Vec::new() };
        assert(r@ =~= Seq::empty());
        r
    }

    /// Records an answer, behind those that are recorded already.
    pub fn record(&mut self, op: BinaryOp, left: Value, right: Value, result: Value)
        ensures
            final(self)@ == old(self)@.push(
                AnswerView { op, left: left@, right: right@, result: result@ },
            ),
    {
        self.answers.push(Answer { op, left, right, result });
        assert(self@ =~= old(self)@.push(
            AnswerView { op, left: left@, right: right@, result: result@ },
        ));
    }

    /// The answer that is given to a question, if there is one.
    pub fn find(&self, op: BinaryOp, left: &Value, right: &Value) -> (r: Option<Value>)
        ensures
            match r {
                Some(value) => answer(self@, op, left@, right@) == Some(value@) && fits(
                    op,
                    value@,
                ),
                None => answer(self@, op, left@, right@) is None,
            },
    {
        let mut i: usize = 0;
        while i < self.answers.len()
            invariant
                i <= self.answers.len(),
                answer_from(self@, i as int, op, left@, right@) == answer(
                    self@,
                    op,
                    left@,
                    right@,
                ),
            decreases self.answers.len() - i,
        {
            let one = &self.answers[i];
            assert(self@[i as int] == one@);
            let fitting = match (op, &one.result) {
                (BinaryOp::Arithmetic(_), Value::F32(_)) => true,
                (BinaryOp::Arithmetic(_), _) => false,
                (_, Value::Bool(_)) => true,
                _ => false,
            };
            if one.op == op && one.left.same(left) && one.right.same(right) && fitting {
                return Some(one.result.clone());
            }
            i = i + 1;
        }
        None
    }
}

} // verus!
