//! A linear threshold unit on two inputs.
//!
//! Weights and bias are written in tenths, inputs in whole units, so the
//! weighted sum plus bias is an exact integer in tenths and its sign is the
//! sign of the real-valued sum.
use crate::tensor::{
    broadcast_add, concat, multiply, new_vector, sum_all, summable, tensor_values, to_vector,
    total,
};
use vstd::prelude::*;

verus! {

/// The largest magnitude of a weight, a bias or an input.
pub const MAX_MAGNITUDE: i64 = 1_000_000;

pub open spec fn in_range(x: int) -> bool {
    -MAX_MAGNITUDE <= x <= MAX_MAGNITUDE
}

/// The hard step activation: silent at and below zero, firing above it.
pub open spec fn step_spec(x: int) -> i64 {
    if x <= 0 {
        0
    } else {
        1
    }
}

/// Applies the step activation to a weighted sum.
pub fn step(x: i64) -> (r: i64)
    ensures
        r == step_spec(x as int),
{
    if x <= 0 {
        0
    } else {
        1
    }
}

/// A perceptron on two inputs: a weight for each input and a bias, in tenths.
#[derive(Clone, Copy, Debug, PartialEq, Eq, Structural)]
pub struct Perceptron {
    pub weight_a: i64,
    pub weight_b: i64,
    pub bias: i64,
}

impl Perceptron {
    pub open spec fn wf(&self) -> bool {
        in_range(self.weight_a as int) && in_range(self.weight_b as int) && in_range(
            self.bias as int,
        )
    }

    /// The weighted sum of the inputs plus the bias, in tenths.
    pub open spec fn activation(&self, a: int, b: int) -> int {
        self.weight_a * a + self.weight_b * b + self.bias
    }

    pub fn new(weight_a: i64, weight_b: i64, bias: i64) -> (r: Perceptron)
        ensures
            r == (Perceptron { weight_a, weight_b, bias }),
    {
        Perceptron { weight_a, weight_b, bias }
    }

    /// Evaluates the unit on two inputs: the inputs and the weights become
    /// vectors, their elementwise product is summed, the bias is added, and
    /// the step activation decides.
    pub fn evaluate(&self, a: i64, b: i64) -> (r: i64)
        requires
            self.wf(),
            in_range(a as int),
            in_range(b as int),
        ensures
            r == step_spec(self.activation(a as int, b as int)),
    {
        let ta = new_vector(&vec![a]).unwrap();
        let tb = new_vector(&vec![b]).unwrap();
        let inputs = concat(&ta, &tb).unwrap();
        let weights = new_vector(&vec![self.weight_a, self.weight_b]).unwrap();
        let bias = new_vector(&vec![self.bias]).unwrap();
        let ghost wa = self.weight_a as int;
        let ghost wb = self.weight_b as int;
        assert(tensor_values(inputs) =~= seq![a, b]);
        assert(tensor_values(weights) =~= seq![self.weight_a, self.weight_b]);
        assert(-1_000_000_000_000 <= wa * (a as int) <= 1_000_000_000_000) by (nonlinear_arith)
            requires
                in_range(wa),
                in_range(a as int),
        ;
        assert(-1_000_000_000_000 <= wb * (b as int) <= 1_000_000_000_000) by (nonlinear_arith)
            requires
                in_range(wb),
                in_range(b as int),
        ;
        let weighted = multiply(&weights, &inputs).unwrap();
        let ghost pw = tensor_values(weighted);
        assert(pw[0] == wa * a && pw[1] == wb * b);
        assert(summable(pw));
        assert(pw.drop_last().drop_last() =~= Seq::<i64>::empty());
        assert(total(pw) == wa * a + wb * b) by {
            assert(total(pw.drop_last()) == total(pw.drop_last().drop_last()) + pw[0]);
        }
        let sum = sum_all(&weighted).unwrap();
        let biased = broadcast_add(&sum, &bias).unwrap();
        let values = to_vector(&biased).unwrap();
        step(values[0])
    }
}

} // verus!
