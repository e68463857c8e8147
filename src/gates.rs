//! AND, OR and NAND as perceptrons with fixed weights, and XOR as a
//! two-layer network of them: NAND and OR read the inputs, AND reads their
//! outputs.
use crate::perceptron::{step_spec, Perceptron};
use vstd::prelude::*;

verus! {

/// The gates that a single perceptron realises.
#[derive(Clone, Copy, Debug, PartialEq, Eq, Structural)]
pub enum Gate {
    And,
    Or,
    Nand,
}

/// The weights and bias of each gate, in tenths.
pub open spec fn gate_unit(g: Gate) -> Perceptron {
    match g {
        Gate::And => Perceptron { weight_a: 5, weight_b: 5, bias: -7i64 },
        Gate::Or => Perceptron { weight_a: 5, weight_b: 5, bias: -2i64 },
        Gate::Nand => Perceptron { weight_a: -5i64, weight_b: -5i64, bias: 7 },
    }
}

/// A boolean as a perceptron input: one for true, zero for false.
pub open spec fn bit(x: bool) -> int {
    if x {
        1
    } else {
        0
    }
}

/// What a perceptron outputs on two boolean inputs.
pub open spec fn unit_output(p: Perceptron, a: bool, b: bool) -> bool {
    step_spec(p.activation(bit(a), bit(b))) == 1
}

pub open spec fn and_spec(a: bool, b: bool) -> bool {
    unit_output(gate_unit(Gate::And), a, b)
}

pub open spec fn or_spec(a: bool, b: bool) -> bool {
    unit_output(gate_unit(Gate::Or), a, b)
}

pub open spec fn nand_spec(a: bool, b: bool) -> bool {
    unit_output(gate_unit(Gate::Nand), a, b)
}

/// The two-layer network: AND of the outputs of NAND and OR.
pub open spec fn xor_spec(a: bool, b: bool) -> bool {
    and_spec(nand_spec(a, b), or_spec(a, b))
}

impl Gate {
    /// The perceptron that realises this gate.
    pub fn unit(self) -> (r: Perceptron)
        ensures
            r == gate_unit(self),
            r.wf(),
    {
        match self {
            Gate::And => Perceptron::new(5, 5, -7),
            Gate::Or => Perceptron::new(5, 5, -2),
            Gate::Nand => Perceptron::new(-5, -5, 7),
        }
    }

    /// Evaluates this gate on two booleans.
    pub fn apply(self, a: bool, b: bool) -> (r: bool)
        ensures
            r == unit_output(gate_unit(self), a, b),
    {
        let x: i64 = if a {
            1
        } else {
            0
        };
        let y: i64 = if b {
            1
        } else {
            0
        };
        self.unit().evaluate(x, y) == 1
    }
}

/// AND: fires only when both inputs are true.
pub fn and(a: bool, b: bool) -> (r: bool)
    ensures
        r == and_spec(a, b),
        r == (a && b),
{
    proof {
        truth_tables();
    }
    Gate::And.apply(a, b)
}

/// OR: fires when either input is true.
pub fn or(a: bool, b: bool) -> (r: bool)
    ensures
        r == or_spec(a, b),
        r == (a || b),
{
    proof {
        truth_tables();
    }
    Gate::Or.apply(a, b)
}

/// NAND: fires unless both inputs are true.
pub fn nand(a: bool, b: bool) -> (r: bool)
    ensures
        r == nand_spec(a, b),
        r == !(a && b),
{
    proof {
        truth_tables();
    }
    Gate::Nand.apply(a, b)
}

/// XOR: NAND and OR on the inputs, then AND on their outputs.
pub fn xor(a: bool, b: bool) -> (r: bool)
    ensures
        r == xor_spec(a, b),
        r == (a != b),
{
    proof {
        xor_is_nand_or_and(a, b);
    }
    let nand_output = nand(a, b);
    let or_output = or(a, b);
    and(nand_output, or_output)
}

/// On every pair of booleans, the AND, OR and NAND perceptrons give the
/// values of their truth tables.
pub proof fn truth_tables()
    ensures
        forall|a: bool, b: bool| #[trigger] and_spec(a, b) == (a && b),
        forall|a: bool, b: bool| #[trigger] or_spec(a, b) == (a || b),
        forall|a: bool, b: bool| #[trigger] nand_spec(a, b) == !(a && b),
{
}

/// The network of NAND and OR feeding AND computes exclusive or.
pub proof fn xor_is_nand_or_and(a: bool, b: bool)
    ensures
        xor_spec(a, b) == and_spec(nand_spec(a, b), or_spec(a, b)),
        xor_spec(a, b) == (a != b),
{
    truth_tables();
}

/// Evaluating a gate twice on the same inputs gives the same output: what
/// `Gate::apply` returns depends on nothing but which gate and which inputs.
pub proof fn evaluation_is_deterministic(g: Gate, a: bool, b: bool, first: bool, second: bool)
    requires
        first == unit_output(gate_unit(g), a, b),
        second == unit_output(gate_unit(g), a, b),
    ensures
        first == second,
{
}

/// The step activation is silent exactly at zero; AND on two false inputs
/// has a negative weighted sum and stays silent.
pub proof fn silent_at_zero()
    ensures
        step_spec(0) == 0,
        gate_unit(Gate::And).activation(0, 0) == -7,
        !and_spec(false, false),
{
}

} // verus!
