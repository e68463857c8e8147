use perceptron_gates::gates::{and, nand, or, xor, Gate};
use perceptron_gates::perceptron::{step, Perceptron};

#[test]
fn and_truth_table() {
    assert_eq!(and(false, false), false);
    assert_eq!(and(false, true), false);
    assert_eq!(and(true, false), false);
    assert_eq!(and(true, true), true);
}

#[test]
fn or_truth_table() {
    assert_eq!(or(false, false), false);
    assert_eq!(or(false, true), true);
    assert_eq!(or(true, false), true);
    assert_eq!(or(true, true), true);
}

#[test]
fn nand_truth_table() {
    assert_eq!(nand(false, false), true);
    assert_eq!(nand(false, true), true);
    assert_eq!(nand(true, false), true);
    assert_eq!(nand(true, true), false);
}

#[test]
fn xor_truth_table() {
    assert_eq!(xor(false, false), false);
    assert_eq!(xor(false, true), true);
    assert_eq!(xor(true, false), true);
    assert_eq!(xor(true, true), false);
}

#[test]
fn xor_matches_its_network() {
    for (a, b) in [(false, false), (false, true), (true, false), (true, true)] {
        let layered = and(nand(a, b), or(a, b));
        assert_eq!(xor(a, b), layered);
    }
}

#[test]
fn repeated_evaluation_is_identical() {
    for (a, b) in [(false, false), (false, true), (true, false), (true, true)] {
        assert_eq!(and(a, b), and(a, b));
        assert_eq!(or(a, b), or(a, b));
        assert_eq!(nand(a, b), nand(a, b));
        assert_eq!(xor(a, b), xor(a, b));
    }
}

#[test]
fn step_is_silent_at_zero() {
    assert_eq!(step(0), 0);
    assert_eq!(step(-7), 0);
    assert_eq!(step(1), 1);
    assert_eq!(step(3), 1);
}

#[test]
fn and_of_two_false_inputs_stays_silent() {
    assert_eq!(Gate::And.unit().evaluate(0, 0), 0);
    assert_eq!(and(false, false), false);
}

#[test]
fn literal_scenarios() {
    assert_eq!(and(true, true), true);
    assert_eq!(or(false, false), false);
    assert_eq!(nand(true, true), false);
    assert_eq!(xor(true, true), false);
    assert_eq!(xor(false, true), true);
}

#[test]
fn gate_table_holds_the_literal_weights() {
    assert_eq!(Gate::And.unit(), Perceptron::new(5, 5, -7));
    assert_eq!(Gate::Or.unit(), Perceptron::new(5, 5, -2));
    assert_eq!(Gate::Nand.unit(), Perceptron::new(-5, -5, 7));
}

#[test]
fn evaluate_weighs_each_input() {
    // 3 * 2 - 1 * 5 - 2 = -1: silent.
    assert_eq!(Perceptron::new(3, -1, -2).evaluate(2, 5), 0);
    // 3 * 2 - 1 * 3 - 2 = 1: fires.
    assert_eq!(Perceptron::new(3, -1, -2).evaluate(2, 3), 1);
    // exactly zero: silent.
    assert_eq!(Perceptron::new(3, -1, -2).evaluate(1, 1), 0);
    // the bias alone decides when both inputs are zero.
    assert_eq!(Perceptron::new(-1000, 1000, 4).evaluate(0, 0), 1);
}

#[test]
fn evaluate_at_the_largest_magnitude() {
    let m = 1_000_000;
    assert_eq!(Perceptron::new(m, m, m).evaluate(m, m), 1);
    assert_eq!(Perceptron::new(-m, -m, m).evaluate(m, m), 0);
    assert_eq!(Perceptron::new(m, -m, 0).evaluate(m, m), 0);
}
