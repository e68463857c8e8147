//! Boolean logic gates realised as fixed-weight linear threshold units
//! (perceptrons), evaluated on tensors of integers, and the two-layer
//! network that composes them into exclusive or.

pub mod gates;
pub mod perceptron;
pub mod tensor;
