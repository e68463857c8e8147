//! Integer vectors carried by `candle_core` tensors on the CPU.
//!
//! A tensor is opaque to the verifier: what a contract says of one goes
//! through three names, its elements (`tensor_values`), its dimensions
//! (`tensor_dims`) and whether it is a CPU tensor of `i64` (`is_cpu_i64`).
//! Every tensor this library handles is made from a `Vec<i64>` on the CPU.
use vstd::prelude::*;

verus! {

#[verifier::external_type_specification]
#[verifier::external_body]
pub struct ExTensor(candle_core::Tensor);

#[verifier::external_type_specification]
#[verifier::external_body]
pub struct ExTensorError(candle_core::Error);

/// The elements of a tensor of `i64`, in row-major order.
pub uninterp spec fn tensor_values(t: candle_core::Tensor) -> Seq<i64>;

/// The dimensions of a tensor, outermost first.
pub uninterp spec fn tensor_dims(t: candle_core::Tensor) -> Seq<usize>;

/// Whether a tensor lives on the CPU and holds elements of type `i64`.
pub uninterp spec fn is_cpu_i64(t: candle_core::Tensor) -> bool;

/// The sum of a sequence of integers.
pub open spec fn total(s: Seq<i64>) -> int
    decreases s.len(),
{
    if s.len() == 0 {
        0
    } else {
        total(s.drop_last()) + s.last()
    }
}

/// Elements small enough that any partial sum of them fits in an `i64`.
pub open spec fn summable(s: Seq<i64>) -> bool {
    &&& s.len() <= 0x10_0000
    &&& forall|i: int| 0 <= i < s.len() ==> -0x100_0000_0000 <= #[trigger] s[i] <= 0x100_0000_0000
}

/// Relies on `candle_core::Tensor::new` on a slice and `Device::Cpu`: the
/// CPU always accepts the data, and the tensor is one-dimensional, holding
/// the slice's elements in order.
#[verifier::external_body]
pub(crate) fn new_vector(v: &Vec<i64>) -> (r: Result<candle_core::Tensor, candle_core::Error>)
    ensures
        r is Ok,
        tensor_values(r->Ok_0) == v@,
        tensor_dims(r->Ok_0) == seq![v.len()],
        is_cpu_i64(r->Ok_0),
{
    candle_core::Tensor::new(v.as_slice(), &candle_core::Device::Cpu)
}

/// Relies on `candle_core::Tensor::cat` along the first dimension: two
/// one-dimensional tensors of one dtype on one device are joined, the
/// elements of `a` followed by those of `b`.
#[verifier::external_body]
pub(crate) fn concat(a: &candle_core::Tensor, b: &candle_core::Tensor) -> (r: Result<
    candle_core::Tensor,
    candle_core::Error,
>)
    requires
        is_cpu_i64(*a),
        is_cpu_i64(*b),
        tensor_dims(*a).len() == 1,
        tensor_dims(*b).len() == 1,
        tensor_dims(*a)[0] + tensor_dims(*b)[0] <= usize::MAX,
    ensures
        r is Ok,
        tensor_values(r->Ok_0) == tensor_values(*a) + tensor_values(*b),
        tensor_dims(r->Ok_0) == seq![(tensor_dims(*a)[0] + tensor_dims(*b)[0]) as usize],
        is_cpu_i64(r->Ok_0),
{
    candle_core::Tensor::cat(&[a, b], 0)
}

/// Relies on `candle_core::Tensor::mul`: the elementwise product of two
/// tensors of one shape, dtype and device.
#[verifier::external_body]
pub(crate) fn multiply(a: &candle_core::Tensor, b: &candle_core::Tensor) -> (r: Result<
    candle_core::Tensor,
    candle_core::Error,
>)
    requires
        is_cpu_i64(*a),
        is_cpu_i64(*b),
        tensor_dims(*a) == tensor_dims(*b),
        tensor_values(*a).len() == tensor_values(*b).len(),
        forall|i: int|
            0 <= i < tensor_values(*a).len() ==> i64::MIN <= #[trigger] tensor_values(*a)[i]
                * tensor_values(*b)[i] <= i64::MAX,
    ensures
        r is Ok,
        tensor_dims(r->Ok_0) == tensor_dims(*a),
        is_cpu_i64(r->Ok_0),
        tensor_values(r->Ok_0).len() == tensor_values(*a).len(),
        forall|i: int|
            0 <= i < tensor_values(*a).len() ==> #[trigger] tensor_values(r->Ok_0)[i] as int
                == tensor_values(*a)[i] * tensor_values(*b)[i],
{
    a.mul(b)
}

/// Relies on `candle_core::Tensor::sum_all` on a one-dimensional tensor: a
/// tensor of no dimensions holding the sum of all the elements.
#[verifier::external_body]
pub(crate) fn sum_all(t: &candle_core::Tensor) -> (r: Result<candle_core::Tensor, candle_core::Error>)
    requires
        is_cpu_i64(*t),
        tensor_dims(*t).len() == 1,
        summable(tensor_values(*t)),
    ensures
        r is Ok,
        tensor_dims(r->Ok_0) == Seq::<usize>::empty(),
        is_cpu_i64(r->Ok_0),
        tensor_values(r->Ok_0).len() == 1,
        tensor_values(r->Ok_0)[0] as int == total(tensor_values(*t)),
{
    t.sum_all()
}

/// Relies on `candle_core::Tensor::broadcast_add` of a tensor of no
/// dimensions and a one-dimensional tensor of one element: the first is
/// broadcast to the shape of the second and the two are added.
#[verifier::external_body]
pub(crate) fn broadcast_add(a: &candle_core::Tensor, b: &candle_core::Tensor) -> (r: Result<
    candle_core::Tensor,
    candle_core::Error,
>)
    requires
        is_cpu_i64(*a),
        is_cpu_i64(*b),
        tensor_dims(*a) == Seq::<usize>::empty(),
        tensor_dims(*b) == seq![1usize],
        tensor_values(*a).len() == 1,
        tensor_values(*b).len() == 1,
        i64::MIN <= tensor_values(*a)[0] + tensor_values(*b)[0] <= i64::MAX,
    ensures
        r is Ok,
        tensor_dims(r->Ok_0) == seq![1usize],
        is_cpu_i64(r->Ok_0),
        tensor_values(r->Ok_0).len() == 1,
        tensor_values(r->Ok_0)[0] as int == tensor_values(*a)[0] + tensor_values(*b)[0],
{
    a.broadcast_add(b)
}

/// Relies on `candle_core::Tensor::to_vec1::<i64>`: the elements of a
/// one-dimensional tensor of `i64` on the CPU.
#[verifier::external_body]
pub(crate) fn to_vector(t: &candle_core::Tensor) -> (r: Result<Vec<i64>, candle_core::Error>)
    requires
        is_cpu_i64(*t),
        tensor_dims(*t).len() == 1,
    ensures
        r is Ok,
        r->Ok_0@ == tensor_values(*t),
{
    t.to_vec1::<i64>()
}

} // verus!
