use core::marker::PhantomData;
use vstd::prelude::*;
use vstd::slice::slice_to_vec;

verus! {

/// Type-level marker: the operand it tags is encrypted. A
/// `CircuitNode<Cipher<T>>` flows through the graph as ciphertext, a
/// `CircuitNode<T>` as plaintext.
#[derive(Debug)]
pub struct Cipher<T> {
    _marker: PhantomData<T>,
}

/// A typed handle into the graph: the ordered node identities holding the
/// ring elements of one logical value, tagged with the logical type. A
/// handle is a lightweight reference into graph storage owned by the
/// `Context`; it owns none itself.
#[derive(Debug)]
pub struct CircuitNode<T> {
    pub ids: Vec<u64>,
    pub _marker: PhantomData<T>,
}

impl<T> CircuitNode<T> {
    /// Wraps freshly created node identities in a typed handle.
    pub fn new(ids: &[u64]) -> (r: Self)
        ensures
            r.ids@ == ids@,
    {
        CircuitNode { ids: slice_to_vec(ids), _marker: PhantomData }
    }

    /// Every node identity this handle refers to exists in a graph of
    /// length `glen`.
    pub open spec fn wf_in(&self, glen: nat) -> bool {
        forall|j: int| 0 <= j < self.ids@.len() ==> #[trigger] self.ids@[j] < glen
    }
}

} // verus!

