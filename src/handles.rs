//! Physical tensor handles and the registry that binds tensor ids to them.
use std::collections::HashMap;
use vstd::prelude::*;

use crate::client::Handle;

verus! {

broadcast use vstd::std_specs::hash::group_hash_axioms;

/// Read/write status of a tensor at one point of a fusion stream.
#[derive(Clone, Copy, Debug, PartialEq, Eq, Structural)]
pub enum TensorStatus {
    /// The tensor is read and must stay as it is.
    ReadOnly,
    /// The tensor is read for the last time and may be written in place.
    ReadWrite,
    /// The tensor has no data yet.
    NotInit,
}

/// A logical tensor of a trace.
#[derive(Debug)]
pub struct TensorDescription {
    pub id: u64,
    pub shape: Vec<usize>,
    pub status: TensorStatus,
}

/// Mathematical view of a [`TensorDescription`].
pub struct TensorView {
    pub id: u64,
    pub shape: Seq<usize>,
    pub status: TensorStatus,
}

impl View for TensorDescription {
    type V = TensorView;

    open spec fn view(&self) -> TensorView {
        TensorView { id: self.id, shape: self.shape@, status: self.status }
    }
}

impl TensorDescription {
    /// A copy with the same id, shape and status.
    pub fn duplicate(&self) -> (r: TensorDescription)
        ensures
            r@ == self@,
    {
        TensorDescription { id: self.id, shape: self.shape.clone(), status: self.status }
    }
}

/// A physical binding: a device buffer and the strides with which it is read.
#[derive(Debug)]
pub struct JitFusionHandle {
    pub handle: Handle,
    pub strides: Vec<usize>,
}

/// Mathematical view of a [`JitFusionHandle`].
pub struct FusionHandleView {
    pub handle: Handle,
    pub strides: Seq<usize>,
}

impl View for JitFusionHandle {
    type V = FusionHandleView;

    open spec fn view(&self) -> FusionHandleView {
        FusionHandleView { handle: self.handle, strides: self.strides@ }
    }
}

impl JitFusionHandle {
    /// A second binding to the same buffer with the same strides.
    pub fn duplicate(&self) -> (r: JitFusionHandle)
        ensures
            r@ == self@,
    {
        JitFusionHandle { handle: self.handle, strides: self.strides.clone() }
    }
}

/// Product of `shape[i..]`.
pub open spec fn suffix_product(shape: Seq<usize>, i: int) -> nat
    decreases shape.len() - i,
{
    if i < 0 || i >= shape.len() {
        1
    } else {
        (shape[i] as nat) * suffix_product(shape, i + 1)
    }
}

/// Whether every suffix product of `shape` fits in a `usize`.
pub open spec fn strides_fit(shape: Seq<usize>) -> bool {
    forall|i: int| 0 <= i <= shape.len() ==> #[trigger] suffix_product(shape, i) <= usize::MAX
}

/// Row-major strides of a contiguous tensor of the given shape.
pub open spec fn contiguous_strides(shape: Seq<usize>) -> Seq<usize> {
    Seq::new(shape.len(), |i: int| suffix_product(shape, i + 1) as usize)
}

/// Row-major strides of a contiguous tensor: the stride of a dimension is the
/// product of the sizes of the dimensions after it.
pub fn strides_dyn_rank(shape: &Vec<usize>) -> (r: Vec<usize>)
    requires
        strides_fit(shape@),
    ensures
        r@ == contiguous_strides(shape@),
{
    let n = shape.len();
    let mut r: Vec<usize> = vec![0usize; n];
    let mut acc: usize = 1;
    let mut i: usize = n;
    assert(suffix_product(shape@, n as int) == 1);
    while i > 0
        invariant
            i <= n,
            n == shape@.len(),
            r@.len() == n,
            strides_fit(shape@),
            acc as nat == suffix_product(shape@, i as int),
            forall|j: int| i <= j < n ==> r@[j] == suffix_product(shape@, j + 1) as usize,
        decreases i,
    {
        i = i - 1;
        r.set(i, acc);
        assert(suffix_product(shape@, i as int) <= usize::MAX);
        acc = shape[i] * acc;
    }
    assert(r@ =~= contiguous_strides(shape@));
    r
}

/// The registry binding tensor ids to physical handles.
pub struct HandleContainer {
    handles: HashMap<u64, JitFusionHandle>,
}

impl View for HandleContainer {
    type V = Map<u64, FusionHandleView>;

    closed spec fn view(&self) -> Map<u64, FusionHandleView> {
        Map::new(
            |id: u64| self.handles@.contains_key(id),
            |id: u64| self.handles@[id]@,
        )
    }
}

/// The registry after a handle is requested with the given status: a
/// read-write request hands the binding over and removes it.
pub open spec fn registry_after_get(
    reg: Map<u64, FusionHandleView>,
    id: u64,
    status: TensorStatus,
) -> Map<u64, FusionHandleView> {
    if status == TensorStatus::ReadWrite {
        reg.remove(id)
    } else {
        reg
    }
}

impl HandleContainer {
    /// An empty registry.
    pub fn new() -> (r: HandleContainer)
        ensures
            r@ == Map::<u64, FusionHandleView>::empty(),
    {
        let r = HandleContainer { handles: HashMap::new() };
        assert(r@ =~= Map::<u64, FusionHandleView>::empty());
        r
    }

    /// Whether a handle is bound to `id`.
    pub fn contains(&self, id: u64) -> (r: bool)
        ensures
            r == self@.contains_key(id),
    {
        self.handles.contains_key(&id)
    }

    /// Bind `handle` to `id`, replacing any earlier binding.
    pub fn register_handle(&mut self, id: u64, handle: JitFusionHandle)
        ensures
            final(self)@ == old(self)@.insert(id, handle@),
    {
        self.handles.insert(id, handle);
        assert(self@ =~= old(self)@.insert(id, handle@));
    }

    /// The handle bound to `id`. A read-only request leaves the binding in
    /// place; a read-write request takes it out of the registry, since the
    /// caller may now write to the buffer.
    pub fn get_handle(&mut self, id: u64, status: TensorStatus) -> (r: JitFusionHandle)
        requires
            old(self)@.contains_key(id),
            status != TensorStatus::NotInit,
        ensures
            r@ == old(self)@[id],
            final(self)@ == registry_after_get(old(self)@, id, status),
    {
        if status == TensorStatus::ReadWrite {
            let h = self.handles.remove(&id);
            assert(self@ =~= old(self)@.remove(id));
            h.unwrap()
        } else {
            let h = self.handles.get(&id).unwrap().duplicate();
            h
        }
    }
}

} // verus!
