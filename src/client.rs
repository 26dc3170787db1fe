//! An in-memory compute client: device buffers and the log of dispatches.
use vstd::prelude::*;

verus! {

/// An opaque reference to one device buffer. Two handles with the same id
/// refer to the same physical memory.
#[derive(Clone, Copy, Debug, PartialEq, Eq, Structural)]
pub struct Handle {
    pub id: usize,
}

/// One kernel dispatch: the kernel's identity and the ordered buffer list.
#[derive(Debug)]
pub struct Dispatch {
    pub kernel_id: String,
    pub handles: Vec<Handle>,
}

/// Mathematical view of a [`Dispatch`].
pub struct DispatchView {
    pub kernel_id: Seq<char>,
    pub handles: Seq<Handle>,
}

impl View for Dispatch {
    type V = DispatchView;

    open spec fn view(&self) -> DispatchView {
        DispatchView { kernel_id: self.kernel_id@, handles: self.handles@ }
    }
}

/// Mathematical view of a [`ComputeClient`].
pub struct ClientView {
    pub buffers: Seq<Seq<u8>>,
    pub dispatches: Seq<DispatchView>,
}

/// A compute client holding device buffers and recording each dispatch in
/// the order it was submitted.
pub struct ComputeClient {
    buffers: Vec<Vec<u8>>,
    dispatches: Vec<Dispatch>,
}

impl View for ComputeClient {
    type V = ClientView;

    closed spec fn view(&self) -> ClientView {
        ClientView {
            buffers: self.buffers@.map_values(|b: Vec<u8>| b@),
            dispatches: self.dispatches@.map_values(|d: Dispatch| d@),
        }
    }
}

impl ComputeClient {
    /// A client with no buffers and no dispatches.
    pub fn new() -> (r: ComputeClient)
        ensures
            r@.buffers == Seq::<Seq<u8>>::empty(),
            r@.dispatches == Seq::<DispatchView>::empty(),
    {
        let r = ComputeClient { buffers: Vec::new(), dispatches: Vec::new() };
        assert(r@.buffers =~= Seq::<Seq<u8>>::empty());
        assert(r@.dispatches =~= Seq::<DispatchView>::empty());
        r
    }

    /// Number of buffers created so far.
    pub fn num_buffers(&self) -> (r: usize)
        ensures
            r == self@.buffers.len(),
    {
        self.buffers.len()
    }

    /// Number of dispatches submitted so far.
    pub fn num_dispatches(&self) -> (r: usize)
        ensures
            r == self@.dispatches.len(),
    {
        self.dispatches.len()
    }

    /// The contents of the buffer behind `handle`.
    pub fn read(&self, handle: Handle) -> (r: Vec<u8>)
        requires
            handle.id < self@.buffers.len(),
        ensures
            r@ == self@.buffers[handle.id as int],
    {
        self.buffers[handle.id].clone()
    }

    /// The dispatch submitted at position `index`.
    pub fn dispatch(&self, index: usize) -> (r: (String, Vec<Handle>))
        requires
            index < self@.dispatches.len(),
        ensures
            r.0@ == self@.dispatches[index as int].kernel_id,
            r.1@ == self@.dispatches[index as int].handles,
    {
        let d = &self.dispatches[index];
        (d.kernel_id.clone(), d.handles.clone())
    }

    /// A new buffer holding a copy of `bytes`.
    pub fn create(&mut self, bytes: &[u8]) -> (r: Handle)
        ensures
            r.id == old(self)@.buffers.len(),
            final(self)@.buffers == old(self)@.buffers.push(bytes@),
            final(self)@.dispatches == old(self)@.dispatches,
    {
        let id = self.buffers.len();
        let mut data: Vec<u8> = Vec::new();
        data.extend_from_slice(bytes);
        assert(data@ =~= bytes@);
        self.buffers.push(data);
        assert(self@.buffers =~= old(self)@.buffers.push(bytes@));
        assert(self@.dispatches =~= old(self)@.dispatches);
        Handle { id }
    }

    /// A new zero-filled buffer of `size` bytes.
    pub fn empty(&mut self, size: usize) -> (r: Handle)
        ensures
            r.id == old(self)@.buffers.len(),
            final(self)@.buffers == old(self)@.buffers.push(Seq::new(size as nat, |i: int| 0u8)),
            final(self)@.dispatches == old(self)@.dispatches,
    {
        let id = self.buffers.len();
        let mut data: Vec<u8> = Vec::new();
        let mut i: usize = 0;
        while i < size
            invariant
                i <= size,
                data@ =~= Seq::new(i as nat, |j: int| 0u8),
            decreases size - i,
        {
            data.push(0u8);
            i = i + 1;
        }
        self.buffers.push(data);
        assert(self@.buffers =~= old(self)@.buffers.push(Seq::new(size as nat, |i: int| 0u8)));
        assert(self@.dispatches =~= old(self)@.dispatches);
        Handle { id }
    }

    /// Submit `kernel_id` with the ordered buffer list `handles`.
    pub fn execute(&mut self, kernel_id: String, handles: Vec<Handle>)
        ensures
            final(self)@.buffers == old(self)@.buffers,
            final(self)@.dispatches == old(self)@.dispatches.push(
                DispatchView { kernel_id: kernel_id@, handles: handles@ },
            ),
    {
        let d = Dispatch { kernel_id, handles };
        self.dispatches.push(d);
        assert(self@.buffers =~= old(self)@.buffers);
        assert(self@.dispatches =~= old(self)@.dispatches.push(
            DispatchView { kernel_id: kernel_id@, handles: handles@ },
        ));
    }
}

} // verus!
