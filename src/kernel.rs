//! The fusion kernel builder: resolves input handles, packs the metadata
//! buffer, decides in-place reuse or fresh allocation of each output, and
//! wraps the result into a unit that can be dispatched once or cloned for
//! benchmarking.
use std::collections::HashMap;
use std::sync::Arc;
use vstd::prelude::*;
use vstd::string::*;

use crate::client::{ClientView, ComputeClient, DispatchView, Handle};
use crate::handles::{
    contiguous_strides, registry_after_get, strides_dyn_rank, strides_fit, FusionHandleView,
    HandleContainer, JitFusionHandle, TensorDescription, TensorStatus, TensorView,
};

verus! {

broadcast use vstd::std_specs::hash::group_hash_axioms;

/// How one output of a kernel gets its memory.
#[derive(Clone, Copy, Debug, PartialEq, Eq, Structural)]
pub enum OutputRuntimeInfo {
    /// The output is written into the buffer of input `input_index`.
    Inplace { input_index: usize },
    /// The output is written into a fresh buffer of `size` bytes.
    Array { size: usize },
}

/// Launch dimensions of a kernel.
#[derive(Clone, Copy, Debug, PartialEq, Eq, Structural)]
pub struct WorkGroup {
    pub x: u32,
    pub y: u32,
    pub z: u32,
}

/// Number of elements each kernel invocation handles at once.
#[derive(Clone, Copy, Debug, PartialEq, Eq, Structural)]
pub enum Vectorization {
    Scalar,
    Vec2,
    Vec4,
}

/// How the generated kernel computes element positions.
#[derive(Clone, Copy, Debug, PartialEq, Eq, Structural)]
pub enum IndexingMode {
    /// Every tensor is read through its own strides.
    Strided,
    /// Every tensor is contiguous and read by linear position.
    Linear,
}

/// Code generation knobs of one kernel variant.
#[derive(Clone, Copy, Debug, PartialEq, Eq, Structural)]
pub struct CompilationSettings {
    pub vectorization: Vectorization,
    pub indexing: IndexingMode,
}

/// Text of the vectorization knob.
pub open spec fn vectorization_text(v: Vectorization) -> Seq<char> {
    match v {
        Vectorization::Scalar => "v1"@,
        Vectorization::Vec2 => "v2"@,
        Vectorization::Vec4 => "v4"@,
    }
}

/// Text of the indexing knob.
pub open spec fn indexing_text(m: IndexingMode) -> Seq<char> {
    match m {
        IndexingMode::Strided => "_strided_"@,
        IndexingMode::Linear => "_linear_"@,
    }
}

/// Rendering of a settings record, the prefix of every kernel identity.
pub open spec fn settings_text(s: CompilationSettings) -> Seq<char> {
    vectorization_text(s.vectorization) + indexing_text(s.indexing)
}

impl CompilationSettings {
    /// The rendering of these settings.
    pub fn render(&self) -> (r: String)
        ensures
            r@ == settings_text(*self),
    {
        let mut r = match self.vectorization {
            Vectorization::Scalar => {
                proof {
                    reveal_strlit("v1");
                }
                String::from_str("v1")
            },
            Vectorization::Vec2 => {
                proof {
                    reveal_strlit("v2");
                }
                String::from_str("v2")
            },
            Vectorization::Vec4 => {
                proof {
                    reveal_strlit("v4");
                }
                String::from_str("v4")
            },
        };
        match self.indexing {
            IndexingMode::Strided => {
                proof {
                    reveal_strlit("_strided_");
                }
                r.append("_strided_");
            },
            IndexingMode::Linear => {
                proof {
                    reveal_strlit("_linear_");
                }
                r.append("_linear_");
            },
        }
        r
    }
}

/// A fused kernel: the identity of its op graph, the settings of this
/// variant, how each output gets memory, and its launch shape.
#[derive(Debug)]
pub struct FusionKernel {
    id: String,
    settings: CompilationSettings,
    runtime_info: Vec<OutputRuntimeInfo>,
    workgroup: WorkGroup,
}

/// Identity of a kernel: its settings' rendering followed by its base id.
pub open spec fn kernel_identity(settings: CompilationSettings, base_id: Seq<char>) -> Seq<char> {
    settings_text(settings) + base_id
}

impl FusionKernel {
    pub closed spec fn base_id(&self) -> Seq<char> {
        self.id@
    }

    pub closed spec fn settings_spec(&self) -> CompilationSettings {
        self.settings
    }

    pub closed spec fn runtime_info_spec(&self) -> Seq<OutputRuntimeInfo> {
        self.runtime_info@
    }

    pub closed spec fn workgroup_spec(&self) -> WorkGroup {
        self.workgroup
    }

    /// The identity that a compilation cache keys this kernel by.
    pub open spec fn identity(&self) -> Seq<char> {
        kernel_identity(self.settings_spec(), self.base_id())
    }

    /// A kernel from its parts. `id` is shared by all variants of one graph.
    pub fn new(
        id: String,
        settings: CompilationSettings,
        runtime_info: Vec<OutputRuntimeInfo>,
        workgroup: WorkGroup,
    ) -> (r: FusionKernel)
        ensures
            r.base_id() == id@,
            r.settings_spec() == settings,
            r.runtime_info_spec() == runtime_info@,
            r.workgroup_spec() == workgroup,
    {
        FusionKernel { id, settings, runtime_info, workgroup }
    }

    /// The identity string: settings rendering, then base id.
    pub fn id(&self) -> (r: String)
        ensures
            r@ == self.identity(),
    {
        let r = self.settings.render();
        r.concat(self.id.as_str())
    }

    /// The launch dimensions.
    pub fn workgroup(&self) -> (r: WorkGroup)
        ensures
            r == self.workgroup_spec(),
    {
        self.workgroup
    }

    /// The settings of this variant.
    pub fn settings(&self) -> (r: CompilationSettings)
        ensures
            r == self.settings_spec(),
    {
        self.settings
    }

    /// How each output gets its memory, in output order.
    pub fn runtime_info(&self) -> (r: &Vec<OutputRuntimeInfo>)
        ensures
            r@ == self.runtime_info_spec(),
    {
        &self.runtime_info
    }
}

/// Strategy that chooses or builds the kernel variant for resolved inputs.
pub trait FusionKernelFactory {
    /// Create a kernel for the given input handles and descriptions.
    /// `stateful` is false while the kernel is only being benchmarked.
    fn create(
        &self,
        handles_inputs: &Vec<JitFusionHandle>,
        inputs: &Vec<TensorDescription>,
        outputs: &Vec<TensorDescription>,
        stateful: bool,
    ) -> FusionKernel;
}

/// Number of pending scalar operands of each kind in a trace.
#[derive(Clone, Copy, Debug, PartialEq, Eq, Structural)]
pub struct Scalars {
    pub num_float: usize,
    pub num_int: usize,
}

/// A recorded trace: ordered inputs and outputs and its scalar counts.
#[derive(Debug)]
pub struct ExecutionInfo {
    pub inputs: Vec<TensorDescription>,
    pub outputs: Vec<TensorDescription>,
    pub scalars: Scalars,
}

/// Per-stream store: tensor descriptions by id, pending scalars, and the
/// handle registry. Float scalars are kept as their IEEE-754 bit patterns.
pub struct Context {
    pub tensors: HashMap<u64, TensorDescription>,
    pub handles: HandleContainer,
    pub scalar_floats: Vec<u32>,
    pub scalar_ints: Vec<i32>,
}

impl Context {
    /// The tensor descriptions known to the stream, by id.
    pub open spec fn tensors(&self) -> Map<u64, TensorView> {
        Map::new(|id: u64| self.tensors@.contains_key(id), |id: u64| self.tensors@[id]@)
    }

    /// An empty context.
    pub fn new() -> (r: Context)
        ensures
            r.tensors() == Map::<u64, TensorView>::empty(),
            r.handles@ == Map::<u64, FusionHandleView>::empty(),
            r.scalar_floats@.len() == 0,
            r.scalar_ints@.len() == 0,
    {
        let r = Context {
            tensors: HashMap::new(),
            handles: HandleContainer::new(),
            scalar_floats: Vec::new(),
            scalar_ints: Vec::new(),
        };
        assert(r.tensors() =~= Map::<u64, TensorView>::empty());
        r
    }

    /// Record `desc` under its id, replacing an earlier description.
    pub fn register_tensor(&mut self, desc: TensorDescription)
        ensures
            final(self).tensors() == old(self).tensors().insert(desc.id, desc@),
            final(self).handles@ == old(self).handles@,
            final(self).scalar_floats@ == old(self).scalar_floats@,
            final(self).scalar_ints@ == old(self).scalar_ints@,
    {
        let ghost d = desc@;
        self.tensors.insert(desc.id, desc);
        assert(self.tensors() =~= old(self).tensors().insert(d.id, d));
    }

    /// The description recorded under `id`, if any.
    pub fn tensor(&self, id: u64) -> (r: Option<TensorDescription>)
        ensures
            r.is_some() == self.tensors().contains_key(id),
            r.is_some() ==> r.unwrap()@ == self.tensors()[id],
    {
        match self.tensors.get(&id) {
            Some(t) => Some(t.duplicate()),
            None => None,
        }
    }
}

/// Status with which an input's handle is requested: the trace's own status
/// when the build is stateful, read-only while probing.
pub open spec fn request_status(t: TensorDescription, stateful: bool) -> TensorStatus {
    if stateful {
        t.status
    } else {
        TensorStatus::ReadOnly
    }
}

/// The registry after the handles of `inputs` are requested in order.
pub open spec fn registry_after_inputs(
    reg: Map<u64, FusionHandleView>,
    inputs: Seq<TensorDescription>,
    stateful: bool,
) -> Map<u64, FusionHandleView>
    decreases inputs.len(),
{
    if inputs.len() == 0 {
        reg
    } else {
        registry_after_get(
            registry_after_inputs(reg, inputs.drop_last(), stateful),
            inputs.last().id,
            request_status(inputs.last(), stateful),
        )
    }
}

/// Every input finds its handle when its turn comes, with a status that can
/// be served.
pub open spec fn inputs_resolvable(
    reg: Map<u64, FusionHandleView>,
    inputs: Seq<TensorDescription>,
    stateful: bool,
) -> bool {
    forall|i: int|
        0 <= i < inputs.len() ==> {
            &&& #[trigger] registry_after_inputs(reg, inputs.take(i), stateful).contains_key(
                inputs[i].id,
            )
            &&& request_status(inputs[i], stateful) != TensorStatus::NotInit
        }
}

/// The handle that input `i` resolves to.
pub open spec fn resolved_handle(
    reg: Map<u64, FusionHandleView>,
    inputs: Seq<TensorDescription>,
    stateful: bool,
    i: int,
) -> FusionHandleView {
    registry_after_inputs(reg, inputs.take(i), stateful)[inputs[i].id]
}

/// Every id of `ts` is described in `tensors`.
pub open spec fn all_described(tensors: Map<u64, TensorView>, ts: Seq<TensorDescription>) -> bool {
    forall|i: int| 0 <= i < ts.len() ==> tensors.contains_key(#[trigger] ts[i].id)
}

/// Probing never changes the registry.
pub proof fn lemma_probe_keeps_registry(
    reg: Map<u64, FusionHandleView>,
    inputs: Seq<TensorDescription>,
)
    ensures
        registry_after_inputs(reg, inputs, false) == reg,
    decreases inputs.len(),
{
    if inputs.len() > 0 {
        lemma_probe_keeps_registry(reg, inputs.drop_last());
    }
}

/// Resolve each input's handle, in order, with the status the build asks
/// for, and look up the stream's descriptions of inputs and outputs.
fn process_inputs_outputs(
    inputs: &Vec<TensorDescription>,
    outputs: &Vec<TensorDescription>,
    context: &mut Context,
    stateful: bool,
) -> (r: (Vec<JitFusionHandle>, Vec<TensorDescription>, Vec<TensorDescription>))
    requires
        all_described(old(context).tensors(), inputs@),
        all_described(old(context).tensors(), outputs@),
        inputs_resolvable(old(context).handles@, inputs@, stateful),
    ensures
        final(context).tensors() == old(context).tensors(),
        final(context).scalar_floats@ == old(context).scalar_floats@,
        final(context).scalar_ints@ == old(context).scalar_ints@,
        final(context).handles@ == registry_after_inputs(old(context).handles@, inputs@, stateful),
        r.0@.len() == inputs@.len(),
        r.1@.len() == inputs@.len(),
        r.2@.len() == outputs@.len(),
        forall|i: int|
            0 <= i < inputs@.len() ==> (#[trigger] r.0@[i])@ == resolved_handle(
                old(context).handles@,
                inputs@,
                stateful,
                i,
            ),
        forall|i: int|
            0 <= i < inputs@.len() ==> (#[trigger] r.1@[i])@ == old(context).tensors()[inputs@[i].id],
        forall|i: int|
            0 <= i < outputs@.len() ==> (#[trigger] r.2@[i])@ == old(context).tensors()[outputs@[i].id],
{
    let mut handles_input: Vec<JitFusionHandle> = Vec::new();
    let mut inputs_updated: Vec<TensorDescription> = Vec::new();
    let mut outputs_updated: Vec<TensorDescription> = Vec::new();
    let ghost reg0 = context.handles@;
    let mut i: usize = 0;
    while i < inputs.len()
        invariant
            i <= inputs@.len(),
            context.tensors() == old(context).tensors(),
            context.scalar_floats@ == old(context).scalar_floats@,
            context.scalar_ints@ == old(context).scalar_ints@,
            reg0 == old(context).handles@,
            context.handles@ == registry_after_inputs(reg0, inputs@.take(i as int), stateful),
            all_described(old(context).tensors(), inputs@),
            inputs_resolvable(reg0, inputs@, stateful),
            handles_input@.len() == i,
            inputs_updated@.len() == i,
            forall|k: int|
                0 <= k < i ==> (#[trigger] handles_input@[k])@ == resolved_handle(
                    reg0,
                    inputs@,
                    stateful,
                    k,
                ),
            forall|k: int|
                0 <= k < i ==> (#[trigger] inputs_updated@[k])@ == old(context).tensors()[inputs@[k].id],
        decreases inputs@.len() - i,
    {
        let tensor = &inputs[i];
        let status = if stateful {
            tensor.status
        } else {
            TensorStatus::ReadOnly
        };
        assert(inputs@.take(i as int + 1).drop_last() =~= inputs@.take(i as int));
        assert(registry_after_inputs(reg0, inputs@.take(i as int), stateful).contains_key(
            inputs@[i as int].id,
        ));
        assert(old(context).tensors().contains_key(inputs@[i as int].id));
        let desc = context.tensor(tensor.id).unwrap();
        let handle = context.handles.get_handle(tensor.id, status);
        handles_input.push(handle);
        inputs_updated.push(desc);
        i = i + 1;
    }
    assert(inputs@.take(inputs@.len() as int) =~= inputs@);
    let mut j: usize = 0;
    while j < outputs.len()
        invariant
            j <= outputs@.len(),
            context.tensors() == old(context).tensors(),
            all_described(old(context).tensors(), outputs@),
            outputs_updated@.len() == j,
            forall|k: int|
                0 <= k < j ==> (#[trigger] outputs_updated@[k])@ == old(context).tensors()[outputs@[k].id],
        decreases outputs@.len() - j,
    {
        assert(old(context).tensors().contains_key(outputs@[j as int].id));
        let desc = context.tensor(outputs[j].id).unwrap();
        outputs_updated.push(desc);
        j = j + 1;
    }
    (handles_input, inputs_updated, outputs_updated)
}


/// Views of a sequence of descriptions.
pub open spec fn views(ts: Seq<TensorDescription>) -> Seq<TensorView> {
    ts.map_values(|t: TensorDescription| t@)
}

/// The stream's descriptions of the tensors that `ts` names.
pub open spec fn described(tensors: Map<u64, TensorView>, ts: Seq<TensorDescription>) -> Seq<TensorView> {
    ts.map_values(|t: TensorDescription| tensors[t.id])
}

/// Largest rank among `ts`, or 0 for none.
pub open spec fn max_rank(ts: Seq<TensorView>) -> nat
    decreases ts.len(),
{
    if ts.len() == 0 {
        0
    } else {
        let m = max_rank(ts.drop_last());
        if ts.last().shape.len() > m {
            ts.last().shape.len()
        } else {
            m
        }
    }
}

/// Rank of one side of a kernel: 1 when the side is empty.
pub open spec fn side_rank(ts: Seq<TensorView>) -> nat {
    if ts.len() == 0 {
        1
    } else {
        max_rank(ts)
    }
}

/// The single rank shared by every tensor of a fused kernel.
pub open spec fn fused_rank(inputs: Seq<TensorView>, outputs: Seq<TensorView>) -> nat {
    let a = side_rank(inputs);
    let b = side_rank(outputs);
    if a > b {
        a
    } else {
        b
    }
}

/// `s` brought to length `rank`: missing leading dimensions take `fill`,
/// surplus leading dimensions are dropped.
pub open spec fn pad(s: Seq<usize>, rank: nat, fill: usize) -> Seq<usize> {
    Seq::new(
        rank,
        |k: int|
            if s.len() >= rank {
                s[s.len() - rank + k]
            } else if k < rank - s.len() {
                fill
            } else {
                s[k - (rank - s.len())]
            },
    )
}

/// The 32-bit words of a sequence of sizes.
pub open spec fn words(s: Seq<usize>) -> Seq<u32> {
    s.map_values(|x: usize| x as u32)
}

/// Metadata words of one tensor: strides, then shape, both at `rank`.
/// Broadcast dimensions get stride 0 and size 1.
pub open spec fn tensor_words(strides: Seq<usize>, shape: Seq<usize>, rank: nat) -> Seq<u32> {
    words(pad(strides, rank, 0)) + words(pad(shape, rank, 1))
}

/// Metadata words of the first `n` inputs.
pub open spec fn input_words(
    hs: Seq<FusionHandleView>,
    ds: Seq<TensorView>,
    rank: nat,
    n: nat,
) -> Seq<u32>
    decreases n,
{
    if n == 0 {
        Seq::empty()
    } else {
        input_words(hs, ds, rank, (n - 1) as nat) + tensor_words(
            hs[n - 1].strides,
            ds[n - 1].shape,
            rank,
        )
    }
}

/// Number of outputs among the first `n` that get a fresh buffer.
pub open spec fn array_count(infos: Seq<OutputRuntimeInfo>, n: nat) -> nat
    decreases n,
{
    if n == 0 {
        0
    } else {
        array_count(infos, (n - 1) as nat) + match infos[n - 1] {
            OutputRuntimeInfo::Array { .. } => 1nat,
            OutputRuntimeInfo::Inplace { .. } => 0nat,
        }
    }
}

/// Metadata words of the first `n` outputs: only those with a fresh buffer
/// add words, each read contiguously.
pub open spec fn output_words(
    ds: Seq<TensorView>,
    infos: Seq<OutputRuntimeInfo>,
    rank: nat,
    n: nat,
) -> Seq<u32>
    decreases n,
{
    if n == 0 {
        Seq::empty()
    } else {
        output_words(ds, infos, rank, (n - 1) as nat) + match infos[n - 1] {
            OutputRuntimeInfo::Array { .. } => tensor_words(
                contiguous_strides(ds[n - 1].shape),
                ds[n - 1].shape,
                rank,
            ),
            OutputRuntimeInfo::Inplace { .. } => Seq::empty(),
        }
    }
}

/// The whole metadata buffer: rank, then inputs, then fresh outputs.
pub open spec fn metadata_words(
    hs: Seq<FusionHandleView>,
    ins: Seq<TensorView>,
    outs: Seq<TensorView>,
    infos: Seq<OutputRuntimeInfo>,
) -> Seq<u32> {
    let rank = fused_rank(ins, outs);
    seq![rank as u32] + input_words(hs, ins, rank, ins.len()) + output_words(
        outs,
        infos,
        rank,
        outs.len(),
    )
}

/// Handles of the fresh buffers of the first `n` outputs, numbered from `base`.
pub open spec fn array_handles(infos: Seq<OutputRuntimeInfo>, base: nat, n: nat) -> Seq<Handle>
    decreases n,
{
    if n == 0 {
        Seq::empty()
    } else {
        array_handles(infos, base, (n - 1) as nat) + match infos[n - 1] {
            OutputRuntimeInfo::Array { .. } => seq![
                Handle { id: (base + array_count(infos, (n - 1) as nat)) as usize },
            ],
            OutputRuntimeInfo::Inplace { .. } => Seq::empty(),
        }
    }
}

/// A zero-filled buffer of `size` bytes.
pub open spec fn zeros(size: usize) -> Seq<u8> {
    Seq::new(size as nat, |i: int| 0u8)
}

/// Contents of the fresh buffers of the first `n` outputs.
pub open spec fn array_buffers(infos: Seq<OutputRuntimeInfo>, n: nat) -> Seq<Seq<u8>>
    decreases n,
{
    if n == 0 {
        Seq::empty()
    } else {
        array_buffers(infos, (n - 1) as nat) + match infos[n - 1] {
            OutputRuntimeInfo::Array { size } => seq![zeros(size)],
            OutputRuntimeInfo::Inplace { .. } => Seq::empty(),
        }
    }
}

/// The binding that output `j` is registered under.
pub open spec fn output_binding(
    hs: Seq<FusionHandleView>,
    outs: Seq<TensorView>,
    infos: Seq<OutputRuntimeInfo>,
    base: nat,
    j: int,
) -> FusionHandleView {
    let handle = match infos[j] {
        OutputRuntimeInfo::Inplace { input_index } => hs[input_index as int].handle,
        OutputRuntimeInfo::Array { .. } => Handle {
            id: (base + array_count(infos, j as nat)) as usize,
        },
    };
    FusionHandleView { handle, strides: contiguous_strides(outs[j].shape) }
}

/// The (id, binding) pairs of all outputs, in output order.
pub open spec fn output_bindings(
    hs: Seq<FusionHandleView>,
    outs: Seq<TensorView>,
    infos: Seq<OutputRuntimeInfo>,
    base: nat,
) -> Seq<(u64, FusionHandleView)> {
    Seq::new(outs.len(), |j: int| (outs[j].id, output_binding(hs, outs, infos, base, j)))
}

/// `reg` with each pair of `bs` inserted in order.
pub open spec fn registry_with(
    reg: Map<u64, FusionHandleView>,
    bs: Seq<(u64, FusionHandleView)>,
) -> Map<u64, FusionHandleView>
    decreases bs.len(),
{
    if bs.len() == 0 {
        reg
    } else {
        registry_with(reg, bs.drop_last()).insert(bs.last().0, bs.last().1)
    }
}

/// Whether a kernel's output plan fits the trace: one entry per output, and
/// every in-place output names an existing input.
pub open spec fn runtime_info_valid(
    infos: Seq<OutputRuntimeInfo>,
    num_inputs: nat,
    num_outputs: nat,
) -> bool {
    &&& infos.len() == num_outputs
    &&& forall|j: int|
        0 <= j < infos.len() ==> match #[trigger] infos[j] {
            OutputRuntimeInfo::Inplace { input_index } => input_index < num_inputs,
            OutputRuntimeInfo::Array { .. } => true,
        }
}

/// Why a kernel could not be built for a trace.
#[derive(Clone, Copy, Debug, PartialEq, Eq, Structural)]
pub enum FusionError {
    /// The kernel plans memory for `planned` outputs, the trace has `outputs`.
    OutputCountMismatch { planned: usize, outputs: usize },
    /// Output `output` is to be written into input `input_index`, which
    /// does not exist.
    InplaceInputMissing { output: usize, input_index: usize },
}

/// What an error of [`check_runtime_info`] says of the plan it rejected.
pub open spec fn error_explains(
    e: FusionError,
    infos: Seq<OutputRuntimeInfo>,
    num_inputs: usize,
    num_outputs: usize,
) -> bool {
    match e {
        FusionError::OutputCountMismatch { planned, outputs } => {
            &&& planned == infos.len()
            &&& outputs == num_outputs
            &&& planned != outputs
        },
        FusionError::InplaceInputMissing { output, input_index } => {
            &&& infos.len() == num_outputs
            &&& output < infos.len()
            &&& infos[output as int] == (OutputRuntimeInfo::Inplace { input_index })
            &&& input_index >= num_inputs
        },
    }
}

/// Check a kernel's output plan against the trace.
pub fn check_runtime_info(
    infos: &Vec<OutputRuntimeInfo>,
    num_inputs: usize,
    num_outputs: usize,
) -> (r: Result<(), FusionError>)
    ensures
        r.is_ok() == runtime_info_valid(infos@, num_inputs as nat, num_outputs as nat),
        infos@.len() != num_outputs ==> r.is_err(),
        r.is_err() ==> error_explains(r->Err_0, infos@, num_inputs, num_outputs),
{
    if infos.len() != num_outputs {
        return Err(FusionError::OutputCountMismatch { planned: infos.len(), outputs: num_outputs });
    }
    let mut j: usize = 0;
    while j < infos.len()
        invariant
            j <= infos@.len(),
            infos@.len() == num_outputs,
            forall|k: int|
                0 <= k < j ==> match #[trigger] infos@[k] {
                    OutputRuntimeInfo::Inplace { input_index } => input_index < num_inputs,
                    OutputRuntimeInfo::Array { .. } => true,
                },
        decreases infos@.len() - j,
    {
        match infos[j] {
            OutputRuntimeInfo::Inplace { input_index } => {
                if input_index >= num_inputs {
                    return Err(FusionError::InplaceInputMissing { output: j, input_index });
                }
            },
            OutputRuntimeInfo::Array { .. } => {},
        }
        j = j + 1;
    }
    Ok(())
}

/// Append `s` brought to length `rank` (see [`pad`]) as 32-bit words.
fn push_padded(info: &mut Vec<u32>, s: &Vec<usize>, rank: usize, fill: usize)
    ensures
        final(info)@ == old(info)@ + words(pad(s@, rank as nat, fill)),
{
    let n = s.len();
    let mut k: usize = 0;
    while k < rank
        invariant
            k <= rank,
            n == s@.len(),
            info@ =~= old(info)@ + words(pad(s@, rank as nat, fill)).take(k as int),
        decreases rank - k,
    {
        let v = if n >= rank {
            s[n - rank + k]
        } else if k < rank - n {
            fill
        } else {
            s[k - (rank - n)]
        };
        info.push(v as u32);
        k = k + 1;
    }
    assert(words(pad(s@, rank as nat, fill)).take(rank as int) =~= words(pad(s@, rank as nat, fill)));
}

/// Append the metadata words of one tensor: its strides, then its shape.
fn register_info_tensor(info: &mut Vec<u32>, tensor: &TensorDescription, strides: &Vec<usize>, rank: usize)
    ensures
        final(info)@ == old(info)@ + tensor_words(strides@, tensor.shape@, rank as nat),
{
    push_padded(info, strides, rank, 0);
    push_padded(info, &tensor.shape, rank, 1);
    assert(info@ =~= old(info)@ + tensor_words(strides@, tensor.shape@, rank as nat));
}

/// Largest rank among `ts`, or 0 for none.
fn max_rank_of(ts: &Vec<TensorDescription>) -> (r: usize)
    ensures
        r as nat == max_rank(views(ts@)),
{
    let mut m: usize = 0;
    let mut i: usize = 0;
    while i < ts.len()
        invariant
            i <= ts@.len(),
            m as nat == max_rank(views(ts@).take(i as int)),
        decreases ts@.len() - i,
    {
        assert(views(ts@).take(i as int + 1).drop_last() =~= views(ts@).take(i as int));
        if ts[i].shape.len() > m {
            m = ts[i].shape.len();
        }
        i = i + 1;
    }
    assert(views(ts@).take(ts@.len() as int) =~= views(ts@));
    m
}

/// The rank shared by all tensors of a kernel over `inputs` and `outputs`.
pub fn fused_rank_of(inputs: &Vec<TensorDescription>, outputs: &Vec<TensorDescription>) -> (r: usize)
    ensures
        r as nat == fused_rank(views(inputs@), views(outputs@)),
{
    let a = if inputs.len() == 0 {
        1
    } else {
        max_rank_of(inputs)
    };
    let b = if outputs.len() == 0 {
        1
    } else {
        max_rank_of(outputs)
    };
    if a > b {
        a
    } else {
        b
    }
}


/// Views of a sequence of physical handles.
pub open spec fn handle_views(hs: Seq<JitFusionHandle>) -> Seq<FusionHandleView> {
    hs.map_values(|h: JitFusionHandle| h@)
}

/// Views of a sequence of (id, handle) pairs.
pub open spec fn binding_views(bs: Seq<(u64, JitFusionHandle)>) -> Seq<(u64, FusionHandleView)> {
    bs.map_values(|p: (u64, JitFusionHandle)| (p.0, p.1@))
}

/// The handles that the inputs resolve to, in input order.
pub open spec fn resolved_handles(
    reg: Map<u64, FusionHandleView>,
    inputs: Seq<TensorDescription>,
    stateful: bool,
) -> Seq<FusionHandleView> {
    Seq::new(inputs.len(), |i: int| resolved_handle(reg, inputs, stateful, i))
}

/// The ordered dispatch list: inputs, fresh outputs, metadata, then the
/// float and int scalar blocks when present. Fresh buffers are numbered
/// from `base` in the order they are created.
pub open spec fn dispatch_handles(
    hs: Seq<FusionHandleView>,
    infos: Seq<OutputRuntimeInfo>,
    base: nat,
    scalars: Scalars,
) -> Seq<Handle> {
    let meta = base + array_count(infos, infos.len());
    let floats: Seq<Handle> = if scalars.num_float > 0 {
        seq![Handle { id: (meta + 1) as usize }]
    } else {
        Seq::empty()
    };
    let ints: Seq<Handle> = if scalars.num_int > 0 {
        seq![Handle { id: (meta + 1 + floats.len()) as usize }]
    } else {
        Seq::empty()
    };
    Seq::new(hs.len(), |i: int| hs[i].handle) + array_handles(infos, base, infos.len()) + seq![
        Handle { id: meta as usize },
    ] + floats + ints
}

/// Number of buffers a build creates: fresh outputs, metadata, scalar blocks.
pub open spec fn created_count(infos: Seq<OutputRuntimeInfo>, scalars: Scalars) -> nat {
    array_count(infos, infos.len()) + 1 + (if scalars.num_float > 0 {
        1nat
    } else {
        0nat
    }) + (if scalars.num_int > 0 {
        1nat
    } else {
        0nat
    })
}

/// What a successful build leaves behind, for inputs resolved to `hs` with
/// descriptions `ins`, and outputs described by `outs`.
pub open spec fn built(
    k: ExecutableKernel,
    hs: Seq<FusionHandleView>,
    ins: Seq<TensorView>,
    outs: Seq<TensorView>,
    scalars: Scalars,
    reg_before: Map<u64, FusionHandleView>,
    reg_after: Map<u64, FusionHandleView>,
    client_before: ClientView,
    client_after: ClientView,
) -> bool {
    let infos = k.kernel_spec().runtime_info_spec();
    let base = client_before.buffers.len();
    let meta = base + array_count(infos, infos.len());
    &&& runtime_info_valid(infos, ins.len(), outs.len())
    &&& k.metadata_spec() == metadata_words(hs, ins, outs, infos)
    &&& k.handles_spec() == dispatch_handles(hs, infos, base, scalars)
    &&& client_after.dispatches == client_before.dispatches
    &&& client_after.buffers.len() == base + created_count(infos, scalars)
    &&& client_after.buffers.take(meta as int) == client_before.buffers + array_buffers(
        infos,
        infos.len(),
    )
    &&& client_after.buffers[meta as int].len() == 4 * k.metadata_spec().len()
    &&& reg_after == registry_with(reg_before, output_bindings(hs, outs, infos, base))
}

/// A kernel with its resolved dispatch list, ready to run once.
#[derive(Debug)]
pub struct ExecutableKernel {
    kernel: FusionKernel,
    handles: Vec<Handle>,
    metadata: Vec<u32>,
}

impl ExecutableKernel {
    pub closed spec fn kernel_spec(&self) -> FusionKernel {
        self.kernel
    }

    pub closed spec fn handles_spec(&self) -> Seq<Handle> {
        self.handles@
    }

    pub closed spec fn metadata_spec(&self) -> Seq<u32> {
        self.metadata@
    }

    /// The kernel to dispatch.
    pub fn kernel(&self) -> (r: &FusionKernel)
        ensures
            *r == self.kernel_spec(),
    {
        &self.kernel
    }

    /// The ordered buffers of the dispatch.
    pub fn handles(&self) -> (r: &Vec<Handle>)
        ensures
            r@ == self.handles_spec(),
    {
        &self.handles
    }

    /// The words packed into the metadata buffer.
    pub fn metadata(&self) -> (r: &Vec<u32>)
        ensures
            r@ == self.metadata_spec(),
    {
        &self.metadata
    }

    /// Dispatch the kernel with its buffers. Consumes the unit.
    pub fn execute(self, client: &mut ComputeClient)
        ensures
            final(client)@.buffers == old(client)@.buffers,
            final(client)@.dispatches == old(client)@.dispatches.push(
                DispatchView { kernel_id: self.kernel_spec().identity(), handles: self.handles_spec() },
            ),
    {
        let id = self.kernel.id();
        client.execute(id, self.handles);
    }
}

/// A kernel that can be cloned and dispatched many times, for benchmarking.
/// Clones share the kernel and copy the dispatch list.
#[derive(Debug)]
pub struct AutotunableKernel {
    kernel: Arc<FusionKernel>,
    handles: Vec<Handle>,
}

impl AutotunableKernel {
    pub closed spec fn kernel_spec(&self) -> FusionKernel {
        *self.kernel
    }

    pub closed spec fn handles_spec(&self) -> Seq<Handle> {
        self.handles@
    }

    /// The record that one dispatch of this kernel leaves in the client.
    pub open spec fn dispatch_view(&self) -> DispatchView {
        DispatchView { kernel_id: self.kernel_spec().identity(), handles: self.handles_spec() }
    }

    /// A benchmarkable unit from a one-shot one, with the same kernel and
    /// dispatch list.
    pub fn from(value: ExecutableKernel) -> (r: AutotunableKernel)
        ensures
            r.kernel_spec() == value.kernel_spec(),
            r.handles_spec() == value.handles_spec(),
    {
        AutotunableKernel { kernel: Arc::new(value.kernel), handles: value.handles }
    }

    /// An independent unit sharing the kernel, with a copy of the dispatch list.
    pub fn clone(&self) -> (r: AutotunableKernel)
        ensures
            r.kernel_spec() == self.kernel_spec(),
            r.handles_spec() == self.handles_spec(),
    {
        AutotunableKernel { kernel: Arc::clone(&self.kernel), handles: self.handles.clone() }
    }

    /// Dispatch the kernel with its buffers.
    pub fn execute(self, client: &mut ComputeClient)
        ensures
            final(client)@.buffers == old(client)@.buffers,
            final(client)@.dispatches == old(client)@.dispatches.push(self.dispatch_view()),
    {
        let id = self.kernel.id();
        client.execute(id, self.handles);
    }
}


/// Relies on bytemuck::cast_slice: the words reinterpreted as their bytes,
/// four for each word.
#[verifier::external_body]
fn words_as_bytes(words: &[u32]) -> (r: &[u8])
    ensures
        r@.len() == 4 * words@.len(),
{
    bytemuck::cast_slice(words)
}

/// Append each input's metadata words, and its buffer to the dispatch list.
fn register_inputs(
    info: &mut Vec<u32>,
    handles: &mut Vec<Handle>,
    hs: &Vec<JitFusionHandle>,
    ds: &Vec<TensorDescription>,
    rank: usize,
)
    requires
        hs@.len() == ds@.len(),
    ensures
        final(info)@ == old(info)@ + input_words(
            handle_views(hs@),
            views(ds@),
            rank as nat,
            ds@.len(),
        ),
        final(handles)@ == old(handles)@ + Seq::new(hs@.len(), |i: int| hs@[i].handle),
{
    let mut i: usize = 0;
    while i < ds.len()
        invariant
            i <= ds@.len(),
            hs@.len() == ds@.len(),
            info@ == old(info)@ + input_words(handle_views(hs@), views(ds@), rank as nat, i as nat),
            handles@ =~= old(handles)@ + Seq::new(i as nat, |k: int| hs@[k].handle),
        decreases ds@.len() - i,
    {
        register_info_tensor(info, &ds[i], &hs[i].strides, rank);
        handles.push(hs[i].handle);
        proof {
            assert(input_words(handle_views(hs@), views(ds@), rank as nat, (i + 1) as nat)
                == input_words(handle_views(hs@), views(ds@), rank as nat, i as nat)
                + tensor_words(hs@[i as int].strides@, ds@[i as int].shape@, rank as nat));
            vstd::seq_lib::lemma_concat_associative::<u32>(
                old(info)@,
                input_words(handle_views(hs@), views(ds@), rank as nat, i as nat),
                tensor_words(hs@[i as int].strides@, ds@[i as int].shape@, rank as nat),
            );
        }
        i = i + 1;
    }
}

/// For each output, either alias the input buffer it names or create a
/// fresh buffer (adding its metadata words and dispatch entry), and collect
/// the binding to register under the output's id.
fn register_outputs(
    client: &mut ComputeClient,
    info: &mut Vec<u32>,
    handles: &mut Vec<Handle>,
    hs: &Vec<JitFusionHandle>,
    outs: &Vec<TensorDescription>,
    infos: &Vec<OutputRuntimeInfo>,
    rank: usize,
) -> (r: Vec<(u64, JitFusionHandle)>)
    requires
        runtime_info_valid(infos@, hs@.len() as nat, outs@.len() as nat),
        forall|j: int| 0 <= j < outs@.len() ==> strides_fit(#[trigger] outs@[j].shape@),
    ensures
        final(info)@ == old(info)@ + output_words(views(outs@), infos@, rank as nat, outs@.len()),
        final(handles)@ == old(handles)@ + array_handles(
            infos@,
            old(client)@.buffers.len(),
            outs@.len(),
        ),
        final(client)@.buffers == old(client)@.buffers + array_buffers(infos@, outs@.len()),
        final(client)@.dispatches == old(client)@.dispatches,
        binding_views(r@) == output_bindings(
            handle_views(hs@),
            views(outs@),
            infos@,
            old(client)@.buffers.len(),
        ),
{
    let ghost base = old(client)@.buffers.len();
    let ghost hv = handle_views(hs@);
    let ghost ov = views(outs@);
    let mut register: Vec<(u64, JitFusionHandle)> = Vec::new();
    let mut j: usize = 0;
    while j < outs.len()
        invariant
            j <= outs@.len(),
            runtime_info_valid(infos@, hs@.len() as nat, outs@.len() as nat),
            forall|k: int| 0 <= k < outs@.len() ==> strides_fit(#[trigger] outs@[k].shape@),
            base == old(client)@.buffers.len(),
            hv == handle_views(hs@),
            ov == views(outs@),
            info@ == old(info)@ + output_words(ov, infos@, rank as nat, j as nat),
            handles@ == old(handles)@ + array_handles(infos@, base, j as nat),
            client@.buffers == old(client)@.buffers + array_buffers(infos@, j as nat),
            client@.buffers.len() == base + array_count(infos@, j as nat),
            client@.dispatches == old(client)@.dispatches,
            binding_views(register@) =~= output_bindings(hv, ov, infos@, base).take(j as int),
        decreases outs@.len() - j,
    {
        let tensor = &outs[j];
        let strides = strides_dyn_rank(&tensor.shape);
        let ghost info_before = info@;
        let ghost handles_before = handles@;
        let ghost buffers_before = client@.buffers;
        match infos[j] {
            OutputRuntimeInfo::Inplace { input_index } => {
                let handle_fusion = JitFusionHandle { handle: hs[input_index].handle, strides };
                register.push((tensor.id, handle_fusion));
            },
            OutputRuntimeInfo::Array { size } => {
                let handle = client.empty(size);
                let handle_fusion = JitFusionHandle { handle, strides };
                register_info_tensor(info, tensor, &handle_fusion.strides, rank);
                handles.push(handle);
                register.push((tensor.id, handle_fusion));
                proof {
                    vstd::seq_lib::lemma_concat_associative::<u32>(
                        old(info)@,
                        output_words(ov, infos@, rank as nat, j as nat),
                        tensor_words(contiguous_strides(ov[j as int].shape), ov[j as int].shape, rank as nat),
                    );
                    assert(handles@ =~= old(handles)@ + array_handles(infos@, base, (j + 1) as nat));
                    assert(client@.buffers =~= old(client)@.buffers + array_buffers(infos@, (j + 1) as nat));
                }
            },
        }
        proof {
            assert(output_bindings(hv, ov, infos@, base).take(j + 1) =~= output_bindings(hv, ov, infos@, base).take(j as int).push(
                output_bindings(hv, ov, infos@, base)[j as int]));
            assert(binding_views(register@) =~= output_bindings(hv, ov, infos@, base).take(j + 1));
        }
        j = j + 1;
    }
    proof {
        assert(output_bindings(hv, ov, infos@, base).take(outs@.len() as int) =~= output_bindings(hv, ov, infos@, base));
    }
    register
}

/// Register each (id, handle) pair in order.
fn register_all(container: &mut HandleContainer, bs: &Vec<(u64, JitFusionHandle)>)
    ensures
        final(container)@ == registry_with(old(container)@, binding_views(bs@)),
{
    let mut i: usize = 0;
    while i < bs.len()
        invariant
            i <= bs@.len(),
            container@ == registry_with(old(container)@, binding_views(bs@).take(i as int)),
        decreases bs@.len() - i,
    {
        assert(binding_views(bs@).take(i + 1).drop_last() =~= binding_views(bs@).take(i as int));
        let h = bs[i].1.duplicate();
        container.register_handle(bs[i].0, h);
        i = i + 1;
    }
    assert(binding_views(bs@).take(bs@.len() as int) =~= binding_views(bs@));
}

/// The first `n` words of `src`.
fn prefix_words(src: &Vec<u32>, n: usize) -> (r: Vec<u32>)
    requires
        n <= src@.len(),
    ensures
        r@ == src@.take(n as int),
{
    let mut r: Vec<u32> = Vec::new();
    let mut i: usize = 0;
    while i < n
        invariant
            i <= n <= src@.len(),
            r@ =~= src@.take(i as int),
        decreases n - i,
    {
        r.push(src[i]);
        i = i + 1;
    }
    r
}

/// The first `n` integers of `src`, as the 32-bit words of their bits.
fn int_words(src: &Vec<i32>, n: usize) -> (r: Vec<u32>)
    requires
        n <= src@.len(),
    ensures
        r@ == src@.take(n as int).map_values(|x: i32| x as u32),
{
    let mut r: Vec<u32> = Vec::new();
    let mut i: usize = 0;
    while i < n
        invariant
            i <= n <= src@.len(),
            r@ =~= src@.take(i as int).map_values(|x: i32| x as u32),
        decreases n - i,
    {
        r.push(src[i] as u32);
        i = i + 1;
    }
    r
}


/// Whether a stream can build a kernel for `trace`: every tensor is
/// described, every input's handle can be served in turn, every output's
/// contiguous strides fit, and the pending scalars are there.
pub open spec fn build_ready(context: &Context, trace: &ExecutionInfo, stateful: bool) -> bool {
    &&& all_described(context.tensors(), trace.inputs@)
    &&& all_described(context.tensors(), trace.outputs@)
    &&& inputs_resolvable(context.handles@, trace.inputs@, stateful)
    &&& forall|j: int|
        0 <= j < trace.outputs@.len() ==> strides_fit(
            #[trigger] context.tensors()[trace.outputs@[j].id].shape,
        )
    &&& trace.scalars.num_float <= context.scalar_floats@.len()
    &&& trace.scalars.num_int <= context.scalar_ints@.len()
}

impl FusionKernel {
    /// Finish a build with the factory's `kernel`: check its output plan,
    /// pack the metadata, allocate or alias each output, append the metadata
    /// and scalar blocks, and register the output bindings.
    /// On an invalid plan nothing is created or registered.
    pub fn build(
        kernel: FusionKernel,
        handles_input: Vec<JitFusionHandle>,
        inputs: Vec<TensorDescription>,
        outputs: Vec<TensorDescription>,
        scalars: Scalars,
        context: &mut Context,
        client: &mut ComputeClient,
    ) -> (r: Result<ExecutableKernel, FusionError>)
        requires
            handles_input@.len() == inputs@.len(),
            forall|j: int| 0 <= j < outputs@.len() ==> strides_fit(#[trigger] outputs@[j].shape@),
            scalars.num_float <= old(context).scalar_floats@.len(),
            scalars.num_int <= old(context).scalar_ints@.len(),
        ensures
            r.is_ok() == runtime_info_valid(
                kernel.runtime_info_spec(),
                inputs@.len() as nat,
                outputs@.len() as nat,
            ),
            final(context).tensors() == old(context).tensors(),
            final(context).scalar_floats@ == old(context).scalar_floats@,
            final(context).scalar_ints@ == old(context).scalar_ints@,
            r.is_err() ==> {
                &&& error_explains(
                    r->Err_0,
                    kernel.runtime_info_spec(),
                    inputs@.len() as usize,
                    outputs@.len() as usize,
                )
                &&& final(client)@ == old(client)@
                &&& final(context).handles@ == old(context).handles@
            },
            r.is_ok() ==> {
                &&& r->Ok_0.kernel_spec() == kernel
                &&& built(
                    r->Ok_0,
                    handle_views(handles_input@),
                    views(inputs@),
                    views(outputs@),
                    scalars,
                    old(context).handles@,
                    final(context).handles@,
                    old(client)@,
                    final(client)@,
                )
            },
    {
        match check_runtime_info(&kernel.runtime_info, inputs.len(), outputs.len()) {
            Err(e) => {
                return Err(e);
            },
            Ok(()) => {},
        }
        let ghost infos = kernel.runtime_info@;
        let ghost hv = handle_views(handles_input@);
        let ghost base = client@.buffers.len();
        let rank = fused_rank_of(&inputs, &outputs);
        let mut info: Vec<u32> = Vec::new();
        let mut handles: Vec<Handle> = Vec::new();
        info.push(rank as u32);
        register_inputs(&mut info, &mut handles, &handles_input, &inputs, rank);
        let ghost buffers_before_outputs = client@.buffers;
        let register = register_outputs(
            client,
            &mut info,
            &mut handles,
            &handles_input,
            &outputs,
            &kernel.runtime_info,
            rank,
        );
        proof {
            assert(info@ =~= metadata_words(hv, views(inputs@), views(outputs@), infos));
        }
        let ghost buffers_after_outputs = client@.buffers;
        proof {
            lemma_array_buffers_len(infos, infos.len());
        }
        let meta = client.create(words_as_bytes(info.as_slice()));
        if scalars.num_float > 0 {
            let floats = prefix_words(&context.scalar_floats, scalars.num_float);
            client.create(words_as_bytes(floats.as_slice()));
        }
        if scalars.num_int > 0 {
            let ints = int_words(&context.scalar_ints, scalars.num_int);
            client.create(words_as_bytes(ints.as_slice()));
        }
        handles.push(meta);
        let ghost meta_id = base + array_count(infos, infos.len());
        let mut dispatch = handles;
        if scalars.num_float > 0 {
            dispatch.push(Handle { id: meta.id + 1 });
        }
        if scalars.num_int > 0 {
            let n: usize = if scalars.num_float > 0 {
                2
            } else {
                1
            };
            dispatch.push(Handle { id: meta.id + n });
        }
        register_all(&mut context.handles, &register);
        let r = ExecutableKernel { kernel, handles: dispatch, metadata: info };
        proof {
            assert(r.handles_spec() =~= dispatch_handles(hv, infos, base, scalars));
            assert(client@.buffers.take(meta_id as int) =~= buffers_after_outputs);
        }
        Ok(r)
    }

    /// Build a kernel for `trace`: resolve each input's handle (with the
    /// trace's own status when `stateful`, read-only otherwise), let
    /// `factory` choose the kernel, and finish with [`FusionKernel::build`].
    pub fn create<K: FusionKernelFactory>(
        factory: &K,
        trace: &ExecutionInfo,
        context: &mut Context,
        client: &mut ComputeClient,
        stateful: bool,
    ) -> (r: Result<ExecutableKernel, FusionError>)
        requires
            build_ready(old(context), trace, stateful),
        ensures
            final(context).tensors() == old(context).tensors(),
            final(context).scalar_floats@ == old(context).scalar_floats@,
            final(context).scalar_ints@ == old(context).scalar_ints@,
            r.is_err() ==> {
                &&& final(client)@ == old(client)@
                &&& final(context).handles@ == registry_after_inputs(
                    old(context).handles@,
                    trace.inputs@,
                    stateful,
                )
            },
            r.is_ok() ==> built(
                r->Ok_0,
                resolved_handles(old(context).handles@, trace.inputs@, stateful),
                described(old(context).tensors(), trace.inputs@),
                described(old(context).tensors(), trace.outputs@),
                trace.scalars,
                registry_after_inputs(old(context).handles@, trace.inputs@, stateful),
                final(context).handles@,
                old(client)@,
                final(client)@,
            ),
    {
        let (handles_input, inputs, outputs) = process_inputs_outputs(
            &trace.inputs,
            &trace.outputs,
            context,
            stateful,
        );
        proof {
            assert(handle_views(handles_input@) =~= resolved_handles(
                old(context).handles@,
                trace.inputs@,
                stateful,
            ));
            assert(views(inputs@) =~= described(old(context).tensors(), trace.inputs@));
            assert(views(outputs@) =~= described(old(context).tensors(), trace.outputs@));
            assert forall|j: int| 0 <= j < outputs@.len() implies strides_fit(
                #[trigger] outputs@[j].shape@,
            ) by {
                assert(old(context).tensors()[trace.outputs@[j].id].shape == outputs@[j].shape@);
            }
        }
        let kernel = factory.create(&handles_input, &inputs, &outputs, stateful);
        FusionKernel::build(kernel, handles_input, inputs, outputs, trace.scalars, context, client)
    }
}

/// The fresh output buffers are one per output that is not in place.
pub proof fn lemma_array_buffers_len(infos: Seq<OutputRuntimeInfo>, n: nat)
    requires
        n <= infos.len(),
    ensures
        array_buffers(infos, n).len() == array_count(infos, n),
        array_handles(infos, 0, n).len() == array_count(infos, n),
    decreases n,
{
    if n > 0 {
        lemma_array_buffers_len(infos, (n - 1) as nat);
    }
}

} // verus!
