//! Properties that relate the builder's pieces, proved over their specs.
use vstd::prelude::*;

use crate::client::DispatchView;
use crate::handles::{contiguous_strides, FusionHandleView, TensorDescription, TensorView};
use crate::kernel::{
    array_buffers, array_count, fused_rank, input_words, metadata_words, output_binding,
    output_bindings, output_words, registry_after_inputs, registry_with, resolved_handles,
    max_rank, tensor_words, zeros, inputs_resolvable, lemma_probe_keeps_registry, lemma_array_buffers_len,
    AutotunableKernel, FusionKernel, OutputRuntimeInfo,
};

verus! {


proof fn lemma_tensor_words_len(strides: Seq<usize>, shape: Seq<usize>, rank: nat)
    ensures
        tensor_words(strides, shape, rank).len() == 2 * rank,
{
}

proof fn lemma_input_words_len(hs: Seq<FusionHandleView>, ds: Seq<TensorView>, rank: nat, n: nat)
    ensures
        input_words(hs, ds, rank, n).len() == 2 * rank * n,
    decreases n,
{
    if n > 0 {
        lemma_input_words_len(hs, ds, rank, (n - 1) as nat);
        lemma_tensor_words_len(hs[n - 1].strides, ds[n - 1].shape, rank);
        let m = (n - 1) as nat;
        assert(2 * rank * m + 2 * rank == 2 * rank * n) by (nonlinear_arith)
            requires
                m + 1 == n,
        ;
    }
}

proof fn lemma_output_words_len(
    ds: Seq<TensorView>,
    infos: Seq<OutputRuntimeInfo>,
    rank: nat,
    n: nat,
)
    ensures
        output_words(ds, infos, rank, n).len() == 2 * rank * array_count(infos, n),
    decreases n,
{
    if n > 0 {
        let m = (n - 1) as nat;
        lemma_output_words_len(ds, infos, rank, m);
        lemma_tensor_words_len(contiguous_strides(ds[n - 1].shape), ds[n - 1].shape, rank);
        let c = array_count(infos, m);
        assert(2 * rank * c + 2 * rank == 2 * rank * (c + 1)) by (nonlinear_arith);
        match infos[n - 1] {
            OutputRuntimeInfo::Array { .. } => {
                assert(array_count(infos, n) == c + 1);
                assert(output_words(ds, infos, rank, n) == output_words(ds, infos, rank, m)
                    + tensor_words(contiguous_strides(ds[n - 1].shape), ds[n - 1].shape, rank));
            },
            OutputRuntimeInfo::Inplace { .. } => {
                assert(array_count(infos, n) == c);
                assert(output_words(ds, infos, rank, n) =~= output_words(ds, infos, rank, m));
            },
        }
    } else {
        assert(array_count(infos, n) == 0);
        assert(2 * rank * 0 == 0) by (nonlinear_arith);
    }
}

proof fn lemma_all_array_count(infos: Seq<OutputRuntimeInfo>, n: nat)
    requires
        n <= infos.len(),
        forall|j: int| 0 <= j < n ==> (#[trigger] infos[j]) is Array,
    ensures
        array_count(infos, n) == n,
    decreases n,
{
    if n > 0 {
        lemma_all_array_count(infos, (n - 1) as nat);
    }
}

/// The metadata buffer holds the rank word, then `2 * rank` words for every
/// input and for every output that gets a fresh buffer. When every output
/// gets a fresh buffer this is `2 * rank * (inputs + outputs) + 1` words.
pub proof fn lemma_metadata_len(
    hs: Seq<FusionHandleView>,
    ins: Seq<TensorView>,
    outs: Seq<TensorView>,
    infos: Seq<OutputRuntimeInfo>,
)
    requires
        infos.len() == outs.len(),
    ensures
        metadata_words(hs, ins, outs, infos).len() == 2 * fused_rank(ins, outs) * (ins.len()
            + array_count(infos, outs.len())) + 1,
        (forall|j: int| 0 <= j < infos.len() ==> (#[trigger] infos[j]) is Array) ==> metadata_words(
            hs,
            ins,
            outs,
            infos,
        ).len() == 2 * fused_rank(ins, outs) * (ins.len() + outs.len()) + 1,
{
    let rank = fused_rank(ins, outs);
    lemma_input_words_len(hs, ins, rank, ins.len());
    lemma_output_words_len(outs, infos, rank, outs.len());
    let c = array_count(infos, outs.len());
    assert(2 * rank * ins.len() + 2 * rank * c == 2 * rank * (ins.len() + c)) by (nonlinear_arith);
    if forall|j: int| 0 <= j < infos.len() ==> (#[trigger] infos[j]) is Array {
        lemma_all_array_count(infos, outs.len());
    }
}

/// After registering `bs` in order, the id of pair `j` is bound to its
/// handle when no later pair has the same id.
pub proof fn lemma_registry_with_binding(
    reg: Map<u64, FusionHandleView>,
    bs: Seq<(u64, FusionHandleView)>,
    j: int,
)
    requires
        0 <= j < bs.len(),
        forall|k: int| j < k < bs.len() ==> (#[trigger] bs[k]).0 != bs[j].0,
    ensures
        registry_with(reg, bs).contains_key(bs[j].0),
        registry_with(reg, bs)[bs[j].0] == bs[j].1,
    decreases bs.len(),
{
    if j < bs.len() - 1 {
        lemma_registry_with_binding(reg, bs.drop_last(), j);
        assert(bs.last() == bs[bs.len() - 1]);
    }
}

/// Registering `bs` leaves alone every id that no pair names.
pub proof fn lemma_registry_with_other(
    reg: Map<u64, FusionHandleView>,
    bs: Seq<(u64, FusionHandleView)>,
    id: u64,
)
    requires
        reg.contains_key(id),
        forall|k: int| 0 <= k < bs.len() ==> (#[trigger] bs[k]).0 != id,
    ensures
        registry_with(reg, bs).contains_key(id),
        registry_with(reg, bs)[id] == reg[id],
    decreases bs.len(),
{
    if bs.len() > 0 {
        lemma_registry_with_other(reg, bs.drop_last(), id);
        assert(bs.last() == bs[bs.len() - 1]);
    }
}

/// An output written in place of input `i` is registered with input `i`'s
/// buffer and with contiguous strides of its own shape.
pub proof fn lemma_inplace_output_aliases_input(
    reg: Map<u64, FusionHandleView>,
    hs: Seq<FusionHandleView>,
    outs: Seq<TensorView>,
    infos: Seq<OutputRuntimeInfo>,
    base: nat,
    j: int,
    i: usize,
)
    requires
        0 <= j < outs.len(),
        infos.len() == outs.len(),
        infos[j] == (OutputRuntimeInfo::Inplace { input_index: i }),
        i < hs.len(),
        forall|k: int| j < k < outs.len() ==> (#[trigger] outs[k]).id != outs[j].id,
    ensures
        registry_with(reg, output_bindings(hs, outs, infos, base))[outs[j].id].handle
            == hs[i as int].handle,
        registry_with(reg, output_bindings(hs, outs, infos, base))[outs[j].id].strides
            == contiguous_strides(outs[j].shape),
{
    let bs = output_bindings(hs, outs, infos, base);
    assert forall|k: int| j < k < bs.len() implies (#[trigger] bs[k]).0 != bs[j].0 by {
        assert(bs[k].0 == outs[k].id);
    }
    lemma_registry_with_binding(reg, bs, j);
}

proof fn lemma_array_count_le(infos: Seq<OutputRuntimeInfo>, j: nat, n: nat)
    requires
        j <= n,
    ensures
        array_count(infos, j) <= array_count(infos, n),
        array_count(infos, n) <= n,
    decreases n,
{
    if n > 0 {
        if j < n {
            lemma_array_count_le(infos, j, (n - 1) as nat);
        } else {
            lemma_array_count_le(infos, (n - 1) as nat, (n - 1) as nat);
        }
    }
}

proof fn lemma_array_buffer_at(infos: Seq<OutputRuntimeInfo>, n: nat, j: int, size: usize)
    requires
        0 <= j < n <= infos.len(),
        infos[j] == (OutputRuntimeInfo::Array { size }),
    ensures
        array_buffers(infos, n).len() == array_count(infos, n),
        array_count(infos, j as nat) < array_count(infos, n),
        array_buffers(infos, n)[array_count(infos, j as nat) as int] == zeros(size),
    decreases n,
{
    lemma_array_buffers_len(infos, n);
    if j < n - 1 {
        lemma_array_buffer_at(infos, (n - 1) as nat, j, size);
    }
}

/// An output with a fresh buffer is registered with a buffer numbered from
/// `base` on, so with none of the input buffers when those all lie below
/// `base`; the build creates exactly one zero-filled buffer of `size` bytes
/// for it.
pub proof fn lemma_array_output_fresh(
    reg: Map<u64, FusionHandleView>,
    hs: Seq<FusionHandleView>,
    outs: Seq<TensorView>,
    infos: Seq<OutputRuntimeInfo>,
    base: nat,
    j: int,
    size: usize,
)
    requires
        0 <= j < outs.len(),
        infos.len() == outs.len(),
        infos[j] == (OutputRuntimeInfo::Array { size }),
        base + outs.len() <= usize::MAX,
        forall|i: int| 0 <= i < hs.len() ==> (#[trigger] hs[i]).handle.id < base,
        forall|k: int| j < k < outs.len() ==> (#[trigger] outs[k]).id != outs[j].id,
    ensures
        registry_with(reg, output_bindings(hs, outs, infos, base))[outs[j].id].handle.id
            == base + array_count(infos, j as nat),
        forall|i: int|
            0 <= i < hs.len() ==> registry_with(
                reg,
                output_bindings(hs, outs, infos, base),
            )[outs[j].id].handle != (#[trigger] hs[i]).handle,
        array_buffers(infos, outs.len())[array_count(infos, j as nat) as int] == zeros(size),
{
    let bs = output_bindings(hs, outs, infos, base);
    assert forall|k: int| j < k < bs.len() implies (#[trigger] bs[k]).0 != bs[j].0 by {
        assert(bs[k].0 == outs[k].id);
    }
    lemma_registry_with_binding(reg, bs, j);
    lemma_array_count_le(infos, j as nat, j as nat);
    lemma_array_buffer_at(infos, outs.len(), j, size);
}

/// A kernel's identity depends on its settings and base id alone, never on
/// the ids of the tensors it was built for.
pub proof fn lemma_identity_ignores_tensor_ids(k1: FusionKernel, k2: FusionKernel)
    requires
        k1.settings_spec() == k2.settings_spec(),
        k1.base_id() == k2.base_id(),
    ensures
        k1.identity() == k2.identity(),
{
}

/// Probing twice: resolving the inputs read-only leaves the registry as it
/// was, and when no output shares an id with an input, a second probe after
/// the first one's outputs were registered resolves the same handles and
/// packs the same metadata words.
pub proof fn lemma_probe_twice(
    reg: Map<u64, FusionHandleView>,
    ins: Seq<TensorDescription>,
    in_views: Seq<TensorView>,
    outs: Seq<TensorView>,
    infos: Seq<OutputRuntimeInfo>,
    base: nat,
)
    requires
        inputs_resolvable(reg, ins, false),
        forall|i: int, j: int|
            0 <= i < ins.len() && 0 <= j < outs.len() ==> (#[trigger] ins[i]).id != (#[trigger] outs[j]).id,
    ensures
        registry_after_inputs(reg, ins, false) == reg,
        ({
            let reg2 = registry_with(
                reg,
                output_bindings(resolved_handles(reg, ins, false), outs, infos, base),
            );
            &&& forall|i: int| 0 <= i < ins.len() ==> reg2[(#[trigger] ins[i]).id] == reg[ins[i].id]
            &&& resolved_handles(reg2, ins, false) == resolved_handles(reg, ins, false)
            &&& metadata_words(resolved_handles(reg2, ins, false), in_views, outs, infos)
                == metadata_words(resolved_handles(reg, ins, false), in_views, outs, infos)
        }),
{
    lemma_probe_keeps_registry(reg, ins);
    let bs = output_bindings(resolved_handles(reg, ins, false), outs, infos, base);
    let reg2 = registry_with(reg, bs);
    assert forall|i: int| 0 <= i < ins.len() implies reg2[(#[trigger] ins[i]).id] == reg[ins[i].id]
        && reg2.contains_key(ins[i].id) by {
        lemma_probe_keeps_registry(reg, ins.take(i));
        assert(registry_after_inputs(reg, ins.take(i), false).contains_key(ins[i].id));
        assert forall|k: int| 0 <= k < bs.len() implies (#[trigger] bs[k]).0 != ins[i].id by {
            assert(bs[k].0 == outs[k].id);
        }
        lemma_registry_with_other(reg, bs, ins[i].id);
    }
    assert forall|i: int| 0 <= i < ins.len() implies resolved_handles(reg2, ins, false)[i]
        == resolved_handles(reg, ins, false)[i] by {
        lemma_probe_keeps_registry(reg, ins.take(i));
        lemma_probe_keeps_registry(reg2, ins.take(i));
    }
    assert(resolved_handles(reg2, ins, false) =~= resolved_handles(reg, ins, false));
}

/// Dispatching clones: when each unit of `clones` shares the kernel and the
/// dispatch list of `k`, and each dispatch appends that unit's record to the
/// log, the log ends with one identical record of `k` per clone.
pub proof fn lemma_clones_dispatch_alike(
    k: AutotunableKernel,
    clones: Seq<AutotunableKernel>,
    logs: Seq<Seq<DispatchView>>,
)
    requires
        logs.len() == clones.len() + 1,
        forall|i: int|
            0 <= i < clones.len() ==> (#[trigger] clones[i]).kernel_spec() == k.kernel_spec()
                && clones[i].handles_spec() == k.handles_spec(),
        forall|i: int|
            0 <= i < clones.len() ==> #[trigger] logs[i + 1] == logs[i].push(clones[i].dispatch_view()),
    ensures
        logs.last() == logs[0] + Seq::new(clones.len(), |i: int| k.dispatch_view()),
    decreases clones.len(),
{
    if clones.len() > 0 {
        let n = clones.len() - 1;
        lemma_clones_dispatch_alike(k, clones.drop_last(), logs.drop_last());
        assert(logs[n + 1] == logs[n].push(clones[n].dispatch_view()));
        assert(logs.last() =~= logs[0] + Seq::new(clones.len(), |i: int| k.dispatch_view()));
    }
}


/// Whether two tensor lists differ at most in their ids and statuses.
pub open spec fn same_shapes(a: Seq<TensorView>, b: Seq<TensorView>) -> bool {
    &&& a.len() == b.len()
    &&& forall|i: int| 0 <= i < a.len() ==> (#[trigger] a[i]).shape == b[i].shape
}

proof fn lemma_max_rank_shapes(a: Seq<TensorView>, b: Seq<TensorView>)
    requires
        same_shapes(a, b),
    ensures
        max_rank(a) == max_rank(b),
    decreases a.len(),
{
    if a.len() > 0 {
        assert(same_shapes(a.drop_last(), b.drop_last()));
        lemma_max_rank_shapes(a.drop_last(), b.drop_last());
        assert(a.last().shape == b.last().shape);
    }
}

proof fn lemma_input_words_shapes(
    hs: Seq<FusionHandleView>,
    a: Seq<TensorView>,
    b: Seq<TensorView>,
    rank: nat,
    n: nat,
)
    requires
        same_shapes(a, b),
        n <= a.len(),
    ensures
        input_words(hs, a, rank, n) == input_words(hs, b, rank, n),
    decreases n,
{
    if n > 0 {
        lemma_input_words_shapes(hs, a, b, rank, (n - 1) as nat);
        assert(a[n - 1].shape == b[n - 1].shape);
    }
}

proof fn lemma_output_words_shapes(
    a: Seq<TensorView>,
    b: Seq<TensorView>,
    infos: Seq<OutputRuntimeInfo>,
    rank: nat,
    n: nat,
)
    requires
        same_shapes(a, b),
        n <= a.len(),
    ensures
        output_words(a, infos, rank, n) == output_words(b, infos, rank, n),
    decreases n,
{
    if n > 0 {
        lemma_output_words_shapes(a, b, infos, rank, (n - 1) as nat);
        assert(a[n - 1].shape == b[n - 1].shape);
    }
}

/// Two traces that differ only in tensor ids (same shapes, same strides of
/// the input buffers, same output plan) pack the same metadata words.
pub proof fn lemma_metadata_ignores_tensor_ids(
    hs: Seq<FusionHandleView>,
    ins1: Seq<TensorView>,
    ins2: Seq<TensorView>,
    outs1: Seq<TensorView>,
    outs2: Seq<TensorView>,
    infos: Seq<OutputRuntimeInfo>,
)
    requires
        same_shapes(ins1, ins2),
        same_shapes(outs1, outs2),
    ensures
        fused_rank(ins1, outs1) == fused_rank(ins2, outs2),
        metadata_words(hs, ins1, outs1, infos) == metadata_words(hs, ins2, outs2, infos),
{
    lemma_max_rank_shapes(ins1, ins2);
    lemma_max_rank_shapes(outs1, outs2);
    let rank = fused_rank(ins1, outs1);
    lemma_input_words_shapes(hs, ins1, ins2, rank, ins1.len());
    lemma_output_words_shapes(outs1, outs2, infos, rank, outs1.len());
}

} // verus!
