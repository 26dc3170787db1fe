use burn_fusion_kernel::client::{ComputeClient, Handle};
use burn_fusion_kernel::handles::{
    strides_dyn_rank, HandleContainer, JitFusionHandle, TensorDescription, TensorStatus,
};
use burn_fusion_kernel::kernel::{
    check_runtime_info, fused_rank_of, AutotunableKernel, CompilationSettings, Context,
    ExecutableKernel, ExecutionInfo, FusionError, FusionKernel, FusionKernelFactory,
    IndexingMode, OutputRuntimeInfo, Scalars, Vectorization, WorkGroup,
};

struct PlanFactory {
    base_id: String,
    plan: Vec<OutputRuntimeInfo>,
}

impl FusionKernelFactory for PlanFactory {
    fn create(
        &self,
        _handles_inputs: &Vec<JitFusionHandle>,
        _inputs: &Vec<TensorDescription>,
        _outputs: &Vec<TensorDescription>,
        _stateful: bool,
    ) -> FusionKernel {
        FusionKernel::new(
            self.base_id.clone(),
            settings(),
            self.plan.clone(),
            WorkGroup { x: 1, y: 1, z: 1 },
        )
    }
}

fn settings() -> CompilationSettings {
    CompilationSettings {
        vectorization: Vectorization::Scalar,
        indexing: IndexingMode::Strided,
    }
}

fn desc(id: u64, shape: Vec<usize>, status: TensorStatus) -> TensorDescription {
    TensorDescription { id, shape, status }
}

/// Stream with input 1 of shape [4], input 2 of shape [2, 4], output 3 of
/// shape [2, 4]; each input has a buffer of its own.
fn setup(status: TensorStatus) -> (Context, ComputeClient, ExecutionInfo, Handle, Handle) {
    let mut client = ComputeClient::new();
    let mut context = Context::new();
    let h1 = client.create(&[0u8; 16]);
    let h2 = client.create(&[0u8; 32]);
    context.register_tensor(desc(1, vec![4], status));
    context.register_tensor(desc(2, vec![2, 4], status));
    context.register_tensor(desc(3, vec![2, 4], TensorStatus::NotInit));
    context.handles.register_handle(1, JitFusionHandle { handle: h1, strides: vec![1] });
    context.handles.register_handle(2, JitFusionHandle { handle: h2, strides: vec![4, 1] });
    let trace = ExecutionInfo {
        inputs: vec![desc(1, vec![4], status), desc(2, vec![2, 4], status)],
        outputs: vec![desc(3, vec![2, 4], TensorStatus::NotInit)],
        scalars: Scalars { num_float: 0, num_int: 0 },
    };
    (context, client, trace, h1, h2)
}

fn factory(plan: Vec<OutputRuntimeInfo>) -> PlanFactory {
    PlanFactory { base_id: String::from("add_mul"), plan }
}

#[test]
fn end_to_end_array_output() {
    let (mut context, mut client, trace, h1, h2) = setup(TensorStatus::ReadOnly);
    let f = factory(vec![OutputRuntimeInfo::Array { size: 8 }]);
    let k = FusionKernel::create(&f, &trace, &mut context, &mut client, true).unwrap();
    assert_eq!(k.metadata().len(), 13);
    assert_eq!(k.metadata()[0], 2);
    assert_eq!(
        k.metadata(),
        &vec![2, 0, 1, 1, 4, 4, 1, 2, 4, 4, 1, 2, 4]
    );
    assert_eq!(k.handles().len(), 4);
    assert_eq!(k.handles()[0], h1);
    assert_eq!(k.handles()[1], h2);
    assert_eq!(k.handles()[2], Handle { id: 2 });
    assert_eq!(k.handles()[3], Handle { id: 3 });
    assert_eq!(client.num_buffers(), 4);
    assert_eq!(client.read(Handle { id: 2 }), vec![0u8; 8]);
    assert_eq!(client.read(Handle { id: 3 }).len(), 13 * 4);
    let out = context.handles.get_handle(3, TensorStatus::ReadOnly);
    assert_eq!(out.handle, Handle { id: 2 });
    assert_ne!(out.handle, h1);
    assert_ne!(out.handle, h2);
    assert_eq!(out.strides, vec![4, 1]);
}

#[test]
fn end_to_end_inplace_output() {
    let (mut context, mut client, trace, h1, h2) = setup(TensorStatus::ReadOnly);
    let f = factory(vec![OutputRuntimeInfo::Inplace { input_index: 1 }]);
    let k = FusionKernel::create(&f, &trace, &mut context, &mut client, true).unwrap();
    assert_eq!(k.handles().len(), 3);
    assert_eq!(k.handles()[0], h1);
    assert_eq!(k.handles()[1], h2);
    assert_eq!(k.handles()[2], Handle { id: 2 });
    assert_eq!(k.metadata().len(), 9);
    assert_eq!(client.num_buffers(), 3);
    let out = context.handles.get_handle(3, TensorStatus::ReadOnly);
    assert_eq!(out.handle, h2);
    assert_eq!(out.strides, vec![4, 1]);
}

#[test]
fn metadata_length_counts_every_tensor() {
    let mut client = ComputeClient::new();
    let mut context = Context::new();
    let h = client.create(&[0u8; 4]);
    context.register_tensor(desc(7, vec![2, 3, 4], TensorStatus::ReadOnly));
    context.register_tensor(desc(8, vec![3, 4], TensorStatus::NotInit));
    context.register_tensor(desc(9, vec![4], TensorStatus::NotInit));
    context.handles.register_handle(7, JitFusionHandle { handle: h, strides: vec![12, 4, 1] });
    let trace = ExecutionInfo {
        inputs: vec![desc(7, vec![2, 3, 4], TensorStatus::ReadOnly)],
        outputs: vec![
            desc(8, vec![3, 4], TensorStatus::NotInit),
            desc(9, vec![4], TensorStatus::NotInit),
        ],
        scalars: Scalars { num_float: 0, num_int: 0 },
    };
    let f = factory(vec![OutputRuntimeInfo::Array { size: 48 }, OutputRuntimeInfo::Array { size: 16 }]);
    let k = FusionKernel::create(&f, &trace, &mut context, &mut client, true).unwrap();
    // 2 * rank * (inputs + outputs) + 1 with rank 3.
    assert_eq!(k.metadata().len(), 2 * 3 * 3 + 1);
    assert_eq!(
        k.metadata(),
        &vec![3, 12, 4, 1, 2, 3, 4, 0, 4, 1, 1, 3, 4, 0, 0, 1, 1, 1, 4]
    );
}

#[test]
fn scalar_blocks_follow_metadata() {
    let (mut context, mut client, mut trace, _h1, _h2) = setup(TensorStatus::ReadOnly);
    context.scalar_floats = vec![1.5f32.to_bits(), 2.0f32.to_bits(), 9.0f32.to_bits()];
    context.scalar_ints = vec![-3, 4];
    trace.scalars = Scalars { num_float: 2, num_int: 1 };
    let f = factory(vec![OutputRuntimeInfo::Array { size: 8 }]);
    let k = FusionKernel::create(&f, &trace, &mut context, &mut client, true).unwrap();
    assert_eq!(k.handles().len(), 6);
    assert_eq!(k.handles()[4], Handle { id: 4 });
    assert_eq!(k.handles()[5], Handle { id: 5 });
    assert_eq!(client.read(Handle { id: 4 }).len(), 8);
    assert_eq!(client.read(Handle { id: 5 }).len(), 4);
    let mut floats = Vec::new();
    floats.extend_from_slice(&1.5f32.to_ne_bytes());
    floats.extend_from_slice(&2.0f32.to_ne_bytes());
    assert_eq!(client.read(Handle { id: 4 }), floats);
    assert_eq!(client.read(Handle { id: 5 }), (-3i32).to_ne_bytes().to_vec());
}

#[test]
fn only_int_scalars() {
    let (mut context, mut client, mut trace, _h1, _h2) = setup(TensorStatus::ReadOnly);
    context.scalar_ints = vec![11];
    trace.scalars = Scalars { num_float: 0, num_int: 1 };
    let f = factory(vec![OutputRuntimeInfo::Inplace { input_index: 0 }]);
    let k = FusionKernel::create(&f, &trace, &mut context, &mut client, true).unwrap();
    assert_eq!(k.handles().len(), 4);
    assert_eq!(k.handles()[2], Handle { id: 2 });
    assert_eq!(k.handles()[3], Handle { id: 3 });
    assert_eq!(client.read(Handle { id: 3 }), 11i32.to_ne_bytes().to_vec());
}

#[test]
fn probing_twice_changes_nothing() {
    let (mut context, mut client, trace, h1, h2) = setup(TensorStatus::ReadWrite);
    let f = factory(vec![OutputRuntimeInfo::Array { size: 8 }]);
    let a = FusionKernel::create(&f, &trace, &mut context, &mut client, false).unwrap();
    let b = FusionKernel::create(&f, &trace, &mut context, &mut client, false).unwrap();
    assert_eq!(a.metadata(), b.metadata());
    assert!(context.handles.contains(1));
    assert!(context.handles.contains(2));
    assert_eq!(context.handles.get_handle(1, TensorStatus::ReadOnly).handle, h1);
    assert_eq!(context.handles.get_handle(2, TensorStatus::ReadOnly).handle, h2);
    assert_eq!(a.handles()[0], b.handles()[0]);
    assert_eq!(a.handles()[1], b.handles()[1]);
}

#[test]
fn stateful_read_write_hands_inputs_over() {
    let (mut context, mut client, trace, _h1, h2) = setup(TensorStatus::ReadWrite);
    let f = factory(vec![OutputRuntimeInfo::Inplace { input_index: 1 }]);
    let k = FusionKernel::create(&f, &trace, &mut context, &mut client, true).unwrap();
    assert_eq!(k.handles().len(), 3);
    assert!(!context.handles.contains(1));
    assert!(!context.handles.contains(2));
    assert_eq!(context.handles.get_handle(3, TensorStatus::ReadOnly).handle, h2);
}

#[test]
fn identity_ignores_tensor_ids() {
    let (mut c1, mut client1, trace1, _a, _b) = setup(TensorStatus::ReadOnly);
    let f = factory(vec![OutputRuntimeInfo::Array { size: 8 }]);
    let k1 = FusionKernel::create(&f, &trace1, &mut c1, &mut client1, true).unwrap();

    let mut client2 = ComputeClient::new();
    let mut c2 = Context::new();
    let g1 = client2.create(&[0u8; 16]);
    let g2 = client2.create(&[0u8; 32]);
    c2.register_tensor(desc(41, vec![4], TensorStatus::ReadOnly));
    c2.register_tensor(desc(42, vec![2, 4], TensorStatus::ReadOnly));
    c2.register_tensor(desc(43, vec![2, 4], TensorStatus::NotInit));
    c2.handles.register_handle(41, JitFusionHandle { handle: g1, strides: vec![1] });
    c2.handles.register_handle(42, JitFusionHandle { handle: g2, strides: vec![4, 1] });
    let trace2 = ExecutionInfo {
        inputs: vec![desc(41, vec![4], TensorStatus::ReadOnly), desc(42, vec![2, 4], TensorStatus::ReadOnly)],
        outputs: vec![desc(43, vec![2, 4], TensorStatus::NotInit)],
        scalars: Scalars { num_float: 0, num_int: 0 },
    };
    let k2 = FusionKernel::create(&f, &trace2, &mut c2, &mut client2, true).unwrap();
    assert_eq!(k1.kernel().id(), k2.kernel().id());
    assert_eq!(k1.kernel().id(), "v1_strided_add_mul");
    assert_eq!(k1.metadata(), k2.metadata());
}

#[test]
fn kernel_id_renders_settings() {
    let k = FusionKernel::new(
        String::from("graph7"),
        CompilationSettings { vectorization: Vectorization::Vec4, indexing: IndexingMode::Linear },
        vec![],
        WorkGroup { x: 8, y: 4, z: 1 },
    );
    assert_eq!(k.id(), "v4_linear_graph7");
    assert_eq!(k.workgroup(), WorkGroup { x: 8, y: 4, z: 1 });
    let s = CompilationSettings { vectorization: Vectorization::Vec2, indexing: IndexingMode::Strided };
    assert_eq!(s.render(), "v2_strided_");
}

#[test]
fn autotune_clones_dispatch_alike() {
    let (mut context, mut client, trace, _h1, _h2) = setup(TensorStatus::ReadOnly);
    let f = factory(vec![OutputRuntimeInfo::Array { size: 8 }]);
    let k = FusionKernel::create(&f, &trace, &mut context, &mut client, false).unwrap();
    let expected = k.handles().clone();
    let auto = AutotunableKernel::from(k);
    for _ in 0..3 {
        auto.clone().execute(&mut client);
    }
    auto.execute(&mut client);
    assert_eq!(client.num_dispatches(), 4);
    for i in 0..4 {
        let (id, handles) = client.dispatch(i);
        assert_eq!(id, "v1_strided_add_mul");
        assert_eq!(handles, expected);
    }
}

#[test]
fn executable_kernel_dispatches_once() {
    let (mut context, mut client, trace, _h1, _h2) = setup(TensorStatus::ReadOnly);
    let f = factory(vec![OutputRuntimeInfo::Array { size: 8 }]);
    let k: ExecutableKernel = FusionKernel::create(&f, &trace, &mut context, &mut client, true).unwrap();
    let expected = k.handles().clone();
    k.execute(&mut client);
    assert_eq!(client.num_dispatches(), 1);
    assert_eq!(client.dispatch(0).1, expected);
}

#[test]
fn plan_with_wrong_output_count_is_rejected() {
    let (mut context, mut client, trace, _h1, _h2) = setup(TensorStatus::ReadOnly);
    let f = factory(vec![]);
    let r = FusionKernel::create(&f, &trace, &mut context, &mut client, true);
    assert_eq!(r.unwrap_err(), FusionError::OutputCountMismatch { planned: 0, outputs: 1 });
    assert_eq!(client.num_buffers(), 2);
    assert!(!context.handles.contains(3));
}

#[test]
fn plan_with_missing_inplace_input_is_rejected() {
    let (mut context, mut client, trace, _h1, _h2) = setup(TensorStatus::ReadOnly);
    let f = factory(vec![OutputRuntimeInfo::Inplace { input_index: 2 }]);
    let r = FusionKernel::create(&f, &trace, &mut context, &mut client, true);
    assert_eq!(r.unwrap_err(), FusionError::InplaceInputMissing { output: 0, input_index: 2 });
    assert_eq!(client.num_buffers(), 2);
}

#[test]
fn check_runtime_info_accepts_valid_plan() {
    let plan = vec![OutputRuntimeInfo::Inplace { input_index: 0 }, OutputRuntimeInfo::Array { size: 4 }];
    assert_eq!(check_runtime_info(&plan, 1, 2), Ok(()));
    assert_eq!(
        check_runtime_info(&plan, 0, 2),
        Err(FusionError::InplaceInputMissing { output: 0, input_index: 0 })
    );
}

#[test]
fn fused_rank_defaults_to_one() {
    let none: Vec<TensorDescription> = vec![];
    assert_eq!(fused_rank_of(&none, &none), 1);
    let outs = vec![desc(1, vec![5, 5, 5], TensorStatus::NotInit)];
    assert_eq!(fused_rank_of(&none, &outs), 3);
    let ins = vec![desc(2, vec![], TensorStatus::ReadOnly)];
    assert_eq!(fused_rank_of(&ins, &none), 1);
}

#[test]
fn contiguous_strides() {
    assert_eq!(strides_dyn_rank(&vec![2, 3, 4]), vec![12, 4, 1]);
    assert_eq!(strides_dyn_rank(&vec![]), Vec::<usize>::new());
    assert_eq!(strides_dyn_rank(&vec![0, 7]), vec![7, 1]);
}

#[test]
fn registry_read_only_keeps_binding() {
    let mut reg = HandleContainer::new();
    reg.register_handle(5, JitFusionHandle { handle: Handle { id: 9 }, strides: vec![1] });
    let a = reg.get_handle(5, TensorStatus::ReadOnly);
    assert_eq!(a.handle, Handle { id: 9 });
    assert!(reg.contains(5));
    let b = reg.get_handle(5, TensorStatus::ReadWrite);
    assert_eq!(b.strides, vec![1]);
    assert!(!reg.contains(5));
}

#[test]
fn empty_trace_still_has_rank_word() {
    let mut client = ComputeClient::new();
    let mut context = Context::new();
    let trace = ExecutionInfo { inputs: vec![], outputs: vec![], scalars: Scalars { num_float: 0, num_int: 0 } };
    let f = factory(vec![]);
    let k = FusionKernel::create(&f, &trace, &mut context, &mut client, true).unwrap();
    assert_eq!(k.metadata(), &vec![1]);
    assert_eq!(k.handles(), &vec![Handle { id: 0 }]);
}
