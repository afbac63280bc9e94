use iree_rs::allocator::IreeAllocator;
use iree_rs::bytespan::IreeConstByteSpan;
use iree_rs::call::IreeRuntimeCall;
use iree_rs::err::IreeErrorKind;
use iree_rs::hal_buffer::IreeHalBufferView;
use iree_rs::hal_buffer::IreeHalBufferViewParamsBuilder;
use iree_rs::hal_buffer::BUFFER_USAGE_DEFAULT;
use iree_rs::hal_buffer::ELEMENT_TYPE_FLOAT_32;
use iree_rs::hal_buffer::ELEMENT_TYPE_UINT_8;
use iree_rs::hal_buffer::ENCODING_TYPE_DENSE_ROW_MAJOR;
use iree_rs::hal_buffer::MEMORY_TYPE_DEVICE_LOCAL;
use iree_rs::instance::IreeRuntimeInstance;
use iree_rs::instance::IreeRuntimeInstanceOptionsBuilder;
use iree_rs::session::IreeRuntimeSession;
use iree_rs::session::IreeRuntimeSessionOptionsBuilder;
use iree_rs::status::STATUS_FAILED_PRECONDITION;
use iree_rs::status::STATUS_INVALID_ARGUMENT;
use iree_rs::status::STATUS_NOT_FOUND;
use iree_rs::status::STATUS_OUT_OF_RANGE;

/// Lays out a compiled-module container: the magic, the length-prefixed
/// module name, and the length-prefixed exported function names.
fn module_bytes(name: &str, exports: &[&str]) -> Vec<u8> {
    let mut b: Vec<u8> = vec![0x56, 0x4d, 0x46, 0x42];
    b.extend_from_slice(&(name.len() as u32).to_le_bytes());
    b.extend_from_slice(name.as_bytes());
    b.extend_from_slice(&(exports.len() as u32).to_le_bytes());
    for e in exports {
        b.extend_from_slice(&(e.len() as u32).to_le_bytes());
        b.extend_from_slice(e.as_bytes());
    }
    b
}

fn make_session() -> (IreeAllocator, IreeRuntimeInstance, IreeRuntimeSession) {
    let allocator = IreeAllocator::system_allocator();
    let options = IreeRuntimeInstanceOptionsBuilder::default()
        .use_all_available_drivers()
        .build();
    let instance = IreeRuntimeInstance::try_from_options(&options, &allocator).unwrap();
    let device = instance.try_create_default_device("local-task").unwrap();
    let session_options = IreeRuntimeSessionOptionsBuilder::default().build();
    let session = IreeRuntimeSession::create_with_device(
        &instance,
        &session_options,
        &device,
        // the instance's host allocator is accepted by session creation
        &instance.host_allocator(),
    )
    .unwrap();
    (allocator, instance, session)
}

#[test]
fn scenario_forward_invocation() {
    let (allocator, _instance, mut session) = make_session();
    session
        .append_bytecode_module_from_memory(&module_bytes("module", &["forward"]), &allocator)
        .unwrap();
    let mut call = session.get_call_by_name("module.forward").unwrap();

    let data = vec![0.5f32; 1 * 3 * 224 * 224];
    let span = IreeConstByteSpan::from_slice(&data);
    let params = IreeHalBufferViewParamsBuilder::default()
        .type_(MEMORY_TYPE_DEVICE_LOCAL)
        .usage(BUFFER_USAGE_DEFAULT)
        .build();
    let input = IreeHalBufferView::allocate_buffer(
        &session.device_allocator(),
        &vec![1, 3, 224, 224],
        ELEMENT_TYPE_FLOAT_32,
        ENCODING_TYPE_DENSE_ROW_MAJOR,
        &params,
        &span,
    )
    .unwrap();

    call.inputs_push_back_buffer_view(&input).unwrap();
    call.invoke(0).unwrap();
    let output = call.outputs_pop_front_buffer_view().unwrap();
    let shape = output.shape().unwrap();
    assert_eq!(shape, vec![1, 3, 224, 224]);
    let elements: usize = shape.iter().product();
    assert!(elements > 0);
}

#[test]
fn scenario_mismatched_byte_span() {
    let (allocator, _instance, mut session) = make_session();
    session
        .append_bytecode_module_from_memory(&module_bytes("module", &["forward"]), &allocator)
        .unwrap();
    // one f32 cannot back a 1x3x224x224 buffer
    let data = vec![0.5f32; 1];
    let span = IreeConstByteSpan::from_slice(&data);
    let params = IreeHalBufferViewParamsBuilder::default()
        .type_(MEMORY_TYPE_DEVICE_LOCAL)
        .usage(BUFFER_USAGE_DEFAULT)
        .build();
    let err = IreeHalBufferView::allocate_buffer(
        &session.device_allocator(),
        &vec![1, 3, 224, 224],
        ELEMENT_TYPE_FLOAT_32,
        ENCODING_TYPE_DENSE_ROW_MAJOR,
        &params,
        &span,
    )
    .unwrap_err();
    assert!(matches!(
        err.kind(),
        IreeErrorKind::Status(s, _) if s.code() == STATUS_INVALID_ARGUMENT
    ));
}

#[test]
fn scenario_missing_entry_point() {
    let (allocator, _instance, mut session) = make_session();
    session
        .append_bytecode_module_from_memory(&module_bytes("module", &["forward"]), &allocator)
        .unwrap();
    let err = session.get_call_by_name("module.missing").unwrap_err();
    assert!(matches!(
        err.kind(),
        IreeErrorKind::Status(s, _) if s.code() == STATUS_NOT_FOUND
    ));
}

#[test]
fn scenario_unknown_driver() {
    let allocator = IreeAllocator::system_allocator();
    let options = IreeRuntimeInstanceOptionsBuilder::default()
        .use_all_available_drivers()
        .build();
    let instance = IreeRuntimeInstance::try_from_options(&options, &allocator).unwrap();
    let err = instance.try_create_default_device("webgpu").unwrap_err();
    assert!(matches!(
        err.kind(),
        IreeErrorKind::Status(s, _) if s.code() == STATUS_NOT_FOUND
    ));
}

#[test]
fn no_driver_available_without_registration() {
    let allocator = IreeAllocator::system_allocator();
    let options = IreeRuntimeInstanceOptionsBuilder::default().build();
    let instance = IreeRuntimeInstance::try_from_options(&options, &allocator).unwrap();
    assert!(instance.try_create_default_device("local-task").is_err());
}

#[test]
fn fifo_round_trip_and_clean_drain_failure() {
    let (allocator, _instance, mut session) = make_session();
    session
        .append_bytecode_module_from_memory(&module_bytes("m", &["f"]), &allocator)
        .unwrap();
    let mut call = session.get_call_by_name("m.f").unwrap();
    let params = IreeHalBufferViewParamsBuilder::default()
        .type_(MEMORY_TYPE_DEVICE_LOCAL)
        .usage(BUFFER_USAGE_DEFAULT)
        .build();
    let device_allocator = session.device_allocator();

    let bytes = [7u8, 7, 7];
    for n in 1..4usize {
        let span = IreeConstByteSpan::from_slice(&bytes[..n]);
        let view = IreeHalBufferView::allocate_buffer(
            &device_allocator,
            &vec![n],
            ELEMENT_TYPE_UINT_8,
            ENCODING_TYPE_DENSE_ROW_MAJOR,
            &params,
            &span,
        )
        .unwrap();
        call.inputs_push_back_buffer_view(&view).unwrap();
    }
    call.invoke(0).unwrap();
    // outputs come back in push order
    for n in 1..4usize {
        let out = call.outputs_pop_front_buffer_view().unwrap();
        assert_eq!(out.shape().unwrap(), vec![n]);
    }
    // popping past the last output fails cleanly
    let err = call.outputs_pop_front_buffer_view().unwrap_err();
    assert!(matches!(
        err.kind(),
        IreeErrorKind::Status(s, _) if s.code() == STATUS_OUT_OF_RANGE
    ));
}

#[test]
fn push_and_reinvoke_after_invoke_are_rejected() {
    let (allocator, _instance, mut session) = make_session();
    session
        .append_bytecode_module_from_memory(&module_bytes("m", &["f"]), &allocator)
        .unwrap();
    let mut call = session.get_call_by_name("m.f").unwrap();
    call.invoke(0).unwrap();

    let params = IreeHalBufferViewParamsBuilder::default()
        .type_(MEMORY_TYPE_DEVICE_LOCAL)
        .usage(BUFFER_USAGE_DEFAULT)
        .build();
    let bytes = [1u8];
    let span = IreeConstByteSpan::from_slice(&bytes);
    let view = IreeHalBufferView::allocate_buffer(
        &session.device_allocator(),
        &vec![1],
        ELEMENT_TYPE_UINT_8,
        ENCODING_TYPE_DENSE_ROW_MAJOR,
        &params,
        &span,
    )
    .unwrap();
    let err = call.inputs_push_back_buffer_view(&view).unwrap_err();
    assert!(matches!(
        err.kind(),
        IreeErrorKind::Status(s, _) if s.code() == STATUS_FAILED_PRECONDITION
    ));
    let err = call.invoke(0).unwrap_err();
    assert!(matches!(
        err.kind(),
        IreeErrorKind::Status(s, _) if s.code() == STATUS_FAILED_PRECONDITION
    ));
}

#[test]
fn popping_before_invoke_fails_cleanly() {
    let (allocator, _instance, mut session) = make_session();
    session
        .append_bytecode_module_from_memory(&module_bytes("m", &["f"]), &allocator)
        .unwrap();
    let mut call = session.get_call_by_name("m.f").unwrap();
    let err = call.outputs_pop_front_buffer_view().unwrap_err();
    assert!(matches!(
        err.kind(),
        IreeErrorKind::Status(s, _) if s.code() == STATUS_OUT_OF_RANGE
    ));
}

#[test]
fn initialize_by_name_matches_session_lookup() {
    let (allocator, _instance, mut session) = make_session();
    session
        .append_bytecode_module_from_memory(&module_bytes("module", &["forward"]), &allocator)
        .unwrap();
    assert!(IreeRuntimeCall::initialize_by_name(&session, &"module.forward".to_string()).is_ok());
    assert!(IreeRuntimeCall::initialize_by_name(&session, &"module.backward".to_string()).is_err());
}

#[test]
fn appending_modules_accumulates_entry_points() {
    let (allocator, _instance, mut session) = make_session();
    session
        .append_bytecode_module_from_memory(&module_bytes("first", &["run"]), &allocator)
        .unwrap();
    session
        .append_bytecode_module_from_memory(&module_bytes("second", &["run", "stop"]), &allocator)
        .unwrap();
    assert!(session.get_call_by_name("first.run").is_ok());
    assert!(session.get_call_by_name("second.run").is_ok());
    assert!(session.get_call_by_name("second.stop").is_ok());
    assert!(session.get_call_by_name("third.run").is_err());
}

#[test]
fn malformed_modules_are_rejected_unchanged() {
    let (allocator, _instance, mut session) = make_session();
    let cases: Vec<Vec<u8>> = vec![
        // too short for a header
        vec![0x56, 0x4d],
        // wrong magic
        {
            let mut b = module_bytes("m", &["f"]);
            b[0] = 0x57;
            b
        },
        // empty module name
        module_bytes("", &["f"]),
        // a dot inside a name is not an identifier byte
        module_bytes("m.n", &["f"]),
        // trailing garbage after the last export
        {
            let mut b = module_bytes("m", &["f"]);
            b.push(0);
            b
        },
        // truncated export listing
        {
            let mut b = module_bytes("m", &["f"]);
            b.truncate(b.len() - 1);
            b
        },
    ];
    for bytes in cases {
        let err = session
            .append_bytecode_module_from_memory(&bytes, &allocator)
            .unwrap_err();
        assert!(matches!(
            err.kind(),
            IreeErrorKind::Status(s, _) if s.code() == STATUS_INVALID_ARGUMENT
        ));
    }
    // nothing was registered along the way
    assert!(session.get_call_by_name("m.f").is_err());
}
