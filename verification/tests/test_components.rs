use iree_rs::allocator::IreeAllocator;
use iree_rs::bytespan::IreeConstByteSpan;
use iree_rs::err::IreeError;
use iree_rs::err::IreeErrorKind;
use iree_rs::hal_buffer::IreeHalBufferView;
use iree_rs::hal_buffer::IreeHalBufferViewParamsBuilder;
use iree_rs::hal_buffer::BUFFER_USAGE_DEFAULT;
use iree_rs::hal_buffer::BUFFER_USAGE_MAPPING;
use iree_rs::hal_buffer::BUFFER_USAGE_TRANSFER;
use iree_rs::hal_buffer::ELEMENT_TYPE_FLOAT_32;
use iree_rs::hal_buffer::ELEMENT_TYPE_FLOAT_64;
use iree_rs::hal_buffer::ELEMENT_TYPE_SINT_32;
use iree_rs::hal_buffer::ELEMENT_TYPE_UINT_8;
use iree_rs::hal_buffer::ENCODING_TYPE_DENSE_ROW_MAJOR;
use iree_rs::hal_buffer::MEMORY_ACCESS_READ;
use iree_rs::hal_buffer::MEMORY_ACCESS_WRITE;
use iree_rs::hal_buffer::MEMORY_TYPE_DEVICE_LOCAL;
use iree_rs::hal_buffer::MEMORY_TYPE_DEVICE_VISIBLE;
use iree_rs::hal_buffer::MEMORY_TYPE_HOST_VISIBLE;
use iree_rs::session::IreeHalAllocator;
use iree_rs::status::IreeStatus;
use iree_rs::status::STATUS_INVALID_ARGUMENT;
use iree_rs::status::STATUS_NOT_FOUND;
use iree_rs::status::STATUS_OK;
use iree_rs::status::STATUS_OUT_OF_RANGE;

fn device_allocator() -> IreeHalAllocator {
    let allocator = IreeAllocator::system_allocator();
    let options = iree_rs::instance::IreeRuntimeInstanceOptionsBuilder::default()
        .use_all_available_drivers()
        .build();
    let instance =
        iree_rs::instance::IreeRuntimeInstance::try_from_options(&options, &allocator).unwrap();
    let device = instance.try_create_default_device("local-task").unwrap();
    let session_options = iree_rs::session::IreeRuntimeSessionOptionsBuilder::default().build();
    let session = iree_rs::session::IreeRuntimeSession::create_with_device(
        &instance,
        &session_options,
        &device,
        &allocator,
    )
    .unwrap();
    session.device_allocator()
}

fn default_params() -> iree_rs::hal_buffer::IreeHalBufferParams {
    IreeHalBufferViewParamsBuilder::default()
        .type_(MEMORY_TYPE_DEVICE_LOCAL)
        .usage(BUFFER_USAGE_DEFAULT)
        .build()
}

#[test]
fn status_is_ok_and_code() {
    let ok = IreeStatus::from_code(STATUS_OK);
    assert!(ok.is_ok());
    assert_eq!(ok.code(), STATUS_OK);
    let bad = IreeStatus::from_code(STATUS_NOT_FOUND);
    assert!(!bad.is_ok());
    assert_eq!(bad.code(), STATUS_NOT_FOUND);
}

#[test]
fn status_renders_canonical_messages() {
    let allocator = IreeAllocator::system_allocator();
    assert_eq!(
        IreeStatus::from_code(STATUS_OK).to_string(&allocator).unwrap(),
        "OK"
    );
    assert_eq!(
        IreeStatus::from_code(STATUS_NOT_FOUND).to_string(&allocator).unwrap(),
        "NOT_FOUND"
    );
    assert_eq!(
        IreeStatus::from_code(STATUS_OUT_OF_RANGE).to_string(&allocator).unwrap(),
        "OUT_OF_RANGE"
    );
    // an unrecognized code renders as the empty string
    assert_eq!(IreeStatus::from_code(999).to_string(&allocator).unwrap(), "");
}

#[test]
fn error_from_status_keeps_code_and_message() {
    let allocator = IreeAllocator::system_allocator();
    let err = IreeError::from_status(IreeStatus::from_code(STATUS_INVALID_ARGUMENT), &allocator);
    assert!(matches!(
        err.kind(),
        IreeErrorKind::Status(s, m) if s.code() == STATUS_INVALID_ARGUMENT && m == "INVALID_ARGUMENT"
    ));
    assert_eq!(err.message(), "IREE status: 3 INVALID_ARGUMENT");
}

#[test]
fn error_without_allocator_keeps_the_code() {
    let err = IreeError::new(IreeErrorKind::UnallocatedStatus(IreeStatus::from_code(
        STATUS_NOT_FOUND,
    )));
    assert_eq!(
        err.message(),
        "IREE unallocated status: 5 (try allocating the error message string using an allocator!)"
    );
}

#[test]
fn error_from_string_is_unknown_kind() {
    let err = IreeError::from("formatting went sideways".to_string());
    assert!(matches!(err.kind(), IreeErrorKind::Unknown(m) if m == "formatting went sideways"));
    assert_eq!(err.message(), "IREE unknown error: formatting went sideways");
}

#[test]
fn error_other_kind_message() {
    let err = IreeError::new(IreeErrorKind::Other("bad utf-8".to_string()));
    assert_eq!(err.message(), "IREE other error: bad utf-8");
}

#[test]
fn params_builder_accumulates_bits() {
    let params = IreeHalBufferViewParamsBuilder::default()
        .type_(MEMORY_TYPE_HOST_VISIBLE)
        .type_(MEMORY_TYPE_DEVICE_VISIBLE)
        .access(MEMORY_ACCESS_READ)
        .access(MEMORY_ACCESS_WRITE)
        .usage(BUFFER_USAGE_TRANSFER)
        .usage(BUFFER_USAGE_MAPPING)
        .build();
    assert_eq!(
        params.memory_type(),
        MEMORY_TYPE_HOST_VISIBLE | MEMORY_TYPE_DEVICE_VISIBLE
    );
    assert_eq!(params.access(), MEMORY_ACCESS_READ | MEMORY_ACCESS_WRITE);
    assert_eq!(params.usage(), BUFFER_USAGE_TRANSFER | BUFFER_USAGE_MAPPING);
}

#[test]
fn byte_span_length_is_count_times_element_size() {
    let words: [u16; 3] = [1, 2, 3];
    let span = IreeConstByteSpan::from_slice(&words);
    assert_eq!(span.byte_length(), 6);
    let bytes: [u8; 5] = [0, 1, 2, 3, 4];
    assert_eq!(IreeConstByteSpan::from_slice(&bytes).byte_length(), 5);
}

#[test]
fn allocation_checks_shape_against_span_length() {
    let allocator = device_allocator();
    let params = default_params();
    let data: [i32; 6] = [1, 2, 3, 4, 5, 6];
    let span = IreeConstByteSpan::from_slice(&data);
    // 2 x 3 elements of 4 bytes matches the 24-byte span
    let view = IreeHalBufferView::allocate_buffer(
        &allocator,
        &vec![2, 3],
        ELEMENT_TYPE_SINT_32,
        ENCODING_TYPE_DENSE_ROW_MAJOR,
        &params,
        &span,
    )
    .unwrap();
    assert_eq!(view.shape().unwrap(), vec![2, 3]);
    // a mismatched shape is refused with a typed error
    let err = IreeHalBufferView::allocate_buffer(
        &allocator,
        &vec![2, 2],
        ELEMENT_TYPE_SINT_32,
        ENCODING_TYPE_DENSE_ROW_MAJOR,
        &params,
        &span,
    )
    .unwrap_err();
    assert!(matches!(
        err.kind(),
        IreeErrorKind::Status(s, _) if s.code() == STATUS_INVALID_ARGUMENT
    ));
}

#[test]
fn allocation_of_scalar_and_empty_shapes() {
    let allocator = device_allocator();
    let params = default_params();
    // rank zero: one scalar element
    let scalar: [f64; 1] = [42.0];
    let span = IreeConstByteSpan::from_slice(&scalar);
    let view = IreeHalBufferView::allocate_buffer(
        &allocator,
        &vec![],
        ELEMENT_TYPE_FLOAT_64,
        ENCODING_TYPE_DENSE_ROW_MAJOR,
        &params,
        &span,
    )
    .unwrap();
    assert_eq!(view.shape().unwrap(), Vec::<usize>::new());
    // a zero dimension holds no elements: only the empty span fits
    let empty: [u8; 0] = [];
    let empty_span = IreeConstByteSpan::from_slice(&empty);
    let view = IreeHalBufferView::allocate_buffer(
        &allocator,
        &vec![2, 0],
        ELEMENT_TYPE_UINT_8,
        ENCODING_TYPE_DENSE_ROW_MAJOR,
        &params,
        &empty_span,
    )
    .unwrap();
    assert_eq!(view.shape().unwrap(), vec![2, 0]);
    let one: [u8; 1] = [7];
    let one_span = IreeConstByteSpan::from_slice(&one);
    assert!(IreeHalBufferView::allocate_buffer(
        &allocator,
        &vec![2, 0],
        ELEMENT_TYPE_UINT_8,
        ENCODING_TYPE_DENSE_ROW_MAJOR,
        &params,
        &one_span,
    )
    .is_err());
}

#[test]
fn allocation_rejects_unknown_element_type() {
    let allocator = device_allocator();
    let params = default_params();
    let bytes: [u8; 4] = [0, 1, 2, 3];
    let span = IreeConstByteSpan::from_slice(&bytes);
    // a tag with a sub-byte width is refused
    let err = IreeHalBufferView::allocate_buffer(
        &allocator,
        &vec![4],
        0x0100_0001,
        ENCODING_TYPE_DENSE_ROW_MAJOR,
        &params,
        &span,
    )
    .unwrap_err();
    assert!(matches!(
        err.kind(),
        IreeErrorKind::Status(s, _) if s.code() == STATUS_INVALID_ARGUMENT
    ));
}

#[test]
fn shape_query_rejects_excessive_rank() {
    let allocator = device_allocator();
    let params = default_params();
    let one: [u8; 1] = [9];
    let span = IreeConstByteSpan::from_slice(&one);
    // 33 dimensions of size one: allocation works, the query refuses
    let deep: Vec<usize> = vec![1; 33];
    let view = IreeHalBufferView::allocate_buffer(
        &allocator,
        &deep,
        ELEMENT_TYPE_UINT_8,
        ENCODING_TYPE_DENSE_ROW_MAJOR,
        &params,
        &span,
    )
    .unwrap();
    let err = view.shape().unwrap_err();
    assert!(matches!(
        err.kind(),
        IreeErrorKind::Status(s, _) if s.code() == STATUS_OUT_OF_RANGE
    ));
    assert_eq!(view.display_string(), None);
}

#[test]
fn buffer_view_renders_shape_and_element_type() {
    let allocator = device_allocator();
    let params = default_params();
    let data: [f64; 4] = [1.0, 2.0, 3.0, 4.0];
    let span = IreeConstByteSpan::from_slice(&data);
    let view = IreeHalBufferView::allocate_buffer(
        &allocator,
        &vec![4],
        ELEMENT_TYPE_FLOAT_64,
        ENCODING_TYPE_DENSE_ROW_MAJOR,
        &params,
        &span,
    )
    .unwrap();
    assert_eq!(view.try_to_string(4).unwrap(), "4xf64");
    assert_eq!(view.display_string().unwrap(), "4xf64");
    // a zero-element budget cannot hold any text
    let err = view.try_to_string(0).unwrap_err();
    assert!(matches!(
        err.kind(),
        IreeErrorKind::Status(s, _) if s.code() == STATUS_OUT_OF_RANGE
    ));
}

#[test]
fn error_message_renders_multi_digit_codes() {
    let allocator = IreeAllocator::system_allocator();
    let err = IreeError::from_status(IreeStatus::from_code(STATUS_OUT_OF_RANGE), &allocator);
    assert_eq!(err.message(), "IREE status: 11 OUT_OF_RANGE");
}

#[test]
fn allocation_refuses_overflowing_element_counts() {
    let allocator = device_allocator();
    let params = default_params();
    let bytes: [u8; 2] = [1, 2];
    let span = IreeConstByteSpan::from_slice(&bytes);
    // the element count of this shape exceeds the address range
    let err = IreeHalBufferView::allocate_buffer(
        &allocator,
        &vec![usize::MAX, 2],
        ELEMENT_TYPE_UINT_8,
        ENCODING_TYPE_DENSE_ROW_MAJOR,
        &params,
        &span,
    )
    .unwrap_err();
    assert!(matches!(
        err.kind(),
        IreeErrorKind::Status(s, _) if s.code() == STATUS_INVALID_ARGUMENT
    ));
}

#[test]
fn buffer_view_renders_multi_digit_dimensions() {
    let allocator = device_allocator();
    let params = default_params();
    let data = vec![0u8; 2240];
    let span = IreeConstByteSpan::from_slice(&data);
    let view = IreeHalBufferView::allocate_buffer(
        &allocator,
        &vec![10, 224],
        ELEMENT_TYPE_UINT_8,
        ENCODING_TYPE_DENSE_ROW_MAJOR,
        &params,
        &span,
    )
    .unwrap();
    assert_eq!(view.display_string().unwrap(), "10x224xu8");
}

#[test]
fn buffer_view_renders_multiple_dimensions() {
    let allocator = device_allocator();
    let params = default_params();
    let data: [f32; 3] = [0.25, 0.5, 0.75];
    let span = IreeConstByteSpan::from_slice(&data);
    let view = IreeHalBufferView::allocate_buffer(
        &allocator,
        &vec![1, 3],
        ELEMENT_TYPE_FLOAT_32,
        ENCODING_TYPE_DENSE_ROW_MAJOR,
        &params,
        &span,
    )
    .unwrap();
    assert_eq!(view.try_to_string(3).unwrap(), "1x3xf32");
}
