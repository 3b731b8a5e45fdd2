// The error channel, the array-output rules, named-value decoding, the
// loader decisions, and the transfer manager.

use rrad_pjrt::attr::decode_named_value;
use rrad_pjrt::attr::decode_named_values;
use rrad_pjrt::attr::PJRTNamedValue;
use rrad_pjrt::attr::RawAttrPayload;
use rrad_pjrt::attr::RawNamedValue;
use rrad_pjrt::device::decode_memory_stats;
use rrad_pjrt::device::RawMemoryStats;
use rrad_pjrt::error::PJRTError;
use rrad_pjrt::error::PJRTErrorKind;
use rrad_pjrt::error::ERROR_CODE_INVALID_ARGUMENT;
use rrad_pjrt::error::ERROR_CODE_UNIMPLEMENTED;
use rrad_pjrt::loader::decide_error_text;
use rrad_pjrt::loader::extract_failure;
use rrad_pjrt::loader::ErrorText;
use rrad_pjrt::loader::PjrtRuntime;
use rrad_pjrt::abi::PJRT_API_MAJOR;
use rrad_pjrt::abi::PJRT_API_MINOR;
use rrad_pjrt::raw::read_array_out;
use rrad_pjrt::raw::read_handle_out;
use rrad_pjrt::raw::read_required_array;
use rrad_pjrt::raw::read_scalar_out;
use rrad_pjrt::raw::read_serialized_blob;
use rrad_pjrt::raw::PluginFailure;
use rrad_pjrt::raw::RawArray;
use rrad_pjrt::raw::SerializedBlob;
use rrad_pjrt::transfer::PjrtHtoDeviceManager;

fn failure(code: i32, message: &str) -> PluginFailure {
    PluginFailure {
        code,
        message: message.to_string(),
    }
}

#[test]
fn error_constructors_carry_kind_code_and_message() {
    let e = PJRTError::invalid_arg("bad argument");
    assert_eq!(e.error_kind(), PJRTErrorKind::LocalValidation);
    assert_eq!(e.get_code(), ERROR_CODE_INVALID_ARGUMENT);
    assert_eq!(e.message(), "bad argument");

    let e = PJRTError::local(5, "not found");
    assert_eq!(e.error_kind(), PJRTErrorKind::LocalValidation);
    assert_eq!(e.get_code(), 5);

    let e = PJRTError::plugin(13, "backend".to_string());
    assert_eq!(e.error_kind(), PJRTErrorKind::PluginReported);
    assert_eq!(e.get_code(), 13);

    let e = PJRTError::protocol("bad shape");
    assert_eq!(e.error_kind(), PJRTErrorKind::ProtocolViolation);

    let e = PJRTError::missing_symbol("PJRT_Client_Create");
    assert_eq!(e.error_kind(), PJRTErrorKind::MissingSymbol);
    assert_eq!(e.get_code(), ERROR_CODE_UNIMPLEMENTED);
    assert_eq!(e.message(), "PJRT_Client_Create");
}

#[test]
fn array_outputs_follow_the_null_rule() {
    let ok: Vec<i64> = read_array_out(None, RawArray::of(vec![1i64, 2, 3]), "dims").unwrap();
    assert_eq!(ok, vec![1, 2, 3]);

    let empty: Vec<i64> = read_array_out(None, RawArray::absent(0), "dims").unwrap();
    assert!(empty.is_empty());

    let err = read_array_out(None, RawArray::<i64>::absent(3), "dims").unwrap_err();
    assert_eq!(err.error_kind(), PJRTErrorKind::ProtocolViolation);
    assert_eq!(err.message(), "dims");

    let err =
        read_array_out(Some(failure(2, "boom")), RawArray::of(vec![1i64]), "dims").unwrap_err();
    assert_eq!(err.error_kind(), PJRTErrorKind::PluginReported);
    assert_eq!(err.get_code(), 2);
}

#[test]
fn required_outputs_reject_null_even_when_empty() {
    let ok = read_required_array(None, RawArray::of(b"name".to_vec()), "name").unwrap();
    assert_eq!(ok, b"name".to_vec());

    let empty = read_required_array(None, RawArray::<u8>::of(Vec::new()), "name").unwrap();
    assert!(empty.is_empty());

    let err = read_required_array(None, RawArray::<u8>::absent(0), "name").unwrap_err();
    assert_eq!(err.error_kind(), PJRTErrorKind::ProtocolViolation);
}

#[test]
fn scalar_and_handle_outputs() {
    assert_eq!(read_scalar_out(None, 7usize).unwrap(), 7);
    let err = read_scalar_out(Some(failure(4, "late")), 7usize).unwrap_err();
    assert_eq!(err.get_code(), 4);

    assert_eq!(read_handle_out(None, 0x1000, "client").unwrap(), 0x1000);
    let err = read_handle_out(None, 0, "client").unwrap_err();
    assert_eq!(err.error_kind(), PJRTErrorKind::ProtocolViolation);
}

#[test]
fn serialized_blobs_demand_a_deleter() {
    let blob = SerializedBlob {
        bytes: RawArray::of(vec![1, 2, 3]),
        holder_present: true,
        deleter_present: true,
    };
    let (result, run_deleter) = read_serialized_blob(None, blob, "serialized executable");
    assert_eq!(result.unwrap(), vec![1, 2, 3]);
    assert!(run_deleter);

    let blob = SerializedBlob {
        bytes: RawArray::of(vec![1, 2, 3]),
        holder_present: true,
        deleter_present: false,
    };
    let (result, run_deleter) = read_serialized_blob(None, blob, "serialized executable");
    assert_eq!(
        result.unwrap_err().error_kind(),
        PJRTErrorKind::ProtocolViolation
    );
    assert!(!run_deleter);

    let blob = SerializedBlob {
        bytes: RawArray::absent(0),
        holder_present: false,
        deleter_present: false,
    };
    let (result, run_deleter) = read_serialized_blob(None, blob, "serialized executable");
    assert!(result.unwrap().is_empty());
    assert!(!run_deleter);
}

#[test]
fn named_values_decode_variant_for_variant() {
    let string_value = RawNamedValue {
        name: RawArray::of(b"platform".to_vec()),
        payload: RawAttrPayload::Str(RawArray::of(b"cpu".to_vec())),
    };
    let a = decode_named_value(&string_value).unwrap();
    assert_eq!(a.name, b"platform".to_vec());
    assert!(matches!(a.value, PJRTNamedValue::String(ref s) if s == &b"cpu".to_vec()));

    let int_value = RawNamedValue {
        name: RawArray::of(b"devices".to_vec()),
        payload: RawAttrPayload::I64(8),
    };
    assert!(matches!(
        decode_named_value(&int_value).unwrap().value,
        PJRTNamedValue::Int64(8)
    ));

    let list_value = RawNamedValue {
        name: RawArray::of(b"version".to_vec()),
        payload: RawAttrPayload::I64List(RawArray::of(vec![0i64, 68])),
    };
    assert!(matches!(
        decode_named_value(&list_value).unwrap().value,
        PJRTNamedValue::Int64List(ref v) if v == &vec![0i64, 68]
    ));

    let bool_value = RawNamedValue {
        name: RawArray::of(b"tpu".to_vec()),
        payload: RawAttrPayload::Boolean(false),
    };
    assert!(matches!(
        decode_named_value(&bool_value).unwrap().value,
        PJRTNamedValue::Bool(false)
    ));

    let float_value = RawNamedValue {
        name: RawArray::of(b"scale".to_vec()),
        payload: RawAttrPayload::FloatBits(1.5f32.to_bits()),
    };
    match decode_named_value(&float_value).unwrap().value {
        PJRTNamedValue::Float(bits) => assert_eq!(f32::from_bits(bits), 1.5),
        _ => panic!("expected a float value"),
    }
}

#[test]
fn unknown_named_value_tags_are_a_hard_error() {
    let unknown = RawNamedValue {
        name: RawArray::of(b"future".to_vec()),
        payload: RawAttrPayload::Unrecognized(9),
    };
    let err = decode_named_value(&unknown).unwrap_err();
    assert_eq!(err.error_kind(), PJRTErrorKind::ProtocolViolation);

    let bad_name = RawNamedValue {
        name: RawArray::absent(4),
        payload: RawAttrPayload::I64(1),
    };
    let err = decode_named_value(&bad_name).unwrap_err();
    assert_eq!(err.error_kind(), PJRTErrorKind::ProtocolViolation);

    let bad_string = RawNamedValue {
        name: RawArray::of(b"s".to_vec()),
        payload: RawAttrPayload::Str(RawArray::absent(2)),
    };
    let err = decode_named_value(&bad_string).unwrap_err();
    assert_eq!(err.error_kind(), PJRTErrorKind::ProtocolViolation);
}

#[test]
fn named_value_arrays_decode_in_order() {
    let values = RawArray::of(vec![
        RawNamedValue {
            name: RawArray::of(b"a".to_vec()),
            payload: RawAttrPayload::I64(1),
        },
        RawNamedValue {
            name: RawArray::of(b"b".to_vec()),
            payload: RawAttrPayload::I64(2),
        },
    ]);
    let decoded = decode_named_values(&values).unwrap();
    assert_eq!(decoded.len(), 2);
    assert_eq!(decoded[0].name, b"a".to_vec());
    assert_eq!(decoded[1].name, b"b".to_vec());

    let empty = decode_named_values(&RawArray::absent(0)).unwrap();
    assert!(empty.is_empty());

    let err = decode_named_values(&RawArray::<RawNamedValue>::absent(2)).unwrap_err();
    assert_eq!(err.error_kind(), PJRTErrorKind::ProtocolViolation);
}

#[test]
fn loader_accepts_only_the_built_major_version() {
    let (rt, warn) = PjrtRuntime::accept(PJRT_API_MAJOR, PJRT_API_MINOR).unwrap();
    assert!(!warn);
    assert!(!rt.is_initialized());

    let (_rt, warn) = PjrtRuntime::accept(PJRT_API_MAJOR, PJRT_API_MINOR - 3).unwrap();
    assert!(warn, "an older minor version only earns a warning");

    let err = PjrtRuntime::accept(PJRT_API_MAJOR + 1, PJRT_API_MINOR).unwrap_err();
    assert_eq!(err.error_kind(), PJRTErrorKind::LocalValidation);
}

#[test]
fn initialization_is_recorded_once_successful() {
    let (mut rt, _warn) = PjrtRuntime::accept(PJRT_API_MAJOR, PJRT_API_MINOR).unwrap();
    let err = rt.finish_initialize(Some(failure(14, "unavailable"))).unwrap_err();
    assert_eq!(err.get_code(), 14);
    assert!(!rt.is_initialized());

    rt.finish_initialize(None).unwrap();
    assert!(rt.is_initialized());
    rt.finish_initialize(None).unwrap();
    assert!(rt.is_initialized());
}

#[test]
fn missing_symbols_are_their_own_error_kind() {
    PjrtRuntime::require_symbol(true, "PJRT_Client_Create").unwrap();
    let err = PjrtRuntime::require_symbol(false, "PJRT_Event_Create").unwrap_err();
    assert_eq!(err.error_kind(), PJRTErrorKind::MissingSymbol);
    assert_eq!(err.message(), "PJRT_Event_Create");
}

#[test]
fn failure_text_extraction_follows_the_message_rule() {
    let f = extract_failure(3, true, 3, "bad".to_string()).unwrap();
    assert_eq!(f.code, 3);
    assert_eq!(f.message, "bad");

    let f = extract_failure(3, false, 0, String::new()).unwrap();
    assert_eq!(f.message, "");

    let err = extract_failure(3, false, 5, String::new()).unwrap_err();
    assert_eq!(err.error_kind(), PJRTErrorKind::ProtocolViolation);
}

#[test]
fn error_text_decision_reads_and_destroys_at_most_once() {
    let d = decide_error_text(true, true, true, &b"oops".to_vec(), true);
    assert!(d.destroy);
    assert!(matches!(d.text, ErrorText::Message(ref m) if m == &b"oops".to_vec()));

    let d = decide_error_text(true, false, false, &Vec::new(), false);
    assert!(!d.destroy);
    assert!(matches!(
        d.text,
        ErrorText::Unknown {
            destroy_unavailable: true
        }
    ));

    let d = decide_error_text(false, true, true, &b"oops".to_vec(), true);
    assert!(!d.destroy);
    assert!(matches!(
        d.text,
        ErrorText::Unknown {
            destroy_unavailable: false
        }
    ));
}

#[test]
fn memory_stats_counters_keep_their_presence_flags() {
    let raw = RawMemoryStats {
        bytes_in_use: 1024,
        peak_bytes_in_use: 4096,
        peak_bytes_in_use_is_set: true,
        num_allocs: 0,
        num_allocs_is_set: false,
        largest_alloc_size: 512,
        largest_alloc_size_is_set: true,
        bytes_limit: 0,
        bytes_limit_is_set: false,
        bytes_reserved: 0,
        bytes_reserved_is_set: false,
        peak_bytes_reserved: 0,
        peak_bytes_reserved_is_set: false,
        bytes_reservable_limit: 0,
        bytes_reservable_limit_is_set: false,
        largest_free_block_bytes: 0,
        largest_free_block_bytes_is_set: false,
        pool_bytes: 0,
        pool_bytes_is_set: false,
        peak_pool_bytes: 0,
        peak_pool_bytes_is_set: false,
    };
    let stats = decode_memory_stats(None, raw).unwrap();
    assert_eq!(stats.bytes_in_use, 1024);
    assert_eq!(stats.peak_bytes_in_use, Some(4096));
    assert_eq!(stats.num_allocs, None);
    assert_eq!(stats.largest_alloc_size, Some(512));
    assert_eq!(stats.bytes_limit, None);
}

#[test]
fn transfer_manager_failure_marks_are_per_buffer() {
    let mut manager = PjrtHtoDeviceManager::new(0x8000, 3);
    assert_eq!(manager.buffer_count(), 3);
    assert!(!manager.is_buffer_failed(1));

    manager.finish_set_buffer_error(1, None).unwrap();
    assert!(manager.is_buffer_failed(1));
    assert!(!manager.is_buffer_failed(0));
    assert!(!manager.is_buffer_failed(2));

    let err = manager.finish_set_buffer_error(3, None).unwrap_err();
    assert_eq!(err.error_kind(), PJRTErrorKind::LocalValidation);
}

#[test]
fn transfer_chunks_are_validated_and_eventful() {
    let manager = PjrtHtoDeviceManager::new(0x8000, 1);
    assert_eq!(manager.plan_transfer_data(64, 0).unwrap(), 64);
    let err = manager.plan_transfer_data(64, -1).unwrap_err();
    assert_eq!(err.error_kind(), PJRTErrorKind::LocalValidation);

    let event = PjrtHtoDeviceManager::interpret_transfer_event(None, 0x3000).unwrap();
    assert!(event.is_some());
    let event = PjrtHtoDeviceManager::interpret_transfer_event(None, 0).unwrap();
    assert!(event.is_none());

    let err = manager.plan_transfer_literal(false).unwrap_err();
    assert_eq!(err.error_kind(), PJRTErrorKind::LocalValidation);
}
