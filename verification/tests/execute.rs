// Execution planning, result interpretation, and the callback error latch.

use rrad_pjrt::error::PJRTErrorKind;
use rrad_pjrt::executable::decode_compiled_memory_stats;
use rrad_pjrt::executable::decode_cost_analysis_names;
use rrad_pjrt::executable::decode_memory_kinds;
use rrad_pjrt::executable::interpret_output_dimension;
use rrad_pjrt::executable::plan_callback_error;
use rrad_pjrt::executable::ExecuteCallbackKeepalive;
use rrad_pjrt::executable::PJRTExecuteRunOptions;
use rrad_pjrt::executable::PJRTLoadedExecutable;
use rrad_pjrt::executable::PJRTSendCallbackRegistration;
use rrad_pjrt::executable::RawCompiledMemoryStats;
use rrad_pjrt::executable::SendCallbackState;
use rrad_pjrt::raw::PluginFailure;
use rrad_pjrt::raw::RawArray;

fn make_executable() -> PJRTLoadedExecutable {
    PJRTLoadedExecutable::new(0x6000)
}

#[test]
fn execute_with_options_rejects_callback_counts() {
    let executable = make_executable();
    let input_buffers: Vec<u64> = vec![0x1000];
    let options = PJRTExecuteRunOptions {
        num_send_ops: 1,
        ..Default::default()
    };

    let result = executable.plan_execute(&input_buffers, &options, 1);
    if result.is_ok() {
        panic!("expected execute_with_options to reject nonzero callback counts");
    }
}

#[test]
fn execute_with_options_rejects_negative_non_donatable_indices() {
    let executable = make_executable();
    let input_buffers: Vec<u64> = vec![0x1000];
    let options = PJRTExecuteRunOptions {
        non_donatable_input_indices: vec![-1],
        execute_device: Some(0x7000),
        ..Default::default()
    };

    let result = executable.plan_execute(&input_buffers, &options, 1);
    if result.is_ok() {
        panic!("expected execute_with_options to reject negative non_donatable_input_indices");
    }
}

#[test]
fn execute_plan_carries_the_validated_call() {
    let executable = make_executable();
    let input_buffers: Vec<u64> = vec![0x1000, 0x1001];
    let options = PJRTExecuteRunOptions {
        launch_id: 1234,
        execute_context: Some(0x7100),
        send_callbacks: vec![PJRTSendCallbackRegistration { channel_id: 1 }],
        num_send_ops: 1,
        ..Default::default()
    };

    let plan = executable.plan_execute(&input_buffers, &options, 1).unwrap();
    assert_eq!(plan.num_args, 2);
    assert_eq!(plan.num_outputs, 1);
    assert_eq!(plan.effective_num_send_ops, 1);
    assert_eq!(plan.effective_num_recv_ops, 0);
    assert_eq!(plan.launch_id, 1234);
    assert_eq!(plan.context, 0x7100);
    assert_eq!(plan.device, 0);
    assert!(plan.argument_list_present);
    assert!(plan.output_list_present);
    assert!(!plan.non_donatable_present);
}

#[test]
fn execute_rejects_null_argument_buffers() {
    let executable = make_executable();
    let input_buffers: Vec<u64> = vec![0x1000, 0];
    let options = PJRTExecuteRunOptions::default();
    let err = executable.plan_execute(&input_buffers, &options, 1).unwrap_err();
    assert_eq!(err.error_kind(), PJRTErrorKind::LocalValidation);
}

#[test]
fn two_output_execution_returns_buffers_in_declaration_order() {
    let executable = make_executable();
    let outputs: Vec<u64> = vec![0x2000, 0x2001];
    let (buffers, event) = executable
        .interpret_execute(None, None, None, 1, 1, &outputs, 0x3000)
        .unwrap();
    assert_eq!(buffers.len(), 2, "expected exactly two output buffers");
    assert_eq!(buffers[0].handle.addr, 0x2000);
    assert_eq!(buffers[1].handle.addr, 0x2001);
    assert!(!event.is_ready());
}

#[test]
fn execution_protocol_violations_are_surfaced() {
    let executable = make_executable();

    let with_null = vec![0x2000, 0];
    let err = executable
        .interpret_execute(None, None, None, 1, 1, &with_null, 0x3000)
        .unwrap_err();
    assert_eq!(err.error_kind(), PJRTErrorKind::ProtocolViolation);

    let outputs = vec![0x2000];
    let err = executable
        .interpret_execute(None, None, None, 1, 1, &outputs, 0)
        .unwrap_err();
    assert_eq!(err.error_kind(), PJRTErrorKind::ProtocolViolation);

    let err = executable
        .interpret_execute(None, None, None, 2, 1, &outputs, 0x3000)
        .unwrap_err();
    assert_eq!(err.error_kind(), PJRTErrorKind::ProtocolViolation);
}

#[test]
fn latched_callback_error_outranks_plugin_success() {
    let executable = make_executable();
    let outputs = vec![0x2000];
    let err = executable
        .interpret_execute(
            None,
            Some("chunk rejected".to_string()),
            None,
            1,
            1,
            &outputs,
            0x3000,
        )
        .unwrap_err();
    assert_eq!(err.error_kind(), PJRTErrorKind::LocalValidation);
}

#[test]
fn first_callback_error_is_latched_and_kept() {
    let mut state = SendCallbackState::new();
    assert!(state.first_error().is_none());
    state.set_first_error("first".to_string());
    state.set_first_error("second".to_string());
    assert_eq!(state.first_error(), Some("first".to_string()));
}

#[test]
fn keepalive_finds_the_first_error_across_callbacks() {
    let options = PJRTExecuteRunOptions {
        send_callbacks: vec![
            PJRTSendCallbackRegistration { channel_id: 1 },
            PJRTSendCallbackRegistration { channel_id: 2 },
        ],
        ..Default::default()
    };
    let mut keepalive = ExecuteCallbackKeepalive::new(&options);
    assert!(keepalive.send_callbacks_ptr());
    assert!(!keepalive.recv_callbacks_ptr());
    assert!(keepalive.first_send_error().is_none());
    assert!(keepalive.first_recv_error().is_none());

    keepalive.send_states[1].set_first_error("late failure".to_string());
    assert_eq!(
        keepalive.first_send_error(),
        Some("late failure".to_string())
    );
    keepalive.send_states[0].set_first_error("early failure".to_string());
    assert_eq!(
        keepalive.first_send_error(),
        Some("early failure".to_string())
    );
}

#[test]
fn compiled_memory_stats_keep_their_order() {
    let raw = RawCompiledMemoryStats {
        generated_code_size_in_bytes: 1,
        argument_size_in_bytes: 2,
        output_size_in_bytes: 3,
        alias_size_in_bytes: 4,
        temp_size_in_bytes: 5,
        host_generated_code_size_in_bytes: 6,
        host_argument_size_in_bytes: 7,
        host_output_size_in_bytes: 8,
        host_alias_size_in_bytes: 9,
        host_temp_size_in_bytes: 10,
        peak_memory_in_bytes: 11,
        total_size_in_bytes: 12,
    };
    let stats = decode_compiled_memory_stats(None, raw).unwrap();
    assert_eq!(stats, vec![1, 2, 3, 4, 5, 6, 7, 8, 9, 10, 11, 12]);
}

#[test]
fn output_memory_kinds_obey_the_span_rule() {
    let kinds = RawArray::of(vec![
        RawArray::of(b"device".to_vec()),
        RawArray::<u8>::absent(0),
    ]);
    let decoded = decode_memory_kinds(None, kinds).unwrap();
    assert_eq!(decoded, vec![b"device".to_vec(), Vec::new()]);

    let bad = RawArray::of(vec![RawArray::<u8>::absent(3)]);
    let err = decode_memory_kinds(None, bad).unwrap_err();
    assert_eq!(err.error_kind(), PJRTErrorKind::ProtocolViolation);
}

#[test]
fn callback_errors_reach_the_plugin_only_through_its_constructor() {
    let report = plan_callback_error(true, true, 9).unwrap();
    assert_eq!(report.error_code, rrad_pjrt::error::ERROR_CODE_INTERNAL);
    assert!(report.message_present);

    let report = plan_callback_error(true, true, 0).unwrap();
    assert!(!report.message_present);

    assert!(plan_callback_error(false, true, 9).is_none());
    assert!(plan_callback_error(true, false, 9).is_none());
}

#[test]
fn cost_analysis_names_are_joined_with_placeholders() {
    let props = RawArray::of(vec![
        RawArray::of(b"flops".to_vec()),
        RawArray::<u8>::absent(0),
        RawArray::of(b"bytes accessed".to_vec()),
    ]);
    let joined = decode_cost_analysis_names(None, props).unwrap();
    assert_eq!(joined, b"flops,<null>,bytes accessed".to_vec());

    let none = decode_cost_analysis_names(None, RawArray::absent(0)).unwrap();
    assert!(none.is_empty());

    let err = decode_cost_analysis_names(None, RawArray::absent(2)).unwrap_err();
    assert_eq!(err.error_kind(), PJRTErrorKind::ProtocolViolation);
}

#[test]
fn output_dimension_reads_the_first_output() {
    let dims = RawArray::of(vec![7i64, 3]);
    assert_eq!(interpret_output_dimension(None, dims).unwrap(), 7);

    let err = interpret_output_dimension(None, RawArray::of(Vec::new())).unwrap_err();
    assert_eq!(err.error_kind(), PJRTErrorKind::LocalValidation);

    let err = interpret_output_dimension(None, RawArray::absent(2)).unwrap_err();
    assert_eq!(err.error_kind(), PJRTErrorKind::ProtocolViolation);
}

#[test]
fn executable_delete_and_load_validation() {
    let mut executable = make_executable();
    assert!(!executable.is_deleted());
    executable.finish_delete(None).unwrap();
    assert!(executable.is_deleted());

    let executable = make_executable();
    executable.plan_deserialize_and_load(0x5000, 64).unwrap();
    let err = executable.plan_deserialize_and_load(0, 64).unwrap_err();
    assert_eq!(err.error_kind(), PJRTErrorKind::LocalValidation);
    let err = executable.plan_deserialize_and_load(0x5000, 0).unwrap_err();
    assert_eq!(err.error_kind(), PJRTErrorKind::LocalValidation);

    let err = PJRTLoadedExecutable::interpret_loaded(None, 0).unwrap_err();
    assert_eq!(err.error_kind(), PJRTErrorKind::ProtocolViolation);
    let loaded = PJRTLoadedExecutable::interpret_loaded(None, 0x6001).unwrap();
    assert_eq!(loaded.handle.addr, 0x6001);
}

#[test]
fn plugin_reported_execution_failure_is_propagated() {
    let executable = make_executable();
    let outputs = vec![0x2000];
    let err = executable
        .interpret_execute(
            Some(PluginFailure {
                code: 13,
                message: "kernel crashed".to_string(),
            }),
            None,
            None,
            1,
            1,
            &outputs,
            0x3000,
        )
        .unwrap_err();
    assert_eq!(err.error_kind(), PJRTErrorKind::PluginReported);
    assert_eq!(err.get_code(), 13);
}
