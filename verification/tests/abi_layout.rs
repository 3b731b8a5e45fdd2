// Minimal layout expectations for the plugin ABI call-argument records: the
// declared size of each record must equal its computed extent under the C
// layout rules.

use rrad_pjrt::abi::check_api_version;
use rrad_pjrt::abi::client_create_args_fields;
use rrad_pjrt::abi::default_struct_size;
use rrad_pjrt::abi::execute_options_fields;
use rrad_pjrt::abi::program_fields;
use rrad_pjrt::abi::client_destroy_args_fields;
use rrad_pjrt::abi::error_destroy_args_fields;
use rrad_pjrt::abi::error_message_args_fields;
use rrad_pjrt::abi::plugin_initialize_args_fields;
use rrad_pjrt::abi::struct_extent;
use rrad_pjrt::abi::CField;
use rrad_pjrt::abi::VersionCheck;
use rrad_pjrt::abi::CLIENT_CREATE_ARGS_STRUCT_SIZE;
use rrad_pjrt::abi::EXECUTE_OPTIONS_STRUCT_SIZE;
use rrad_pjrt::abi::PROGRAM_STRUCT_SIZE;
use rrad_pjrt::abi::CLIENT_DESTROY_ARGS_STRUCT_SIZE;
use rrad_pjrt::abi::ERROR_DESTROY_ARGS_STRUCT_SIZE;
use rrad_pjrt::abi::ERROR_MESSAGE_ARGS_STRUCT_SIZE;
use rrad_pjrt::abi::PJRT_API_MAJOR;
use rrad_pjrt::abi::PJRT_API_MINOR;
use rrad_pjrt::abi::PLUGIN_INITIALIZE_ARGS_STRUCT_SIZE;

#[test]
fn pjrt_struct_sizes_match_header_constants() {
    assert_eq!(
        struct_extent(&plugin_initialize_args_fields()),
        PLUGIN_INITIALIZE_ARGS_STRUCT_SIZE
    );

    assert_eq!(
        struct_extent(&client_create_args_fields()),
        CLIENT_CREATE_ARGS_STRUCT_SIZE
    );

    assert_eq!(
        struct_extent(&client_destroy_args_fields()),
        CLIENT_DESTROY_ARGS_STRUCT_SIZE
    );

    assert_eq!(
        struct_extent(&error_message_args_fields()),
        ERROR_MESSAGE_ARGS_STRUCT_SIZE
    );

    assert_eq!(
        struct_extent(&error_destroy_args_fields()),
        ERROR_DESTROY_ARGS_STRUCT_SIZE
    );
}

#[test]
fn mixed_alignment_record_extent() {
    // header (two words), an i32, then a byte: the extent ends after the
    // byte, with padding only where alignment demands it.
    let fields = vec![
        CField { size: 8, align: 8 },
        CField { size: 8, align: 8 },
        CField { size: 4, align: 4 },
        CField { size: 1, align: 1 },
    ];
    assert_eq!(struct_extent(&fields), 21);

    // a byte before an eight-aligned word forces seven bytes of padding.
    let padded = vec![
        CField { size: 1, align: 1 },
        CField { size: 8, align: 8 },
    ];
    assert_eq!(struct_extent(&padded), 16);
}

#[test]
fn program_and_execute_options_record_extents() {
    assert_eq!(struct_extent(&program_fields()), PROGRAM_STRUCT_SIZE);
    assert_eq!(
        struct_extent(&execute_options_fields()),
        EXECUTE_OPTIONS_STRUCT_SIZE
    );

    assert_eq!(default_struct_size(0, PROGRAM_STRUCT_SIZE), PROGRAM_STRUCT_SIZE);
    assert_eq!(default_struct_size(40, PROGRAM_STRUCT_SIZE), 40);
}

#[test]
fn api_version_negotiation() {
    assert_eq!(
        check_api_version(PJRT_API_MAJOR, PJRT_API_MINOR),
        VersionCheck::Compatible {
            warn_older_minor: false
        }
    );
    assert_eq!(
        check_api_version(PJRT_API_MAJOR, PJRT_API_MINOR - 1),
        VersionCheck::Compatible {
            warn_older_minor: true
        }
    );
    assert_eq!(
        check_api_version(PJRT_API_MAJOR, PJRT_API_MINOR + 5),
        VersionCheck::Compatible {
            warn_older_minor: false
        }
    );
    assert_eq!(
        check_api_version(PJRT_API_MAJOR + 1, PJRT_API_MINOR),
        VersionCheck::MajorMismatch
    );
}
