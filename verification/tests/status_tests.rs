use dcerpc::rpc::RpcError;
use dcerpc::status::{check_error, error_code, format_hex_field, ERROR_STATUS_OK};

const MESSAGES: &[&str] = &["first failure", "second failure", "third failure"];

#[test]
fn hex_field_matches_std_formatting() {
    for code in [0u32, 1, 0xf, 0x10, 0xff, 0xabc, 0x16c9a0d6, 0xffff_ffff, 0x1000, 12345678] {
        assert_eq!(format_hex_field(code), format!("{:#10X}", code));
    }
}

#[test]
fn hex_field_examples() {
    assert_eq!(format_hex_field(0x16c9a0d6), "0x16C9A0D6");
    assert_eq!(format_hex_field(255), "      0xFF");
    assert_eq!(format_hex_field(0), "       0x0");
}

#[test]
fn error_code_uses_low_twelve_bits() {
    assert_eq!(error_code(MESSAGES, 1), "first failure");
    assert_eq!(error_code(MESSAGES, 0x16c9a003), "third failure");
    assert_eq!(error_code(MESSAGES, 0x2002), "second failure");
}

#[test]
fn check_error_ok_on_success_status() {
    assert!(check_error(MESSAGES, ERROR_STATUS_OK, "rpc_binding_free").is_ok());
    assert!(check_error(&[], 0, "anything").is_ok());
}

#[test]
fn check_error_reports_failure() {
    match check_error(MESSAGES, 0x16c9a002, "rpc_ep_resolve_binding") {
        Err(RpcError::DceError(m)) => {
            assert_eq!(m, "error second failure (0x16C9A002) in rpc_ep_resolve_binding");
            assert_eq!(m, format!("error {} ({:#10X}) in {}", "second failure", 0x16c9a002u32, "rpc_ep_resolve_binding"));
        }
        _ => panic!("expected a DCE error"),
    }
    match check_error(MESSAGES, 3, "f") {
        Err(e) => assert_eq!(e.message(), "error third failure (       0x3) in f"),
        Ok(()) => panic!("expected a DCE error"),
    }
}
