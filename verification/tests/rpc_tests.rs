use dcerpc::rpc::{c_string, compose_binding_inputs, NulError, Protocol, RpcError};

#[test]
fn protocol_sequences() {
    assert_eq!(Protocol::NamedPipes.protocol_sequence(), "ncacn_np");
    assert_eq!(Protocol::Tcp.protocol_sequence(), "ncacn_ip_tcp");
    assert_eq!(Protocol::Udp.protocol_sequence(), "ncadg_ip_udp");
    assert_eq!(Protocol::LocalRPC.protocol_sequence(), "ncalrpc");
}

#[test]
fn c_string_accepts_plain_text() {
    match c_string("host.example") {
        Ok(b) => assert_eq!(b, b"host.example".to_vec()),
        Err(_) => panic!("expected bytes"),
    }
    match c_string("") {
        Ok(b) => assert!(b.is_empty()),
        Err(_) => panic!("expected bytes"),
    }
}

#[test]
fn c_string_refuses_interior_nul() {
    match c_string("ab\0cd\0") {
        Err(RpcError::StringError(NulError { position, bytes })) => {
            assert_eq!(position, 2);
            assert_eq!(bytes, b"ab\0cd\0".to_vec());
        }
        _ => panic!("expected a string error"),
    }
}

#[test]
fn string_error_message() {
    let e = c_string("\0").err().unwrap();
    assert_eq!(e.message(), "error converting string: early null terminator");
    assert_eq!(RpcError::DceError("x".to_string()).message(), "x");
}

#[test]
fn binding_inputs() {
    match compose_binding_inputs(&Protocol::Tcp, "10.0.0.1") {
        Ok((p, n)) => {
            assert_eq!(p, b"ncacn_ip_tcp".to_vec());
            assert_eq!(n, b"10.0.0.1".to_vec());
        }
        Err(_) => panic!("expected inputs"),
    }
    assert!(compose_binding_inputs(&Protocol::LocalRPC, "a\0b").is_err());
}
