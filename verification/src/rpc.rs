use vstd::prelude::*;
use vstd::string::*;
use vstd::utf8::encode_utf8;

verus! {

/// The transport that an RPC binding runs over.
pub enum Protocol {
    NamedPipes,
    Tcp,
    Udp,
    LocalRPC,
}

/// The DCE protocol sequence that names each transport.
pub open spec fn protocol_sequence_of(p: Protocol) -> Seq<char> {
    match p {
        Protocol::NamedPipes => "ncacn_np"@,
        Protocol::Tcp => "ncacn_ip_tcp"@,
        Protocol::Udp => "ncadg_ip_udp"@,
        Protocol::LocalRPC => "ncalrpc"@,
    }
}

impl Protocol {
    /// The DCE protocol sequence that names this transport.
    pub fn protocol_sequence(&self) -> (s: &'static str)
        ensures
            s@ == protocol_sequence_of(*self),
    {
        match self {
            Protocol::NamedPipes => "ncacn_np",
            Protocol::Tcp => "ncacn_ip_tcp",
            Protocol::Udp => "ncadg_ip_udp",
            Protocol::LocalRPC => "ncalrpc",
        }
    }
}

/// Each transport has its own protocol sequence, so a binding names the transport it was asked for.
pub proof fn law_protocol_sequences_distinct(p: Protocol, q: Protocol)
    requires
        p != q,
    ensures
        protocol_sequence_of(p) != protocol_sequence_of(q),
{
    reveal_strlit("ncacn_np");
    reveal_strlit("ncacn_ip_tcp");
    reveal_strlit("ncadg_ip_udp");
    reveal_strlit("ncalrpc");
    let a = protocol_sequence_of(p);
    let b = protocol_sequence_of(q);
    if a.len() == b.len() {
        assert(a[3] != b[3] || a[10] != b[10]);
    }
}

/// A string that cannot be handed to C: its bytes, and where its first zero byte stands.
pub struct NulError {
    pub position: usize,
    pub bytes: Vec<u8>,
}

/// Why an RPC operation failed.
pub enum RpcError {
    /// A string argument held a zero byte before its end.
    StringError(NulError),
    /// A DCE RPC call reported a failure status; the text says which.
    DceError(String),
}

/// The text that describes an error.
pub open spec fn error_text(e: RpcError) -> Seq<char> {
    match e {
        RpcError::StringError(_) => "error converting string: early null terminator"@,
        RpcError::DceError(m) => m@,
    }
}

impl RpcError {
    /// The text that describes this error.
    pub fn message(&self) -> (s: String)
        ensures
            s@ == error_text(*self),
    {
        match self {
            RpcError::StringError(_) => "error converting string: early null terminator".to_owned(),
            RpcError::DceError(m) => m.clone(),
        }
    }
}

/// Whether `b` holds a zero byte.
pub open spec fn has_nul(b: Seq<u8>) -> bool {
    exists|i: int| 0 <= i < b.len() && b[i] == 0
}

/// The bytes of `s`, ready to be handed to C once a terminator is added; refused when one of
/// them is zero.
pub fn c_string(s: &str) -> (r: Result<Vec<u8>, RpcError>)
    ensures
        r is Ok <==> !has_nul(s.spec_bytes()),
        r matches Ok(v) ==> v@ == s.spec_bytes(),
        r matches Err(e) ==> e matches RpcError::StringError(n) && {
            &&& n.bytes@ == s.spec_bytes()
            &&& n.position < s.spec_bytes().len()
            &&& s.spec_bytes()[n.position as int] == 0
            &&& forall|j: int| 0 <= j < n.position ==> s.spec_bytes()[j] != 0
        },
{
    let bytes = s.as_bytes();
    let mut i: usize = 0;
    while i < bytes.len()
        invariant
            i <= bytes@.len(),
            bytes@ == s.spec_bytes(),
            forall|j: int| 0 <= j < i ==> bytes@[j] != 0,
        decreases bytes@.len() - i,
    {
        if bytes[i] == 0 {
            return Err(RpcError::StringError(NulError { position: i, bytes: vstd::slice::slice_to_vec(bytes) }));
        }
        i = i + 1;
    }
    Ok(vstd::slice::slice_to_vec(bytes))
}

/// The two C strings that composing a string binding hands to DCE RPC: the protocol sequence
/// of `protocol` and the network address; refused when the address holds a zero byte.
pub fn compose_binding_inputs(protocol: &Protocol, netaddr: &str) -> (r: Result<
    (Vec<u8>, Vec<u8>),
    RpcError,
>)
    ensures
        r is Ok <==> !has_nul(netaddr.spec_bytes()),
        r matches Ok((p, n)) ==> p@ == encode_utf8(protocol_sequence_of(*protocol)) && n@
            == netaddr.spec_bytes(),
        r matches Err(e) ==> e matches RpcError::StringError(n) && {
            &&& n.bytes@ == netaddr.spec_bytes()
            &&& n.position < netaddr.spec_bytes().len()
            &&& netaddr.spec_bytes()[n.position as int] == 0
            &&& forall|j: int| 0 <= j < n.position ==> netaddr.spec_bytes()[j] != 0
        },
{
    let sequence = protocol.protocol_sequence();
    let address = c_string(netaddr)?;
    Ok((vstd::slice::slice_to_vec(sequence.as_bytes()), address))
}

} // verus!
