use vstd::prelude::*;
use crate::errors::BridgeError;

verus! {

/// How many preamble bytes every tunnel stream must begin with.
pub const HANDSHAKE_LEN: usize = 5;

/// The protocol identifier the endpoint is bound to, the bytes of
/// `DUMBPIPEV0`: both ends compile in the same tag, so plain pipe tooling can
/// talk to the bridge.
pub open spec fn alpn_spec() -> Seq<u8> {
    seq![68u8, 85u8, 77u8, 66u8, 80u8, 73u8, 80u8, 69u8, 86u8, 48u8]
}

/// The protocol identifier as a concrete byte vector.
pub fn alpn_bytes() -> (r: Vec<u8>)
    ensures
        r@ == alpn_spec(),
{
    let mut v: Vec<u8> = Vec::new();
    v.push(68);
    v.push(85);
    v.push(77);
    v.push(66);
    v.push(80);
    v.push(73);
    v.push(80);
    v.push(69);
    v.push(86);
    v.push(48);
    proof {
        assert(v@ =~= alpn_spec());
    }
    v
}

/// The fixed preamble, the bytes of `hello`: the initiating peer sends these
/// immediately after opening a bidirectional stream, and the bridge reads
/// exactly these before any forwarding.
pub open spec fn handshake_spec() -> Seq<u8> {
    seq![104u8, 101u8, 108u8, 108u8, 111u8]
}

/// The expected preamble as a concrete byte vector.
pub fn handshake_bytes() -> (r: Vec<u8>)
    ensures
        r@ == handshake_spec(),
{
    let mut v: Vec<u8> = Vec::new();
    v.push(104);
    v.push(101);
    v.push(108);
    v.push(108);
    v.push(111);
    proof {
        assert(v@ =~= handshake_spec());
    }
    v
}

/// Whether two byte vectors hold exactly the same bytes.
pub fn bytes_match(a: &Vec<u8>, b: &Vec<u8>) -> (r: bool)
    ensures
        r <==> a@ == b@,
{
    if a.len() != b.len() {
        proof {
            assert(a@ != b@);
        }
        return false;
    }
    let mut i: usize = 0;
    while i < a.len()
        invariant
            i <= a.len(),
            a.len() == b.len(),
            forall|j: int| 0 <= j < i ==> a@[j] == b@[j],
        decreases a.len() - i,
    {
        if a[i] != b[i] {
            return false;
        }
        i += 1;
    }
    proof {
        assert(a@ =~= b@);
    }
    true
}

/// Handshake Validator: given what was read off a new stream — `Some` of the
/// first `HANDSHAKE_LEN` bytes, or `None` when the read failed or came up
/// short — accept the stream exactly when the bytes equal the preamble.
/// Every other outcome is `HandshakeRejected`, and the caller must abandon
/// the connection without dialing the local target.
pub fn validate_handshake(read: Option<Vec<u8>>) -> (r: Result<(), BridgeError>)
    ensures
        r is Ok <==> (read is Some && read->Some_0@ == handshake_spec()),
        r is Err ==> r->Err_0 == BridgeError::HandshakeRejected,
{
    match read {
        None => Err(BridgeError::HandshakeRejected),
        Some(buf) => {
            let expected = handshake_bytes();
            if bytes_match(&buf, &expected) {
                Ok(())
            } else {
                Err(BridgeError::HandshakeRejected)
            }
        }
    }
}

} // verus!
