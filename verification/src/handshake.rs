//! Handshake orchestration: three messages establish a shared secret and
//! prove matched keys. The first two travel in cleartext at sequence 0 and
//! carry the ephemeral public keys; the third is the first encrypted frame,
//! sealing a fixed verification text at sequence 1.

use crate::codec::FLAG_ENCRYPTED;
use crate::codec::FLAG_MASK;
use crate::codec::MessageType;
use crate::codec::Packet;
use crate::codec::PacketFlags;
use crate::crypto::CryptoError;
use crate::kdf::SessionKeys;
use crate::kdf::spec_derived;
use crate::session::Role;
use crate::session::SecureSession;
use crate::session::spec_decrypt_result;
use crate::session::spec_encrypt_output;
use crate::session::spec_peer_sequence_after;
use crate::x25519::KeyPair;
use crate::x25519::diffie_hellman;
use crate::x25519::spec_basepoint;
use crate::x25519::spec_x25519;
use vstd::prelude::*;

verus! {

/// The ways a handshake step can refuse its input.
#[derive(Clone, Copy, Debug, PartialEq, Eq, Structural)]
pub enum HandshakeError {
    /// The peer sent a message of the wrong kind.
    UnexpectedMessage,
    /// An ephemeral public key payload of the wrong length.
    BadKey,
    /// The cryptographic layer refused.
    Crypto(CryptoError),
}

/// The fixed all-zero HKDF salt both sides use.
pub open spec fn spec_zero_salt() -> Seq<u8> {
    Seq::new(32, |i: int| 0u8)
}

/// The 32 zero bytes of the fixed salt.
pub fn zero_salt() -> (r: [u8; 32])
    ensures
        r@ == spec_zero_salt(),
{
    broadcast use vstd::array::group_array_axioms;

    let r: [u8; 32] = [0; 32];
    proof {
        assert(r@ =~= spec_zero_salt());
    }
    r
}

/// The ASCII bytes of "Verification OK", the text the third message seals.
pub open spec fn spec_verification_message() -> Seq<u8> {
    seq![0x56u8, 0x65, 0x72, 0x69, 0x66, 0x69, 0x63, 0x61, 0x74, 0x69, 0x6F, 0x6E, 0x20, 0x4F, 0x4B]
}

/// The verification text as bytes.
pub fn verification_message() -> (r: Vec<u8>)
    ensures
        r@ == spec_verification_message(),
{
    let arr: [u8; 15] = [
        0x56,
        0x65,
        0x72,
        0x69,
        0x66,
        0x69,
        0x63,
        0x61,
        0x74,
        0x69,
        0x6F,
        0x6E,
        0x20,
        0x4F,
        0x4B,
    ];
    let r = vstd::slice::slice_to_vec(arr.as_slice());
    proof {
        assert(r@ =~= spec_verification_message());
    }
    r
}

/// The opening message: the client's ephemeral public key, cleartext, under a
/// fresh session identifier of the client's choosing.
pub fn client_init(client: &KeyPair, session_id: [u8; 16]) -> (p: Packet)
    ensures
        p@.wf(),
        p@.msg_type == MessageType::HandshakeInit,
        p@.payload == client.spec_public(),
        p@.flags == 0,
        p@.sequence == 0,
        p@.session_id == session_id@,
{
    let pk = client.public_bytes();
    let payload = vstd::slice::slice_to_vec(pk.as_slice());
    Packet::new(MessageType::HandshakeInit, payload, session_id)
}

/// The server's reply to a `HandshakeInit`: it derives the session keys from
/// its own ephemeral secret and the client's public key, installs them in a
/// server-role session, and echoes the client's session identifier under its
/// own public key.
pub fn server_respond(init: &Packet, server: KeyPair) -> (r: Result<
    (Packet, SecureSession),
    HandshakeError,
>)
    requires
        server.wf(),
    ensures
        r is Ok <==> (init@.msg_type == MessageType::HandshakeInit && init@.payload.len() == 32),
        r is Err && init@.msg_type != MessageType::HandshakeInit ==> r->Err_0
            == HandshakeError::UnexpectedMessage,
        r is Err && init@.msg_type == MessageType::HandshakeInit ==> r->Err_0
            == HandshakeError::BadKey,
        r is Ok ==> ({
            let (response, session) = r->Ok_0;
            &&& response@.wf()
            &&& response@.msg_type == MessageType::HandshakeResponse
            &&& response@.payload == server.spec_public()
            &&& response@.flags == 0
            &&& response@.sequence == 0
            &&& response@.session_id == init@.session_id
            &&& session.wf()
            &&& session.spec_role() == Role::Server
            &&& session.spec_my_sequence() == 1
            &&& session.spec_peer_sequence() == 1
            &&& spec_derived(
                session.spec_keys(),
                spec_zero_salt(),
                spec_x25519(server.spec_secret(), init@.payload),
            )
            &&& forall|b: Seq<u8>|
                init@.payload == #[trigger] spec_x25519(b, spec_basepoint()) ==> spec_derived(
                    session.spec_keys(),
                    spec_zero_salt(),
                    spec_x25519(b, server.spec_public()),
                )
        }),
{
    if !(init.header.msg_type == MessageType::HandshakeInit) {
        return Err(HandshakeError::UnexpectedMessage);
    }
    if init.payload.len() != 32 {
        return Err(HandshakeError::BadKey);
    }
    let server_public = server.public_bytes();
    let shared = match diffie_hellman(server, init.payload.as_slice()) {
        Ok(s) => s,
        Err(_) => {
            return Err(HandshakeError::BadKey);
        },
    };
    let salt = zero_salt();
    let keys = SessionKeys::derive(shared.as_slice(), salt.as_slice());
    let session = SecureSession::new(Role::Server, keys);
    let payload = vstd::slice::slice_to_vec(server_public.as_slice());
    let response = Packet::new(
        MessageType::HandshakeResponse,
        payload,
        init.header.session_id,
    );
    Ok((response, session))
}

/// The client's final step on seeing the `HandshakeResponse`: it derives the
/// same keys from its own secret and the server's public key, installs them
/// in a client-role session, and seals the verification text at sequence 1
/// into the first encrypted frame.
pub fn client_complete(response: &Packet, client: KeyPair) -> (r: Result<
    (SecureSession, Packet),
    HandshakeError,
>)
    requires
        client.wf(),
    ensures
        r is Ok <==> (response@.msg_type == MessageType::HandshakeResponse
            && response@.payload.len() == 32),
        r is Err && response@.msg_type != MessageType::HandshakeResponse ==> r->Err_0
            == HandshakeError::UnexpectedMessage,
        r is Err && response@.msg_type == MessageType::HandshakeResponse ==> r->Err_0
            == HandshakeError::BadKey,
        r is Ok ==> ({
            let (session, complete) = r->Ok_0;
            &&& session.wf()
            &&& session.spec_role() == Role::Client
            &&& session.spec_my_sequence() == 2
            &&& session.spec_peer_sequence() == 1
            &&& spec_derived(
                session.spec_keys(),
                spec_zero_salt(),
                spec_x25519(client.spec_secret(), response@.payload),
            )
            &&& (forall|b: Seq<u8>|
                response@.payload == #[trigger] spec_x25519(b, spec_basepoint()) ==> spec_derived(
                    session.spec_keys(),
                    spec_zero_salt(),
                    spec_x25519(b, client.spec_public()),
                ))
            &&& complete@.wf()
            &&& complete@.msg_type == MessageType::HandshakeComplete
            &&& complete@.flags == FLAG_ENCRYPTED
            &&& complete@.sequence == 1
            &&& complete@.session_id == response@.session_id
            &&& complete@.auth_tag is Some
            &&& spec_encrypt_output(
                session.spec_keys(),
                Role::Client,
                1,
                spec_verification_message(),
                complete@.payload,
                complete@.auth_tag->0,
            )
        }),
{
    if !(response.header.msg_type == MessageType::HandshakeResponse) {
        return Err(HandshakeError::UnexpectedMessage);
    }
    if response.payload.len() != 32 {
        return Err(HandshakeError::BadKey);
    }
    let shared = match diffie_hellman(client, response.payload.as_slice()) {
        Ok(s) => s,
        Err(_) => {
            return Err(HandshakeError::BadKey);
        },
    };
    let salt = zero_salt();
    let keys = SessionKeys::derive(shared.as_slice(), salt.as_slice());
    let mut session = SecureSession::new(Role::Client, keys);
    let msg = verification_message();
    let (ciphertext, tag, seq) = match session.encrypt(msg.as_slice()) {
        Ok(t) => t,
        Err(_) => {
            return Err(HandshakeError::Crypto(CryptoError::EncryptionError));
        },
    };
    let mut complete = Packet::new(
        MessageType::HandshakeComplete,
        ciphertext,
        response.header.session_id,
    );
    proof {
        assert(FLAG_ENCRYPTED & FLAG_MASK == FLAG_ENCRYPTED) by (bit_vector);
        assert(FLAG_ENCRYPTED & FLAG_ENCRYPTED == FLAG_ENCRYPTED) by (bit_vector);
    }
    complete.header.flags = PacketFlags { bits: FLAG_ENCRYPTED };
    complete.header.sequence = seq;
    complete.auth_tag = Some(tag);
    Ok((session, complete))
}

/// The server's check of the `HandshakeComplete` frame: decrypt it and insist
/// on the verification text. Success proves both sides hold the same keys; a
/// frame that decrypts to anything else is treated as tampering.
pub fn server_confirm(session: &mut SecureSession, complete: &Packet) -> (r: Result<
    (),
    CryptoError,
>)
    requires
        old(session).wf(),
    ensures
        final(session).wf(),
        final(session).spec_role() == old(session).spec_role(),
        final(session).spec_keys() == old(session).spec_keys(),
        final(session).spec_my_sequence() == old(session).spec_my_sequence(),
        final(session).spec_peer_sequence() == spec_peer_sequence_after(
            old(session).spec_peer_sequence(),
            old(session).spec_keys(),
            old(session).spec_role(),
            complete@,
        ),
        r is Ok <==> spec_decrypt_result(old(session).spec_keys(), old(session).spec_role(), complete@)
            == Ok::<Seq<u8>, CryptoError>(spec_verification_message()),
        r is Err && spec_decrypt_result(
            old(session).spec_keys(),
            old(session).spec_role(),
            complete@,
        ) is Err ==> r->Err_0 == spec_decrypt_result(
            old(session).spec_keys(),
            old(session).spec_role(),
            complete@,
        )->Err_0,
        r is Err && spec_decrypt_result(
            old(session).spec_keys(),
            old(session).spec_role(),
            complete@,
        ) is Ok ==> r->Err_0 == CryptoError::DecryptionError,
{
    let expected = verification_message();
    match session.decrypt(complete) {
        Ok(plaintext) => {
            if crate::wire::bytes_equal(plaintext.as_slice(), expected.as_slice()) {
                Ok(())
            } else {
                Err(CryptoError::DecryptionError)
            }
        },
        Err(e) => Err(e),
    }
}

} // verus!
