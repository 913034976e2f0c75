//! Secure session: stateful per-peer encrypt and decrypt under strict
//! sequencing, with the TLS-1.3-style nonce built from a per-direction root
//! and the sequence counter.

use crate::codec::FLAG_ENCRYPTED;
use crate::codec::Packet;
use crate::codec::PacketModel;
use crate::crypto::Cipher;
use crate::crypto::CryptoError;
use crate::crypto::GCM_P_MAX;
use crate::crypto::aes_gcm_open;
use crate::crypto::aes_gcm_seal;
use crate::kdf::SessionKeys;
use crate::wire::le64_bytes;
use crate::wire::lemma_le64_inverse;
use crate::wire::spec_le64;
use vstd::prelude::*;

verus! {

/// Which side of the connection a session speaks for.
#[derive(Clone, Copy, Debug, PartialEq, Eq, Structural)]
pub enum Role {
    Client,
    Server,
}

impl Role {
    /// The other side.
    pub open spec fn spec_opposite(self) -> Role {
        match self {
            Role::Client => Role::Server,
            Role::Server => Role::Client,
        }
    }

    pub fn opposite(self) -> (r: Role)
        ensures
            r == self.spec_opposite(),
    {
        match self {
            Role::Client => Role::Server,
            Role::Server => Role::Client,
        }
    }
}

/// The write key of the given direction.
pub open spec fn spec_write_key(keys: SessionKeys, role: Role) -> Seq<u8> {
    match role {
        Role::Client => keys.client_write_key@,
        Role::Server => keys.server_write_key@,
    }
}

/// The nonce root of the given direction.
pub open spec fn spec_iv_root(keys: SessionKeys, role: Role) -> Seq<u8> {
    match role {
        Role::Client => keys.client_iv_root@,
        Role::Server => keys.server_iv_root@,
    }
}

/// The nonce for one (direction, sequence) pair: the leading four root bytes
/// unchanged, the trailing eight XORed with the little-endian sequence.
pub open spec fn spec_compute_iv(root: Seq<u8>, sequence: u64) -> Seq<u8> {
    Seq::new(12, |i: int| if i < 4 { root[i] } else { root[i] ^ spec_le64(sequence)[i - 4] })
}

/// Exactly what a successful `encrypt` hands back: the seal of the plaintext
/// under the sender's write key at the sender's nonce for `sequence`, split
/// into ciphertext and 16-byte tag, with the guarantee that the same key and
/// nonce open it back to the plaintext.
pub open spec fn spec_encrypt_output(
    keys: SessionKeys,
    sender: Role,
    sequence: u64,
    plaintext: Seq<u8>,
    ciphertext: Seq<u8>,
    tag: Seq<u8>,
) -> bool {
    let key = spec_write_key(keys, sender);
    let iv = spec_compute_iv(spec_iv_root(keys, sender), sequence);
    let sealed = aes_gcm_seal(key, iv, plaintext, Seq::<u8>::empty());
    &&& ciphertext + tag == sealed
    &&& ciphertext.len() == plaintext.len()
    &&& tag.len() == 16
    &&& aes_gcm_open(key, iv, sealed, Seq::<u8>::empty()) == Some(plaintext)
}

/// What decrypting a parsed packet yields, as a pure function of the session
/// keys, the local role and the packet: cleartext frames pass through, a
/// missing tag is refused, and otherwise the peer's key and nonce must open
/// the ciphertext.
pub open spec fn spec_decrypt_result(keys: SessionKeys, role: Role, p: PacketModel) -> Result<
    Seq<u8>,
    CryptoError,
> {
    if !p.encrypted() {
        Ok(p.payload)
    } else if p.auth_tag is None {
        Err(CryptoError::EncryptionError)
    } else {
        let peer = role.spec_opposite();
        let key = spec_write_key(keys, peer);
        let iv = spec_compute_iv(spec_iv_root(keys, peer), p.sequence);
        match aes_gcm_open(key, iv, p.payload + p.auth_tag->0, Seq::<u8>::empty()) {
            Some(pt) => Ok(pt),
            None => Err(CryptoError::DecryptionError),
        }
    }
}

/// The inbound counter after processing a packet: an encrypted packet that
/// decrypted successfully at or above the expected sequence advances the
/// counter to one past its sequence (saturating); every other outcome leaves
/// the counter untouched.
pub open spec fn spec_peer_sequence_after(
    peer_sequence: u64,
    keys: SessionKeys,
    role: Role,
    p: PacketModel,
) -> u64 {
    if p.encrypted() && spec_decrypt_result(keys, role, p) is Ok && p.sequence >= peer_sequence {
        if p.sequence == u64::MAX {
            u64::MAX
        } else {
            (p.sequence + 1) as u64
        }
    } else {
        peer_sequence
    }
}

/// A per-connection secure channel: the derived key bundle, one cipher per
/// write key, and the two sequence counters. Both counters start at 1;
/// sequence 0 is left to cleartext handshake frames.
pub struct SecureSession {
    role: Role,
    keys: SessionKeys,
    cipher_client: Cipher,
    cipher_server: Cipher,
    my_sequence: u64,
    peer_sequence: u64,
}

impl SecureSession {
    pub closed spec fn spec_role(self) -> Role {
        self.role
    }

    pub closed spec fn spec_keys(self) -> SessionKeys {
        self.keys
    }

    /// Next outbound sequence number.
    pub closed spec fn spec_my_sequence(self) -> u64 {
        self.my_sequence
    }

    /// Expected next inbound sequence number.
    pub closed spec fn spec_peer_sequence(self) -> u64 {
        self.peer_sequence
    }

    /// The two ciphers hold exactly the two write keys.
    pub closed spec fn wf(self) -> bool {
        &&& self.cipher_client.spec_key() == self.keys.client_write_key@
        &&& self.cipher_server.spec_key() == self.keys.server_write_key@
    }

    pub fn new(role: Role, keys: SessionKeys) -> (r: Self)
        ensures
            r.wf(),
            r.spec_role() == role,
            r.spec_keys() == keys,
            r.spec_my_sequence() == 1,
            r.spec_peer_sequence() == 1,
    {
        let cipher_client = Cipher::new(keys.client_write_key);
        let cipher_server = Cipher::new(keys.server_write_key);
        SecureSession { role, keys, cipher_client, cipher_server, my_sequence: 1, peer_sequence: 1 }
    }

    pub fn role(&self) -> (r: Role)
        ensures
            r == self.spec_role(),
    {
        self.role
    }

    pub fn my_sequence(&self) -> (r: u64)
        ensures
            r == self.spec_my_sequence(),
    {
        self.my_sequence
    }

    pub fn peer_sequence(&self) -> (r: u64)
        ensures
            r == self.spec_peer_sequence(),
    {
        self.peer_sequence
    }

    /// The nonce the given sender uses at the given sequence.
    pub fn compute_iv(&self, sequence: u64, sender_role: Role) -> (iv: [u8; 12])
        ensures
            iv@ == spec_compute_iv(spec_iv_root(self.spec_keys(), sender_role), sequence),
    {
        let root: [u8; 12] = match sender_role {
            Role::Client => self.keys.client_iv_root,
            Role::Server => self.keys.server_iv_root,
        };
        let seq_bytes = le64_bytes(sequence);
        let mut iv = root;
        let mut i: usize = 0;
        while i < 8
            invariant
                i <= 8,
                iv@.len() == 12,
                seq_bytes@ == spec_le64(sequence),
                root@ == spec_iv_root(self.spec_keys(), sender_role),
                forall|j: int| 0 <= j < 4 ==> iv@[j] == root@[j],
                forall|j: int| 4 <= j < 4 + i ==> iv@[j] == (root@[j] ^ seq_bytes@[j - 4]),
                forall|j: int| 4 + i <= j < 12 ==> iv@[j] == root@[j],
            decreases 8 - i,
    {
            iv[4 + i] = iv[4 + i] ^ seq_bytes[i];
            i = i + 1;
        }
        proof {
            assert(iv@ =~= spec_compute_iv(root@, sequence));
        }
        iv
    }

    /// Seals a payload at the current outbound sequence, then advances the
    /// counter. Returns ciphertext, tag, and the sequence used, so the caller
    /// can stamp the outgoing header.
    pub fn encrypt(&mut self, plaintext: &[u8]) -> (r: Result<(Vec<u8>, [u8; 16], u64), CryptoError>)
        requires
            old(self).wf(),
            old(self).spec_my_sequence() < u64::MAX,
        ensures
            final(self).wf(),
            final(self).spec_role() == old(self).spec_role(),
            final(self).spec_keys() == old(self).spec_keys(),
            final(self).spec_peer_sequence() == old(self).spec_peer_sequence(),
            r is Ok <==> plaintext@.len() <= GCM_P_MAX,
            r is Ok ==> r->Ok_0.2 == old(self).spec_my_sequence(),
            r is Ok ==> spec_encrypt_output(
                old(self).spec_keys(),
                old(self).spec_role(),
                old(self).spec_my_sequence(),
                plaintext@,
                r->Ok_0.0@,
                r->Ok_0.1@,
            ),
            r is Ok ==> final(self).spec_my_sequence() == old(self).spec_my_sequence() + 1,
            r is Err ==> final(self).spec_my_sequence() == old(self).spec_my_sequence(),
            r is Err ==> r->Err_0 == CryptoError::EncryptionError,
    {
        let seq = self.my_sequence;
        let iv = self.compute_iv(seq, self.role);
        let aad: Vec<u8> = Vec::new();
        let result = match self.role {
            Role::Client => self.cipher_client.encrypt(&iv, plaintext, aad.as_slice()),
            Role::Server => self.cipher_server.encrypt(&iv, plaintext, aad.as_slice()),
        };
        match result {
            Ok((ciphertext, tag)) => {
                self.my_sequence = self.my_sequence + 1;
                proof {
                    let keys = self.spec_keys();
                    let role = self.spec_role();
                    let sealed = aes_gcm_seal(
                        spec_write_key(keys, role),
                        spec_compute_iv(spec_iv_root(keys, role), seq),
                        plaintext@,
                        Seq::<u8>::empty(),
                    );
                    assert(aad@ =~= Seq::<u8>::empty());
                    assert(ciphertext@ + tag@ =~= sealed);
                }
                Ok((ciphertext, tag, seq))
            },
            Err(e) => Err(e),
        }
    }

    /// Decrypts a parsed packet. Cleartext frames pass through untouched; an
    /// encrypted frame must carry its tag and open under the peer's write key
    /// at the nonce its own sequence names. Only a successful decryption at
    /// or above the expected sequence advances the inbound counter; stale
    /// frames are tolerated but never move it backward.
    pub fn decrypt(&mut self, packet: &Packet) -> (r: Result<Vec<u8>, CryptoError>)
        requires
            old(self).wf(),
        ensures
            final(self).wf(),
            final(self).spec_role() == old(self).spec_role(),
            final(self).spec_keys() == old(self).spec_keys(),
            final(self).spec_my_sequence() == old(self).spec_my_sequence(),
            r is Ok <==> spec_decrypt_result(old(self).spec_keys(), old(self).spec_role(), packet@)
                is Ok,
            r is Ok ==> r->Ok_0@ == spec_decrypt_result(
                old(self).spec_keys(),
                old(self).spec_role(),
                packet@,
            )->Ok_0,
            r is Err ==> r->Err_0 == spec_decrypt_result(
                old(self).spec_keys(),
                old(self).spec_role(),
                packet@,
            )->Err_0,
            final(self).spec_peer_sequence() == spec_peer_sequence_after(
                old(self).spec_peer_sequence(),
                old(self).spec_keys(),
                old(self).spec_role(),
                packet@,
            ),
    {
        if !packet.header.flags.contains(FLAG_ENCRYPTED) {
            return Ok(vstd::slice::slice_to_vec(packet.payload.as_slice()));
        }
        let tag: [u8; 16] = match &packet.auth_tag {
            Some(t) => *t,
            None => {
                return Err(CryptoError::EncryptionError);
            },
        };
        let seq = packet.header.sequence;
        let peer = self.role.opposite();
        let iv = self.compute_iv(seq, peer);
        let aad: Vec<u8> = Vec::new();
        proof {
            assert(aad@ =~= Seq::<u8>::empty());
        }
        let result = match peer {
            Role::Client => self.cipher_client.decrypt(
                &iv,
                packet.payload.as_slice(),
                &tag,
                aad.as_slice(),
            ),
            Role::Server => self.cipher_server.decrypt(
                &iv,
                packet.payload.as_slice(),
                &tag,
                aad.as_slice(),
            ),
        };
        match result {
            Ok(plaintext) => {
                if seq >= self.peer_sequence {
                    self.peer_sequence = if seq == u64::MAX {
                        u64::MAX
                    } else {
                        seq + 1
                    };
                }
                Ok(plaintext)
            },
            Err(e) => Err(e),
        }
    }
}

/// Law: distinct sequences never reuse a nonce — the IVs of one direction
/// differ in at least one byte.
pub proof fn lemma_iv_uniqueness(root: Seq<u8>, s1: u64, s2: u64)
    requires
        root.len() == 12,
        s1 != s2,
    ensures
        spec_compute_iv(root, s1) != spec_compute_iv(root, s2),
{
    let b1 = spec_le64(s1);
    let b2 = spec_le64(s2);
    lemma_le64_inverse(s1);
    lemma_le64_inverse(s2);
    assert(exists|k: int| 0 <= k < 8 && b1[k] != b2[k]) by {
        if forall|k: int| 0 <= k < 8 ==> b1[k] == b2[k] {
            assert(b1 =~= b2);
            assert(false);
        }
    }
    let k = choose|k: int| 0 <= k < 8 && b1[k] != b2[k];
    let a = root[4 + k];
    let c1 = b1[k];
    let c2 = b2[k];
    assert(a ^ c1 != a ^ c2) by (bit_vector)
        requires
            c1 != c2,
    ;
    let iv1 = spec_compute_iv(root, s1);
    let iv2 = spec_compute_iv(root, s2);
    assert(iv1[4 + k] == a ^ c1);
    assert(iv2[4 + k] == a ^ c2);
    assert(iv1 != iv2);
}

/// Law: a frame one side's `encrypt` produced, stamped with the sequence it
/// names, decrypts at the matched peer to the original plaintext.
pub proof fn lemma_matched_pair_round_trip(
    keys: SessionKeys,
    sender: Role,
    p: PacketModel,
    plaintext: Seq<u8>,
)
    requires
        p.encrypted(),
        p.auth_tag is Some,
        spec_encrypt_output(keys, sender, p.sequence, plaintext, p.payload, p.auth_tag->0),
    ensures
        spec_decrypt_result(keys, sender.spec_opposite(), p) == Ok::<Seq<u8>, CryptoError>(
            plaintext,
        ),
{
    assert(sender.spec_opposite().spec_opposite() == sender);
}

/// Law: whatever arrives, the expected inbound sequence never moves backward.
pub proof fn lemma_peer_sequence_monotonic(
    peer_sequence: u64,
    keys: SessionKeys,
    role: Role,
    p: PacketModel,
)
    ensures
        spec_peer_sequence_after(peer_sequence, keys, role, p) >= peer_sequence,
{
}

/// Bookkeeping for the sessions a process currently holds, by identifier.
pub struct SessionManager {
    sessions: Vec<[u8; 16]>,
}

impl SessionManager {
    /// The identifiers currently tracked.
    pub closed spec fn spec_sessions(self) -> Seq<[u8; 16]> {
        self.sessions@
    }

    pub fn new() -> (r: Self)
        ensures
            r.spec_sessions() == Seq::<[u8; 16]>::empty(),
    {
        SessionManager { sessions: Vec::new() }
    }
}

} // verus!
