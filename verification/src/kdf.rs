//! Key schedule: HKDF-SHA256 expands the Diffie-Hellman shared secret into
//! the four directional session secrets, one ASCII info label each.

use crate::wire::read_bytes;
use hkdf::Hkdf;
use sha2::Sha256;
use vstd::prelude::*;

verus! {

/// What HKDF-SHA256 returns for a salt, input key material, info label and
/// output length.
pub uninterp spec fn hkdf_sha256(salt: Seq<u8>, ikm: Seq<u8>, info: Seq<u8>, n: nat) -> Seq<u8>;

/// HKDF-SHA256 refuses outputs beyond 255 hash blocks of 32 bytes.
pub const HKDF_MAX_LEN: usize = 255 * 32;

/// Relies on hkdf::Hkdf::<Sha256>: extraction and expansion are pure
/// functions of salt, key material, info label and output length, and
/// expansion only refuses lengths beyond `HKDF_MAX_LEN`.
#[verifier::external_body]
fn hkdf_expand(salt: &[u8], ikm: &[u8], info: &[u8], n: usize) -> (r: Vec<u8>)
    requires
        n <= HKDF_MAX_LEN,
    ensures
        r@ == hkdf_sha256(salt@, ikm@, info@, n as nat),
        r@.len() == n,
{
    let hk = Hkdf::<Sha256>::new(Some(salt), ikm);
    let mut okm = vec![0u8; n];
    hk.expand(info, &mut okm).unwrap();
    okm
}

/// The ASCII bytes of "client_write".
pub open spec fn spec_label_client_write() -> Seq<u8> {
    seq![0x63u8, 0x6C, 0x69, 0x65, 0x6E, 0x74, 0x5F, 0x77, 0x72, 0x69, 0x74, 0x65]
}

/// The ASCII bytes of "server_write".
pub open spec fn spec_label_server_write() -> Seq<u8> {
    seq![0x73u8, 0x65, 0x72, 0x76, 0x65, 0x72, 0x5F, 0x77, 0x72, 0x69, 0x74, 0x65]
}

/// The ASCII bytes of "client_iv".
pub open spec fn spec_label_client_iv() -> Seq<u8> {
    seq![0x63u8, 0x6C, 0x69, 0x65, 0x6E, 0x74, 0x5F, 0x69, 0x76]
}

/// The ASCII bytes of "server_iv".
pub open spec fn spec_label_server_iv() -> Seq<u8> {
    seq![0x73u8, 0x65, 0x72, 0x76, 0x65, 0x72, 0x5F, 0x69, 0x76]
}

/// The four secrets derived once per session: one AES-256 write key and one
/// 96-bit nonce root per direction.
#[derive(Clone, Debug, PartialEq, Eq)]
pub struct SessionKeys {
    pub client_write_key: [u8; 32],
    pub server_write_key: [u8; 32],
    pub client_iv_root: [u8; 12],
    pub server_iv_root: [u8; 12],
}

/// True when `keys` is exactly the HKDF expansion of `ikm` under `salt`.
pub open spec fn spec_derived(keys: SessionKeys, salt: Seq<u8>, ikm: Seq<u8>) -> bool {
    &&& keys.client_write_key@ == hkdf_sha256(salt, ikm, spec_label_client_write(), 32)
    &&& keys.server_write_key@ == hkdf_sha256(salt, ikm, spec_label_server_write(), 32)
    &&& keys.client_iv_root@ == hkdf_sha256(salt, ikm, spec_label_client_iv(), 12)
    &&& keys.server_iv_root@ == hkdf_sha256(salt, ikm, spec_label_server_iv(), 12)
}

impl SessionKeys {
    /// Expands a shared secret and salt into the session's four secrets.
    pub fn derive(shared_secret: &[u8], salt: &[u8]) -> (r: SessionKeys)
        ensures
            spec_derived(r, salt@, shared_secret@),
    {
        let label_cw: [u8; 12] = [0x63, 0x6C, 0x69, 0x65, 0x6E, 0x74, 0x5F, 0x77, 0x72, 0x69, 0x74, 0x65];
        let label_sw: [u8; 12] = [0x73, 0x65, 0x72, 0x76, 0x65, 0x72, 0x5F, 0x77, 0x72, 0x69, 0x74, 0x65];
        let label_ci: [u8; 9] = [0x63, 0x6C, 0x69, 0x65, 0x6E, 0x74, 0x5F, 0x69, 0x76];
        let label_si: [u8; 9] = [0x73, 0x65, 0x72, 0x76, 0x65, 0x72, 0x5F, 0x69, 0x76];
        proof {
            assert(label_cw@ =~= spec_label_client_write());
            assert(label_sw@ =~= spec_label_server_write());
            assert(label_ci@ =~= spec_label_client_iv());
            assert(label_si@ =~= spec_label_server_iv());
        }
        let cw = hkdf_expand(salt, shared_secret, label_cw.as_slice(), 32);
        let sw = hkdf_expand(salt, shared_secret, label_sw.as_slice(), 32);
        let ci = hkdf_expand(salt, shared_secret, label_ci.as_slice(), 12);
        let si = hkdf_expand(salt, shared_secret, label_si.as_slice(), 12);
        let client_write_key: [u8; 32] = read_bytes(cw.as_slice(), 0);
        let server_write_key: [u8; 32] = read_bytes(sw.as_slice(), 0);
        let client_iv_root: [u8; 12] = read_bytes(ci.as_slice(), 0);
        let server_iv_root: [u8; 12] = read_bytes(si.as_slice(), 0);
        proof {
            assert(client_write_key@ =~= cw@);
            assert(server_write_key@ =~= sw@);
            assert(client_iv_root@ =~= ci@);
            assert(server_iv_root@ =~= si@);
        }
        SessionKeys { client_write_key, server_write_key, client_iv_root, server_iv_root }
    }
}

/// Law: key derivation is deterministic. Two bundles derived from the same
/// shared secret and salt agree byte for byte.
pub proof fn lemma_derive_deterministic(a: SessionKeys, b: SessionKeys, salt: Seq<u8>, ikm: Seq<u8>)
    requires
        spec_derived(a, salt, ikm),
        spec_derived(b, salt, ikm),
    ensures
        a.client_write_key@ == b.client_write_key@,
        a.server_write_key@ == b.server_write_key@,
        a.client_iv_root@ == b.client_iv_root@,
        a.server_iv_root@ == b.server_iv_root@,
{
}

} // verus!
