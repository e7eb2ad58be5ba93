//! Attested-message verification.
//!
//! An inbound attested message is authenticated by recomputing the canonical
//! serialization of its structural fields, hashing it, deriving the expected
//! storage address of the message from that hash under the core bridge
//! program, and comparing the declared origin against the registered trusted
//! emitter for its chain.
use vstd::prelude::*;
use vstd::slice::slice_to_vec;
use vstd::utf8::encode_utf8;

use crate::bytes::bytes32_matches;
use crate::bytes::{
    addr_eq, spec_u16_to_be_bytes, spec_u32_to_be_bytes, spec_u64_to_be_bytes,
    u64_to_be_bytes_vec, u16_to_be_bytes_vec,
};
use crate::errors::MessengerError;
use crate::ext::{
    find_program_address, hex_decode, keccak256, keccak256_of, spec_find_program_address,
    spec_hex_decode, spec_is_hex,
};
use crate::payload::{push_bytes32, push_u16_be, push_u32_be, push_u64_be};
use crate::state::{clone_bytes, EmitterAddrAccount};

verus! {

/// The structural fields of a verified attested message, as the upstream
/// bridge exposes them.
pub struct MessageData {
    pub vaa_time: u32,
    pub nonce: u32,
    pub emitter_chain: u16,
    pub emitter_address: [u8; 32],
    pub sequence: u64,
    pub consistency_level: u8,
    pub payload: Vec<u8>,
}

/// The canonical serialization of an attested message: the byte string whose
/// hash identifies the message.
pub open spec fn spec_serialize_vaa(m: MessageData) -> Seq<u8> {
    spec_u32_to_be_bytes(m.vaa_time) + spec_u32_to_be_bytes(m.nonce) + spec_u16_to_be_bytes(
        m.emitter_chain,
    ) + m.emitter_address@ + spec_u64_to_be_bytes(m.sequence) + seq![m.consistency_level]
        + m.payload@
}

/// Serialize an attested message's unique components for hashing.
pub fn serialize_vaa(vaa: &MessageData) -> (v: Vec<u8>)
    ensures
        v@ == spec_serialize_vaa(*vaa),
{
    let mut v: Vec<u8> = Vec::new();
    push_u32_be(&mut v, vaa.vaa_time);
    push_u32_be(&mut v, vaa.nonce);
    push_u16_be(&mut v, vaa.emitter_chain);
    push_bytes32(&mut v, &vaa.emitter_address);
    push_u64_be(&mut v, vaa.sequence);
    v.push(vaa.consistency_level);
    let mut p = clone_bytes(&vaa.payload);
    v.append(&mut p);
    proof {
        assert(v@ =~= spec_serialize_vaa(*vaa));
    }
    v
}

/// The ASCII bytes of the fixed seed tag under which the bridge stores
/// posted messages.
pub open spec fn posted_vaa_seed() -> Seq<u8> {
    seq![80u8, 111u8, 115u8, 116u8, 101u8, 100u8, 86u8, 65u8, 65u8]
}

/// The fixed seed tag, "PostedVAA" in ASCII.
pub fn posted_vaa_seed_vec() -> (r: Vec<u8>)
    ensures
        r@ == posted_vaa_seed(),
{
    let mut r: Vec<u8> = Vec::new();
    r.push(80);
    r.push(111);
    r.push(115);
    r.push(116);
    r.push(101);
    r.push(100);
    r.push(86);
    r.push(65);
    r.push(65);
    proof {
        assert(r@ =~= posted_vaa_seed());
    }
    r
}

/// Whether the message sits at the account derived from its own hash under
/// the core bridge program.
pub open spec fn spec_vaa_key_ok(m: MessageData, account: Seq<u8>, core_bridge: Seq<u8>) -> bool {
    match spec_find_program_address(
        seq![posted_vaa_seed(), keccak256_of(spec_serialize_vaa(m))],
        core_bridge,
    ) {
        Some(p) => p.0 == account,
        None => false,
    }
}

/// Whether the message's declared origin equals the registered emitter:
/// same chain id, and the registered hex text decodes to exactly the
/// declared origin address bytes.
pub open spec fn spec_emitter_match(m: MessageData, e: EmitterAddrAccount) -> bool {
    &&& m.emitter_chain == e.chain_id
    &&& spec_hex_decode(encode_utf8(e.emitter_addr@)) == m.emitter_address@
}

/// Outcome of authenticating an attested message: the derived-key check
/// first, then the origin check.
pub open spec fn spec_authenticate(
    m: MessageData,
    account: Seq<u8>,
    e: EmitterAddrAccount,
    core_bridge: Seq<u8>,
) -> Result<(), MessengerError> {
    if !spec_vaa_key_ok(m, account, core_bridge) {
        Err(MessengerError::VAAKeyMismatch)
    } else if !spec_emitter_match(m, e) {
        Err(MessengerError::VAAEmitterMismatch)
    } else {
        Ok(())
    }
}

/// Authenticate an attested message found at `vaa_account`: recompute its
/// hash, derive the expected storage address under the core bridge program,
/// and check the declared origin against the registered emitter.
pub fn authenticate(
    vaa: &MessageData,
    vaa_account: &[u8; 32],
    emitter: &EmitterAddrAccount,
    core_bridge: &[u8; 32],
) -> (r: Result<(), MessengerError>)
    requires
        spec_is_hex(encode_utf8(emitter.emitter_addr@)),
    ensures
        r == spec_authenticate(*vaa, vaa_account@, *emitter, core_bridge@),
{
    let serialized_vaa = serialize_vaa(vaa);
    let vaa_hash = keccak256(&serialized_vaa);
    let mut seeds: Vec<Vec<u8>> = Vec::new();
    seeds.push(posted_vaa_seed_vec());
    seeds.push(slice_to_vec(vaa_hash.as_slice()));
    proof {
        assert(seeds.deep_view() =~~= seq![
            posted_vaa_seed(),
            keccak256_of(spec_serialize_vaa(*vaa)),
        ]);
    }
    match find_program_address(&seeds, core_bridge) {
        None => {
            return Err(MessengerError::VAAKeyMismatch);
        },
        Some((vaa_key, _bump)) => {
            if !addr_eq(&vaa_key, vaa_account) {
                return Err(MessengerError::VAAKeyMismatch);
            }
        },
    }
    if vaa.emitter_chain != emitter.chain_id {
        return Err(MessengerError::VAAEmitterMismatch);
    }
    match hex_decode(emitter.emitter_addr.as_str()) {
        None => Err(MessengerError::VAAEmitterMismatch),
        Some(decoded) => {
            if !bytes32_matches(&decoded, &vaa.emitter_address) {
                return Err(MessengerError::VAAEmitterMismatch);
            }
            Ok(())
        },
    }
}

/// The derived address and bump of an identity under this program: the
/// seeds are the 32 identity bytes and a big-endian chain id.
pub open spec fn spec_identity_pda(
    identity: Seq<u8>,
    chain_seed: Seq<u8>,
    program_id: Seq<u8>,
) -> Option<(Seq<u8>, u8)> {
    spec_find_program_address(seq![identity, chain_seed], program_id)
}

/// Derive the address and bump of an identity from its 32 bytes and a
/// chain-id seed.
pub fn derive_identity_address(
    identity: &[u8; 32],
    chain_seed: Vec<u8>,
    program_id: &[u8; 32],
) -> (r: Option<([u8; 32], u8)>)
    ensures
        r matches Some(p) ==> spec_identity_pda(identity@, chain_seed@, program_id@) == Some(
            (p.0@, p.1),
        ),
        r is None ==> spec_identity_pda(identity@, chain_seed@, program_id@) is None,
{
    let ghost seed_view = chain_seed@;
    let mut seeds: Vec<Vec<u8>> = Vec::new();
    seeds.push(slice_to_vec(identity.as_slice()));
    seeds.push(chain_seed);
    proof {
        assert(seeds.deep_view() =~~= seq![identity@, seed_view]);
    }
    find_program_address(&seeds, program_id)
}

/// The derived address of an identity under an eight-byte big-endian chain
/// seed, as the stored `from_chain_id` is used in cross checks.
pub open spec fn spec_identity_pda_u64(
    identity: Seq<u8>,
    chain_id: u64,
    program_id: Seq<u8>,
) -> Option<(Seq<u8>, u8)> {
    spec_identity_pda(identity, spec_u64_to_be_bytes(chain_id), program_id)
}

/// Derive an identity's address from the stored 64-bit chain id.
pub fn derive_identity_address_u64(
    identity: &[u8; 32],
    chain_id: u64,
    program_id: &[u8; 32],
) -> (r: Option<([u8; 32], u8)>)
    ensures
        r matches Some(p) ==> spec_identity_pda_u64(identity@, chain_id, program_id@) == Some(
            (p.0@, p.1),
        ),
        r is None ==> spec_identity_pda_u64(identity@, chain_id, program_id@) is None,
{
    derive_identity_address(identity, u64_to_be_bytes_vec(chain_id), program_id)
}

/// The derived address of an identity under a two-byte big-endian chain
/// seed, as the signing authority is derived.
pub open spec fn spec_identity_pda_u16(
    identity: Seq<u8>,
    chain_id: u16,
    program_id: Seq<u8>,
) -> Option<(Seq<u8>, u8)> {
    spec_identity_pda(identity, spec_u16_to_be_bytes(chain_id), program_id)
}

/// Derive an identity's signing address from the 16-bit chain id.
pub fn derive_identity_address_u16(
    identity: &[u8; 32],
    chain_id: u16,
    program_id: &[u8; 32],
) -> (r: Option<([u8; 32], u8)>)
    ensures
        r matches Some(p) ==> spec_identity_pda_u16(identity@, chain_id, program_id@) == Some(
            (p.0@, p.1),
        ),
        r is None ==> spec_identity_pda_u16(identity@, chain_id, program_id@) is None,
{
    derive_identity_address(identity, u16_to_be_bytes_vec(chain_id), program_id)
}

/// The derived signing authority of an identity, with the seeds that
/// synthesize its signature: the identity bytes, the two-byte big-endian
/// chain id, and the bump.
pub struct SignerSeeds {
    pub signer: [u8; 32],
    pub bump: u8,
    pub seeds: Vec<Vec<u8>>,
}

/// Derive the signing authority of an identity and assemble its seeds.
pub fn derive_signer_seeds(identity: &[u8; 32], chain_id: u16, program_id: &[u8; 32]) -> (r:
    Option<SignerSeeds>)
    ensures
        r is Some <==> spec_identity_pda_u16(identity@, chain_id, program_id@) is Some,
        r matches Some(ss) ==> {
            let p = spec_identity_pda_u16(identity@, chain_id, program_id@).unwrap();
            &&& ss.signer@ == p.0
            &&& ss.bump == p.1
            &&& ss.seeds.deep_view() == seq![
                identity@,
                spec_u16_to_be_bytes(chain_id),
                seq![p.1],
            ]
        },
{
    match derive_identity_address_u16(identity, chain_id, program_id) {
        None => None,
        Some((signer, bump)) => {
            let mut seeds: Vec<Vec<u8>> = Vec::new();
            seeds.push(slice_to_vec(identity.as_slice()));
            seeds.push(u16_to_be_bytes_vec(chain_id));
            let mut bump_seed: Vec<u8> = Vec::new();
            bump_seed.push(bump);
            seeds.push(bump_seed);
            proof {
                assert(seeds.deep_view() =~~= seq![
                    identity@,
                    spec_u16_to_be_bytes(chain_id),
                    seq![bump],
                ]);
            }
            Some(SignerSeeds { signer, bump, seeds })
        },
    }
}

} // verus!
