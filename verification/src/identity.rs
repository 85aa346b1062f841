use vstd::prelude::*;
use vstd::string::StrSliceExecFns;
use crate::wallet::id_bytes;

verus! {

/// The seed namespace under which wallet addresses are derived.
pub open spec fn wallet_namespace() -> Seq<u8> {
    seq![119u8, 97u8, 108u8, 108u8, 101u8, 116u8]
}

/// The namespace as a byte string: the ASCII bytes of `wallet`.
pub fn wallet_namespace_bytes() -> (r: Vec<u8>)
    ensures
        r@ == wallet_namespace(),
{
    let mut v: Vec<u8> = Vec::new();
    v.push(119);
    v.push(97);
    v.push(108);
    v.push(108);
    v.push(101);
    v.push(116);
    proof {
        assert(v@ =~= wallet_namespace());
    }
    v
}

/// The address (32 bytes) and nonce that the hosting environment's program
/// address derivation assigns to `(program, namespace, id)`. The derivation
/// is a deterministic function of these seeds alone.
pub uninterp spec fn derived_wallet_key(program: Seq<u8>, namespace: Seq<u8>, id: Seq<u8>) -> (Seq<u8>, u8);

/// Whether the derivation yields a key for `(program, namespace, id)` at
/// all: it refuses the seeds when one exceeds the scheme's seed bound, and
/// fails in the statistically improbable case that no viable nonce exists.
/// Like the key itself, this is decided by the seeds alone.
pub uninterp spec fn wallet_key_found(program: Seq<u8>, namespace: Seq<u8>, id: Seq<u8>) -> bool;

/// Relies on `Pubkey::try_find_program_address` (re-exported by
/// `anchor_lang::prelude`): whether a key is returned, and which, is a
/// deterministic function of the program identity and the seed slices,
/// and a returned address is always 32 bytes. `None` comes exactly when
/// the seeds are rejected (one longer than the scheme's seed bound) or
/// when no viable bump seed exists.
#[verifier::external_body]
fn find_wallet_key(program_id: &Vec<u8>, namespace: &Vec<u8>, id: &Vec<u8>) -> (r: Option<(Vec<u8>, u8)>)
    requires
        program_id@.len() == 32,
    ensures
        r is Some <==> wallet_key_found(program_id@, namespace@, id@),
        r matches Some(k) ==> ({
            &&& k.0@ == derived_wallet_key(program_id@, namespace@, id@).0
            &&& k.1 == derived_wallet_key(program_id@, namespace@, id@).1
            &&& k.0@.len() == 32
        }),
{
    let mut arr = [0u8; 32];
    arr.copy_from_slice(program_id.as_slice());
    let pid = anchor_lang::prelude::Pubkey::new_from_array(arr);
    let seeds: [&[u8]; 2] = [namespace.as_slice(), id.as_slice()];
    match anchor_lang::prelude::Pubkey::try_find_program_address(&seeds, &pid) {
        Some((addr, bump)) => Some((addr.to_bytes().to_vec(), bump)),
        None => None,
    }
}

/// Derives the wallet address and signing nonce for an agent identifier
/// under the given program identity, without holding any private key.
/// The same identifier always yields the same address, and whether one is
/// found at all is likewise decided by the identifier and program alone.
/// `None` means the derivation rejected the seeds (for instance an
/// identifier too long to serve as a seed) or found no viable nonce.
pub fn derive_wallet_address(program_id: &Vec<u8>, agent_id: &String) -> (r: Option<(Vec<u8>, u8)>)
    requires
        program_id@.len() == 32,
    ensures
        r is Some <==> wallet_key_found(program_id@, wallet_namespace(), id_bytes(agent_id@)),
        r matches Some(k) ==> ({
            &&& k.0@ == derived_wallet_key(program_id@, wallet_namespace(), id_bytes(agent_id@)).0
            &&& k.1 == derived_wallet_key(program_id@, wallet_namespace(), id_bytes(agent_id@)).1
            &&& k.0@.len() == 32
        }),
{
    let ns = wallet_namespace_bytes();
    let idb = agent_id.as_str().as_bytes_vec();
    find_wallet_key(program_id, &ns, &idb)
}

} // verus!
