use vstd::prelude::*;
use crate::policy::MAX_AGENT_ID_BYTES;

verus! {

/// The UTF-8 byte encoding of an identifier, the measure the length bound
/// and the derivation seed are stated over.
pub open spec fn id_bytes(s: Seq<char>) -> Seq<u8> {
    vstd::utf8::encode_utf8(s)
}

/// One custodial wallet record, uniquely identified by its agent identifier.
pub struct AgentWallet {
    /// Natural key and derivation seed; immutable after creation.
    pub agent_id: String,
    /// Identity of the controlling external signer; write-once.
    pub owner: Vec<u8>,
    /// The wallet's derived address.
    pub address: Vec<u8>,
    /// Derivation nonce that reconstructs signing authority for `address`.
    pub bump: u8,
    /// Loyalty points; monotonically non-decreasing.
    pub points: u64,
    /// Timestamp captured when the wallet was created.
    pub created_at: i64,
    /// Outbound transfers initiated by this wallet; monotonically non-decreasing.
    pub tx_count: u64,
    /// The wallet's native holdings, kept as an explicit ledger entry.
    pub balance: u64,
}

impl AgentWallet {
    /// Structural well-formedness: a bounded identifier and 32-byte identities.
    pub open spec fn wf(self) -> bool {
        &&& id_bytes(self.agent_id@).len() <= MAX_AGENT_ID_BYTES
        &&& self.owner@.len() == 32
        &&& self.address@.len() == 32
    }
}

/// An external account on the native value ledger: any address that can
/// receive native value (a transfer recipient, the treasury, a funding payer).
pub struct NativeAccount {
    pub address: Vec<u8>,
    pub lamports: u64,
}

/// A token account of the external token sub-protocol: a holding of one
/// token kind, controlled by the authority recorded in it.
pub struct TokenAccount {
    pub address: Vec<u8>,
    /// The identity allowed to move the held tokens; for a wallet's token
    /// account this is the wallet's derived address.
    pub authority: Vec<u8>,
    pub amount: u64,
}

/// A copy of a byte string.
pub fn clone_bytes(v: &Vec<u8>) -> (r: Vec<u8>)
    ensures
        r@ == v@,
{
    vstd::slice::slice_to_vec(v.as_slice())
}

/// Byte-for-byte equality of two byte strings.
pub fn bytes_eq(a: &Vec<u8>, b: &Vec<u8>) -> (r: bool)
    ensures
        r == (a@ == b@),
{
    if a.len() != b.len() {
        proof {
            assert(a@ != b@);
        }
        return false;
    }
    let n = a.len();
    let mut i: usize = 0;
    while i < n
        invariant
            n == a@.len() == b@.len(),
            i <= n,
            forall|j: int| 0 <= j < i ==> a@[j] == b@[j],
        decreases n - i,
    {
        if a[i] != b[i] {
            return false;
        }
        i += 1;
    }
    proof {
        assert(a@ =~= b@);
    }
    true
}

} // verus!
