//! Identifiers for the messages that a program sends.
use vstd::prelude::*;

use crate::ids::{le_bytes, le_bytes_injective, to_le_bytes, MessageId, ProgramId, ID_LEN};

verus! {

/// The BLAKE2b digest of `nn` bytes of `data` under the key `key`.
pub uninterp spec fn blake2b_digest(nn: usize, key: Seq<u8>, data: Seq<u8>) -> Seq<u8>;

/// Calls `blake2_rfc::blake2b::blake2b` and takes the bytes of its result.
///
/// Trusted: the digest depends on the three arguments alone and is `nn` bytes
/// long. The call panics on an `nn` outside 1 to 64 and on a key of more than
/// 64 bytes, which the precondition leaves out.
#[verifier::external_body]
fn blake2b(nn: usize, key: &[u8], data: &[u8]) -> (digest: Vec<u8>)
    requires
        1 <= nn <= 64,
        key@.len() <= 64,
    ensures
        digest@ == blake2b_digest(nn, key@, data@),
        digest@.len() == nn,
{
    blake2_rfc::blake2b::blake2b(nn, key, data).as_bytes().to_vec()
}

/// The bytes that message number `nonce` of program `program_id` is named after.
pub open spec fn id_data(program_id: ProgramId, nonce: u64) -> Seq<u8> {
    program_id.bytes@ + le_bytes(nonce)
}

/// The bytes of the identifier of message number `nonce` of program `program_id`.
pub open spec fn id_bytes(program_id: ProgramId, nonce: u64) -> Seq<u8> {
    blake2b_digest(ID_LEN, Seq::empty(), id_data(program_id, nonce))
}

/// The bytes that message number `nonce` of program `program_id` is named after:
/// the identifier of the program, then the number in little-endian order.
pub fn message_id_data(program_id: ProgramId, nonce: u64) -> (data: Vec<u8>)
    ensures
        data@ == id_data(program_id, nonce),
{
    let mut data: Vec<u8> = Vec::new();
    data.extend_from_slice(program_id.as_slice());
    assert(data@ =~= program_id.bytes@);
    let le: [u8; 8] = to_le_bytes(nonce);
    data.extend_from_slice(le.as_slice());
    assert(data@ =~= id_data(program_id, nonce));
    data
}

/// No two messages, of one program or of two, are named after the same bytes.
pub proof fn id_data_injective(program_a: ProgramId, nonce_a: u64, program_b: ProgramId, nonce_b: u64)
    requires
        id_data(program_a, nonce_a) == id_data(program_b, nonce_b),
    ensures
        program_a == program_b,
        nonce_a == nonce_b,
{
    let a = id_data(program_a, nonce_a);
    let b = id_data(program_b, nonce_b);
    assert(a.take(32) =~= program_a.bytes@);
    assert(b.take(32) =~= program_b.bytes@);
    assert(program_a.bytes =~= program_b.bytes) by {
        assert forall|i: int| 0 <= i < 32 implies program_a.bytes[i] == program_b.bytes[i] by {
            assert(a.take(32)[i] == b.take(32)[i]);
        }
    }
    assert(a.skip(32) =~= le_bytes(nonce_a));
    assert(b.skip(32) =~= le_bytes(nonce_b));
    le_bytes_injective(nonce_a, nonce_b);
}

/// Names the messages of a program by BLAKE2b digests.
#[derive(Clone, Copy, Debug)]
pub struct BlakeMessageIdGenerator {
    pub program_id: ProgramId,
    pub nonce: u64,
}

impl BlakeMessageIdGenerator {
    /// The next identifier; the nonce advances by one.
    pub fn next(&mut self) -> (id: MessageId)
        requires
            old(self).nonce < u64::MAX,
        ensures
            id.bytes@ == id_bytes(old(self).program_id, old(self).nonce),
            final(self).program_id == old(self).program_id,
            final(self).nonce == old(self).nonce + 1,
    {
        let data: Vec<u8> = message_id_data(self.program_id, self.nonce);
        self.nonce = self.nonce + 1;
        let key: Vec<u8> = Vec::new();
        let digest: Vec<u8> = blake2b(ID_LEN, key.as_slice(), data.as_slice());
        assert(key@ =~= Seq::<u8>::empty());
        MessageId::from_slice(digest.as_slice())
    }

    /// The number that the next identifier will be made from.
    pub fn current(&self) -> (nonce: u64)
        ensures
            nonce == self.nonce,
    {
        self.nonce
    }
}

} // verus!
