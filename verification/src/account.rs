use vstd::prelude::*;
use vstd::assert_seqs_equal;
use crate::error::EchoError;

verus! {

/// Everything this protocol ever reads from an account handle supplied by
/// the execution engine: its address, its signature flag, the identity of
/// the program that owns it, and its mutable data region. Reconstructed
/// from the engine's handles at every invocation; nothing else is trusted.
pub struct Account {
    /// The account's 32-byte on-ledger address.
    pub key: [u8; 32],
    /// Whether the transaction carries this account's signature.
    pub is_signer: bool,
    /// The 32-byte identity of the program that owns this account.
    pub owner: [u8; 32],
    /// The account's data region, of fixed capacity.
    pub data: Vec<u8>,
}

/// A data region is "virgin" when every byte of it is zero; this is the
/// only persisted evidence that no write has happened yet.
pub open spec fn all_zero(s: Seq<u8>) -> bool {
    forall|i: int| 0 <= i < s.len() ==> s[i] == 0u8
}

/// Reports whether every byte of `data` is zero.
pub fn buffer_is_virgin(data: &Vec<u8>) -> (r: bool)
    ensures
        r <==> all_zero(data@),
{
    let mut i: usize = 0;
    while i < data.len()
        invariant
            i <= data@.len(),
            forall|j: int| 0 <= j < i ==> data@[j] == 0u8,
        decreases data@.len() - i,
    {
        if data[i] != 0 {
            return false;
        }
        i = i + 1;
    }
    true
}

/// Reports whether two 32-byte addresses are equal.
pub fn keys_equal(a: &[u8; 32], b: &[u8; 32]) -> (r: bool)
    ensures
        r <==> a@ == b@,
{
    let mut i: usize = 0;
    while i < 32
        invariant
            i <= 32,
            forall|j: int| 0 <= j < i ==> a@[j] == b@[j],
        decreases 32 - i,
    {
        if a[i] != b[i] {
            assert(a@ != b@);
            return false;
        }
        i = i + 1;
    }
    proof {
        assert_seqs_equal!(a@ == b@);
    }
    true
}

/// Fails with `err` unless `statement` holds; the success/failure signal
/// every precondition check funnels through.
pub fn assert_with_msg(statement: bool, err: EchoError) -> (r: Result<(), EchoError>)
    ensures
        r is Ok <==> statement,
        !statement ==> r == Err::<(), EchoError>(err),
{
    if !statement {
        Err(err)
    } else {
        Ok(())
    }
}

} // verus!
