use vstd::prelude::*;
use std::marker::PhantomData;

verus! {

/// Serves Merkle proofs of an outbound channel's commitments, stored off-chain under
/// keys that start with an indexing prefix.
pub struct BasicChannel<AccountId> {
    indexing_prefix: Vec<u8>,
    _marker: PhantomData<AccountId>,
}

impl<AccountId> BasicChannel<AccountId> {
    /// A channel reading under the given indexing prefix.
    pub fn new(indexing_prefix: &[u8]) -> (r: Self)
        ensures
            r.indexing_prefix() == indexing_prefix@,
    {
        let mut prefix: Vec<u8> = Vec::new();
        for i in 0..indexing_prefix.len()
            invariant
                prefix@ == indexing_prefix@.subrange(0, i as int),
        {
            prefix.push(indexing_prefix[i]);
            assert(prefix@ =~= indexing_prefix@.subrange(0, i + 1));
        }
        assert(prefix@ =~= indexing_prefix@);
        BasicChannel { indexing_prefix: prefix, _marker: PhantomData }
    }

    /// The indexing prefix.
    pub closed spec fn indexing_prefix(&self) -> Seq<u8> {
        self.indexing_prefix@
    }

    /// The indexing prefix.
    pub fn prefix(&self) -> (r: &Vec<u8>)
        ensures
            r@ == self.indexing_prefix(),
    {
        &self.indexing_prefix
    }
}

} // verus!
