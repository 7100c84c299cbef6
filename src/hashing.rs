use vstd::prelude::*;

verus! {

/// The SHA-256 digest of a byte string.
pub uninterp spec fn sha256(data: Seq<u8>) -> Seq<u8>;

/// Relies on sp_io::hashing::sha2_256: the 32-byte SHA-256 digest of the input.
#[verifier::external_body]
fn sha2_256(data: &Vec<u8>) -> (r: Vec<u8>)
    ensures
        r@ == sha256(data@),
        r@.len() == 32,
{
    sp_io::hashing::sha2_256(data.as_slice()).to_vec()
}

/// SHA-256 over the concatenation of two words: one node of a Merkle tree.
pub open spec fn hash_pair(left: Seq<u8>, right: Seq<u8>) -> Seq<u8> {
    sha256(left + right)
}

/// Concatenates two byte strings.
pub fn concat_bytes(a: &Vec<u8>, b: &Vec<u8>) -> (r: Vec<u8>)
    requires
        a@.len() + b@.len() <= usize::MAX,
    ensures
        r@ == a@ + b@,
{
    let mut out: Vec<u8> = Vec::new();
    for i in 0..a.len()
        invariant
            out@ == a@.subrange(0, i as int),
    {
        out.push(a[i]);
        assert(out@ =~= a@.subrange(0, i + 1));
    }
    assert(out@ =~= a@);
    for j in 0..b.len()
        invariant
            out@ == a@ + b@.subrange(0, j as int),
    {
        out.push(b[j]);
        assert(out@ =~= a@ + b@.subrange(0, j + 1));
    }
    assert(b@.subrange(0, b@.len() as int) =~= b@);
    out
}

/// Hashes the concatenation of two words.
pub fn hash_pair_bytes(left: &Vec<u8>, right: &Vec<u8>) -> (r: Vec<u8>)
    requires
        left@.len() + right@.len() <= usize::MAX,
    ensures
        r@ == hash_pair(left@, right@),
        r@.len() == 32,
{
    let data = concat_bytes(left, right);
    sha2_256(&data)
}

} // verus!
