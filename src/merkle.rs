use vstd::prelude::*;
use crate::hashing::{hash_pair, hash_pair_bytes, sha256};

verus! {

/// The byte strings held by a sequence of vectors.
pub open spec fn views(v: Seq<Vec<u8>>) -> Seq<Seq<u8>> {
    v.map_values(|b: Vec<u8>| b@)
}

/// Every word of the sequence is exactly 32 bytes long.
pub open spec fn all_words(s: Seq<Seq<u8>>) -> bool {
    forall|i: int| 0 <= i < s.len() ==> (#[trigger] s[i]).len() == 32
}

/// Folds a proof branch onto a running value, starting at level `i`. At each level
/// the low bit of `index` says whether the running value is the right child.
pub open spec fn branch_root(value: Seq<u8>, branch: Seq<Seq<u8>>, index: nat, i: nat) -> Seq<u8>
    decreases branch.len() - i,
{
    if i >= branch.len() {
        value
    } else {
        let next = if index % 2 == 0 {
            hash_pair(value, branch[i as int])
        } else {
            hash_pair(branch[i as int], value)
        };
        branch_root(next, branch, index / 2, i + 1)
    }
}

/// A branch proves `leaf` at generalized index `index` under `root`.
pub open spec fn valid_merkle_branch(
    leaf: Seq<u8>,
    branch: Seq<Seq<u8>>,
    depth: u64,
    index: u64,
    root: Seq<u8>,
) -> bool {
    &&& branch.len() == depth
    &&& leaf.len() == 32
    &&& all_words(branch)
    &&& branch_root(leaf, branch, index as nat, 0) == root
}

/// Compares two byte strings.
pub fn bytes_eq(a: &Vec<u8>, b: &Vec<u8>) -> (r: bool)
    ensures
        r == (a@ == b@),
{
    if a.len() != b.len() {
        return false;
    }
    for i in 0..a.len()
        invariant
            a@.len() == b@.len(),
            forall|j: int| 0 <= j < i ==> a@[j] == b@[j],
    {
        if a[i] != b[i] {
            return false;
        }
    }
    assert(a@ =~= b@);
    true
}

/// A copy of a byte string.
pub fn copy_bytes(a: &Vec<u8>) -> (r: Vec<u8>)
    ensures
        r@ == a@,
{
    let mut out: Vec<u8> = Vec::new();
    for i in 0..a.len()
        invariant
            out@ == a@.subrange(0, i as int),
    {
        out.push(a[i]);
        assert(out@ =~= a@.subrange(0, i + 1));
    }
    assert(out@ =~= a@);
    out
}

/// Checks a Merkle proof branch: the branch must hold `depth` words of 32 bytes, and
/// hashing the leaf up the branch, led by the bits of `index` from the lowest, must
/// give `root`.
pub fn is_valid_merkle_branch(
    leaf: &Vec<u8>,
    branch: &Vec<Vec<u8>>,
    depth: u64,
    index: u64,
    root: &Vec<u8>,
) -> (r: bool)
    ensures
        r == valid_merkle_branch(leaf@, views(branch@), depth, index, root@),
{
    let ghost bs = views(branch@);
    if branch.len() as u64 != depth || leaf.len() != 32 {
        return false;
    }
    for k in 0..branch.len()
        invariant
            bs == views(branch@),
            forall|j: int| 0 <= j < k ==> (#[trigger] bs[j]).len() == 32,
    {
        if branch[k].len() != 32 {
            assert(bs[k as int].len() != 32);
            return false;
        }
    }
    let mut value: Vec<u8> = Vec::new();
    for j in 0..leaf.len()
        invariant
            value@ == leaf@.subrange(0, j as int),
    {
        value.push(leaf[j]);
        assert(value@ =~= leaf@.subrange(0, j + 1));
    }
    assert(value@ =~= leaf@);
    let mut idx: u64 = index;
    for i in 0..branch.len()
        invariant
            bs == views(branch@),
            all_words(bs),
            value@.len() == 32,
            branch_root(value@, bs, idx as nat, i as nat) == branch_root(leaf@, bs, index as nat, 0),
    {
        assert(bs[i as int] == branch[i as int]@);
        if idx % 2 == 0 {
            value = hash_pair_bytes(&value, &branch[i]);
        } else {
            value = hash_pair_bytes(&branch[i], &value);
        }
        idx = idx / 2;
    }
    bytes_eq(&value, root)
}

/// A branch built by hashing up from a leaf is accepted for that leaf, index and
/// the root it leads to, as long as its words are 32 bytes long.
pub proof fn lemma_merkle_branch_round_trip(leaf: Seq<u8>, branch: Seq<Seq<u8>>, index: u64)
    requires
        leaf.len() == 32,
        all_words(branch),
        branch.len() <= u64::MAX,
    ensures
        valid_merkle_branch(leaf, branch, branch.len() as u64, index, branch_root(leaf, branch, index as nat, 0)),
{
}

/// The two values hashed at each level when two leaves climb the same branch do not
/// collide: wherever the hash inputs differ, so do the digests.
pub open spec fn collision_free_path(a: Seq<u8>, b: Seq<u8>, branch: Seq<Seq<u8>>, index: nat, i: nat) -> bool
    decreases branch.len() - i,
{
    if i >= branch.len() {
        true
    } else {
        let ia = if index % 2 == 0 { a + branch[i as int] } else { branch[i as int] + a };
        let ib = if index % 2 == 0 { b + branch[i as int] } else { branch[i as int] + b };
        &&& (ia != ib ==> sha256(ia) != sha256(ib))
        &&& collision_free_path(sha256(ia), sha256(ib), branch, index / 2, i + 1)
    }
}

proof fn lemma_concat_cancel(a: Seq<u8>, b: Seq<u8>, c: Seq<u8>)
    requires
        a != b,
    ensures
        a + c != b + c,
        c + a != c + b,
{
    if a + c == b + c {
        assert((a + c).len() == a.len() + c.len());
        assert((b + c).len() == b.len() + c.len());
        assert(a.len() == b.len());
        assert(a =~= (a + c).subrange(0, a.len() as int));
        assert(b =~= (b + c).subrange(0, b.len() as int));
    }
    if c + a == c + b {
        assert(a =~= (c + a).subrange(c.len() as int, (c + a).len() as int));
        assert(b =~= (c + b).subrange(c.len() as int, (c + b).len() as int));
    }
}

proof fn lemma_distinct_values_distinct_roots(a: Seq<u8>, b: Seq<u8>, branch: Seq<Seq<u8>>, index: nat, i: nat)
    requires
        a != b,
        collision_free_path(a, b, branch, index, i),
    ensures
        branch_root(a, branch, index, i) != branch_root(b, branch, index, i),
    decreases branch.len() - i,
{
    if i < branch.len() {
        lemma_concat_cancel(a, b, branch[i as int]);
        let ia = if index % 2 == 0 { a + branch[i as int] } else { branch[i as int] + a };
        let ib = if index % 2 == 0 { b + branch[i as int] } else { branch[i as int] + b };
        assert(sha256(ia) != sha256(ib));
        lemma_distinct_values_distinct_roots(sha256(ia), sha256(ib), branch, index / 2, i + 1);
    }
}

/// A proof accepted for one leaf is rejected for any other leaf, where SHA-256 has
/// no collision among the values hashed along the path.
pub proof fn lemma_merkle_branch_other_leaf_rejected(
    leaf: Seq<u8>,
    other: Seq<u8>,
    branch: Seq<Seq<u8>>,
    depth: u64,
    index: u64,
    root: Seq<u8>,
)
    requires
        valid_merkle_branch(leaf, branch, depth, index, root),
        other != leaf,
        collision_free_path(leaf, other, branch, index as nat, 0),
    ensures
        !valid_merkle_branch(other, branch, depth, index, root),
{
    lemma_distinct_values_distinct_roots(leaf, other, branch, index as nat, 0);
}

/// A proof is accepted under one root at most: any other root is rejected.
pub proof fn lemma_merkle_branch_other_root_rejected(
    leaf: Seq<u8>,
    branch: Seq<Seq<u8>>,
    depth: u64,
    index: u64,
    root: Seq<u8>,
    other: Seq<u8>,
)
    requires
        valid_merkle_branch(leaf, branch, depth, index, root),
        other != root,
    ensures
        !valid_merkle_branch(leaf, branch, depth, index, other),
{
}

} // verus!
