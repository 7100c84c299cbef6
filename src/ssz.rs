use vstd::prelude::*;
use crate::hashing::{hash_pair, hash_pair_bytes};
use crate::merkle::views;

verus! {

/// A 32-byte chunk of zeros.
pub open spec fn zero_chunk() -> Seq<u8> {
    Seq::new(32, |_i: int| 0u8)
}

/// `n` is a power of two.
pub open spec fn is_pow2(n: nat) -> bool
    decreases n,
{
    if n == 1 {
        true
    } else if n == 0 || n % 2 == 1 {
        false
    } else {
        is_pow2(n / 2)
    }
}

/// The chunks followed by zero chunks up to `width` leaves.
pub open spec fn pad_chunks(chunks: Seq<Seq<u8>>, width: nat) -> Seq<Seq<u8>> {
    chunks + Seq::new((width - chunks.len()) as nat, |_i: int| zero_chunk())
}

/// One level up a Merkle tree: neighbours are hashed in pairs.
pub open spec fn hash_layer(layer: Seq<Seq<u8>>) -> Seq<Seq<u8>> {
    Seq::new(layer.len() / 2, |i: int| hash_pair(layer[2 * i], layer[2 * i + 1]))
}

/// The root of the tree whose leaves are `layer`.
pub open spec fn reduce_layers(layer: Seq<Seq<u8>>) -> Seq<u8>
    decreases layer.len(),
{
    if layer.len() <= 1 {
        layer[0]
    } else {
        reduce_layers(hash_layer(layer))
    }
}

/// SSZ merkleization of chunks padded with zero chunks to `width` leaves.
pub open spec fn merkleize(chunks: Seq<Seq<u8>>, width: nat) -> Seq<u8> {
    reduce_layers(pad_chunks(chunks, width))
}

/// A `u64` as a chunk: eight little-endian bytes, then zeros.
pub open spec fn u64_chunk(x: u64) -> Seq<u8> {
    Seq::new(32, |i: int| if i < 8 { ((x >> (8 * i) as u64) & 0xff) as u8 } else { 0u8 })
}

/// Bytes packed into 32-byte chunks, the last one padded with zeros.
pub open spec fn pack_bytes(b: Seq<u8>) -> Seq<Seq<u8>> {
    Seq::new(
        ((b.len() + 31) / 32) as nat,
        |k: int| Seq::new(32, |j: int| if 32 * k + j < b.len() { b[32 * k + j] } else { 0u8 }),
    )
}

/// The root of a fixed-size byte vector that spans `width` chunks once padded.
pub open spec fn bytes_root(b: Seq<u8>, width: nat) -> Seq<u8> {
    merkleize(pack_bytes(b), width)
}

/// Mixes a list's length into the root of its contents.
pub open spec fn mix_in_length(root: Seq<u8>, len: u64) -> Seq<u8> {
    hash_pair(root, u64_chunk(len))
}

/// A chunk of zeros.
pub fn zero_chunk_bytes() -> (r: Vec<u8>)
    ensures
        r@ == zero_chunk(),
{
    let mut r: Vec<u8> = Vec::new();
    for i in 0..32usize
        invariant
            r@ =~= Seq::new(i as nat, |_j: int| 0u8),
    {
        r.push(0u8);
    }
    r
}

/// The chunk of a `u64`.
pub fn u64_to_chunk(x: u64) -> (r: Vec<u8>)
    ensures
        r@ == u64_chunk(x),
{
    let mut r: Vec<u8> = Vec::new();
    for i in 0..32u64
        invariant
            r@ =~= u64_chunk(x).subrange(0, i as int),
    {
        if i < 8 {
            r.push(((x >> (8 * i)) & 0xff) as u8);
        } else {
            r.push(0u8);
        }
    }
    r
}

/// Packs bytes into chunks.
pub fn pack(b: &Vec<u8>) -> (r: Vec<Vec<u8>>)
    ensures
        views(r@) == pack_bytes(b@),
        r@.len() == (b@.len() + 31) / 32,
        forall|i: int| 0 <= i < r@.len() ==> (#[trigger] r@[i]@).len() == 32,
{
    let n: usize = b.len() / 32 + if b.len() % 32 == 0 { 0 } else { 1 };
    assert(n == (b@.len() + 31) / 32);
    let mut r: Vec<Vec<u8>> = Vec::new();
    for k in 0..n
        invariant
            n == (b@.len() + 31) / 32,
            r@.len() == k,
            views(r@) == pack_bytes(b@).subrange(0, k as int),
    {
        let mut chunk: Vec<u8> = Vec::new();
        for j in 0..32usize
            invariant
                k < n,
                n == (b@.len() + 31) / 32,
                chunk@ =~= pack_bytes(b@)[k as int].subrange(0, j as int),
        {
            if k < b.len() / 32 || (k == b.len() / 32 && j < b.len() % 32) {
                chunk.push(b[32 * k + j]);
            } else {
                chunk.push(0u8);
            }
        }
        assert(chunk@ =~= pack_bytes(b@)[k as int]);
        let ghost prev = views(r@);
        r.push(chunk);
        assert(views(r@) =~= prev.push(pack_bytes(b@)[k as int]));
        assert(views(r@) =~= pack_bytes(b@).subrange(0, k + 1));
    }
    assert(views(r@) =~= pack_bytes(b@));
    assert forall|i: int| 0 <= i < r@.len() implies (#[trigger] r@[i]@).len() == 32 by {
        assert(views(r@)[i] == r@[i]@);
    }
    r
}

/// The root of a fixed-size byte vector: its chunks, merkleized to `width` leaves.
pub fn fixed_bytes_root(b: &Vec<u8>, width: usize) -> (r: Vec<u8>)
    requires
        is_pow2(width as nat),
        (b@.len() + 31) / 32 <= width,
    ensures
        r@ == bytes_root(b@, width as nat),
        r@.len() == 32,
{
    let chunks = pack(b);
    merkleize_chunks(chunks, width)
}

fn hash_level(layer: &Vec<Vec<u8>>) -> (r: Vec<Vec<u8>>)
    requires
        forall|i: int| 0 <= i < layer@.len() ==> (#[trigger] layer@[i]@).len() == 32,
    ensures
        views(r@) == hash_layer(views(layer@)),
        forall|i: int| 0 <= i < r@.len() ==> (#[trigger] r@[i]@).len() == 32,
{
    let ghost l = views(layer@);
    let half: usize = layer.len() / 2;
    let mut r: Vec<Vec<u8>> = Vec::new();
    for i in 0..half
        invariant
            half == layer@.len() / 2,
            l == views(layer@),
            forall|j: int| 0 <= j < layer@.len() ==> (#[trigger] layer@[j]@).len() == 32,
            r@.len() == i,
            views(r@) == hash_layer(l).subrange(0, i as int),
            forall|j: int| 0 <= j < r@.len() ==> (#[trigger] r@[j]@).len() == 32,
    {
        assert(2 * i + 1 < layer@.len());
        assert(l[2 * i] == layer@[2 * i]@ && l[2 * i + 1] == layer@[2 * i + 1]@);
        assert(layer.len() == layer@.len());
        assert(i + i + 1 < layer.len());
        let left: usize = i + i;
        let h = hash_pair_bytes(&layer[left], &layer[left + 1]);
        let ghost prev = views(r@);
        r.push(h);
        assert(views(r@) =~= prev.push(hash_layer(l)[i as int]));
        assert(views(r@) =~= hash_layer(l).subrange(0, i + 1));
    }
    assert(views(r@) =~= hash_layer(l));
    r
}

/// Merkleizes chunks of 32 bytes, padded with zero chunks to `width` leaves.
pub fn merkleize_chunks(chunks: Vec<Vec<u8>>, width: usize) -> (r: Vec<u8>)
    requires
        is_pow2(width as nat),
        chunks@.len() <= width,
        forall|i: int| 0 <= i < chunks@.len() ==> (#[trigger] chunks@[i]@).len() == 32,
    ensures
        r@ == merkleize(views(chunks@), width as nat),
        r@.len() == 32,
{
    let ghost orig = views(chunks@);
    let mut layer = chunks;
    while layer.len() < width
        invariant
            layer@.len() <= width,
            views(layer@) == orig + Seq::new((layer@.len() - orig.len()) as nat, |_i: int| zero_chunk()),
            orig.len() <= layer@.len(),
            forall|i: int| 0 <= i < layer@.len() ==> (#[trigger] layer@[i]@).len() == 32,
        decreases width - layer@.len(),
    {
        let z = zero_chunk_bytes();
        let ghost prev = views(layer@);
        layer.push(z);
        assert(views(layer@) =~= prev.push(zero_chunk()));
        assert(views(layer@) =~= orig + Seq::new((layer@.len() - orig.len()) as nat, |_i: int| zero_chunk()));
    }
    assert(views(layer@) =~= pad_chunks(orig, width as nat));
    while layer.len() > 1
        invariant
            is_pow2(layer@.len() as nat),
            reduce_layers(views(layer@)) == merkleize(orig, width as nat),
            forall|i: int| 0 <= i < layer@.len() ==> (#[trigger] layer@[i]@).len() == 32,
        decreases layer@.len(),
    {
        let next = hash_level(&layer);
        assert(views(next@).len() == next@.len());
        assert(next@.len() == layer@.len() / 2);
        assert(reduce_layers(views(layer@)) == reduce_layers(hash_layer(views(layer@))));
        layer = next;
    }
    assert(views(layer@)[0] == layer@[0]@);
    let out = layer.swap_remove(0);
    out
}

} // verus!
