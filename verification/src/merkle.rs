//! The root of the Merkle tree that a reply commits to, recomputed from one
//! leaf and the sibling hashes on its way up. The protocol version selects
//! the hash: SHA-512 for the classic protocol, where `roughenough` walks the
//! path, and SHA-512/256 for the RFC protocol, where the path is walked here
//! over the digest of `ring`.

use vstd::prelude::*;
use vstd::slice::slice_subrange;

verus! {

/// The version of the protocol that an exchange follows.
#[derive(Debug, Clone, Copy, PartialEq, Eq, Structural)]
pub enum Version {
    Classic,
    Rfc,
}

impl Version {
    /// The length in bytes of a hash of the tree.
    pub open spec fn hash_bytes(self) -> nat {
        match self {
            Version::Classic => 64,
            Version::Rfc => 32,
        }
    }

    /// The length in bytes of a hash of the tree.
    pub fn hash_length(self) -> (n: usize)
        ensures
            n == self.hash_bytes(),
    {
        match self {
            Version::Classic => 64,
            Version::Rfc => 32,
        }
    }
}

/// What `roughenough::merkle::root_from_paths` computes: the root of the
/// SHA-512 tree above the leaf `leaf` at position `index`, with `paths` the
/// sibling hashes from the bottom up.
pub uninterp spec fn sha512_root(index: nat, leaf: Seq<u8>, paths: Seq<u8>) -> Seq<u8>;

/// The SHA-512/256 digest of `data`, as `ring::digest::digest` computes it.
pub uninterp spec fn sha512_256(data: Seq<u8>) -> Seq<u8>;

/// Calls `roughenough::merkle::root_from_paths`, which panics unless the
/// length of `paths` is a multiple of 64. Trusted: the outcome is
/// `sha512_root` of the arguments.
#[verifier::external_body]
fn sha512_root_from_paths(index: usize, leaf: &[u8], paths: &[u8]) -> (root: Vec<u8>)
    requires
        paths@.len() % 64 == 0,
    ensures
        root@ == sha512_root(index as nat, leaf@, paths@),
{
    roughenough::merkle::root_from_paths(index, leaf, paths)
}

/// Calls `ring::digest::digest` with `ring::digest::SHA512_256`. Trusted: the
/// outcome is `sha512_256` of the data.
#[verifier::external_body]
fn sha512_256_digest(data: &[u8]) -> (digest: Vec<u8>)
    ensures
        digest@ == sha512_256(data@),
{
    ring::digest::digest(&ring::digest::SHA512_256, data).as_ref().to_vec()
}

/// The hash of a leaf: the digest of a zero byte and the leaf.
pub open spec fn leaf_hash(leaf: Seq<u8>) -> Seq<u8> {
    sha512_256(seq![0u8] + leaf)
}

/// The hash of an inner node: the digest of a one byte and the hashes of its
/// two children, left before right.
pub open spec fn node_hash(left: Seq<u8>, right: Seq<u8>) -> Seq<u8> {
    sha512_256(seq![1u8] + left + right)
}

/// The root above `node`, which stands at position `index` of its level, with
/// `paths` the sibling hashes from there up, 32 bytes each. A node at an even
/// position is a left child.
pub open spec fn climb(index: nat, node: Seq<u8>, paths: Seq<u8>) -> Seq<u8>
    decreases paths.len(),
{
    if paths.len() < 32 {
        node
    } else {
        let sibling = paths.take(32);
        let parent = if index % 2 == 0 {
            node_hash(node, sibling)
        } else {
            node_hash(sibling, node)
        };
        climb(index / 2, parent, paths.skip(32))
    }
}

/// The root of the tree of `version` above the leaf `leaf` at position
/// `index`.
pub open spec fn tree_root(version: Version, index: nat, leaf: Seq<u8>, paths: Seq<u8>) -> Seq<u8> {
    match version {
        Version::Classic => sha512_root(index, leaf, paths),
        Version::Rfc => climb(index, leaf_hash(leaf), paths),
    }
}

/// Hashes an inner node from its two children.
fn hash_node(left: &[u8], right: &[u8]) -> (hash: Vec<u8>)
    ensures
        hash@ == node_hash(left@, right@),
{
    let mut buf: Vec<u8> = Vec::new();
    buf.push(1u8);
    buf.extend_from_slice(left);
    buf.extend_from_slice(right);
    assert(buf@ =~= seq![1u8] + left@ + right@);
    sha512_256_digest(buf.as_slice())
}

/// Walks the SHA-512/256 tree from a leaf to the root.
fn sha512_256_root_from_paths(index: u32, leaf: &[u8], paths: &[u8]) -> (root: Vec<u8>)
    requires
        paths@.len() % 32 == 0,
    ensures
        root@ == climb(index as nat, leaf_hash(leaf@), paths@),
{
    let mut buf: Vec<u8> = Vec::new();
    buf.push(0u8);
    buf.extend_from_slice(leaf);
    assert(buf@ =~= seq![0u8] + leaf@);
    let mut node = sha512_256_digest(buf.as_slice());
    let mut position: u32 = index;
    let mut at: usize = 0;
    assert(paths@.skip(0) =~= paths@);
    while at < paths.len()
        invariant
            at <= paths@.len(),
            at % 32 == 0,
            paths@.len() % 32 == 0,
            climb(index as nat, leaf_hash(leaf@), paths@) == climb(
                position as nat,
                node@,
                paths@.skip(at as int),
            ),
        decreases paths@.len() - at,
    {
        let sibling = slice_subrange(paths, at, at + 32);
        proof {
            assert(paths@.skip(at as int).take(32) =~= sibling@);
            assert(paths@.skip(at as int).skip(32) =~= paths@.skip(at + 32));
        }
        node = if position % 2 == 0 {
            hash_node(node.as_slice(), sibling)
        } else {
            hash_node(sibling, node.as_slice())
        };
        position = position / 2;
        at = at + 32;
    }
    node
}

/// Recomputes the root of the tree of `version` from the leaf `leaf` at
/// position `index` and the sibling hashes `paths`. There is no root, and
/// `None` is returned, exactly where `paths` is not made of whole hashes.
pub fn root_from_paths(version: Version, index: u32, leaf: &[u8], paths: &[u8]) -> (r: Option<
    Vec<u8>,
>)
    ensures
        match r {
            Some(root) => paths@.len() % version.hash_bytes() == 0 && root@ == tree_root(
                version,
                index as nat,
                leaf@,
                paths@,
            ),
            None => paths@.len() % version.hash_bytes() != 0,
        },
{
    if paths.len() % version.hash_length() != 0 {
        return None;
    }
    match version {
        Version::Classic => Some(sha512_root_from_paths(index as usize, leaf, paths)),
        Version::Rfc => Some(sha512_256_root_from_paths(index, leaf, paths)),
    }
}

} // verus!
