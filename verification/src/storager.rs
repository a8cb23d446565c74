//! The deterministic storage-key codec: the addressing root of a storage
//! item, single- and double-parameter map keys, and the incremental builder.
//!
//! Every derivation is a pure function of the namespace, the item and the
//! ordered parameter list; the codec never truncates, pads or re-orders
//! caller-supplied bytes.

use vstd::prelude::*;
use vstd::assert_seqs_equal;
use crate::bytes::{push_all, slice_to_vec};
use crate::hashing::{
    blake2_128, blake2_128_concat, blake2_128_of, blake2_256, blake2_256_of, hex_chars,
    hexify_prefixed, twox128, twox128_of, twox256, twox256_of, twox64_concat, twox64_of,
};

verus! {

/// How a storage item's keys are laid out: a plain value, a map keyed by one
/// hashed parameter, or a map keyed by two.
#[derive(Clone, Copy, Debug)]
pub enum StorageType {
    Plain,
    SingleMap(StorageHasher),
    DoubleMap(StorageHasher, StorageHasher),
}

/// A hasher family used for deriving storage addresses. The `Concat`
/// variants keep the original bytes appended after the digest; `Identity`
/// uses the bytes unchanged.
#[derive(Clone, Copy, Debug, PartialEq, Eq, Structural)]
pub enum StorageHasher {
    Blake2_128,
    Blake2_256,
    Blake2_128Concat,
    Twox128,
    Twox256,
    Twox64Concat,
    Identity,
}

/// What each hasher family turns a parameter's bytes into.
pub open spec fn hashed_bytes(h: StorageHasher, data: Seq<u8>) -> Seq<u8> {
    match h {
        StorageHasher::Blake2_128 => blake2_128_of(data),
        StorageHasher::Blake2_256 => blake2_256_of(data),
        StorageHasher::Blake2_128Concat => blake2_128_of(data) + data,
        StorageHasher::Twox128 => twox128_of(data),
        StorageHasher::Twox256 => twox256_of(data),
        StorageHasher::Twox64Concat => twox64_of(data) + data,
        StorageHasher::Identity => data,
    }
}

impl StorageHasher {
    /// Hash one parameter's bytes as this family prescribes.
    ///
    /// The concatenating families keep the data itself: a 16-byte digest
    /// prefix for `Blake2_128Concat`, an 8-byte one for `Twox64Concat`, and
    /// `Identity` returns the data unchanged.
    pub fn hash(&self, data: &[u8]) -> (r: StorageKey)
        ensures
            r@ == hashed_bytes(*self, data@),
            *self is Blake2_128 ==> r@.len() == 16,
            *self is Blake2_256 ==> r@.len() == 32,
            *self is Twox128 ==> r@.len() == 16,
            *self is Twox256 ==> r@.len() == 32,
            *self is Blake2_128Concat ==> r@.len() == 16 + data@.len()
                && r@.subrange(16, r@.len() as int) == data@,
            *self is Twox64Concat ==> r@.len() == 8 + data@.len()
                && r@.subrange(8, r@.len() as int) == data@,
            *self is Identity ==> r@ == data@,
    {
        let bytes = match self {
            StorageHasher::Blake2_128 => blake2_128(data),
            StorageHasher::Blake2_256 => blake2_256(data),
            StorageHasher::Blake2_128Concat => {
                let r = blake2_128_concat(data);
                proof {
                    assert_seqs_equal!(r@.subrange(16, r@.len() as int), data@);
                }
                r
            },
            StorageHasher::Twox128 => twox128(data),
            StorageHasher::Twox256 => twox256(data),
            StorageHasher::Twox64Concat => {
                let r = twox64_concat(data);
                proof {
                    assert_seqs_equal!(r@.subrange(8, r@.len() as int), data@);
                }
                r
            },
            StorageHasher::Identity => slice_to_vec(data),
        };
        StorageKey(bytes)
    }
}

/// An owned byte sequence representing a fully derived on-chain address.
#[derive(Clone, Debug)]
pub struct StorageKey(pub Vec<u8>);

impl View for StorageKey {
    type V = Seq<u8>;

    open spec fn view(&self) -> Seq<u8> {
        self.0@
    }
}

impl StorageKey {
    /// An empty storage key.
    pub fn new() -> (r: Self)
        ensures
            r@ == Seq::<u8>::empty(),
    {
        StorageKey(Vec::new())
    }

    /// Start an incremental derivation for one storage item.
    pub fn builder(pallet: &[u8], storage: &[u8]) -> (r: StorageKeyBuilder)
        ensures
            r.pallet@ == pallet@,
            r.storage@ == storage@,
            r.params@.len() == 0,
    {
        StorageKeyBuilder::new(pallet, storage)
    }

    /// The "0x"-prefixed lowercase hex rendering of the key.
    pub fn to_hex_string(&self) -> (r: String)
        ensures
            r@ == seq!['0', 'x'] + hex_chars(self@),
    {
        hexify_prefixed(self.0.as_slice())
    }
}

/// The addressing root of every storage item under a namespace: the 16-byte
/// XX digest of the namespace followed by the 16-byte XX digest of the item.
pub open spec fn base_key_bytes(prefix: Seq<u8>, item: Seq<u8>) -> Seq<u8> {
    twox128_of(prefix) + twox128_of(item)
}

/// Derive the root key of a storage item, as raw bytes.
///
/// The result is exactly 32 bytes: the first 16 are the XX digest of the
/// namespace, the last 16 the XX digest of the item, whatever the input
/// lengths.
pub fn storage_value_key(prefix: &[u8], item: &[u8]) -> (r: Vec<u8>)
    ensures
        r@ == base_key_bytes(prefix@, item@),
        r@.len() == 32,
        r@.subrange(0, 16) == twox128_of(prefix@),
        r@.subrange(16, 32) == twox128_of(item@),
{
    let mut r = twox128(prefix);
    let h2 = twox128(item);
    push_all(&mut r, h2.as_slice());
    proof {
        assert_seqs_equal!(r@.subrange(0, 16), twox128_of(prefix@));
        assert_seqs_equal!(r@.subrange(16, 32), twox128_of(item@));
    }
    r
}

/// Derive the root key of a storage item, as a [`StorageKey`].
pub fn storage_key(prefix: &[u8], item: &[u8]) -> (r: StorageKey)
    ensures
        r@ == base_key_bytes(prefix@, item@),
        r@.len() == 32,
{
    StorageKey(storage_value_key(prefix, item))
}

/// Derive the key of one entry of a map storage item: the root key followed
/// by the hashed parameter.
pub fn storage_map_key(prefix: &[u8], item: &[u8], key: (StorageHasher, &[u8])) -> (r: StorageKey)
    ensures
        r@ == base_key_bytes(prefix@, item@) + hashed_bytes(key.0, key.1@),
{
    let mut bytes = storage_value_key(prefix, item);
    let hashed = key.0.hash(key.1);
    push_all(&mut bytes, hashed.0.as_slice());
    StorageKey(bytes)
}

/// Derive the key of one entry of a double-map storage item: the root key
/// followed by the two hashed parameters, in caller order.
pub fn storage_double_map_key(
    prefix: &[u8],
    item: &[u8],
    key1: (StorageHasher, &[u8]),
    key2: (StorageHasher, &[u8]),
) -> (r: StorageKey)
    ensures
        r@ == base_key_bytes(prefix@, item@) + hashed_bytes(key1.0, key1.1@)
            + hashed_bytes(key2.0, key2.1@),
{
    let mut bytes = storage_value_key(prefix, item);
    let hashed1 = key1.0.hash(key1.1);
    push_all(&mut bytes, hashed1.0.as_slice());
    let hashed2 = key2.0.hash(key2.1);
    push_all(&mut bytes, hashed2.0.as_slice());
    StorageKey(bytes)
}

/// The ordered parameter list of a builder, with each parameter's bytes
/// taken as a sequence.
pub open spec fn params_view(ps: Seq<(StorageHasher, Vec<u8>)>) -> Seq<(StorageHasher, Seq<u8>)> {
    ps.map_values(|p: (StorageHasher, Vec<u8>)| (p.0, p.1@))
}

/// The bytes the ordered parameter list contributes to a derived key: each
/// parameter hashed by its own family, appended in insertion order.
pub open spec fn params_bytes(ps: Seq<(StorageHasher, Seq<u8>)>) -> Seq<u8>
    decreases ps.len(),
{
    if ps.len() == 0 {
        Seq::empty()
    } else {
        params_bytes(ps.drop_last()) + hashed_bytes(ps.last().0, ps.last().1)
    }
}

/// The key a builder derives: the root key of its namespace and item,
/// followed by the hash of each appended parameter, in insertion order.
pub open spec fn built_key_bytes(b: StorageKeyBuilder) -> Seq<u8> {
    base_key_bytes(b.pallet@, b.storage@) + params_bytes(params_view(b.params@))
}

/// A mutable accumulator for a storage-key derivation: a namespace, an item
/// name, and an ordered list of hashed parameters.
#[derive(Clone, Debug)]
pub struct StorageKeyBuilder {
    pub pallet: Vec<u8>,
    pub storage: Vec<u8>,
    pub params: Vec<(StorageHasher, Vec<u8>)>,
}

impl StorageKeyBuilder {
    /// A builder with no parameters yet.
    pub fn new(pallet: &[u8], storage: &[u8]) -> (r: Self)
        ensures
            r.pallet@ == pallet@,
            r.storage@ == storage@,
            r.params@.len() == 0,
    {
        StorageKeyBuilder {
            pallet: slice_to_vec(pallet),
            storage: slice_to_vec(storage),
            params: Vec::new(),
        }
    }

    /// Append one already-encoded parameter; insertion order is preserved
    /// and significant.
    pub fn param(self, hasher: StorageHasher, value: &[u8]) -> (r: Self)
        ensures
            r.pallet@ == self.pallet@,
            r.storage@ == self.storage@,
            params_view(r.params@) == params_view(self.params@).push((hasher, value@)),
    {
        let mut params = self.params;
        let ghost before = params@;
        params.push((hasher, slice_to_vec(value)));
        proof {
            assert_seqs_equal!(params_view(params@), params_view(before).push((hasher, value@)));
        }
        StorageKeyBuilder { pallet: self.pallet, storage: self.storage, params }
    }

    /// Fold the root key with each appended parameter's hash, in insertion
    /// order; with no parameters the result is exactly the root key.
    pub fn build(&self) -> (r: StorageKey)
        ensures
            r@ == built_key_bytes(*self),
            self.params@.len() == 0 ==> r@ == base_key_bytes(self.pallet@, self.storage@),
    {
        let mut bytes = storage_value_key(self.pallet.as_slice(), self.storage.as_slice());
        let ghost pv = params_view(self.params@);
        let mut i: usize = 0;
        while i < self.params.len()
            invariant
                i <= self.params.len(),
                pv == params_view(self.params@),
                pv.len() == self.params@.len(),
                bytes@ == base_key_bytes(self.pallet@, self.storage@)
                    + params_bytes(pv.subrange(0, i as int)),
            decreases self.params.len() - i,
        {
            let hashed = self.params[i].0.hash(self.params[i].1.as_slice());
            push_all(&mut bytes, hashed.0.as_slice());
            proof {
                let pre = pv.subrange(0, i as int);
                let post = pv.subrange(0, i + 1 as int);
                assert_seqs_equal!(post.drop_last(), pre);
                assert(post.last() == (self.params@[i as int].0, self.params@[i as int].1@));
                assert_seqs_equal!(
                    bytes@,
                    base_key_bytes(self.pallet@, self.storage@) + params_bytes(post)
                );
            }
            i = i + 1;
        }
        proof {
            assert_seqs_equal!(pv.subrange(0, pv.len() as int), pv);
            if self.params@.len() == 0 {
                assert_seqs_equal!(bytes@, base_key_bytes(self.pallet@, self.storage@));
            }
        }
        StorageKey(bytes)
    }
}

} // verus!
