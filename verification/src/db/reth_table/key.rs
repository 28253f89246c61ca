//! Keys of the entity table: raw bytes, stored as they are.

use crate::db::reth_table::order::{
    bytes_before, bytes_before_exec, lemma_before_total, lemma_before_transitive,
    lemma_first_difference_decides, lemma_prefix_comes_first,
};
use std::cmp::Ordering;
use vstd::prelude::*;
use vstd::slice::slice_to_vec;
use vstd::std_specs::cmp::{PartialOrdSpec, PartialOrdSpecImpl};

verus! {

/// A key of the entity table. Keys are ordered as byte strings, which is
/// also the order in which the table keeps them.
#[derive(Debug, Clone, PartialEq, Eq, Ord)]
pub struct EntityKey(pub Vec<u8>);

impl View for EntityKey {
    type V = Seq<u8>;

    open spec fn view(&self) -> Seq<u8> {
        self.0@
    }
}

/// The bytes under which a key is stored: the key's own bytes.
pub open spec fn key_encoding(key: Seq<u8>) -> Seq<u8> {
    key
}

/// The key read back from stored bytes: the bytes themselves.
pub open spec fn key_decoding(bytes: Seq<u8>) -> Seq<u8> {
    bytes
}

impl EntityKey {
    /// The key's bytes, borrowed.
    pub fn as_ref(&self) -> (bytes: &[u8])
        ensures
            bytes@ == self@,
    {
        self.0.as_slice()
    }

    /// The key's bytes, by value.
    pub fn into_vec(self) -> (bytes: Vec<u8>)
        ensures
            bytes@ == self@,
    {
        self.0
    }

    /// The bytes under which the key is stored.
    pub fn encode(self) -> (encoded: Vec<u8>)
        ensures
            encoded@ == key_encoding(self@),
    {
        self.0
    }

    /// The key stored under `value`. Every byte string is a key, so this
    /// cannot fail.
    pub fn decode(value: &[u8]) -> (key: EntityKey)
        ensures
            key@ == key_decoding(value@),
    {
        EntityKey(slice_to_vec(value))
    }
}

/// The order of two keys with bytes `a` and `b`: the order of the bytes.
pub open spec fn key_order(a: Seq<u8>, b: Seq<u8>) -> Ordering {
    if bytes_before(a, b) {
        Ordering::Less
    } else if bytes_before(b, a) {
        Ordering::Greater
    } else {
        Ordering::Equal
    }
}

impl PartialOrd for EntityKey {
    fn partial_cmp(&self, other: &Self) -> (order: Option<Ordering>) {
        if bytes_before_exec(self.0.as_slice(), other.0.as_slice()) {
            Some(Ordering::Less)
        } else if bytes_before_exec(other.0.as_slice(), self.0.as_slice()) {
            Some(Ordering::Greater)
        } else {
            Some(Ordering::Equal)
        }
    }
}

impl PartialOrdSpecImpl for EntityKey {
    open spec fn obeys_partial_cmp_spec() -> bool {
        true
    }

    open spec fn partial_cmp_spec(&self, other: &Self) -> Option<Ordering> {
        Some(key_order(self@, other@))
    }
}

/// Decoding the stored form of a key gives the key back.
pub proof fn lemma_key_roundtrip(key: EntityKey)
    ensures
        key_decoding(key_encoding(key@)) == key@,
{
}

/// Keys are ordered as the bytes they are stored under, which is the order
/// in which the table sorts them; two keys are equal in this order exactly
/// when their stored bytes are equal.
pub proof fn lemma_key_order_is_stored_order(a: EntityKey, b: EntityKey)
    ensures
        PartialOrdSpec::partial_cmp_spec(&a, &b) == Some(key_order(key_encoding(a@), key_encoding(b@))),
        key_order(a@, b@) == Ordering::Equal <==> key_encoding(a@) == key_encoding(b@),
{
    lemma_before_total(a@, b@);
}

/// Of two keys, the one whose byte is numerically smaller at the first
/// position where they differ comes first; a key that is a proper prefix of
/// another comes before it; keys with the same bytes are equal.
pub proof fn lemma_key_order_bytewise(a: Seq<u8>, b: Seq<u8>, i: int)
    ensures
        0 <= i < a.len() && i < b.len() && a.subrange(0, i) == b.subrange(0, i) && a[i] < b[i]
            ==> key_order(a, b) == Ordering::Less && key_order(b, a) == Ordering::Greater,
        a.len() < b.len() && (forall|j: int| 0 <= j < a.len() ==> a[j] == b[j]) ==> key_order(
            a,
            b,
        ) == Ordering::Less,
        key_order(a, a) == Ordering::Equal,
{
    lemma_before_total(a, b);
    lemma_before_total(a, a);
    if 0 <= i < a.len() && i < b.len() && a.subrange(0, i) == b.subrange(0, i) && a[i] < b[i] {
        lemma_first_difference_decides(a, b, i);
        lemma_first_difference_decides(b, a, i);
    }
    lemma_prefix_comes_first(a, b);
}

/// The key order is a total order: it is antisymmetric and transitive.
pub proof fn lemma_key_order_total(a: Seq<u8>, b: Seq<u8>, c: Seq<u8>)
    ensures
        key_order(a, b) == Ordering::Less <==> key_order(b, a) == Ordering::Greater,
        key_order(a, b) == Ordering::Less && key_order(b, c) == Ordering::Less ==> key_order(
            a,
            c,
        ) == Ordering::Less,
{
    lemma_before_total(a, b);
    lemma_before_total(b, c);
    lemma_before_total(a, c);
    if bytes_before(a, b) && bytes_before(b, c) {
        lemma_before_transitive(a, b, c);
    }
}

} // verus!
