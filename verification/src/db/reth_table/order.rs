//! The order of byte strings by which the entity table sorts its keys:
//! lexicographic, byte by byte, a proper prefix coming first.

use vstd::prelude::*;

verus! {

/// Whether the byte string `a` comes before `b`: at the first position
/// where they differ the byte of `a` is smaller, or `a` is a proper prefix
/// of `b`.
pub open spec fn bytes_before(a: Seq<u8>, b: Seq<u8>) -> bool
    decreases a.len(),
{
    if b.len() == 0 {
        false
    } else if a.len() == 0 {
        true
    } else if a[0] != b[0] {
        a[0] < b[0]
    } else {
        bytes_before(a.drop_first(), b.drop_first())
    }
}

/// Comparing two byte strings from position `i` on, once they agree
/// before `i`, decides the whole comparison.
proof fn lemma_before_from(a: Seq<u8>, b: Seq<u8>, i: int)
    requires
        0 <= i <= a.len(),
        i <= b.len(),
        a.subrange(0, i) == b.subrange(0, i),
    ensures
        bytes_before(a, b) == bytes_before(a.subrange(i, a.len() as int), b.subrange(i, b.len() as int)),
    decreases i,
{
    if i > 0 {
        assert(a[0] == a.subrange(0, i)[0]);
        assert(b[0] == b.subrange(0, i)[0]);
        let a1 = a.drop_first();
        let b1 = b.drop_first();
        assert(a1.subrange(0, i - 1) =~= a.subrange(0, i).drop_first());
        assert(b1.subrange(0, i - 1) =~= b.subrange(0, i).drop_first());
        lemma_before_from(a1, b1, i - 1);
        assert(a1.subrange(i - 1, a1.len() as int) =~= a.subrange(i, a.len() as int));
        assert(b1.subrange(i - 1, b1.len() as int) =~= b.subrange(i, b.len() as int));
    } else {
        assert(a.subrange(0, a.len() as int) =~= a);
        assert(b.subrange(0, b.len() as int) =~= b);
    }
}

/// Whether the byte string `a` comes before `b`.
pub fn bytes_before_exec(a: &[u8], b: &[u8]) -> (before: bool)
    ensures
        before == bytes_before(a@, b@),
        forall|i: int|
            0 <= i < a@.len() && i < b@.len() && a@.subrange(0, i) == b@.subrange(0, i) ==> (
            #[trigger] a@[i] < b@[i] ==> before) && (a@[i] > b@[i] ==> !before),
        a@.len() < b@.len() && (forall|j: int| 0 <= j < a@.len() ==> a@[j] == b@[j]) ==> before,
        b@.len() <= a@.len() && (forall|j: int| 0 <= j < b@.len() ==> a@[j] == b@[j]) ==> !before,
{
    proof {
        assert forall|i: int|
            0 <= i < a@.len() && i < b@.len() && a@.subrange(0, i) == b@.subrange(0, i) implies (
            #[trigger] a@[i] < b@[i] ==> bytes_before(a@, b@)) && (a@[i] > b@[i] ==> !bytes_before(
            a@,
            b@,
        )) by {
            lemma_first_difference_decides(a@, b@, i);
        }
        lemma_prefix_comes_first(a@, b@);
    }
    let mut i: usize = 0;
    while i < a.len() && i < b.len() && a[i] == b[i]
        invariant
            i <= a@.len(),
            i <= b@.len(),
            a@.subrange(0, i as int) == b@.subrange(0, i as int),
        decreases a@.len() - i,
    {
        assert(a@.subrange(0, i + 1) =~= a@.subrange(0, i as int).push(a@[i as int]));
        assert(b@.subrange(0, i + 1) =~= b@.subrange(0, i as int).push(b@[i as int]));
        i = i + 1;
    }
    proof {
        lemma_before_from(a@, b@, i as int);
        let ra = a@.subrange(i as int, a@.len() as int);
        let rb = b@.subrange(i as int, b@.len() as int);
        if i < a@.len() && i < b@.len() {
            assert(ra[0] == a@[i as int]);
            assert(rb[0] == b@[i as int]);
        }
    }
    if i < b.len() {
        if i < a.len() {
            a[i] < b[i]
        } else {
            true
        }
    } else {
        false
    }
}

/// At the first position where two byte strings differ, the one whose
/// byte there is numerically smaller comes first.
pub proof fn lemma_first_difference_decides(a: Seq<u8>, b: Seq<u8>, i: int)
    requires
        0 <= i < a.len(),
        i < b.len(),
        a.subrange(0, i) == b.subrange(0, i),
    ensures
        a[i] < b[i] ==> bytes_before(a, b),
        a[i] > b[i] ==> !bytes_before(a, b),
{
    lemma_before_from(a, b, i);
    let ra = a.subrange(i, a.len() as int);
    let rb = b.subrange(i, b.len() as int);
    assert(ra[0] == a[i]);
    assert(rb[0] == b[i]);
}

/// A proper prefix comes before the strings it begins, and no string comes
/// before one of its own prefixes.
pub proof fn lemma_prefix_comes_first(a: Seq<u8>, b: Seq<u8>)
    ensures
        a.len() < b.len() && (forall|j: int| 0 <= j < a.len() ==> a[j] == b[j]) ==> bytes_before(
            a,
            b,
        ),
        b.len() <= a.len() && (forall|j: int| 0 <= j < b.len() ==> a[j] == b[j]) ==> !bytes_before(
            a,
            b,
        ),
{
    if a.len() < b.len() && (forall|j: int| 0 <= j < a.len() ==> a[j] == b[j]) {
        assert(a.subrange(0, a.len() as int) =~= b.subrange(0, a.len() as int));
        lemma_before_from(a, b, a.len() as int);
        assert(a.subrange(a.len() as int, a.len() as int).len() == 0);
        assert(b.subrange(a.len() as int, b.len() as int).len() > 0);
    }
    if b.len() <= a.len() && (forall|j: int| 0 <= j < b.len() ==> a[j] == b[j]) {
        assert(a.subrange(0, b.len() as int) =~= b.subrange(0, b.len() as int));
        lemma_before_from(a, b, b.len() as int);
        assert(b.subrange(b.len() as int, b.len() as int).len() == 0);
    }
}

/// No byte string comes before itself.
pub proof fn lemma_before_irreflexive(a: Seq<u8>)
    ensures
        !bytes_before(a, a),
    decreases a.len(),
{
    if a.len() > 0 {
        lemma_before_irreflexive(a.drop_first());
    }
}

/// Of two different byte strings exactly one comes before the other.
pub proof fn lemma_before_total(a: Seq<u8>, b: Seq<u8>)
    ensures
        a != b ==> (bytes_before(a, b) <==> !bytes_before(b, a)),
        a == b ==> !bytes_before(a, b) && !bytes_before(b, a),
    decreases a.len(),
{
    if a == b {
        lemma_before_irreflexive(a);
    } else if a.len() == 0 && b.len() == 0 {
        assert(a =~= b);
    } else if a.len() > 0 && b.len() > 0 && a[0] == b[0] {
        lemma_before_total(a.drop_first(), b.drop_first());
        if a.drop_first() == b.drop_first() {
            assert(a =~= seq![a[0]] + a.drop_first());
            assert(b =~= seq![b[0]] + b.drop_first());
        }
    }
}

/// The order is transitive.
pub proof fn lemma_before_transitive(a: Seq<u8>, b: Seq<u8>, c: Seq<u8>)
    requires
        bytes_before(a, b),
        bytes_before(b, c),
    ensures
        bytes_before(a, c),
    decreases a.len(),
{
    if a.len() > 0 && a[0] == b[0] && b[0] == c[0] {
        lemma_before_transitive(a.drop_first(), b.drop_first(), c.drop_first());
    }
}

} // verus!
