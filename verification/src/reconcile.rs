//! The model of the reconciliation engine: a three-pass matching between an
//! expected resource list and the two observed resource-key sequences.
//!
//! The pass order is a contract, not an implementation detail: the expected
//! pass first, then the sideB leftovers resolved against what remains of
//! sideA, then the sideA leftovers. A key's duplicate occurrences are
//! consumed in encounter order, one per match.

use vstd::prelude::*;
use crate::output_tester::{ExpectedResultsView, Provider};

verus! {

/// The key sequence a vector of owned key strings stands for.
pub open spec fn key_views(v: Seq<String>) -> Seq<Seq<char>> {
    v.map_values(|s: String| s@)
}

/// The view sequence of a vector of result records.
pub open spec fn view_expected_seq(v: Seq<crate::output_tester::ExpectedResults>) -> Seq<
    ExpectedResultsView,
> {
    v.map_values(|e: crate::output_tester::ExpectedResults| e@)
}

/// Holds of a key exactly when it equals `k`.
pub open spec fn is_key(k: Seq<char>) -> spec_fn(Seq<char>) -> bool {
    |x: Seq<char>| x == k
}

/// How often the key `k` occurs in the sequence.
pub open spec fn key_count(ks: Seq<Seq<char>>, k: Seq<char>) -> nat {
    ks.filter(is_key(k)).len()
}

/// The sequence with the first occurrence of `k` removed, or the sequence
/// unchanged if `k` does not occur: removal is first-equal-valued match, not
/// index-exact.
pub open spec fn spec_remove_key(ks: Seq<Seq<char>>, k: Seq<char>) -> Seq<Seq<char>> {
    match ks.index_of_first(k) {
        Some(i) => ks.remove(i),
        None => ks,
    }
}

/// One pass of matching removes exactly one occurrence of a present key —
/// never more, never fewer — and leaves every other key's count unchanged.
/// An absent key leaves the sequence untouched.
pub proof fn lemma_remove_exactly_one(ks: Seq<Seq<char>>, k: Seq<char>)
    ensures
        ks.contains(k) ==> key_count(spec_remove_key(ks, k), k) + 1 == key_count(ks, k),
        !ks.contains(k) ==> spec_remove_key(ks, k) == ks,
        forall|k2: Seq<char>|
            k2 != k ==> key_count(spec_remove_key(ks, k), k2) == key_count(ks, k2),
{
    reveal(Seq::<Seq<char>>::filter);
    ks.index_of_first_ensures(k);
    if ks.contains(k) {
        let i = ks.index_of_first(k)->0;
        assert(ks =~= ks.take(i) + seq![ks[i]] + ks.skip(i + 1));
        assert(ks.remove(i) =~= ks.take(i) + ks.skip(i + 1));
        assert forall|k2: Seq<char>| true implies ks.filter(is_key(k2)) == ks.take(i).filter(
            is_key(k2),
        ) + seq![ks[i]].filter(is_key(k2)) + ks.skip(i + 1).filter(is_key(k2)) by {
            Seq::filter_distributes_over_add(
                ks.take(i) + seq![ks[i]],
                ks.skip(i + 1),
                is_key(k2),
            );
            Seq::filter_distributes_over_add(ks.take(i), seq![ks[i]], is_key(k2));
            assert((ks.take(i) + seq![ks[i]]) + ks.skip(i + 1) =~= ks);
        }
        assert forall|k2: Seq<char>| true implies ks.remove(i).filter(is_key(k2)) == ks.take(
            i,
        ).filter(is_key(k2)) + ks.skip(i + 1).filter(is_key(k2)) by {
            Seq::filter_distributes_over_add(ks.take(i), ks.skip(i + 1), is_key(k2));
        }
        assert(seq![ks[i]].drop_last() =~= Seq::<Seq<char>>::empty());
        assert(seq![ks[i]].filter(is_key(k)) =~= seq![ks[i]]);
        assert forall|k2: Seq<char>| k2 != k implies seq![ks[i]].filter(is_key(k2))
            =~= Seq::<Seq<char>>::empty() by {
            assert(!is_key(k2)(ks[i]));
            assert(seq![ks[i]].drop_last() =~= Seq::<Seq<char>>::empty());
            assert(Seq::<Seq<char>>::empty().filter(is_key(k2)) == Seq::<Seq<char>>::empty());
        }
    }
}

/// One matched record of the expected pass: the caller's record with both
/// coverage bits filled in and `is_expected` set unconditionally.
pub open spec fn spec_expected_record(
    e: ExpectedResultsView,
    in_a: bool,
    in_b: bool,
) -> ExpectedResultsView {
    ExpectedResultsView {
        provider: Some(Provider { bicep: in_a, terraform: in_b }),
        is_expected: Some(true),
        ..e
    }
}

/// One observed-but-unexpected record for the key `k`.
pub open spec fn spec_unexpected_record(
    k: Seq<char>,
    bicep: bool,
    terraform: bool,
) -> ExpectedResultsView {
    ExpectedResultsView {
        resource_type: k,
        resource_name: None,
        provider: Some(Provider { bicep, terraform }),
        is_expected: Some(false),
    }
}

/// The expected pass: for each expected record in caller order, test its key
/// independently against both sides, set the coverage bits, and remove one
/// first-matching occurrence from each side where found. Returns the records
/// and both sides as the pass leaves them.
pub open spec fn spec_pass1(
    es: Seq<ExpectedResultsView>,
    a: Seq<Seq<char>>,
    b: Seq<Seq<char>>,
) -> (Seq<ExpectedResultsView>, Seq<Seq<char>>, Seq<Seq<char>>)
    decreases es.len(),
{
    if es.len() == 0 {
        (Seq::empty(), a, b)
    } else {
        let k = es[0].resource_type;
        let rec = spec_expected_record(es[0], a.contains(k), b.contains(k));
        let rest = spec_pass1(es.skip(1), spec_remove_key(a, k), spec_remove_key(b, k));
        (seq![rec] + rest.0, rest.1, rest.2)
    }
}

/// The sideB-leftover pass: every key still in sideB is reported once, in
/// order; where the already-mutated sideA still holds the key, both coverage
/// bits are set and the match leaves sideA. The pass consumes sideB.
pub open spec fn spec_pass2(b: Seq<Seq<char>>, a: Seq<Seq<char>>) -> (
    Seq<ExpectedResultsView>,
    Seq<Seq<char>>,
)
    decreases b.len(),
{
    if b.len() == 0 {
        (Seq::empty(), a)
    } else {
        let k = b[0];
        let rec = spec_unexpected_record(k, a.contains(k), true);
        let rest = spec_pass2(b.skip(1), spec_remove_key(a, k));
        (seq![rec] + rest.0, rest.1)
    }
}

/// The sideA-leftover pass: the symmetric treatment of what remains of
/// sideA, tested against what remains of sideB after the first two passes.
pub open spec fn spec_pass3(a: Seq<Seq<char>>, b: Seq<Seq<char>>) -> (
    Seq<ExpectedResultsView>,
    Seq<Seq<char>>,
)
    decreases a.len(),
{
    if a.len() == 0 {
        (Seq::empty(), b)
    } else {
        let k = a[0];
        let rec = spec_unexpected_record(k, true, b.contains(k));
        let rest = spec_pass3(a.skip(1), spec_remove_key(b, k));
        (seq![rec] + rest.0, rest.1)
    }
}

/// The full engine: the three passes in order, their records concatenated.
/// Pass 2 consumes sideB, so pass 3 resolves the sideA leftovers against an
/// emptied sideB; this asymmetry — sideB leftovers before sideA leftovers —
/// decides which duplicate occurrences are attributed to which pass.
pub open spec fn spec_reconcile(
    es: Seq<ExpectedResultsView>,
    a: Seq<Seq<char>>,
    b: Seq<Seq<char>>,
) -> Seq<ExpectedResultsView> {
    let p1 = spec_pass1(es, a, b);
    let p2 = spec_pass2(p1.2, p1.1);
    let p3 = spec_pass3(p2.1, Seq::empty());
    p1.0 + p2.0 + p3.0
}

/// The expected pass emits exactly one record per expected entry, in caller
/// order, each carrying the caller's key and `is_expected` set.
pub proof fn lemma_pass1_records(es: Seq<ExpectedResultsView>, a: Seq<Seq<char>>, b: Seq<
    Seq<char>,
>)
    ensures
        spec_pass1(es, a, b).0.len() == es.len(),
        forall|i: int|
            0 <= i < es.len() ==> (#[trigger] spec_pass1(es, a, b).0[i]).resource_type == es[
                i
            ].resource_type && spec_pass1(es, a, b).0[i].is_expected == Some(true),
    decreases es.len(),
{
    if es.len() > 0 {
        let k = es[0].resource_type;
        lemma_pass1_records(es.skip(1), spec_remove_key(a, k), spec_remove_key(b, k));
        let rest = spec_pass1(es.skip(1), spec_remove_key(a, k), spec_remove_key(b, k));
        assert forall|i: int| 0 <= i < es.len() implies (#[trigger] spec_pass1(
            es,
            a,
            b,
        ).0[i]).resource_type == es[i].resource_type && spec_pass1(es, a, b).0[i].is_expected
            == Some(true) by {
            if i > 0 {
                assert(spec_pass1(es, a, b).0[i] == rest.0[i - 1]);
                assert(es.skip(1)[i - 1] == es[i]);
            }
        }
    }
}

/// The sideB-leftover pass reports each leftover exactly once, in order:
/// its records' keys are exactly the leftover keys, every record is marked
/// not expected, and every record carries the terraform bit.
pub proof fn lemma_pass2_records(b: Seq<Seq<char>>, a: Seq<Seq<char>>)
    ensures
        spec_pass2(b, a).0.len() == b.len(),
        forall|i: int|
            0 <= i < b.len() ==> (#[trigger] spec_pass2(b, a).0[i]).resource_type == b[i]
                && spec_pass2(b, a).0[i].is_expected == Some(false) && spec_pass2(b, a).0[i].provider
                is Some && spec_pass2(b, a).0[i].provider->0.terraform,
    decreases b.len(),
{
    if b.len() > 0 {
        let k = b[0];
        lemma_pass2_records(b.skip(1), spec_remove_key(a, k));
        let rest = spec_pass2(b.skip(1), spec_remove_key(a, k));
        assert forall|i: int| 0 <= i < b.len() implies (#[trigger] spec_pass2(
            b,
            a,
        ).0[i]).resource_type == b[i] && spec_pass2(b, a).0[i].is_expected == Some(false)
            && spec_pass2(b, a).0[i].provider is Some && spec_pass2(
            b,
            a,
        ).0[i].provider->0.terraform by {
            if i > 0 {
                assert(spec_pass2(b, a).0[i] == rest.0[i - 1]);
                assert(b.skip(1)[i - 1] == b[i]);
            }
        }
    }
}

/// The sideA-leftover pass reports each leftover exactly once, in order,
/// marked not expected, with the bicep bit always set.
pub proof fn lemma_pass3_records(a: Seq<Seq<char>>, b: Seq<Seq<char>>)
    ensures
        spec_pass3(a, b).0.len() == a.len(),
        forall|i: int|
            0 <= i < a.len() ==> (#[trigger] spec_pass3(a, b).0[i]).resource_type == a[i]
                && spec_pass3(a, b).0[i].is_expected == Some(false) && spec_pass3(a, b).0[i].provider
                is Some && spec_pass3(a, b).0[i].provider->0.bicep,
    decreases a.len(),
{
    if a.len() > 0 {
        let k = a[0];
        lemma_pass3_records(a.skip(1), spec_remove_key(b, k));
        let rest = spec_pass3(a.skip(1), spec_remove_key(b, k));
        assert forall|i: int| 0 <= i < a.len() implies (#[trigger] spec_pass3(
            a,
            b,
        ).0[i]).resource_type == a[i] && spec_pass3(a, b).0[i].is_expected == Some(false)
            && spec_pass3(a, b).0[i].provider is Some && spec_pass3(
            a,
            b,
        ).0[i].provider->0.bicep by {
            if i > 0 {
                assert(spec_pass3(a, b).0[i] == rest.0[i - 1]);
                assert(a.skip(1)[i - 1] == a[i]);
            }
        }
    }
}

/// No physical resource is reported twice as unexpected from the same origin
/// side within one run: the keys of the records marked not expected are
/// exactly the sideB leftovers after the expected pass followed by the sideA
/// leftovers after the second pass — one record per leftover entry.
#[verifier::rlimit(60)]
pub proof fn lemma_unexpected_reported_once(
    es: Seq<ExpectedResultsView>,
    a: Seq<Seq<char>>,
    b: Seq<Seq<char>>,
)
    ensures
        spec_reconcile(es, a, b).filter(|r: ExpectedResultsView| r.is_expected == Some(false))
            .map_values(|r: ExpectedResultsView| r.resource_type) == spec_pass1(es, a, b).2
            + spec_pass2(spec_pass1(es, a, b).2, spec_pass1(es, a, b).1).1,
{
    let p1 = spec_pass1(es, a, b);
    let p2 = spec_pass2(p1.2, p1.1);
    let p3 = spec_pass3(p2.1, Seq::empty());
    let unexpected = |r: ExpectedResultsView| r.is_expected == Some(false);
    let key_of = |r: ExpectedResultsView| r.resource_type;
    lemma_pass1_records(es, a, b);
    lemma_pass2_records(p1.2, p1.1);
    lemma_pass3_records(p2.1, Seq::empty());
    Seq::filter_distributes_over_add(p1.0 + p2.0, p3.0, unexpected);
    Seq::filter_distributes_over_add(p1.0, p2.0, unexpected);
    assert((p1.0 + p2.0) + p3.0 =~= spec_reconcile(es, a, b));
    lemma_filter_none(p1.0, unexpected);
    lemma_filter_all(p2.0, unexpected);
    lemma_filter_all(p3.0, unexpected);
    assert(spec_reconcile(es, a, b).filter(unexpected) == (Seq::<
        ExpectedResultsView,
    >::empty() + p2.0) + p3.0);
    assert((Seq::<ExpectedResultsView>::empty() + p2.0) + p3.0 =~= p2.0 + p3.0);
    assert((p2.0 + p3.0).map_values(key_of) =~= p2.0.map_values(key_of) + p3.0.map_values(
        key_of,
    ));
    assert forall|i: int| 0 <= i < p2.0.len() implies p2.0.map_values(key_of)[i] == p1.2[i] by {
        assert(spec_pass2(p1.2, p1.1).0[i].resource_type == p1.2[i]);
    }
    assert(p2.0.map_values(key_of) =~= p1.2);
    assert forall|i: int| 0 <= i < p3.0.len() implies p3.0.map_values(key_of)[i] == p2.1[i] by {
        assert(spec_pass3(p2.1, Seq::empty()).0[i].resource_type == p2.1[i]);
    }
    assert(p3.0.map_values(key_of) =~= p2.1);
}

/// A filter whose predicate rejects every element yields the empty sequence.
proof fn lemma_filter_none(s: Seq<ExpectedResultsView>, pred: spec_fn(ExpectedResultsView) -> bool)
    requires
        forall|i: int| 0 <= i < s.len() ==> !pred(#[trigger] s[i]),
    ensures
        s.filter(pred) == Seq::<ExpectedResultsView>::empty(),
    decreases s.len(),
{
    reveal(Seq::<ExpectedResultsView>::filter);
    if s.len() > 0 {
        lemma_filter_none(s.drop_last(), pred);
        assert(s.last() == s[s.len() - 1]);
    }
}

/// A filter whose predicate accepts every element yields the sequence
/// itself.
proof fn lemma_filter_all(s: Seq<ExpectedResultsView>, pred: spec_fn(ExpectedResultsView) -> bool)
    requires
        forall|i: int| 0 <= i < s.len() ==> pred(#[trigger] s[i]),
    ensures
        s.filter(pred) == s,
    decreases s.len(),
{
    reveal(Seq::<ExpectedResultsView>::filter);
    if s.len() > 0 {
        lemma_filter_all(s.drop_last(), pred);
        assert(s.last() == s[s.len() - 1]);
        assert(s.drop_last().push(s.last()) =~= s);
    }
}

} // verus!
