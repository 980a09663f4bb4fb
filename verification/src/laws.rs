//! Laws of the search engine.
//!
//! Beyond the exact contract of the traversal — its result equals
//! `search_matches`, a pure function of the target set and the tree, which
//! already makes repeated runs agree element for element — three properties
//! deserve their own statements: growing the target set only ever adds
//! matches (the smaller result is a subsequence of the larger, relative
//! order kept), a node that matches still has its children searched, and an
//! empty target set yields an empty result.

use vstd::prelude::*;
use crate::ast::Node;
use crate::classify::node_identifier;
use crate::identifier::Identifier;
use crate::traverse::{match_pred, node_children_visits, search_matches, visit_node};

verus! {

/// Whether `a` can be obtained from `b` by deleting elements, keeping the
/// relative order of what remains.
pub open spec fn is_subsequence_of<A>(a: Seq<A>, b: Seq<A>) -> bool
    decreases b.len(), a.len(),
{
    if a.len() == 0 {
        true
    } else if b.len() == 0 {
        false
    } else if a.last() == b.last() {
        is_subsequence_of(a.drop_last(), b.drop_last())
    } else {
        is_subsequence_of(a, b.drop_last())
    }
}

/// A subsequence of `b` is still a subsequence after `b` grows by one
/// element at the end.
pub proof fn lemma_subsequence_push<A>(a: Seq<A>, b: Seq<A>, x: A)
    requires
        is_subsequence_of(a, b),
    ensures
        is_subsequence_of(a, b.push(x)),
    decreases b.len(), 1int,
{
    let b2 = b.push(x);
    assert(b2.drop_last() =~= b);
    if a.len() == 0 {
    } else if a.last() == x {
        lemma_subsequence_drop_last(a, b);
        assert(is_subsequence_of(a.drop_last(), b));
    } else {
        assert(is_subsequence_of(a, b2.drop_last()));
    }
}

/// Deleting the final element of `a` keeps it a subsequence of `b`.
pub proof fn lemma_subsequence_drop_last<A>(a: Seq<A>, b: Seq<A>)
    requires
        a.len() > 0,
        is_subsequence_of(a, b),
    ensures
        is_subsequence_of(a.drop_last(), b),
    decreases b.len(), 0int,
{
    if b.len() == 0 {
    } else if a.last() == b.last() {
        assert(is_subsequence_of(a.drop_last(), b.drop_last()));
        lemma_subsequence_push(a.drop_last(), b.drop_last(), b.last());
        assert(b.drop_last().push(b.last()) =~= b);
    } else {
        lemma_subsequence_drop_last(a, b.drop_last());
        lemma_subsequence_push(a.drop_last(), b.drop_last(), b.last());
        assert(b.drop_last().push(b.last()) =~= b);
    }
}

/// Filtering by a weaker predicate keeps every element the stronger one
/// kept: the stronger filter's result is a subsequence of the weaker's.
pub proof fn lemma_filter_monotone<A>(s: Seq<A>, p: spec_fn(A) -> bool, q: spec_fn(A) -> bool)
    requires
        forall|x: A| #[trigger] p(x) ==> q(x),
    ensures
        is_subsequence_of(s.filter(p), s.filter(q)),
    decreases s.len(),
{
    reveal(Seq::filter);
    if s.len() == 0 {
        assert(is_subsequence_of(s.filter(p), s.filter(q)));
    } else {
        let x = s.last();
        let rest = s.drop_last();
        lemma_filter_monotone(rest, p, q);
        if p(x) {
            assert(s.filter(p) == rest.filter(p).push(x));
            assert(s.filter(q) == rest.filter(q).push(x));
            assert(s.filter(p).drop_last() =~= rest.filter(p));
            assert(s.filter(q).drop_last() =~= rest.filter(q));
        } else if q(x) {
            assert(s.filter(p) == rest.filter(p));
            assert(s.filter(q) == rest.filter(q).push(x));
            lemma_subsequence_push(rest.filter(p), rest.filter(q), x);
        } else {
            assert(s.filter(p) == rest.filter(p));
            assert(s.filter(q) == rest.filter(q));
        }
    }
}

/// Monotonicity over target sets: if one target set is contained in
/// another, the search for the smaller set returns a subsequence — in the
/// same relative order — of the search for the larger set, on any tree.
pub proof fn lemma_search_monotonic(targets1: Set<Identifier>, targets2: Set<Identifier>, node: Node)
    requires
        targets1.subset_of(targets2),
    ensures
        is_subsequence_of(search_matches(targets1, node), search_matches(targets2, node)),
{
    let p = match_pred(targets1);
    let q = match_pred(targets2);
    assert forall|n: Node| #[trigger] p(n) implies q(n) by {
        assert(targets1.contains(node_identifier(n)));
    }
    lemma_filter_monotone(visit_node(node), p, q);
}

/// A matching node does not stop recursion: a search result always splits
/// into the root — kept exactly when its kind is targeted — followed by the
/// search of the root's children, which does not depend on whether the root
/// matched.
pub proof fn lemma_self_match_does_not_stop_recursion(targets: Set<Identifier>, node: Node)
    ensures
        search_matches(targets, node) == (if targets.contains(node_identifier(node)) {
            seq![node]
        } else {
            Seq::<Node>::empty()
        }) + node_children_visits(node).filter(match_pred(targets)),
{
    broadcast use vstd::seq_lib::group_seq_lib_default;

    let pred = match_pred(targets);
    crate::traverse::lemma_filter_singleton(node, pred);
    match node {
        Node::Expression(e) => {
            assert(visit_node(node) == seq![node] + node_children_visits(node));
        },
        Node::Statement(s) => {
            assert(visit_node(node) == seq![node] + node_children_visits(node));
        },
        Node::ContractPart(p) => {
            assert(visit_node(node) == seq![node] + node_children_visits(node));
        },
        Node::SourceUnitPart(p) => {
            assert(visit_node(node) == seq![node] + node_children_visits(node));
        },
        Node::SourceUnit(u) => {
            assert(visit_node(node) == seq![node] + node_children_visits(node));
        },
    }
    assert(search_matches(targets, node) =~= (if targets.contains(node_identifier(node)) {
        seq![node]
    } else {
        Seq::<Node>::empty()
    }) + node_children_visits(node).filter(pred));
}

/// An empty target set yields an empty result, for any tree.
pub proof fn lemma_empty_targets_empty_result(node: Node)
    ensures
        search_matches(Set::<Identifier>::empty(), node) == Seq::<Node>::empty(),
{
    let pred = match_pred(Set::<Identifier>::empty());
    assert forall|n: Node| !(#[trigger] pred(n)) by {
        assert(!Set::<Identifier>::empty().contains(node_identifier(n)));
    }
    visit_node(node).lemma_all_neg_filter_empty(pred);
    assert(search_matches(Set::<Identifier>::empty(), node) =~= Seq::<Node>::empty());
}

} // verus!
