use vstd::prelude::*;

use crate::model::{
    distinct_keys, find_key, find_last, has_key, lemma_find_key_distinct, lemma_find_key_none,
    lemma_find_last_none, type_of, DyVal, Type,
};
use crate::value::{owned_pairs_view, pairs_view, views_of, Owned};

verus! {

/// A primitive value reads back as what it was made from, and carries the
/// tag of its own kind, so that every other typed accessor yields nothing.
pub proof fn law_primitive_round_trip(b: bool, n: i64, f: u64, s: Seq<char>)
    ensures
        type_of(DyVal::Null) == Type::Null,
        type_of(DyVal::Bool(b)) == Type::Bool,
        type_of(DyVal::Int(n)) == Type::Int,
        type_of(DyVal::Float(f)) == Type::Float,
        type_of(DyVal::Str(s)) == Type::Str,
        forall|c: bool| DyVal::Bool(b) == DyVal::Bool(c) ==> c == b,
        forall|m: i64| DyVal::Int(n) == DyVal::Int(m) ==> m == n,
        forall|g: u64| DyVal::Float(f) == DyVal::Float(g) ==> g == f,
        forall|t: Seq<char>| DyVal::Str(s) == DyVal::Str(t) ==> t == s,
{
}

/// Decomposing an array that was made from `elems` hands back, in order,
/// elements equal to those of `elems`.
pub proof fn law_array_round_trip(elems: Seq<Owned>, parts: Seq<Owned>)
    requires
        DyVal::Arr(views_of(parts)) == DyVal::Arr(views_of(elems)),
    ensures
        parts.len() == elems.len(),
        forall|i: int| 0 <= i < parts.len() ==> (#[trigger] parts[i])@ == elems[i]@,
{
    assert(views_of(parts).len() == views_of(elems).len());
    assert forall|i: int| 0 <= i < parts.len() implies (#[trigger] parts[i])@ == elems[i]@ by {
        assert(views_of(parts)[i] == views_of(elems)[i]);
    }
}

/// Decomposing a map that was made from `pairs` hands back exactly the keys
/// of `pairs`, each once, with the value of the last pair under that key.
pub proof fn law_map_round_trip(pairs: Seq<(&str, Owned)>, parts: Seq<(String, Owned)>)
    requires
        distinct_keys(owned_pairs_view(parts)),
        forall|k: Seq<char>| #[trigger] find_key(owned_pairs_view(parts), k)
            == find_last(pairs_view(pairs), k),
    ensures
        forall|i: int, j: int| 0 <= i < j < parts.len() ==> parts[i].0@ != parts[j].0@,
        forall|k: Seq<char>| #[trigger] has_key(owned_pairs_view(parts), k)
            == has_key(pairs_view(pairs), k),
        forall|i: int| 0 <= i < parts.len() ==>
            Some((#[trigger] parts[i]).1@) == find_last(pairs_view(pairs), parts[i].0@),
{
    let es = owned_pairs_view(parts);
    let ps = pairs_view(pairs);
    assert forall|i: int, j: int| 0 <= i < j < parts.len() implies parts[i].0@ != parts[j].0@ by {
        assert(es[i].0 != es[j].0);
    }
    assert forall|k: Seq<char>| #[trigger] has_key(es, k) == has_key(ps, k) by {
        lemma_find_key_none(es, k);
        lemma_find_last_none(ps, k);
        assert(find_key(es, k) == find_last(ps, k));
    }
    assert forall|i: int| 0 <= i < parts.len() implies
        Some((#[trigger] parts[i]).1@) == find_last(pairs_view(pairs), parts[i].0@) by {
        lemma_find_key_distinct(es, i);
        assert(find_key(es, es[i].0) == find_last(ps, es[i].0));
    }
}

} // verus!
