use vstd::prelude::*;

verus! {

/// Indicates the runtime shape of a value.
#[derive(Debug, Clone, Copy, PartialEq, Eq, Structural)]
pub enum Type {
    Null,
    Bool,
    Int,
    Float,
    Str,
    BoolArr,
    Bytes,
    IntArr,
    FloatArr,
    Arr,
    GenericMap,
}

/// The mathematical content of a value. A floating point number is held as
/// its IEEE-754 bit pattern. A map is the sequence of its entries in storage
/// order.
pub enum DyVal {
    Null,
    Bool(bool),
    Int(i64),
    Float(u64),
    Str(Seq<char>),
    BoolArr(Seq<bool>),
    Bytes(Seq<u8>),
    IntArr(Seq<i64>),
    FloatArr(Seq<u64>),
    Arr(Seq<DyVal>),
    GenericMap(Seq<(Seq<char>, DyVal)>),
}

/// The tag of a value's content.
pub open spec fn type_of(v: DyVal) -> Type {
    match v {
        DyVal::Null => Type::Null,
        DyVal::Bool(_) => Type::Bool,
        DyVal::Int(_) => Type::Int,
        DyVal::Float(_) => Type::Float,
        DyVal::Str(_) => Type::Str,
        DyVal::BoolArr(_) => Type::BoolArr,
        DyVal::Bytes(_) => Type::Bytes,
        DyVal::IntArr(_) => Type::IntArr,
        DyVal::FloatArr(_) => Type::FloatArr,
        DyVal::Arr(_) => Type::Arr,
        DyVal::GenericMap(_) => Type::GenericMap,
    }
}

/// Text that can be stored: it holds no terminator character.
pub open spec fn storable(s: Seq<char>) -> bool {
    !s.contains('\0')
}

/// The value stored under `k`: the first entry with that key.
pub open spec fn find_key(es: Seq<(Seq<char>, DyVal)>, k: Seq<char>) -> Option<DyVal>
    decreases es.len(),
{
    if es.len() == 0 {
        None
    } else if es[0].0 == k {
        Some(es[0].1)
    } else {
        find_key(es.drop_first(), k)
    }
}

/// The value that the last pair with key `k` carries.
pub open spec fn find_last(es: Seq<(Seq<char>, DyVal)>, k: Seq<char>) -> Option<DyVal>
    decreases es.len(),
{
    if es.len() == 0 {
        None
    } else if es.last().0 == k {
        Some(es.last().1)
    } else {
        find_last(es.drop_last(), k)
    }
}

/// Some entry has the key `k`.
pub open spec fn has_key(es: Seq<(Seq<char>, DyVal)>, k: Seq<char>) -> bool {
    exists|i: int| 0 <= i < es.len() && es[i].0 == k
}

/// No two entries share a key.
pub open spec fn distinct_keys(es: Seq<(Seq<char>, DyVal)>) -> bool {
    forall|i: int, j: int| 0 <= i < j < es.len() ==> es[i].0 != es[j].0
}

pub(crate) proof fn lemma_find_last_prepend(p: (Seq<char>, DyVal), s: Seq<(Seq<char>, DyVal)>, k: Seq<char>)
    ensures
        find_last(s, k) is Some ==> find_last(seq![p] + s, k) == find_last(s, k),
        find_last(s, k) is None ==> find_last(seq![p] + s, k) == (if p.0 == k {
            Some(p.1)
        } else {
            None
        }),
    decreases s.len(),
{
    let t = seq![p] + s;
    if s.len() > 0 {
        assert(t.drop_last() =~= seq![p] + s.drop_last());
        assert(t.last() == s.last());
        lemma_find_last_prepend(p, s.drop_last(), k);
    } else {
        assert(t.drop_last() =~= Seq::<(Seq<char>, DyVal)>::empty());
        assert(t.last() == p);
        assert(find_last(t.drop_last(), k) is None);
    }
}

pub(crate) proof fn lemma_find_key_push(es: Seq<(Seq<char>, DyVal)>, e: (Seq<char>, DyVal), k: Seq<char>)
    ensures
        find_key(es, k) is Some ==> find_key(es.push(e), k) == find_key(es, k),
        find_key(es, k) is None ==> find_key(es.push(e), k) == (if e.0 == k {
            Some(e.1)
        } else {
            None
        }),
    decreases es.len(),
{
    let t = es.push(e);
    if es.len() > 0 {
        assert(t.drop_first() =~= es.drop_first().push(e));
        assert(t[0] == es[0]);
        lemma_find_key_push(es.drop_first(), e, k);
    } else {
        assert(t.drop_first() =~= Seq::<(Seq<char>, DyVal)>::empty());
        assert(t[0] == e);
        assert(find_key(t.drop_first(), k) is None);
    }
}

pub(crate) proof fn lemma_find_key_none(es: Seq<(Seq<char>, DyVal)>, k: Seq<char>)
    ensures
        find_key(es, k) is None <==> forall|i: int| 0 <= i < es.len() ==> es[i].0 != k,
    decreases es.len(),
{
    if es.len() > 0 {
        lemma_find_key_none(es.drop_first(), k);
        if find_key(es, k) is None {
            assert forall|i: int| 0 <= i < es.len() implies es[i].0 != k by {
                if i > 0 {
                    assert(es[i] == es.drop_first()[i - 1]);
                }
            }
        }
    }
}

pub(crate) proof fn lemma_find_last_none(es: Seq<(Seq<char>, DyVal)>, k: Seq<char>)
    ensures
        find_last(es, k) is None <==> forall|i: int| 0 <= i < es.len() ==> es[i].0 != k,
    decreases es.len(),
{
    if es.len() > 0 {
        lemma_find_last_none(es.drop_last(), k);
        if find_last(es, k) is None {
            assert forall|i: int| 0 <= i < es.len() implies es[i].0 != k by {
                if i < es.len() - 1 {
                    assert(es[i] == es.drop_last()[i]);
                }
            }
        }
    }
}

pub(crate) proof fn lemma_find_key_distinct(es: Seq<(Seq<char>, DyVal)>, i: int)
    requires
        distinct_keys(es),
        0 <= i < es.len(),
    ensures
        find_key(es, es[i].0) == Some(es[i].1),
    decreases es.len(),
{
    if i > 0 {
        let t = es.drop_first();
        assert(t[i - 1] == es[i]);
        assert(es[0].0 != es[i].0);
        lemma_find_key_distinct(t, i - 1);
    }
}

} // verus!
