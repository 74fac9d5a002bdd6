use vstd::prelude::*;

use crate::model::{
    distinct_keys, find_key, find_last, lemma_find_key_none, lemma_find_key_push,
    lemma_find_last_prepend, storable, type_of, DyVal, Type,
};

verus! {

broadcast use vstd::std_specs::vec::group_vec_axioms;

/// A map entry as it is stored.
#[derive(Debug)]
pub struct Entry {
    key: String,
    val: Value,
}

#[derive(Debug)]
enum Repr {
    Null,
    Bool(bool),
    Int(i64),
    Float(u64),
    Str(String),
    BoolArr(Vec<bool>),
    Bytes(Vec<u8>),
    IntArr(Vec<i64>),
    FloatArr(Vec<u64>),
    Arr(Vec<Value>),
    GenericMap(Vec<Entry>),
}

/// A dynamically typed value.
#[derive(Debug)]
pub struct Value {
    repr: Repr,
}

impl Value {
    pub closed spec fn view(&self) -> DyVal
        decreases self,
    {
        match &self.repr {
            Repr::Null => DyVal::Null,
            Repr::Bool(b) => DyVal::Bool(*b),
            Repr::Int(i) => DyVal::Int(*i),
            Repr::Float(f) => DyVal::Float(*f),
            Repr::Str(s) => DyVal::Str(s@),
            Repr::BoolArr(v) => DyVal::BoolArr(v@),
            Repr::Bytes(v) => DyVal::Bytes(v@),
            Repr::IntArr(v) => DyVal::IntArr(v@),
            Repr::FloatArr(v) => DyVal::FloatArr(v@),
            Repr::Arr(v) => DyVal::Arr(Seq::new(v.len() as nat, |i: int|
                if 0 <= i < v.len() { v[i].view() } else { DyVal::Null })),
            Repr::GenericMap(v) => DyVal::GenericMap(
                Seq::new(v.len() as nat, |i: int|
                    if 0 <= i < v.len() { (v[i].key@, v[i].val.view()) } else { (Seq::empty(), DyVal::Null) }),
            ),
        }
    }
}

/// A bare value handle, carrying no ownership bookkeeping.
pub type ValuePtr = Value;

/// A value borrowed from its owner; it can never release the storage it
/// refers to and cannot outlive the owner.
#[derive(Debug)]
pub struct Borrowed<'a> {
    val: &'a Value,
}

/// A value whose storage this handle alone is responsible for.
#[derive(Debug)]
pub struct Owned {
    val: Value,
}

impl<'a> Borrowed<'a> {
    pub closed spec fn view(&self) -> DyVal {
        self.val@
    }

    /// The borrowed value itself.
    pub fn value(&self) -> (r: &'a Value)
        ensures
            r@ == self@,
    {
        self.val
    }
}

impl<'a> std::ops::Deref for Borrowed<'a> {
    type Target = Value;

    fn deref(&self) -> (r: &Value)
        ensures
            r@ == self@,
    {
        self.val
    }
}

impl Owned {
    pub closed spec fn view(&self) -> DyVal {
        self.val@
    }

    /// Takes responsibility for a bare handle.
    pub fn from_ptr(ptr: ValuePtr) -> (r: Owned)
        ensures
            r@ == ptr@,
    {
        Owned { val: ptr }
    }

    /// Gives up ownership bookkeeping and returns the bare handle.
    pub fn into_ptr(self) -> (r: ValuePtr)
        ensures
            r@ == self@,
    {
        self.val
    }
}

impl std::ops::Deref for Owned {
    type Target = Value;

    fn deref(&self) -> (r: &Value)
        ensures
            r@ == self@,
    {
        &self.val
    }
}

impl Value {
    /// Returns the type of the value.
    pub fn get_type(&self) -> (r: Type)
        ensures
            r == type_of(self@),
    {
        match &self.repr {
            Repr::Null => Type::Null,
            Repr::Bool(_) => Type::Bool,
            Repr::Int(_) => Type::Int,
            Repr::Float(_) => Type::Float,
            Repr::Str(_) => Type::Str,
            Repr::BoolArr(_) => Type::BoolArr,
            Repr::Bytes(_) => Type::Bytes,
            Repr::IntArr(_) => Type::IntArr,
            Repr::FloatArr(_) => Type::FloatArr,
            Repr::Arr(_) => Type::Arr,
            Repr::GenericMap(_) => Type::GenericMap,
        }
    }

    /// Borrows the value.
    pub fn borrow<'a>(&'a self) -> (r: Borrowed<'a>)
        ensures
            r@ == self@,
    {
        Borrowed { val: self }
    }

    /// Makes an independent deep copy of the value.
    pub fn copy(&self) -> (r: Owned)
        ensures
            r@ == self@,
    {
        Owned { val: self.deep_copy() }
    }

    #[verifier::loop_isolation(false)]
    fn deep_copy(&self) -> (r: Value)
        ensures
            r@ == self@,
        decreases self,
    {
        match &self.repr {
            Repr::Null => Value { repr: Repr::Null },
            Repr::Bool(b) => Value { repr: Repr::Bool(*b) },
            Repr::Int(i) => Value { repr: Repr::Int(*i) },
            Repr::Float(f) => Value { repr: Repr::Float(*f) },
            Repr::Str(s) => Value { repr: Repr::Str(s.clone()) },
            Repr::BoolArr(v) => Value { repr: Repr::BoolArr(v.clone()) },
            Repr::Bytes(v) => Value { repr: Repr::Bytes(v.clone()) },
            Repr::IntArr(v) => Value { repr: Repr::IntArr(v.clone()) },
            Repr::FloatArr(v) => Value { repr: Repr::FloatArr(v.clone()) },
            Repr::Arr(v) => {
                let mut out: Vec<Value> = Vec::new();
                let mut i: usize = 0;
                while i < v.len()
                    invariant
                        i <= v@.len(),
                        out@.len() == i,
                        forall|j: int| 0 <= j < i ==> (#[trigger] out@[j])@ == v@[j]@,
                    decreases v@.len() - i,
                {
                    out.push(v[i].deep_copy());
                    i = i + 1;
                }
                let r = Value { repr: Repr::Arr(out) };
                assert(r@->Arr_0 =~= self@->Arr_0);
                r
            },
            Repr::GenericMap(v) => {
                let mut out: Vec<Entry> = Vec::new();
                let mut i: usize = 0;
                while i < v.len()
                    invariant
                        i <= v@.len(),
                        out@.len() == i,
                        forall|j: int| 0 <= j < i ==> (#[trigger] out@[j]).key@ == v@[j].key@
                            && out@[j].val@ == v@[j].val@,
                    decreases v@.len() - i,
                {
                    out.push(Entry { key: v[i].key.clone(), val: v[i].val.deep_copy() });
                    i = i + 1;
                }
                let r = Value { repr: Repr::GenericMap(out) };
                assert(r@->GenericMap_0 =~= self@->GenericMap_0);
                r
            },
        }
    }
}


/// The contents of a sequence of owned values.
pub open spec fn views_of(s: Seq<Owned>) -> Seq<DyVal> {
    Seq::new(s.len(), |i: int| s[i]@)
}

/// The key and content of each pair handed to a map constructor.
pub open spec fn pairs_view(s: Seq<(&str, Owned)>) -> Seq<(Seq<char>, DyVal)> {
    Seq::new(s.len(), |i: int| (s[i].0@, s[i].1@))
}

fn copy_slice<T: Copy>(v: &[T]) -> (r: Vec<T>)
    ensures
        r@ == v@,
{
    let mut out: Vec<T> = Vec::new();
    let mut i: usize = 0;
    while i < v.len()
        invariant
            i <= v@.len(),
            out@ == v@.subrange(0, i as int),
        decreases v@.len() - i,
    {
        out.push(v[i]);
        i = i + 1;
    }
    assert(out@ =~= v@);
    out
}

impl Value {
    /// Makes a new null value.
    pub fn new_null() -> (r: Owned)
        ensures
            r@ == DyVal::Null,
    {
        Owned { val: Value { repr: Repr::Null } }
    }

    /// Makes a new boolean value.
    pub fn new_bool(v: bool) -> (r: Owned)
        ensures
            r@ == DyVal::Bool(v),
    {
        Owned { val: Value { repr: Repr::Bool(v) } }
    }

    /// Makes a new 8-byte integer value.
    pub fn new_int(v: i64) -> (r: Owned)
        ensures
            r@ == DyVal::Int(v),
    {
        Owned { val: Value { repr: Repr::Int(v) } }
    }

    /// Makes a new double-precision value from its IEEE-754 bit pattern.
    pub fn new_float(bits: u64) -> (r: Owned)
        ensures
            r@ == DyVal::Float(bits),
    {
        Owned { val: Value { repr: Repr::Float(bits) } }
    }

    /// Makes a new string holding a copy of `v`.
    pub fn new_str(v: &str) -> (r: Owned)
        requires
            storable(v@),
        ensures
            r@ == DyVal::Str(v@),
    {
        Owned { val: Value { repr: Repr::Str(v.to_owned()) } }
    }

    /// Makes a new boolean array holding a copy of `v`.
    pub fn new_bool_arr(v: &[bool]) -> (r: Owned)
        ensures
            r@ == DyVal::BoolArr(v@),
    {
        Owned { val: Value { repr: Repr::BoolArr(copy_slice(v)) } }
    }

    /// Makes a new byte array holding a copy of `v`.
    pub fn new_bytes(v: &[u8]) -> (r: Owned)
        ensures
            r@ == DyVal::Bytes(v@),
    {
        Owned { val: Value { repr: Repr::Bytes(copy_slice(v)) } }
    }

    /// Makes a new integer array holding a copy of `v`.
    pub fn new_int_arr(v: &[i64]) -> (r: Owned)
        ensures
            r@ == DyVal::IntArr(v@),
    {
        Owned { val: Value { repr: Repr::IntArr(copy_slice(v)) } }
    }

    /// Makes a new double-precision array from the IEEE-754 bit patterns in `v`.
    pub fn new_float_arr(v: &[u64]) -> (r: Owned)
        ensures
            r@ == DyVal::FloatArr(v@),
    {
        Owned { val: Value { repr: Repr::FloatArr(copy_slice(v)) } }
    }

    /// Makes a new generic array; the array takes over each element.
    pub fn new_arr(v: Vec<Owned>) -> (r: Owned)
        ensures
            r@ == DyVal::Arr(views_of(v@)),
    {
        let ghost orig = v@;
        let mut rest = v;
        let mut rev: Vec<Value> = Vec::new();
        while rest.len() > 0
            invariant
                rest@ == orig.subrange(0, orig.len() - rev@.len()),
                rev@.len() <= orig.len(),
                forall|j: int| 0 <= j < rev@.len() ==> (#[trigger] rev@[j])@ == orig[orig.len() - 1 - j]@,
            decreases rest@.len(),
        {
            let o = rest.pop().unwrap();
            rev.push(o.into_ptr());
        }
        let mut out: Vec<Value> = Vec::new();
        let n = rev.len();
        while rev.len() > 0
            invariant
                n == orig.len(),
                out@.len() + rev@.len() == n,
                forall|j: int| 0 <= j < rev@.len() ==> (#[trigger] rev@[j])@ == orig[n - 1 - j]@,
                forall|j: int| 0 <= j < out@.len() ==> (#[trigger] out@[j])@ == orig[j]@,
            decreases rev@.len(),
        {
            let x = rev.pop().unwrap();
            out.push(x);
        }
        let r = Value { repr: Repr::Arr(out) };
        assert(r@->Arr_0 =~= views_of(orig));
        Owned { val: r }
    }
}


/// The key and content of each stored entry.
pub closed spec fn entries_view(v: Seq<Entry>) -> Seq<(Seq<char>, DyVal)> {
    Seq::new(v.len(), |i: int| (v[i].key@, v[i].val@))
}

impl Value {
    /// Makes a new generic map; the map takes over each value. Where a key
    /// occurs more than once, the last pair with that key wins.
    pub fn new_map(v: Vec<(&str, Owned)>) -> (r: Owned)
        requires
            forall|i: int| 0 <= i < v@.len() ==> storable(#[trigger] v@[i].0@),
        ensures
            r@ is GenericMap,
            distinct_keys(r@->GenericMap_0),
            forall|k: Seq<char>| #[trigger] find_key(r@->GenericMap_0, k)
                == find_last(pairs_view(v@), k),
    {
        let ghost pv = pairs_view(v@);
        let ghost n = v@.len();
        let mut rest = v;
        let mut out: Vec<Entry> = Vec::new();
        while rest.len() > 0
            invariant
                rest@.len() <= n,
                pv == pairs_view(rest@) + pv.subrange(rest@.len() as int, n as int),
                pv.len() == n,
                distinct_keys(entries_view(out@)),
                forall|k: Seq<char>| #[trigger] find_key(entries_view(out@), k)
                    == find_last(pv.subrange(rest@.len() as int, n as int), k),
            decreases rest@.len(),
        {
            let ghost m = rest@.len();
            let ghost old_out = entries_view(out@);
            let ghost old_rest = rest@;
            let (key, val) = rest.pop().unwrap();
            proof {
                assert(pairs_view(rest@) =~= pairs_view(old_rest).drop_last());
                assert(pv[m - 1] == (key@, val@));
                assert(pv.subrange(m - 1, n as int) =~= seq![pv[m - 1]] + pv.subrange(m as int, n as int));
                assert(pv =~= pairs_view(rest@) + pv.subrange(m - 1, n as int));
            }
            let k = key.to_owned();
            let mut found = false;
            let mut i: usize = 0;
            while i < out.len()
                invariant
                    i <= out@.len(),
                    !found ==> forall|j: int| 0 <= j < i ==> out@[j].key@ != k@,
                    found ==> exists|j: int| 0 <= j < out@.len() && out@[j].key@ == k@,
                decreases out@.len() - i,
            {
                if out[i].key == k {
                    found = true;
                }
                i = i + 1;
            }
            proof {
                lemma_find_key_none(old_out, k@);
            }
            if !found {
                out.push(Entry { key: k, val: val.into_ptr() });
                proof {
                    assert(entries_view(out@) =~= old_out.push((key@, val@)));
                }
            }
            proof {
                let new_out = entries_view(out@);
                assert forall|q: Seq<char>| #[trigger] find_key(new_out, q)
                    == find_last(pv.subrange(m - 1, n as int), q) by {
                    lemma_find_last_prepend(pv[m - 1], pv.subrange(m as int, n as int), q);
                    if !found {
                        lemma_find_key_push(old_out, (key@, val@), q);
                    }
                    if found && q == key@ {
                        let j = choose|j: int| 0 <= j < out@.len() && out@[j].key@ == k@;
                        assert(old_out[j].0 == k@);
                    }
                }
            }
        }
        let r = Value { repr: Repr::GenericMap(out) };
        assert(r@->GenericMap_0 =~= entries_view(out@));
        assert(pv.subrange(0, n as int) =~= pv);
        Owned { val: r }
    }
}


/// A reference to a null value.
#[derive(Debug, Clone, Copy)]
pub struct AsNullValue<'a> {
    val: &'a Value,
}

/// A reference to a boolean value.
#[derive(Debug, Clone, Copy)]
pub struct AsBoolValue<'a> {
    val: &'a bool,
}

/// A reference to an 8-byte integer value.
#[derive(Debug, Clone, Copy)]
pub struct AsIntValue<'a> {
    val: &'a i64,
}

/// A reference to a double-precision value, read as its IEEE-754 bit pattern.
#[derive(Debug, Clone, Copy)]
pub struct AsFloatValue<'a> {
    val: &'a u64,
}

/// A reference to a string value.
#[derive(Debug, Clone, Copy)]
pub struct AsStrValue<'a> {
    val: &'a String,
}

impl<'a> AsBoolValue<'a> {
    pub closed spec fn view(&self) -> bool {
        *self.val
    }

    /// Returns the boolean.
    pub fn get(&self) -> (r: bool)
        ensures
            r == self@,
    {
        *self.val
    }
}

impl<'a> AsIntValue<'a> {
    pub closed spec fn view(&self) -> i64 {
        *self.val
    }

    /// Returns the integer.
    pub fn get(&self) -> (r: i64)
        ensures
            r == self@,
    {
        *self.val
    }
}

impl<'a> AsFloatValue<'a> {
    pub closed spec fn view(&self) -> u64 {
        *self.val
    }

    /// Returns the IEEE-754 bit pattern of the number.
    pub fn get(&self) -> (r: u64)
        ensures
            r == self@,
    {
        *self.val
    }
}

impl<'a> AsStrValue<'a> {
    pub closed spec fn view(&self) -> Seq<char> {
        self.val@
    }

    /// Returns the length of the string in bytes of UTF-8.
    pub fn len(&self) -> (r: usize)
        ensures
            r == vstd::utf8::encode_utf8(self@).len() as usize,
    {
        self.val.as_str().len()
    }

    /// Returns a copy of the string.
    pub fn get(&self) -> (r: String)
        ensures
            r@ == self@,
    {
        self.val.clone()
    }
}

fn element_at<T: Copy>(v: &Vec<T>, idx: usize) -> (r: Option<T>)
    ensures
        idx < v@.len() ==> r == Some(v@[idx as int]),
        idx >= v@.len() ==> r is None,
{
    if idx < v.len() {
        Some(v[idx])
    } else {
        None
    }
}

/// A reference to a boolean array value.
#[derive(Debug, Clone, Copy)]
pub struct AsBoolArrValue<'a> {
    val: &'a Vec<bool>,
}

impl<'a> AsBoolArrValue<'a> {
    pub closed spec fn view(&self) -> Seq<bool> {
        self.val@
    }

    /// Returns the length of the array.
    pub fn len(&self) -> (r: usize)
        ensures
            r == self@.len(),
    {
        self.val.len()
    }

    /// Returns the entry at the given index, or nothing past the end.
    pub fn at(&self, idx: usize) -> (r: Option<bool>)
        ensures
            idx < self@.len() ==> r == Some(self@[idx as int]),
            idx >= self@.len() ==> r is None,
    {
        element_at(self.val, idx)
    }

    /// Returns the entries of the array without copying them.
    pub fn data(&self) -> (r: &'a [bool])
        ensures
            r@ == self@,
    {
        self.val.as_slice()
    }
}

/// A reference to a byte array value.
#[derive(Debug, Clone, Copy)]
pub struct AsBytesValue<'a> {
    val: &'a Vec<u8>,
}

impl<'a> AsBytesValue<'a> {
    pub closed spec fn view(&self) -> Seq<u8> {
        self.val@
    }

    /// Returns the length of the array.
    pub fn len(&self) -> (r: usize)
        ensures
            r == self@.len(),
    {
        self.val.len()
    }

    /// Returns the entry at the given index, or nothing past the end.
    pub fn at(&self, idx: usize) -> (r: Option<u8>)
        ensures
            idx < self@.len() ==> r == Some(self@[idx as int]),
            idx >= self@.len() ==> r is None,
    {
        element_at(self.val, idx)
    }

    /// Returns the entries of the array without copying them.
    pub fn data(&self) -> (r: &'a [u8])
        ensures
            r@ == self@,
    {
        self.val.as_slice()
    }
}

/// A reference to an integer array value.
#[derive(Debug, Clone, Copy)]
pub struct AsIntArrValue<'a> {
    val: &'a Vec<i64>,
}

impl<'a> AsIntArrValue<'a> {
    pub closed spec fn view(&self) -> Seq<i64> {
        self.val@
    }

    /// Returns the length of the array.
    pub fn len(&self) -> (r: usize)
        ensures
            r == self@.len(),
    {
        self.val.len()
    }

    /// Returns the entry at the given index, or nothing past the end.
    pub fn at(&self, idx: usize) -> (r: Option<i64>)
        ensures
            idx < self@.len() ==> r == Some(self@[idx as int]),
            idx >= self@.len() ==> r is None,
    {
        element_at(self.val, idx)
    }

    /// Returns the entries of the array without copying them.
    pub fn data(&self) -> (r: &'a [i64])
        ensures
            r@ == self@,
    {
        self.val.as_slice()
    }
}

/// A reference to a double-precision array value, read as IEEE-754 bit patterns.
#[derive(Debug, Clone, Copy)]
pub struct AsFloatArrValue<'a> {
    val: &'a Vec<u64>,
}

impl<'a> AsFloatArrValue<'a> {
    pub closed spec fn view(&self) -> Seq<u64> {
        self.val@
    }

    /// Returns the length of the array.
    pub fn len(&self) -> (r: usize)
        ensures
            r == self@.len(),
    {
        self.val.len()
    }

    /// Returns the entry at the given index, or nothing past the end.
    pub fn at(&self, idx: usize) -> (r: Option<u64>)
        ensures
            idx < self@.len() ==> r == Some(self@[idx as int]),
            idx >= self@.len() ==> r is None,
    {
        element_at(self.val, idx)
    }

    /// Returns the entries of the array without copying them.
    pub fn data(&self) -> (r: &'a [u64])
        ensures
            r@ == self@,
    {
        self.val.as_slice()
    }
}

impl Value {
    /// If the value is null, returns a reference to it.
    pub fn as_null<'a>(&'a self) -> (r: Option<AsNullValue<'a>>)
        ensures
            r is Some <==> type_of(self@) == Type::Null,
    {
        match &self.repr {
            Repr::Null => Some(AsNullValue { val: self }),
            _ => None,
        }
    }

    /// If the value is a boolean, returns a reference to it.
    pub fn as_bool<'a>(&'a self) -> (r: Option<AsBoolValue<'a>>)
        ensures
            r is Some <==> type_of(self@) == Type::Bool,
            r matches Some(a) ==> self@ == DyVal::Bool(a@),
    {
        match &self.repr {
            Repr::Bool(b) => Some(AsBoolValue { val: b }),
            _ => None,
        }
    }

    /// If the value is an 8-byte integer, returns a reference to it.
    pub fn as_int<'a>(&'a self) -> (r: Option<AsIntValue<'a>>)
        ensures
            r is Some <==> type_of(self@) == Type::Int,
            r matches Some(a) ==> self@ == DyVal::Int(a@),
    {
        match &self.repr {
            Repr::Int(i) => Some(AsIntValue { val: i }),
            _ => None,
        }
    }

    /// If the value is a double-precision number, returns a reference to it.
    pub fn as_float<'a>(&'a self) -> (r: Option<AsFloatValue<'a>>)
        ensures
            r is Some <==> type_of(self@) == Type::Float,
            r matches Some(a) ==> self@ == DyVal::Float(a@),
    {
        match &self.repr {
            Repr::Float(f) => Some(AsFloatValue { val: f }),
            _ => None,
        }
    }

    /// If the value is a string, returns a reference to it.
    pub fn as_str<'a>(&'a self) -> (r: Option<AsStrValue<'a>>)
        ensures
            r is Some <==> type_of(self@) == Type::Str,
            r matches Some(a) ==> self@ == DyVal::Str(a@),
    {
        match &self.repr {
            Repr::Str(s) => Some(AsStrValue { val: s }),
            _ => None,
        }
    }

    /// If the value is a boolean array, returns a reference to it.
    pub fn as_bool_arr<'a>(&'a self) -> (r: Option<AsBoolArrValue<'a>>)
        ensures
            r is Some <==> type_of(self@) == Type::BoolArr,
            r matches Some(a) ==> self@ == DyVal::BoolArr(a@),
    {
        match &self.repr {
            Repr::BoolArr(v) => Some(AsBoolArrValue { val: v }),
            _ => None,
        }
    }

    /// If the value is a byte array, returns a reference to it.
    pub fn as_bytes<'a>(&'a self) -> (r: Option<AsBytesValue<'a>>)
        ensures
            r is Some <==> type_of(self@) == Type::Bytes,
            r matches Some(a) ==> self@ == DyVal::Bytes(a@),
    {
        match &self.repr {
            Repr::Bytes(v) => Some(AsBytesValue { val: v }),
            _ => None,
        }
    }

    /// If the value is an integer array, returns a reference to it.
    pub fn as_int_arr<'a>(&'a self) -> (r: Option<AsIntArrValue<'a>>)
        ensures
            r is Some <==> type_of(self@) == Type::IntArr,
            r matches Some(a) ==> self@ == DyVal::IntArr(a@),
    {
        match &self.repr {
            Repr::IntArr(v) => Some(AsIntArrValue { val: v }),
            _ => None,
        }
    }

    /// If the value is a double-precision array, returns a reference to it.
    pub fn as_float_arr<'a>(&'a self) -> (r: Option<AsFloatArrValue<'a>>)
        ensures
            r is Some <==> type_of(self@) == Type::FloatArr,
            r matches Some(a) ==> self@ == DyVal::FloatArr(a@),
    {
        match &self.repr {
            Repr::FloatArr(v) => Some(AsFloatArrValue { val: v }),
            _ => None,
        }
    }
}


/// The contents of a sequence of values.
pub open spec fn values_view(s: Seq<Value>) -> Seq<DyVal> {
    Seq::new(s.len(), |i: int| s[i]@)
}

/// The key and content of each pair that a map hands out.
pub open spec fn owned_pairs_view(s: Seq<(String, Owned)>) -> Seq<(Seq<char>, DyVal)> {
    Seq::new(s.len(), |i: int| (s[i].0@, s[i].1@))
}

/// A reference to a generic array value.
#[derive(Debug, Clone, Copy)]
pub struct AsArrValue<'a> {
    val: &'a Vec<Value>,
}

/// A reference to a generic map value.
#[derive(Debug, Clone, Copy)]
pub struct AsMapValue<'a> {
    val: &'a Vec<Entry>,
}

/// A key with the value stored under it, borrowed from a map.
#[derive(Debug)]
pub struct KeyValPair<'a> {
    key: &'a str,
    val: &'a Value,
}

/// A cursor over the elements of a generic array.
#[derive(Debug)]
pub struct ArrIter<'a> {
    val: &'a Vec<Value>,
    idx: usize,
}

/// A cursor over the entries of a generic map.
#[derive(Debug)]
pub struct MapIter<'a> {
    val: &'a Vec<Entry>,
    pos: usize,
}

impl<'a> KeyValPair<'a> {
    pub closed spec fn view(&self) -> (Seq<char>, DyVal) {
        (self.key@, self.val@)
    }

    /// Returns the key.
    pub fn get_key(&self) -> (r: &'a str)
        ensures
            r@ == self@.0,
    {
        self.key
    }

    /// Returns the value stored under the key.
    pub fn get_val(&self) -> (r: &'a Value)
        ensures
            r@ == self@.1,
    {
        self.val
    }

    fn from_entry(e: &'a Entry) -> (r: KeyValPair<'a>)
        ensures
            r@ == (e.key@, e.val@),
    {
        KeyValPair { key: e.key.as_str(), val: &e.val }
    }
}

impl<'a> AsArrValue<'a> {
    pub closed spec fn view(&self) -> Seq<DyVal> {
        values_view(self.val@)
    }

    /// Returns the length of the array.
    pub fn len(&self) -> (r: usize)
        ensures
            r == self@.len(),
    {
        self.val.len()
    }

    /// Borrows the element at the given index, or nothing past the end.
    pub fn at(&self, idx: usize) -> (r: Option<Borrowed<'a>>)
        ensures
            idx < self@.len() ==> (r matches Some(b) && b@ == self@[idx as int]),
            idx >= self@.len() ==> r is None,
    {
        if idx < self.val.len() {
            Some(self.val[idx].borrow())
        } else {
            None
        }
    }

    /// Returns a cursor at the first element of this array.
    pub fn iter(&self) -> (r: ArrIter<'a>)
        ensures
            r.elems() == self@,
            r.pos() == 0,
    {
        ArrIter { val: self.val, idx: 0 }
    }
}

impl<'a> ArrIter<'a> {
    /// The elements the cursor runs over.
    pub closed spec fn elems(&self) -> Seq<DyVal> {
        values_view(self.val@)
    }

    /// The index of the next element to yield.
    pub closed spec fn pos(&self) -> nat {
        self.idx as nat
    }

    /// Borrows the next element and advances; once past the end, yields
    /// nothing and stays there.
    pub fn next(&mut self) -> (r: Option<Borrowed<'a>>)
        ensures
            final(self).elems() == old(self).elems(),
            old(self).pos() < old(self).elems().len() ==> (r matches Some(b)
                && b@ == old(self).elems()[old(self).pos() as int]
                && final(self).pos() == old(self).pos() + 1),
            old(self).pos() >= old(self).elems().len() ==> r is None
                && final(self).pos() == old(self).pos(),
    {
        if self.idx < self.val.len() {
            let b = self.val[self.idx].borrow();
            self.idx = self.idx + 1;
            Some(b)
        } else {
            None
        }
    }
}

impl<'a> AsMapValue<'a> {
    pub closed spec fn view(&self) -> Seq<(Seq<char>, DyVal)> {
        entries_view(self.val@)
    }

    /// Returns the number of entries.
    pub fn size(&self) -> (r: usize)
        ensures
            r == self@.len(),
    {
        self.val.len()
    }

    /// Looks up the entry with exactly the given key.
    pub fn at(&self, key: &str) -> (r: Option<KeyValPair<'a>>)
        ensures
            r is Some <==> find_key(self@, key@) is Some,
            r matches Some(p) ==> p@ == (key@, find_key(self@, key@)->0),
    {
        let k = key.to_owned();
        let ghost es = self@;
        assert(es.subrange(0, es.len() as int) =~= es);
        let mut i: usize = 0;
        while i < self.val.len()
            invariant
                i <= self.val@.len(),
                es == entries_view(self.val@),
                es.len() == self.val@.len(),
                k@ == key@,
                find_key(es, k@) == find_key(es.subrange(i as int, es.len() as int), k@),
            decreases self.val@.len() - i,
        {
            let ghost tail = es.subrange(i as int, es.len() as int);
            assert(tail.drop_first() =~= es.subrange(i + 1, es.len() as int));
            assert(tail[0] == (self.val@[i as int].key@, self.val@[i as int].val@));
            if self.val[i].key == k {
                assert(find_key(tail, k@) == Some(tail[0].1));
                return Some(KeyValPair::from_entry(&self.val[i]));
            }
            i = i + 1;
        }
        assert(es.subrange(i as int, es.len() as int) =~= Seq::empty());
        None
    }

    /// Returns a cursor at the first entry of this map.
    pub fn iter(&self) -> (r: MapIter<'a>)
        ensures
            r.entries() == self@,
            r.pos() == 0,
    {
        MapIter { val: self.val, pos: 0 }
    }
}

impl<'a> MapIter<'a> {
    /// The entries the cursor runs over.
    pub closed spec fn entries(&self) -> Seq<(Seq<char>, DyVal)> {
        entries_view(self.val@)
    }

    /// The index of the next entry to yield.
    pub closed spec fn pos(&self) -> nat {
        self.pos as nat
    }

    /// Yields the next entry and advances; once every entry has been
    /// yielded, yields nothing on this and every later call.
    pub fn next(&mut self) -> (r: Option<KeyValPair<'a>>)
        ensures
            final(self).entries() == old(self).entries(),
            old(self).pos() < old(self).entries().len() ==> (r matches Some(p)
                && p@ == old(self).entries()[old(self).pos() as int]
                && final(self).pos() == old(self).pos() + 1),
            old(self).pos() >= old(self).entries().len() ==> r is None
                && final(self).pos() == old(self).pos(),
    {
        if self.pos < self.val.len() {
            let p = KeyValPair::from_entry(&self.val[self.pos]);
            self.pos = self.pos + 1;
            Some(p)
        } else {
            None
        }
    }
}

impl Value {
    /// If the value is a generic array, returns a reference to it.
    pub fn as_arr<'a>(&'a self) -> (r: Option<AsArrValue<'a>>)
        ensures
            r is Some <==> type_of(self@) == Type::Arr,
            r matches Some(a) ==> self@ == DyVal::Arr(a@),
    {
        match &self.repr {
            Repr::Arr(v) => {
                let a = AsArrValue { val: v };
                assert(self@->Arr_0 =~= a@);
                Some(a)
            },
            _ => None,
        }
    }

    /// If the value is a generic map, returns a reference to it.
    pub fn as_map<'a>(&'a self) -> (r: Option<AsMapValue<'a>>)
        ensures
            r is Some <==> type_of(self@) == Type::GenericMap,
            r matches Some(a) ==> self@ == DyVal::GenericMap(a@),
    {
        match &self.repr {
            Repr::GenericMap(v) => {
                let a = AsMapValue { val: v };
                assert(self@->GenericMap_0 =~= a@);
                Some(a)
            },
            _ => None,
        }
    }
}


/// A value seen through the reference that matches its tag.
#[derive(Debug, Clone, Copy)]
pub enum As<'a> {
    Null(AsNullValue<'a>),
    Bool(AsBoolValue<'a>),
    Int(AsIntValue<'a>),
    Float(AsFloatValue<'a>),
    Str(AsStrValue<'a>),
    BoolArr(AsBoolArrValue<'a>),
    Bytes(AsBytesValue<'a>),
    IntArr(AsIntArrValue<'a>),
    FloatArr(AsFloatArrValue<'a>),
    Arr(AsArrValue<'a>),
    GenericMap(AsMapValue<'a>),
}

impl<'a> As<'a> {
    /// The content of the value referred to.
    pub open spec fn content(&self) -> DyVal {
        match self {
            As::Null(_) => DyVal::Null,
            As::Bool(a) => DyVal::Bool(a@),
            As::Int(a) => DyVal::Int(a@),
            As::Float(a) => DyVal::Float(a@),
            As::Str(a) => DyVal::Str(a@),
            As::BoolArr(a) => DyVal::BoolArr(a@),
            As::Bytes(a) => DyVal::Bytes(a@),
            As::IntArr(a) => DyVal::IntArr(a@),
            As::FloatArr(a) => DyVal::FloatArr(a@),
            As::Arr(a) => DyVal::Arr(a@),
            As::GenericMap(a) => DyVal::GenericMap(a@),
        }
    }
}

impl Value {
    /// Returns the reference that matches the value's tag.
    pub fn as_type<'a>(&'a self) -> (r: As<'a>)
        ensures
            r.content() == self@,
    {
        match &self.repr {
            Repr::Null => As::Null(AsNullValue { val: self }),
            Repr::Bool(b) => As::Bool(AsBoolValue { val: b }),
            Repr::Int(i) => As::Int(AsIntValue { val: i }),
            Repr::Float(f) => As::Float(AsFloatValue { val: f }),
            Repr::Str(s) => As::Str(AsStrValue { val: s }),
            Repr::BoolArr(v) => As::BoolArr(AsBoolArrValue { val: v }),
            Repr::Bytes(v) => As::Bytes(AsBytesValue { val: v }),
            Repr::IntArr(v) => As::IntArr(AsIntArrValue { val: v }),
            Repr::FloatArr(v) => As::FloatArr(AsFloatArrValue { val: v }),
            Repr::Arr(v) => {
                let a = AsArrValue { val: v };
                assert(self@->Arr_0 =~= a@);
                As::Arr(a)
            },
            Repr::GenericMap(v) => {
                let a = AsMapValue { val: v };
                assert(self@->GenericMap_0 =~= a@);
                As::GenericMap(a)
            },
        }
    }
}

impl Owned {
    /// Consumes a generic array and hands out its elements, each now owned
    /// on its own; any other value comes back unchanged.
    pub fn decompose_arr(self) -> (r: Result<Vec<Owned>, Owned>)
        ensures
            r matches Ok(v) ==> self@ == DyVal::Arr(views_of(v@)),
            r matches Err(o) ==> type_of(self@) != Type::Arr && o@ == self@,
    {
        let ghost whole = self@;
        let Owned { val } = self;
        let Value { repr } = val;
        match repr {
            Repr::Arr(v) => {
                let ghost orig = v@;
                assert(whole->Arr_0 =~= values_view(orig));
                let mut rest = v;
                let mut rev: Vec<Owned> = Vec::new();
                while rest.len() > 0
                    invariant
                        rest@ == orig.subrange(0, orig.len() - rev@.len()),
                        rev@.len() <= orig.len(),
                        forall|j: int| 0 <= j < rev@.len() ==> (#[trigger] rev@[j])@ == orig[orig.len() - 1 - j]@,
                    decreases rest@.len(),
                {
                    let x = rest.pop().unwrap();
                    rev.push(Owned::from_ptr(x));
                }
                let mut out: Vec<Owned> = Vec::new();
                let n = rev.len();
                while rev.len() > 0
                    invariant
                        n == orig.len(),
                        out@.len() + rev@.len() == n,
                        forall|j: int| 0 <= j < rev@.len() ==> (#[trigger] rev@[j])@ == orig[n - 1 - j]@,
                        forall|j: int| 0 <= j < out@.len() ==> (#[trigger] out@[j])@ == orig[j]@,
                    decreases rev@.len(),
                {
                    let x = rev.pop().unwrap();
                    out.push(x);
                }
                assert(views_of(out@) =~= values_view(orig));
                Ok(out)
            },
            other => {
                let o = Owned { val: Value { repr: other } };
                assert(o@ == whole);
                Err(o)
            },
        }
    }

    /// Consumes a generic map and hands out its entries, each value now
    /// owned on its own; any other value comes back unchanged.
    pub fn decompose_map(self) -> (r: Result<Vec<(String, Owned)>, Owned>)
        ensures
            r matches Ok(v) ==> self@ == DyVal::GenericMap(owned_pairs_view(v@)),
            r matches Err(o) ==> type_of(self@) != Type::GenericMap && o@ == self@,
    {
        let ghost whole = self@;
        let Owned { val } = self;
        let Value { repr } = val;
        match repr {
            Repr::GenericMap(v) => {
                let ghost orig = entries_view(v@);
                assert(whole->GenericMap_0 =~= orig);
                let mut rest = v;
                let mut rev: Vec<(String, Owned)> = Vec::new();
                while rest.len() > 0
                    invariant
                        entries_view(rest@) == orig.subrange(0, orig.len() - rev@.len()),
                        rev@.len() <= orig.len(),
                        forall|j: int| 0 <= j < rev@.len() ==>
                            ((#[trigger] rev@[j]).0@, rev@[j].1@) == orig[orig.len() - 1 - j],
                    decreases rest@.len(),
                {
                    let ghost before = rest@;
                    let e = rest.pop().unwrap();
                    assert(entries_view(rest@) =~= entries_view(before).drop_last());
                    assert(entries_view(before)[before.len() - 1] == (e.key@, e.val@));
                    let Entry { key, val } = e;
                    rev.push((key, Owned::from_ptr(val)));
                }
                let mut out: Vec<(String, Owned)> = Vec::new();
                let n = rev.len();
                while rev.len() > 0
                    invariant
                        n == orig.len(),
                        out@.len() + rev@.len() == n,
                        forall|j: int| 0 <= j < rev@.len() ==>
                            ((#[trigger] rev@[j]).0@, rev@[j].1@) == orig[n - 1 - j],
                        forall|j: int| 0 <= j < out@.len() ==>
                            ((#[trigger] out@[j]).0@, out@[j].1@) == orig[j],
                    decreases rev@.len(),
                {
                    let x = rev.pop().unwrap();
                    out.push(x);
                }
                assert(owned_pairs_view(out@) =~= orig);
                Ok(out)
            },
            other => {
                let o = Owned { val: Value { repr: other } };
                assert(o@ == whole);
                Err(o)
            },
        }
    }
}


impl Value {
    /// Returns `true` if the value is null.
    pub fn is_null(&self) -> (r: bool)
        ensures
            r == (type_of(self@) == Type::Null),
    {
        self.get_type() == Type::Null
    }

    /// Returns `true` if the value is a boolean.
    pub fn is_bool(&self) -> (r: bool)
        ensures
            r == (type_of(self@) == Type::Bool),
    {
        self.get_type() == Type::Bool
    }

    /// Returns `true` if the value is an 8-byte integer.
    pub fn is_int(&self) -> (r: bool)
        ensures
            r == (type_of(self@) == Type::Int),
    {
        self.get_type() == Type::Int
    }

    /// Returns `true` if the value is a double-precision number.
    pub fn is_float(&self) -> (r: bool)
        ensures
            r == (type_of(self@) == Type::Float),
    {
        self.get_type() == Type::Float
    }

    /// Returns `true` if the value is a string.
    pub fn is_str(&self) -> (r: bool)
        ensures
            r == (type_of(self@) == Type::Str),
    {
        self.get_type() == Type::Str
    }

    /// Returns `true` if the value is a boolean array.
    pub fn is_bool_arr(&self) -> (r: bool)
        ensures
            r == (type_of(self@) == Type::BoolArr),
    {
        self.get_type() == Type::BoolArr
    }

    /// Returns `true` if the value is a byte array.
    pub fn is_bytes(&self) -> (r: bool)
        ensures
            r == (type_of(self@) == Type::Bytes),
    {
        self.get_type() == Type::Bytes
    }

    /// Returns `true` if the value is an integer array.
    pub fn is_int_arr(&self) -> (r: bool)
        ensures
            r == (type_of(self@) == Type::IntArr),
    {
        self.get_type() == Type::IntArr
    }

    /// Returns `true` if the value is a double-precision array.
    pub fn is_float_arr(&self) -> (r: bool)
        ensures
            r == (type_of(self@) == Type::FloatArr),
    {
        self.get_type() == Type::FloatArr
    }

    /// Returns `true` if the value is a generic array.
    pub fn is_arr(&self) -> (r: bool)
        ensures
            r == (type_of(self@) == Type::Arr),
    {
        self.get_type() == Type::Arr
    }

    /// Returns `true` if the value is a generic map.
    pub fn is_map(&self) -> (r: bool)
        ensures
            r == (type_of(self@) == Type::GenericMap),
    {
        self.get_type() == Type::GenericMap
    }
}

} // verus!
