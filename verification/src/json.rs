//! A generic JSON tree: the common currency of every decoder and encoder in
//! this crate.
//!
//! A number that does not fit the signed 64-bit integer form (because it
//! carries a fractional part, an exponent, or is too large) is kept as its
//! canonical decimal text, so that the tree itself stays free of floating
//! point while still round-tripping such numbers exactly.

use vstd::prelude::*;

verus! {

/// A generic JSON value.
///
/// Numbers are split into `Int` (an integer-valued number in signed 64-bit
/// range) and `Frac` (any other number, kept as its canonical decimal text).
/// Object members keep their insertion order.
#[derive(Debug)]
pub enum Json {
    Null,
    Bool(bool),
    Int(i64),
    Frac(String),
    Str(String),
    Arr(Vec<Json>),
    Obj(Vec<(String, Json)>),
}

/// The mathematical value of a [`Json`] tree.
pub enum JsonV {
    Null,
    Bool(bool),
    Int(int),
    Frac(Seq<char>),
    Str(Seq<char>),
    Arr(Seq<JsonV>),
    Obj(Seq<(Seq<char>, JsonV)>),
}

impl Json {
    pub open spec fn value(self) -> JsonV
        decreases self,
    {
        match self {
            Json::Null => JsonV::Null,
            Json::Bool(b) => JsonV::Bool(b),
            Json::Int(i) => JsonV::Int(i as int),
            Json::Frac(t) => JsonV::Frac(t@),
            Json::Str(s) => JsonV::Str(s@),
            Json::Arr(items) => JsonV::Arr(arr_view(items@)),
            Json::Obj(fields) => JsonV::Obj(fields_view(fields@)),
        }
    }
}

/// The mathematical value of an array's item list.
pub open spec fn arr_view(items: Seq<Json>) -> Seq<JsonV>
    decreases items,
{
    if items.len() == 0 {
        Seq::empty()
    } else {
        seq![items[0].value()] + arr_view(items.drop_first())
    }
}

/// The mathematical value of an object's member list.
pub open spec fn fields_view(fields: Seq<(String, Json)>) -> Seq<(Seq<char>, JsonV)>
    decreases fields,
{
    if fields.len() == 0 {
        Seq::empty()
    } else {
        seq![(fields[0].0@, fields[0].1.value())] + fields_view(fields.drop_first())
    }
}

/// `arr_view` maps each item to its value, in place.
pub proof fn lemma_arr_view(items: Seq<Json>)
    ensures
        arr_view(items).len() == items.len(),
        forall|i: int| 0 <= i < items.len() ==> arr_view(items)[i] == items[i].value(),
    decreases items.len(),
{
    if items.len() > 0 {
        lemma_arr_view(items.drop_first());
    }
}

/// `fields_view` maps each member to its key's and value's views, in place.
pub proof fn lemma_fields_view(fields: Seq<(String, Json)>)
    ensures
        fields_view(fields).len() == fields.len(),
        forall|i: int| 0 <= i < fields.len() ==> fields_view(fields)[i] == (
            fields[i].0@,
            fields[i].1.value(),
        ),
    decreases fields.len(),
{
    if fields.len() > 0 {
        lemma_fields_view(fields.drop_first());
    }
}

impl View for Json {
    type V = JsonV;

    open spec fn view(&self) -> JsonV {
        self.value()
    }
}

/// The first value stored under `key`, if any member carries that key.
pub open spec fn obj_get(fields: Seq<(Seq<char>, JsonV)>, key: Seq<char>) -> Option<JsonV>
    decreases fields.len(),
{
    if fields.len() == 0 {
        None
    } else if fields[0].0 == key {
        Some(fields[0].1)
    } else {
        obj_get(fields.drop_first(), key)
    }
}

/// `obj_get` returns the value at the first index whose key matches.
pub proof fn lemma_obj_get_first_match(fields: Seq<(Seq<char>, JsonV)>, key: Seq<char>, i: int)
    requires
        0 <= i < fields.len(),
        fields[i].0 == key,
        forall|j: int| 0 <= j < i ==> fields[j].0 != key,
    ensures
        obj_get(fields, key) == Some(fields[i].1),
    decreases i,
{
    if i > 0 {
        lemma_obj_get_first_match(fields.drop_first(), key, i - 1);
    }
}

/// `obj_get` returns nothing when no key matches.
pub proof fn lemma_obj_get_no_match(fields: Seq<(Seq<char>, JsonV)>, key: Seq<char>)
    requires
        forall|j: int| 0 <= j < fields.len() ==> fields[j].0 != key,
    ensures
        obj_get(fields, key) is None,
    decreases fields.len(),
{
    if fields.len() > 0 {
        lemma_obj_get_no_match(fields.drop_first(), key);
    }
}

/// Whether an object's keys are pairwise distinct.
pub open spec fn keys_unique(fields: Seq<(Seq<char>, JsonV)>) -> bool {
    forall|i: int, k: int| 0 <= i < k < fields.len() ==> fields[i].0 != fields[k].0
}

/// Whether every key of an object is one of the allowed keys.
pub open spec fn keys_allowed(fields: Seq<(Seq<char>, JsonV)>, allowed: Seq<Seq<char>>) -> bool {
    forall|i: int| 0 <= i < fields.len() ==> allowed.contains(#[trigger] fields[i].0)
}

/// The character sequences of a list of strings.
pub open spec fn strings_view(a: Seq<String>) -> Seq<Seq<char>> {
    Seq::new(a.len(), |i: int| a[i]@)
}

/// Checks that an object's member list carries pairwise-distinct keys and no
/// key outside `allowed`.
pub fn check_keys(fields: &Vec<(String, Json)>, allowed: &Vec<String>) -> (r: bool)
    ensures
        r == (keys_unique(fields_view(fields@)) && keys_allowed(
            fields_view(fields@),
            strings_view(allowed@),
        )),
{
    proof {
        lemma_fields_view(fields@);
    }
    let ghost fv = fields_view(fields@);
    let ghost av = strings_view(allowed@);
    let mut i: usize = 0;
    while i < fields.len()
        invariant
            0 <= i <= fields.len(),
            fv == fields_view(fields@),
            av == strings_view(allowed@),
            fv.len() == fields@.len(),
            forall|j: int| 0 <= j < fields@.len() ==> fv[j] == (fields@[j].0@, fields@[j].1.value()),
            forall|a: int, b: int| 0 <= a < b < i ==> fv[a].0 != fv[b].0,
            forall|a: int| 0 <= a < i ==> av.contains(#[trigger] fv[a].0),
        decreases fields.len() - i,
    {
        let mut found = false;
        let mut k: usize = 0;
        while k < allowed.len()
            invariant
                0 <= k <= allowed.len(),
                av == strings_view(allowed@),
                av.len() == allowed@.len(),
                0 <= i < fields.len(),
                fv.len() == fields@.len(),
                fv == fields_view(fields@),
                forall|j: int| 0 <= j < fields@.len() ==> fv[j] == (
                    fields@[j].0@,
                    fields@[j].1.value(),
                ),
                found ==> av.contains(fv[i as int].0),
                !found ==> forall|b: int| 0 <= b < k ==> av[b] != fv[i as int].0,
            decreases allowed.len() - k,
        {
            if !found && str_eq(fields[i].0.as_str(), allowed[k].as_str()) {
                proof {
                    assert(av[k as int] == allowed@[k as int]@);
                    assert(av.contains(fv[i as int].0));
                }
                found = true;
            }
            k = k + 1;
        }
        if !found {
            proof {
                assert(!av.contains(fv[i as int].0));
                assert(!keys_allowed(fv, av));
            }
            return false;
        }
        let mut j: usize = 0;
        while j < i
            invariant
                0 <= j <= i < fields.len(),
                fv == fields_view(fields@),
                fv.len() == fields@.len(),
                forall|b: int| 0 <= b < fields@.len() ==> fv[b] == (
                    fields@[b].0@,
                    fields@[b].1.value(),
                ),
                forall|b: int| 0 <= b < j ==> fv[b].0 != fv[i as int].0,
            decreases i - j,
        {
            if str_eq(fields[j].0.as_str(), fields[i].0.as_str()) {
                proof {
                    assert(fv[j as int].0 == fv[i as int].0);
                    assert(!keys_unique(fv));
                }
                return false;
            }
            j = j + 1;
        }
        i = i + 1;
    }
    true
}

/// Whether two string slices hold the same characters.
pub fn str_eq(a: &str, b: &str) -> (r: bool)
    ensures
        r == (a@ == b@),
{
    let sa = String::from_str(a);
    let sb = String::from_str(b);
    sa == sb
}

impl Json {
    /// The first value stored under `key` of an object's member list.
    pub fn obj_find<'a>(fields: &'a Vec<(String, Json)>, key: &str) -> (r: Option<&'a Json>)
        ensures
            match r {
                Some(v) => obj_get(fields_view(fields@), key@) == Some(v@),
                None => obj_get(fields_view(fields@), key@) is None,
            },
    {
        proof {
            lemma_fields_view(fields@);
        }
        let mut i: usize = 0;
        while i < fields.len()
            invariant
                0 <= i <= fields.len(),
                fields_view(fields@).len() == fields@.len(),
                forall|j: int| 0 <= j < fields@.len() ==> fields_view(fields@)[j] == (
                    fields@[j].0@,
                    fields@[j].1.value(),
                ),
                forall|j: int| 0 <= j < i ==> fields_view(fields@)[j].0 != key@,
            decreases fields.len() - i,
        {
            if str_eq(fields[i].0.as_str(), key) {
                proof {
                    lemma_obj_get_first_match(fields_view(fields@), key@, i as int);
                }
                return Some(&fields[i].1);
            }
            i = i + 1;
        }
        proof {
            lemma_obj_get_no_match(fields_view(fields@), key@);
        }
        None
    }

    /// An identical copy of this tree.
    #[verifier::loop_isolation(false)]
    pub fn deep_copy(&self) -> (r: Json)
        ensures
            r@ == self@,
        decreases self,
    {
        match self {
            Json::Null => Json::Null,
            Json::Bool(b) => Json::Bool(*b),
            Json::Int(i) => Json::Int(*i),
            Json::Frac(t) => Json::Frac(t.clone()),
            Json::Str(s) => Json::Str(s.clone()),
            Json::Arr(items) => {
                let mut out: Vec<Json> = Vec::new();
                let mut i: usize = 0;
                while i < items.len()
                    invariant
                        0 <= i <= items.len(),
                        out@.len() == i,
                        forall|j: int| 0 <= j < i ==> out@[j].value() == items@[j].value(),
                    decreases items.len() - i,
                {
                    proof {
                        assert(decreases_to!(*self => (*self)->Arr_0));
                        assert(decreases_to!(items@ => items@[i as int]));
                    }
                    out.push(items[i].deep_copy());
                    i = i + 1;
                }
                proof {
                    lemma_arr_view(out@);
                    lemma_arr_view(items@);
                    assert(arr_view(out@) =~= arr_view(items@));
                }
                Json::Arr(out)
            }
            Json::Obj(fields) => {
                let mut out: Vec<(String, Json)> = Vec::new();
                let mut i: usize = 0;
                while i < fields.len()
                    invariant
                        0 <= i <= fields.len(),
                        out@.len() == i,
                        forall|j: int| 0 <= j < i ==> out@[j].0@ == fields@[j].0@
                            && out@[j].1.value() == fields@[j].1.value(),
                    decreases fields.len() - i,
                {
                    proof {
                        assert(decreases_to!(*self => (*self)->Obj_0));
                        assert(decreases_to!(fields@ => fields@[i as int]));
                    }
                    out.push((fields[i].0.clone(), fields[i].1.deep_copy()));
                    i = i + 1;
                }
                proof {
                    lemma_fields_view(out@);
                    lemma_fields_view(fields@);
                    assert(fields_view(out@) =~= fields_view(fields@));
                }
                Json::Obj(out)
            }
        }
    }
}

} // verus!
