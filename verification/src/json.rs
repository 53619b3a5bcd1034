//! A small JSON representation: the tree that the wire values are parsed
//! into, and its mathematical view.

use vstd::prelude::*;

verus! {

/// A parsed JSON document.
///
/// Numbers that are plain integers fitting an `i128` are held as `Int`; any
/// other well-formed number (a fraction, an exponent, an out-of-range
/// integer) keeps its lexeme as `NumberLexeme`, so that a document can be
/// carried through unchanged even where no field of this library reads it.
#[derive(Debug)]
pub enum JsonValue {
    Null,
    Bool(bool),
    Int(i128),
    NumberLexeme(String),
    Str(String),
    Arr(Vec<JsonValue>),
    Obj(Vec<(String, JsonValue)>),
}

/// The mathematical view of a [`JsonValue`].
#[verifier::ext_equal]
pub enum SpecJson {
    Null,
    Bool(bool),
    Int(int),
    NumberLexeme(Seq<char>),
    Str(Seq<char>),
    Arr(Seq<SpecJson>),
    Obj(Seq<(Seq<char>, SpecJson)>),
}

/// The views of the first `n` elements of a JSON array.
pub open spec fn spec_view_arr(a: Vec<JsonValue>, n: int) -> Seq<SpecJson>
    decreases a, n,
{
    if 0 < n <= a@.len() {
        spec_view_arr(a, n - 1).push(a@[n - 1].spec_view())
    } else {
        Seq::empty()
    }
}

/// The views of the first `n` members of a JSON object.
pub open spec fn spec_view_obj(o: Vec<(String, JsonValue)>, n: int) -> Seq<(Seq<char>, SpecJson)>
    decreases o, n,
{
    if 0 < n <= o@.len() {
        spec_view_obj(o, n - 1).push((o@[n - 1].0@, o@[n - 1].1.spec_view()))
    } else {
        Seq::empty()
    }
}

impl JsonValue {
    pub open spec fn spec_view(self) -> SpecJson
        decreases self,
    {
        match self {
            JsonValue::Null => SpecJson::Null,
            JsonValue::Bool(b) => SpecJson::Bool(b),
            JsonValue::Int(n) => SpecJson::Int(n as int),
            JsonValue::NumberLexeme(s) => SpecJson::NumberLexeme(s@),
            JsonValue::Str(s) => SpecJson::Str(s@),
            JsonValue::Arr(a) => SpecJson::Arr(spec_view_arr(a, a@.len() as int)),
            JsonValue::Obj(o) => SpecJson::Obj(spec_view_obj(o, o@.len() as int)),
        }
    }
}

/// Each element of the view of an array is the view of the element.
pub proof fn lemma_view_arr(a: Vec<JsonValue>, n: int)
    requires
        0 <= n <= a@.len(),
    ensures
        spec_view_arr(a, n).len() == n,
        forall|i: int| 0 <= i < n ==> spec_view_arr(a, n)[i] == a@[i].spec_view(),
    decreases n,
{
    if 0 < n {
        lemma_view_arr(a, n - 1);
    }
}

/// Each member of the view of an object is the key's view paired with the
/// value's view.
pub proof fn lemma_view_obj(o: Vec<(String, JsonValue)>, n: int)
    requires
        0 <= n <= o@.len(),
    ensures
        spec_view_obj(o, n).len() == n,
        forall|i: int|
            0 <= i < n ==> spec_view_obj(o, n)[i] == (o@[i].0@, o@[i].1.spec_view()),
    decreases n,
{
    if 0 < n {
        lemma_view_obj(o, n - 1);
    }
}

impl View for JsonValue {
    type V = SpecJson;

    open spec fn view(&self) -> SpecJson {
        self.spec_view()
    }
}

/// The value bound to `key` among `members`: the first binding wins.
pub open spec fn spec_obj_get(members: Seq<(Seq<char>, SpecJson)>, key: Seq<char>) -> Option<
    SpecJson,
>
    decreases members.len(),
{
    if members.len() == 0 {
        None
    } else if members[0].0 == key {
        Some(members[0].1)
    } else {
        spec_obj_get(members.drop_first(), key)
    }
}

/// The field of a JSON object: `None` on any other kind of value.
pub open spec fn spec_get(j: SpecJson, key: Seq<char>) -> Option<SpecJson> {
    match j {
        SpecJson::Obj(members) => spec_obj_get(members, key),
        _ => None,
    }
}

impl JsonValue {
    /// Looks a field up in a JSON object; `None` for a missing field and for
    /// every non-object value.
    pub fn get<'a>(&'a self, key: &str) -> (r: Option<&'a JsonValue>)
        ensures
            match r {
                Some(v) => spec_get(self@, key@) == Some(v@),
                None => spec_get(self@, key@) is None,
            },
    {
        match self {
            JsonValue::Obj(members) => {
                proof {
                    lemma_view_obj(*members, members.len() as int);
                }
                let ghost whole = spec_view_obj(*members, members@.len() as int);
                proof {
                    assert(whole.skip(0) =~= whole);
                }
                let n = members.len();
                let mut i: usize = 0;
                while i < n
                    invariant
                        n == members.len(),
                        i <= n,
                        self@ == SpecJson::Obj(whole),
                        whole == spec_view_obj(*members, members@.len() as int),
                        whole.len() == n,
                        forall|k: int|
                            0 <= k < n ==> whole[k] == (members@[k].0@, members@[k].1.spec_view()),
                        spec_obj_get(whole, key@) == spec_obj_get(whole.skip(i as int), key@),
                    decreases n - i,
                {
                    let entry = &members[i];
                    if crate::strings::str_eq(entry.0.as_str(), key) {
                        proof {
                            assert(whole.skip(i as int)[0] == whole[i as int]);
                            assert(spec_obj_get(whole.skip(i as int), key@) == Some(
                                whole[i as int].1,
                            ));
                            assert(entry.1@ == whole[i as int].1);
                        }
                        return Some(&entry.1);
                    }
                    proof {
                        assert(whole.skip(i as int)[0] == whole[i as int]);
                        assert(whole.skip(i as int).drop_first() =~= whole.skip(i as int + 1));
                    }
                    i += 1;
                }
                proof {
                    assert(whole.skip(n as int) =~= Seq::empty());
                }
                None
            },
            _ => None,
        }
    }
}

} // verus!
