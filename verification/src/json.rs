//! The library's own model of a structured (JSON) value.
//!
//! The pipeline only ever reads object fields and string leaves (and, for
//! the allow-list file, an array of strings), so numeric leaves are kept
//! as an unmodelled marker. Parsing itself is done by `serde_json` behind
//! trusted wrappers; everything that reads a parsed value is verified.

use vstd::prelude::*;

verus! {

/// A structured value decoded from JSON text.
pub enum Json {
    Null,
    Bool(bool),
    Num,
    Str(String),
    Arr(Vec<Json>),
    Obj(Vec<(String, Json)>),
}

/// The mathematical shape of a [`Json`] value.
#[verifier::ext_equal]
pub ghost enum JsonV {
    Null,
    Bool(bool),
    Num,
    Str(Seq<char>),
    Arr(Seq<JsonV>),
    Obj(Seq<(Seq<char>, JsonV)>),
}

impl View for Json {
    type V = JsonV;

    open spec fn view(&self) -> JsonV {
        self.shape()
    }
}

impl Json {
    /// The mathematical shape of this value.
    pub open spec fn shape(self) -> JsonV
        decreases self,
        via Self::shape_decreases
    {
        match self {
            Json::Null => JsonV::Null,
            Json::Bool(b) => JsonV::Bool(b),
            Json::Num => JsonV::Num,
            Json::Str(s) => JsonV::Str(s@),
            Json::Arr(items) => JsonV::Arr(Json::arr_shape(items@)),
            Json::Obj(entries) => JsonV::Obj(Json::obj_shape(entries@)),
        }
    }

    #[via_fn]
    proof fn shape_decreases(self) {
        match self {
            Json::Arr(items) => {
                assert(decreases_to!(self => items));
                assert(decreases_to!(items => items@));
            },
            Json::Obj(entries) => {
                assert(decreases_to!(self => entries));
                assert(decreases_to!(entries => entries@));
            },
            _ => {},
        }
    }

    /// The shapes of the elements of an array, in order.
    pub open spec fn arr_shape(items: Seq<Json>) -> Seq<JsonV>
        decreases items, items.len(),
    {
        if items.len() == 0 {
            Seq::empty()
        } else {
            seq![items[0].shape()] + Json::arr_shape(items.drop_first())
        }
    }

    /// The keys and shapes of the entries of an object, in order.
    pub open spec fn obj_shape(entries: Seq<(String, Json)>) -> Seq<(Seq<char>, JsonV)>
        decreases entries, entries.len(),
        via Self::obj_shape_decreases
    {
        if entries.len() == 0 {
            Seq::empty()
        } else {
            seq![(entries[0].0@, entries[0].1.shape())] + Json::obj_shape(entries.drop_first())
        }
    }

    #[via_fn]
    proof fn obj_shape_decreases(entries: Seq<(String, Json)>) {
        if entries.len() > 0 {
            assert(decreases_to!(entries => entries[0]));
            assert(decreases_to!(entries[0] => entries[0].1));
        }
    }
}

/// `arr_shape` is the elementwise shape of its argument.
pub proof fn lemma_arr_shape(items: Seq<Json>)
    ensures
        Json::arr_shape(items).len() == items.len(),
        forall|i: int|
            0 <= i < items.len() ==> #[trigger] Json::arr_shape(items)[i] == items[i].shape(),
    decreases items.len(),
{
    if items.len() > 0 {
        lemma_arr_shape(items.drop_first());
    }
}

/// `obj_shape` is the elementwise key and shape of its argument.
pub proof fn lemma_obj_shape(entries: Seq<(String, Json)>)
    ensures
        Json::obj_shape(entries).len() == entries.len(),
        forall|i: int|
            0 <= i < entries.len() ==> #[trigger] Json::obj_shape(entries)[i] == (
            entries[i].0@,
            entries[i].1.shape(),
            ),
    decreases entries.len(),
{
    if entries.len() > 0 {
        lemma_obj_shape(entries.drop_first());
    }
}

/// First entry of `entries` whose key is `key`, if any.
pub open spec fn obj_lookup(entries: Seq<(Seq<char>, JsonV)>, key: Seq<char>) -> Option<JsonV>
    decreases entries.len(),
{
    if entries.len() == 0 {
        None
    } else if entries[0].0 == key {
        Some(entries[0].1)
    } else {
        obj_lookup(entries.drop_first(), key)
    }
}

/// The field `key` of an object value; `None` on any other shape.
pub open spec fn get_of(j: JsonV, key: Seq<char>) -> Option<JsonV> {
    match j {
        JsonV::Obj(entries) => obj_lookup(entries, key),
        _ => None,
    }
}

/// The characters of a string value; `None` on any other shape.
pub open spec fn str_of(j: JsonV) -> Option<Seq<char>> {
    match j {
        JsonV::Str(s) => Some(s),
        _ => None,
    }
}

pub open spec fn all_strings(items: Seq<JsonV>) -> bool {
    forall|i: int| 0 <= i < items.len() ==> items[i] is Str
}

/// The elements of an array value whose elements are all strings;
/// `None` on any other shape.
pub open spec fn string_array_of(j: JsonV) -> Option<Seq<Seq<char>>> {
    match j {
        JsonV::Arr(items) => if all_strings(items) {
            Some(Seq::new(items.len(), |i: int| items[i]->Str_0))
        } else {
            None
        },
        _ => None,
    }
}

impl Json {
    /// Looks up `key` among the entries of an object value.
    pub fn get<'a>(&'a self, key: &String) -> (r: Option<&'a Json>)
        ensures
            match r {
                Some(j) => get_of(self@, key@) == Some(j@),
                None => get_of(self@, key@) is None,
            },
    {
        match self {
            Json::Obj(entries) => {
                let ghost es = self@->Obj_0;
                proof {
                    lemma_obj_shape(entries@);
                    assert(self@ is Obj);
                    assert(es.skip(0) =~= es);
                }
                let n = entries.len();
                let mut i: usize = 0;
                while i < n
                    invariant
                        n == entries@.len(),
                        i <= n,
                        self@ == JsonV::Obj(es),
                        es.len() == entries@.len(),
                        forall|k: int|
                            0 <= k < es.len() ==> #[trigger] es[k] == (
                            entries@[k].0@,
                            entries@[k].1@,
                            ),
                        obj_lookup(es.skip(i as int), key@) == obj_lookup(es, key@),
                    decreases n - i,
                {
                    if entries[i].0 == *key {
                        proof {
                            assert(es.skip(i as int)[0] == es[i as int]);
                            assert(obj_lookup(es.skip(i as int), key@) == Some(es[i as int].1));
                        }
                        return Some(&entries[i].1);
                    }
                    proof {
                        assert(es.skip(i as int)[0] == es[i as int]);
                        assert(es.skip(i as int).drop_first() =~= es.skip(i as int + 1));
                    }
                    i = i + 1;
                }
                proof {
                    assert(es.skip(n as int).len() == 0);
                }
                None
            },
            _ => None,
        }
    }

    /// The string held by a string value.
    pub fn as_str<'a>(&'a self) -> (r: Option<&'a String>)
        ensures
            match r {
                Some(s) => str_of(self@) == Some(s@),
                None => str_of(self@) is None,
            },
    {
        match self {
            Json::Str(s) => Some(s),
            _ => None,
        }
    }

    /// The elements of an array value, if they are all strings.
    pub fn string_array(&self) -> (r: Option<Vec<String>>)
        ensures
            match r {
                Some(v) => string_array_of(self@) == Some(v.deep_view()),
                None => string_array_of(self@) is None,
            },
    {
        match self {
            Json::Arr(items) => {
                let ghost iv = self@->Arr_0;
                proof {
                    lemma_arr_shape(items@);
                    assert(self@ is Arr);
                }
                let n = items.len();
                let mut out: Vec<String> = Vec::new();
                let mut i: usize = 0;
                while i < n
                    invariant
                        n == items@.len(),
                        i <= n,
                        self@ == JsonV::Arr(iv),
                        iv.len() == items@.len(),
                        forall|k: int| 0 <= k < iv.len() ==> #[trigger] iv[k] == items@[k]@,
                        out@.len() == i as int,
                        forall|k: int| 0 <= k < i as int ==> iv[k] is Str,
                        forall|k: int| 0 <= k < i as int ==> #[trigger] out@[k]@ == iv[k]->Str_0,
                    decreases n - i,
                {
                    match &items[i] {
                        Json::Str(s) => {
                            out.push(s.clone());
                        },
                        _ => {
                            proof {
                                assert(!(iv[i as int] is Str));
                                assert(!all_strings(iv));
                            }
                            return None;
                        },
                    }
                    i = i + 1;
                }
                proof {
                    assert(all_strings(iv));
                    assert(out.deep_view() =~= Seq::new(iv.len(), |k: int| iv[k]->Str_0));
                }
                Some(out)
            },
            _ => None,
        }
    }
}

/// What a `serde_json::Value` holds, as the library models it.
pub uninterp spec fn json_value_of(v: serde_json::Value) -> JsonV;

/// The value denoted by `b` as JSON text, if `b` is well-formed JSON.
pub uninterp spec fn json_parse(b: Seq<u8>) -> Option<JsonV>;

#[verifier::external_type_specification]
#[verifier::external_body]
pub struct ExValue(serde_json::Value);

/// Relies on serde_json::from_slice: whether the bytes are well-formed
/// JSON, and the value they denote, depend on the bytes alone.
#[verifier::external_body]
fn parse_raw(b: &[u8]) -> (r: Option<serde_json::Value>)
    ensures
        match r {
            Some(v) => json_parse(b@) == Some(json_value_of(v)),
            None => json_parse(b@) is None,
        },
{
    serde_json::from_slice::<serde_json::Value>(b).ok()
}

/// Relies on serde_json::Value's variants: one arm per variant, moving the
/// variant's contents into the library's own value, recursively.
#[verifier::external_body]
fn json_of_value(v: serde_json::Value) -> (r: Json)
    ensures
        r@ == json_value_of(v),
{
    match v {
        serde_json::Value::Null => Json::Null,
        serde_json::Value::Bool(b) => Json::Bool(b),
        serde_json::Value::Number(_) => Json::Num,
        serde_json::Value::String(s) => Json::Str(s),
        serde_json::Value::Array(a) => Json::Arr(a.into_iter().map(json_of_value).collect()),
        serde_json::Value::Object(o) => Json::Obj(
            o.into_iter().map(|(k, x)| (k, json_of_value(x))).collect(),
        ),
    }
}

/// Parses bytes as JSON into the library's own value.
pub fn parse_json(b: &[u8]) -> (r: Option<Json>)
    ensures
        match r {
            Some(j) => json_parse(b@) == Some(j@),
            None => json_parse(b@) is None,
        },
{
    match parse_raw(b) {
        Some(v) => Some(json_of_value(v)),
        None => None,
    }
}

} // verus!
