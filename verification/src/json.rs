//! JSON values as a snapshot stores them.
use vstd::prelude::*;
use crate::text::text_eq;

verus! {

broadcast use vstd::string::group_string_axioms;

/// A JSON number: a non-negative integer, a negative integer, or any other
/// number kept in its textual form.
#[derive(Debug, Clone)]
pub enum JsonNumber {
    Unsigned(u64),
    Negative(i64),
    Float(String),
}

/// A JSON value. An object is a list of key/value pairs; a lookup takes the
/// first pair with the key.
#[derive(Debug)]
pub enum JsonValue {
    Null,
    Bool(bool),
    Number(JsonNumber),
    Str(String),
    Array(Vec<JsonValue>),
    Object(Vec<(String, JsonValue)>),
}

/// The mathematical model of a [`JsonValue`].
pub enum JsonSpec {
    Null,
    Bool(bool),
    Unsigned(u64),
    Negative(i64),
    Float(Seq<char>),
    Str(Seq<char>),
    Array(Seq<JsonSpec>),
    Object(Seq<(Seq<char>, JsonSpec)>),
}

pub open spec fn json_model(v: JsonValue) -> JsonSpec
    decreases v,
{
    match v {
        JsonValue::Null => JsonSpec::Null,
        JsonValue::Bool(b) => JsonSpec::Bool(b),
        JsonValue::Number(JsonNumber::Unsigned(n)) => JsonSpec::Unsigned(n),
        JsonValue::Number(JsonNumber::Negative(n)) => JsonSpec::Negative(n),
        JsonValue::Number(JsonNumber::Float(t)) => JsonSpec::Float(t@),
        JsonValue::Str(s) => JsonSpec::Str(s@),
        JsonValue::Array(a) => JsonSpec::Array(
            Seq::new(
                a@.len(),
                |i: int|
                    if 0 <= i < a@.len() {
                        json_model(a@[i])
                    } else {
                        JsonSpec::Null
                    },
            ),
        ),
        JsonValue::Object(o) => JsonSpec::Object(
            Seq::new(
                o@.len(),
                |i: int|
                    if 0 <= i < o@.len() {
                        (o@[i].0@, json_model(o@[i].1))
                    } else {
                        (Seq::empty(), JsonSpec::Null)
                    },
            ),
        ),
    }
}

impl View for JsonValue {
    type V = JsonSpec;

    open spec fn view(&self) -> JsonSpec {
        json_model(*self)
    }
}

/// `Value::as_str`.
pub open spec fn json_as_str(j: JsonSpec) -> Option<Seq<char>> {
    match j {
        JsonSpec::Str(s) => Some(s),
        _ => None,
    }
}

/// `Value::as_u64`.
pub open spec fn json_as_u64(j: JsonSpec) -> Option<u64> {
    match j {
        JsonSpec::Unsigned(n) => Some(n),
        _ => None,
    }
}

/// The value of the first pair with key `key`.
pub open spec fn pairs_get(ps: Seq<(Seq<char>, JsonSpec)>, key: Seq<char>) -> Option<JsonSpec>
    decreases ps.len(),
{
    if ps.len() == 0 {
        None
    } else {
        let before = pairs_get(ps.drop_last(), key);
        if before is Some {
            before
        } else if ps.last().0 == key {
            Some(ps.last().1)
        } else {
            None
        }
    }
}

/// `Value::get` on an object: `None` for any other value.
pub open spec fn json_get(j: JsonSpec, key: Seq<char>) -> Option<JsonSpec> {
    match j {
        JsonSpec::Object(ps) => pairs_get(ps, key),
        _ => None,
    }
}

/// `json!` of an `Option<u32>`.
pub open spec fn json_opt_u32(o: Option<u32>) -> JsonSpec {
    match o {
        Some(v) => JsonSpec::Unsigned(v as u64),
        None => JsonSpec::Null,
    }
}

/// `json!` of an `Option<String>`.
pub open spec fn json_opt_str(o: Option<Seq<char>>) -> JsonSpec {
    match o {
        Some(s) => JsonSpec::Str(s),
        None => JsonSpec::Null,
    }
}

impl JsonValue {
    pub fn is_null(&self) -> (r: bool)
        ensures
            r == (self@ is Null),
    {
        match self {
            JsonValue::Null => true,
            _ => false,
        }
    }

    pub fn as_str(&self) -> (r: Option<&String>)
        ensures
            match r {
                Some(s) => json_as_str(self@) == Some(s@),
                None => json_as_str(self@) is None,
            },
    {
        match self {
            JsonValue::Str(s) => Some(s),
            _ => None,
        }
    }

    pub fn as_u64(&self) -> (r: Option<u64>)
        ensures
            r == json_as_u64(self@),
    {
        match self {
            JsonValue::Number(JsonNumber::Unsigned(n)) => Some(*n),
            _ => None,
        }
    }

    pub fn is_object(&self) -> (r: bool)
        ensures
            r == (self@ is Object),
    {
        match self {
            JsonValue::Object(_) => true,
            _ => false,
        }
    }

    pub fn get(&self, key: &str) -> (r: Option<&JsonValue>)
        ensures
            match r {
                Some(v) => json_get(self@, key@) == Some(v@),
                None => json_get(self@, key@) is None,
            },
    {
        match self {
            JsonValue::Object(ps) => {
                let ghost m = self@->Object_0;
                assert(json_get(self@, key@) == pairs_get(m, key@));
                assert(m.len() == ps@.len());
                let mut i: usize = 0;
                assert(m.take(0) =~= seq![]);
                while i < ps.len()
                    invariant
                        i <= ps.len(),
                        m.len() == ps@.len(),
                        json_get(self@, key@) == pairs_get(m, key@),
                        forall|k: int| 0 <= k < ps@.len() ==> #[trigger] m[k] == (ps@[k].0@, ps@[k].1@),
                        pairs_get(m.take(i as int), key@) is None,
                    decreases ps.len() - i,
                {
                    assert(m.take(i + 1).drop_last() =~= m.take(i as int));
                    assert(m[i as int] == (ps@[i as int].0@, ps@[i as int].1@));
                    if text_eq(ps[i].0.as_str(), key) {
                        proof {
                            assert(m.take(i + 1).last() == m[i as int]);
                            assert(pairs_get(m.take(i + 1), key@) == Some(ps@[i as int].1@));
                            lemma_pairs_get_extend(m, i as int + 1, key@);
                        }
                        return Some(&ps[i].1);
                    }
                    i += 1;
                }
                assert(m.take(i as int) =~= m);
                None
            },
            _ => None,
        }
    }
}

/// A key that no pair has is not found.
pub proof fn lemma_pairs_get_absent(ps: Seq<(Seq<char>, JsonSpec)>, key: Seq<char>)
    requires
        forall|j: int| 0 <= j < ps.len() ==> (#[trigger] ps[j]).0 != key,
    ensures
        pairs_get(ps, key) is None,
    decreases ps.len(),
{
    if ps.len() > 0 {
        lemma_pairs_get_absent(ps.drop_last(), key);
    }
}

/// The pair at `i` is found by its key when no earlier pair has that key.
pub proof fn lemma_pairs_get_at(ps: Seq<(Seq<char>, JsonSpec)>, i: int)
    requires
        0 <= i < ps.len(),
        forall|j: int| 0 <= j < i ==> (#[trigger] ps[j]).0 != ps[i].0,
    ensures
        pairs_get(ps, ps[i].0) == Some(ps[i].1),
    decreases ps.len(),
{
    if i == ps.len() - 1 {
        lemma_pairs_get_absent(ps.drop_last(), ps[i].0);
    } else {
        lemma_pairs_get_at(ps.drop_last(), i);
    }
}

/// A pair found in a prefix is the pair found in the whole.
pub proof fn lemma_pairs_get_extend(ps: Seq<(Seq<char>, JsonSpec)>, k: int, key: Seq<char>)
    requires
        0 <= k <= ps.len(),
        pairs_get(ps.take(k), key) is Some,
    ensures
        pairs_get(ps, key) == pairs_get(ps.take(k), key),
    decreases ps.len() - k,
{
    if k < ps.len() {
        assert(ps.take(k + 1).drop_last() =~= ps.take(k));
        lemma_pairs_get_extend(ps, k + 1, key);
    } else {
        assert(ps.take(k) =~= ps);
    }
}

pub fn json_of_opt_u32(o: Option<u32>) -> (r: JsonValue)
    ensures
        r@ == json_opt_u32(o),
{
    match o {
        Some(v) => JsonValue::Number(JsonNumber::Unsigned(v as u64)),
        None => JsonValue::Null,
    }
}

pub fn json_of_opt_string(o: Option<String>) -> (r: JsonValue)
    ensures
        r@ == json_opt_str(
            match o {
                Some(s) => Some(s@),
                None => None,
            },
        ),
{
    match o {
        Some(s) => JsonValue::Str(s),
        None => JsonValue::Null,
    }
}

pub fn json_str(s: &str) -> (r: JsonValue)
    ensures
        r@ == JsonSpec::Str(s@),
{
    JsonValue::Str(s.to_string())
}

pub fn json_unsigned(n: u64) -> (r: JsonValue)
    ensures
        r@ == JsonSpec::Unsigned(n),
{
    JsonValue::Number(JsonNumber::Unsigned(n))
}

/// An object of two pairs, in this order.
pub fn json_object2(k1: &str, v1: JsonValue, k2: &str, v2: JsonValue) -> (r: JsonValue)
    ensures
        r@ == JsonSpec::Object(seq![(k1@, v1@), (k2@, v2@)]),
{
    let ghost m1 = v1@;
    let ghost m2 = v2@;
    let mut ps: Vec<(String, JsonValue)> = Vec::new();
    ps.push((k1.to_string(), v1));
    ps.push((k2.to_string(), v2));
    let r = JsonValue::Object(ps);
    assert(r@->Object_0 =~= seq![(k1@, m1), (k2@, m2)]);
    r
}

/// An object of three pairs, in this order.
pub fn json_object3(k1: &str, v1: JsonValue, k2: &str, v2: JsonValue, k3: &str, v3: JsonValue) -> (r: JsonValue)
    ensures
        r@ == JsonSpec::Object(seq![(k1@, v1@), (k2@, v2@), (k3@, v3@)]),
{
    let ghost m1 = v1@;
    let ghost m2 = v2@;
    let ghost m3 = v3@;
    let mut ps: Vec<(String, JsonValue)> = Vec::new();
    ps.push((k1.to_string(), v1));
    ps.push((k2.to_string(), v2));
    ps.push((k3.to_string(), v3));
    let r = JsonValue::Object(ps);
    assert(r@->Object_0 =~= seq![(k1@, m1), (k2@, m2), (k3@, m3)]);
    r
}

/// An array of the given values, in order.
pub fn json_array(items: Vec<JsonValue>) -> (r: JsonValue)
    ensures
        r@ == JsonSpec::Array(Seq::new(items@.len(), |i: int| items@[i]@)),
{
    let ghost m = items@;
    let r = JsonValue::Array(items);
    assert(r@->Array_0 =~= Seq::new(m.len(), |i: int| m[i]@));
    r
}

} // verus!
