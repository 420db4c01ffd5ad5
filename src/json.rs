use vstd::prelude::*;

verus! {

broadcast use vstd::std_specs::vec::group_vec_axioms;

/// A JSON value as the library reads and builds it.
///
/// Integers that fit an `i64` are held as `Int`; every other number keeps
/// its literal text in `Num`. Object entries keep their order.
pub enum Json {
    Null,
    Bool(bool),
    Int(i64),
    Num(String),
    Str(String),
    Array(Vec<Json>),
    Object(Vec<(String, Json)>),
}

/// The mathematical value of a [`Json`].
pub enum JsonV {
    Null,
    Bool(bool),
    Int(int),
    Num(Seq<char>),
    Str(Seq<char>),
    Array(Seq<JsonV>),
    Object(Seq<(Seq<char>, JsonV)>),
}

impl Json {
    pub open spec fn view(&self) -> JsonV
        decreases self,
    {
        match self {
            Json::Null => JsonV::Null,
            Json::Bool(b) => JsonV::Bool(*b),
            Json::Int(i) => JsonV::Int(*i as int),
            Json::Num(s) => JsonV::Num(s@),
            Json::Str(s) => JsonV::Str(s@),
            Json::Array(v) => JsonV::Array(view_items(v@)),
            Json::Object(v) => JsonV::Object(view_entries(v@)),
        }
    }
}

pub open spec fn view_items(s: Seq<Json>) -> Seq<JsonV>
    decreases s,
{
    if s.len() == 0 {
        Seq::empty()
    } else {
        seq![s[0].view()] + view_items(s.subrange(1, s.len() as int))
    }
}

pub open spec fn view_entries(s: Seq<(String, Json)>) -> Seq<(Seq<char>, JsonV)>
    decreases s,
{
    if s.len() == 0 {
        Seq::empty()
    } else {
        seq![(s[0].0@, s[0].1.view())] + view_entries(s.subrange(1, s.len() as int))
    }
}

pub proof fn lemma_view_items(s: Seq<Json>)
    ensures
        view_items(s).len() == s.len(),
        forall|i: int| 0 <= i < s.len() ==> #[trigger] view_items(s)[i] == s[i].view(),
    decreases s.len(),
{
    if s.len() > 0 {
        lemma_view_items(s.subrange(1, s.len() as int));
    }
}

pub proof fn lemma_view_entries(s: Seq<(String, Json)>)
    ensures
        view_entries(s).len() == s.len(),
        forall|i: int|
            0 <= i < s.len() ==> #[trigger] view_entries(s)[i] == (s[i].0@, s[i].1.view()),
    decreases s.len(),
{
    if s.len() > 0 {
        lemma_view_entries(s.subrange(1, s.len() as int));
    }
}

/// The value of the first entry at or after `i` whose key is `key`.
pub open spec fn lookup_from(es: Seq<(Seq<char>, JsonV)>, key: Seq<char>, i: int) -> Option<JsonV>
    decreases es.len() - i,
{
    if i < 0 || i >= es.len() {
        None
    } else if es[i].0 == key {
        Some(es[i].1)
    } else {
        lookup_from(es, key, i + 1)
    }
}

/// The value under `key` in an object (the first such entry), if any.
pub open spec fn field(j: JsonV, key: Seq<char>) -> Option<JsonV> {
    match j {
        JsonV::Object(es) => lookup_from(es, key, 0),
        _ => None,
    }
}

/// The string under `key`, if the entry is there and holds a string.
pub open spec fn field_str(j: JsonV, key: Seq<char>) -> Option<Seq<char>> {
    match field(j, key) {
        Some(JsonV::Str(s)) => Some(s),
        _ => None,
    }
}

/// The integer under `key`, if the entry is there and holds an integer.
pub open spec fn field_int(j: JsonV, key: Seq<char>) -> Option<int> {
    match field(j, key) {
        Some(JsonV::Int(n)) => Some(n),
        _ => None,
    }
}

/// The boolean under `key`, if the entry is there and holds a boolean.
pub open spec fn field_bool(j: JsonV, key: Seq<char>) -> Option<bool> {
    match field(j, key) {
        Some(JsonV::Bool(b)) => Some(b),
        _ => None,
    }
}

/// The value under `key`, unless it is absent or `null`.
pub open spec fn field_present(j: JsonV, key: Seq<char>) -> Option<JsonV> {
    match field(j, key) {
        Some(JsonV::Null) => None,
        other => other,
    }
}

pub open spec fn is_object(j: JsonV) -> bool {
    j is Object
}

/// Whether no entry of `es` has key `key`.
pub open spec fn lacks_key(es: Seq<(Seq<char>, JsonV)>, key: Seq<char>) -> bool {
    forall|i: int| 0 <= i < es.len() ==> #[trigger] es[i].0 != key
}

pub proof fn lemma_lookup_skip(es: Seq<(Seq<char>, JsonV)>, key: Seq<char>, i: int)
    requires
        0 <= i <= es.len(),
        forall|k: int| 0 <= k < i ==> #[trigger] es[k].0 != key,
    ensures
        lookup_from(es, key, 0) == lookup_from(es, key, i),
    decreases i,
{
    if i > 0 {
        lemma_lookup_skip(es, key, i - 1);
    }
}

/// Looking a key up after a prefix that lacks it is looking it up in the rest.
pub proof fn lemma_lookup_append(a: Seq<(Seq<char>, JsonV)>, b: Seq<(Seq<char>, JsonV)>, key: Seq<char>)
    requires
        lacks_key(a, key),
    ensures
        lookup_from(a + b, key, 0) == lookup_from(b, key, 0),
{
    let s = a + b;
    assert forall|k: int| 0 <= k < a.len() implies #[trigger] s[k].0 != key by {
        assert(s[k] == a[k]);
    }
    lemma_lookup_skip(s, key, a.len() as int);
    lemma_lookup_shift(a, b, key, 0);
}

proof fn lemma_lookup_shift(a: Seq<(Seq<char>, JsonV)>, b: Seq<(Seq<char>, JsonV)>, key: Seq<char>, j: int)
    requires
        0 <= j <= b.len(),
    ensures
        lookup_from(a + b, key, a.len() + j) == lookup_from(b, key, j),
    decreases b.len() - j,
{
    if j < b.len() {
        assert((a + b)[a.len() + j] == b[j]);
        lemma_lookup_shift(a, b, key, j + 1);
    }
}

/// A key absent from every entry is looked up as absent.
pub proof fn lemma_lookup_absent(es: Seq<(Seq<char>, JsonV)>, key: Seq<char>)
    requires
        lacks_key(es, key),
    ensures
        lookup_from(es, key, 0) is None,
{
    lemma_lookup_skip(es, key, es.len() as int);
}

/// The entries of an object built from `(key, optional value)` pairs: a pair
/// whose value is absent contributes no entry.
pub open spec fn obj_spec(fields: Seq<(Seq<char>, Option<JsonV>)>) -> Seq<(Seq<char>, JsonV)>
    decreases fields.len(),
{
    if fields.len() == 0 {
        Seq::empty()
    } else {
        let rest = obj_spec(fields.subrange(1, fields.len() as int));
        match fields[0].1 {
            Some(v) => seq![(fields[0].0, v)] + rest,
            None => rest,
        }
    }
}

pub open spec fn distinct_keys(fields: Seq<(Seq<char>, Option<JsonV>)>) -> bool {
    forall|i: int, j: int|
        0 <= i < fields.len() && 0 <= j < fields.len() && i != j ==> fields[i].0 != fields[j].0
}

proof fn lemma_obj_spec_keys(fields: Seq<(Seq<char>, Option<JsonV>)>, key: Seq<char>)
    requires
        forall|i: int| 0 <= i < fields.len() ==> #[trigger] fields[i].0 != key,
    ensures
        lacks_key(obj_spec(fields), key),
    decreases fields.len(),
{
    if fields.len() > 0 {
        let tail = fields.subrange(1, fields.len() as int);
        assert forall|i: int| 0 <= i < tail.len() implies #[trigger] tail[i].0 != key by {
            assert(tail[i] == fields[i + 1]);
        }
        lemma_obj_spec_keys(tail, key);
        let rest = obj_spec(tail);
        match fields[0].1 {
            Some(v) => {
                let s = seq![(fields[0].0, v)] + rest;
                assert forall|i: int| 0 <= i < s.len() implies #[trigger] s[i].0 != key by {
                    if i > 0 {
                        assert(s[i] == rest[i - 1]);
                    }
                }
            },
            None => {},
        }
    }
}

/// In an object built from pairs with distinct keys, the value under the
/// `k`-th key is the `k`-th value, or nothing where that value is absent.
pub proof fn lemma_obj_spec_field(fields: Seq<(Seq<char>, Option<JsonV>)>, k: int)
    requires
        distinct_keys(fields),
        0 <= k < fields.len(),
    ensures
        lookup_from(obj_spec(fields), fields[k].0, 0) == fields[k].1,
    decreases fields.len(),
{
    let key = fields[k].0;
    let tail = fields.subrange(1, fields.len() as int);
    let rest = obj_spec(tail);
    assert(distinct_keys(tail)) by {
        assert forall|i: int, j: int|
            0 <= i < tail.len() && 0 <= j < tail.len() && i != j implies tail[i].0 != tail[j].0 by {
            assert(tail[i] == fields[i + 1]);
            assert(tail[j] == fields[j + 1]);
        }
    }
    if k == 0 {
        assert forall|i: int| 0 <= i < tail.len() implies #[trigger] tail[i].0 != key by {
            assert(tail[i] == fields[i + 1]);
        }
        lemma_obj_spec_keys(tail, key);
        match fields[0].1 {
            Some(v) => {},
            None => {
                lemma_lookup_absent(rest, key);
            },
        }
    } else {
        assert(tail[k - 1] == fields[k]);
        lemma_obj_spec_field(tail, k - 1);
        match fields[0].1 {
            Some(v) => {
                let head = seq![(fields[0].0, v)];
                assert(lacks_key(head, key));
                lemma_lookup_append(head, rest, key);
            },
            None => {},
        }
    }
}

/// A string value owned by the library, built from a literal or a slice.
pub fn text(s: &str) -> (r: String)
    ensures
        r@ == s@,
{
    String::from_str(s)
}

pub open spec fn opt_view(o: Option<Json>) -> Option<JsonV> {
    match o {
        Some(j) => Some(j@),
        None => None,
    }
}

pub open spec fn view_fields(s: Seq<(String, Option<Json>)>) -> Seq<(Seq<char>, Option<JsonV>)> {
    Seq::new(s.len(), |i: int| (s[i].0@, opt_view(s[i].1)))
}

impl Json {
    /// An object holding, in order, each pair whose value is present.
    pub fn object_of(fields: Vec<(String, Option<Json>)>) -> (r: Json)
        ensures
            r@ == JsonV::Object(obj_spec(view_fields(fields@))),
    {
        let ghost all = fields@;
        let ghost fv = view_fields(all);
        let mut fields = fields;
        let mut out: Vec<(String, Json)> = Vec::new();
        proof {
            assert(fv.subrange(all.len() as int, all.len() as int) =~= Seq::<(Seq<char>, Option<JsonV>)>::empty());
        }
        while fields.len() > 0
            invariant
                fv == view_fields(all),
                fields@.len() <= all.len(),
                fields@ == all.subrange(0, fields@.len() as int),
                view_entries(out@) == obj_spec(fv.subrange(fields@.len() as int, all.len() as int)),
            decreases fields.len(),
        {
            let ghost i = (fields@.len() - 1) as int;
            let ghost old_out = out@;
            let pair = fields.pop().unwrap();
            let (k, v) = pair;
            proof {
                let tail = fv.subrange(i, all.len() as int);
                assert(tail[0] == fv[i]);
                assert(tail.subrange(1, tail.len() as int) =~= fv.subrange(i + 1, all.len() as int));
                assert(fields@ =~= all.subrange(0, i));
                assert(fv[i] == (k@, opt_view(v)));
                lemma_view_entries(old_out);
            }
            match v {
                Some(x) => {
                    out.insert(0, (k, x));
                    proof {
                        lemma_view_entries(out@);
                        let e = seq![(k@, x@)];
                        assert(view_entries(out@) =~= e + view_entries(old_out));
                    }
                },
                None => {},
            }
        }
        proof {
            assert(fv.subrange(0, all.len() as int) =~= fv);
        }
        Json::Object(out)
    }

    /// The value under `key` when `self` is an object.
    pub fn get(&self, key: &str) -> (r: Option<&Json>)
        ensures
            match r {
                Some(x) => field(self@, key@) == Some(x@),
                None => field(self@, key@) is None,
            },
    {
        match self {
            Json::Object(es) => {
                let k = text(key);
                proof {
                    lemma_view_entries(es@);
                }
                let ghost vs = view_entries(es@);
                let mut i: usize = 0;
                while i < es.len()
                    invariant
                        0 <= i <= es.len(),
                        vs == view_entries(es@),
                        *self == Json::Object(*es),
                        vs.len() == es@.len(),
                        forall|m: int| 0 <= m < es@.len() ==> #[trigger] vs[m] == (es@[m].0@, es@[m].1@),
                        k@ == key@,
                        lookup_from(vs, key@, 0) == lookup_from(vs, key@, i as int),
                    decreases es.len() - i,
                {
                    if es[i].0 == k {
                        assert(vs[i as int].0 == key@);
                        assert(lookup_from(vs, key@, i as int) == Some(vs[i as int].1));
                        assert(self@ == JsonV::Object(vs));
                        return Some(&es[i].1);
                    }
                    i = i + 1;
                }
                None
            },
            _ => None,
        }
    }

    /// The string under `key`.
    pub fn get_str(&self, key: &str) -> (r: Option<String>)
        ensures
            r matches Some(s) ==> field_str(self@, key@) == Some(s@),
            r is None ==> field_str(self@, key@) is None,
    {
        match self.get(key) {
            Some(Json::Str(s)) => Some(s.clone()),
            _ => None,
        }
    }

    /// The integer under `key`.
    pub fn get_int(&self, key: &str) -> (r: Option<i64>)
        ensures
            r matches Some(n) ==> field_int(self@, key@) == Some(n as int),
            r is None ==> field_int(self@, key@) is None,
    {
        match self.get(key) {
            Some(Json::Int(n)) => Some(*n),
            _ => None,
        }
    }

    /// The boolean under `key`.
    pub fn get_bool(&self, key: &str) -> (r: Option<bool>)
        ensures
            r == field_bool(self@, key@),
    {
        match self.get(key) {
            Some(Json::Bool(b)) => Some(*b),
            _ => None,
        }
    }

    /// A copy of the value under `key`, unless absent or `null`.
    pub fn get_present(&self, key: &str) -> (r: Option<Json>)
        ensures
            r matches Some(x) ==> field_present(self@, key@) == Some(x@),
            r is None ==> field_present(self@, key@) is None,
    {
        match self.get(key) {
            Some(Json::Null) => None,
            Some(x) => Some(x.deep_clone()),
            None => None,
        }
    }

    /// A copy with the same value.
    pub fn deep_clone(&self) -> (r: Json)
        ensures
            r@ == self@,
        decreases self,
    {
        match self {
            Json::Null => Json::Null,
            Json::Bool(b) => Json::Bool(*b),
            Json::Int(n) => Json::Int(*n),
            Json::Num(s) => Json::Num(s.clone()),
            Json::Str(s) => Json::Str(s.clone()),
            Json::Array(v) => {
                let mut out: Vec<Json> = Vec::new();
                let mut i: usize = 0;
                while i < v.len()
                    invariant
                        0 <= i <= v.len(),
                        out@.len() == i,
                        *self == Json::Array(*v),
                        forall|m: int| 0 <= m < i ==> #[trigger] out@[m].view() == v@[m].view(),
                    decreases v.len() - i,
                {
                    proof {
                        let vv = *v;
                        assert(decreases_to!(*self => self->Array_0));
                        assert(decreases_to!(vv => vv[i as int]));
                    }
                    let c = v[i].deep_clone();
                    out.push(c);
                    i = i + 1;
                }
                proof {
                    lemma_view_items(out@);
                    lemma_view_items(v@);
                    assert(view_items(out@) =~= view_items(v@));
                }
                Json::Array(out)
            },
            Json::Object(v) => {
                let mut out: Vec<(String, Json)> = Vec::new();
                let mut i: usize = 0;
                while i < v.len()
                    invariant
                        0 <= i <= v.len(),
                        out@.len() == i,
                        *self == Json::Object(*v),
                        forall|m: int|
                            0 <= m < i ==> #[trigger] out@[m].0@ == v@[m].0@ && out@[m].1.view()
                                == v@[m].1.view(),
                    decreases v.len() - i,
                {
                    proof {
                        let vv = *v;
                        assert(decreases_to!(*self => self->Object_0));
                        assert(decreases_to!(vv => vv[i as int]));
                        assert(decreases_to!(vv[i as int] => vv[i as int].1));
                    }
                    let c = v[i].1.deep_clone();
                    out.push((v[i].0.clone(), c));
                    i = i + 1;
                }
                proof {
                    lemma_view_entries(out@);
                    lemma_view_entries(v@);
                    assert(view_entries(out@) =~= view_entries(v@));
                }
                Json::Object(out)
            },
        }
    }
}

} // verus!
