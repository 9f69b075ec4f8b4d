use vstd::prelude::*;

verus! {

broadcast use vstd::std_specs::vec::axiom_vec_index_decreases;

/// A JSON number as the registry's wire format carries it. A floating-point
/// value is held by its IEEE-754 bit pattern so that the model stays within
/// machine integers; callers that need the numeric value itself reconstruct
/// it from the bits outside this library.
#[derive(Clone, Copy, PartialEq, Eq, Structural, Debug)]
pub enum JsonNumber {
    Int(i64),
    UInt(u64),
    FloatBits(u64),
}

/// An owned JSON document. Objects keep their fields as an ordered list of
/// key/value pairs; lookups take the first pair whose key matches.
#[derive(Debug)]
pub enum Json {
    Null,
    Bool(bool),
    Number(JsonNumber),
    Text(String),
    Array(Vec<Json>),
    Object(Vec<(String, Json)>),
}

/// The mathematical value of a `Json` tree: strings become sequences of
/// characters, arrays and objects become sequences. Contracts throughout the
/// crate speak of this value.
pub ghost enum JsonView {
    Null,
    Bool(bool),
    Number(JsonNumber),
    Text(Seq<char>),
    Array(Seq<JsonView>),
    Object(Seq<(Seq<char>, JsonView)>),
}

impl Json {
    /// The mathematical value of this document.
    pub open spec fn dv(self) -> JsonView
        decreases self,
    {
        match self {
            Json::Null => JsonView::Null,
            Json::Bool(b) => JsonView::Bool(b),
            Json::Number(n) => JsonView::Number(n),
            Json::Text(s) => JsonView::Text(s@),
            Json::Array(items) => JsonView::Array(vec_dv(items)),
            Json::Object(fields) => JsonView::Object(fields_dv(fields)),
        }
    }
}

/// The mathematical values of the elements of a JSON array.
pub open spec fn vec_dv(items: Vec<Json>) -> Seq<JsonView>
    decreases items,
{
    Seq::new(
        items@.len(),
        |i: int|
            if 0 <= i < items@.len() {
                items[i].dv()
            } else {
                JsonView::Null
            },
    )
}

/// The mathematical values of the fields of a JSON object.
pub open spec fn fields_dv(fields: Vec<(String, Json)>) -> Seq<(Seq<char>, JsonView)>
    decreases fields,
{
    Seq::new(
        fields@.len(),
        |i: int|
            if 0 <= i < fields@.len() {
                (fields[i].0@, fields[i].1.dv())
            } else {
                (Seq::empty(), JsonView::Null)
            },
    )
}

/// First-match lookup among the fields of an object.
pub open spec fn lookup_fields(fields: Seq<(Seq<char>, JsonView)>, key: Seq<char>) -> Option<
    JsonView,
>
    decreases fields.len(),
{
    if fields.len() == 0 {
        None
    } else if fields[0].0 == key {
        Some(fields[0].1)
    } else {
        lookup_fields(fields.drop_first(), key)
    }
}

/// The value of field `key` of `v`: `None` when `v` is not an object or has
/// no such field.
pub open spec fn lookup(v: JsonView, key: Seq<char>) -> Option<JsonView> {
    match v {
        JsonView::Object(fields) => lookup_fields(fields, key),
        _ => None,
    }
}

/// Character-by-character string equality, pinned to view equality.
pub fn str_eq(a: &str, b: &str) -> (r: bool)
    ensures
        r == (a@ == b@),
{
    let a_len = a.unicode_len();
    let b_len = b.unicode_len();
    if a_len != b_len {
        return false;
    }
    let mut i: usize = 0;
    while i < a_len
        invariant
            a_len == a@.len(),
            b_len == b@.len(),
            a_len == b_len,
            i <= a_len,
            forall|j: int| 0 <= j < i ==> a@[j] == b@[j],
        decreases a_len - i,
    {
        if a.get_char(i) != b.get_char(i) {
            return false;
        }
        i += 1;
    }
    proof {
        assert(a@ =~= b@);
    }
    true
}

proof fn lemma_lookup_fields_skip(fields: Seq<(Seq<char>, JsonView)>, key: Seq<char>, i: int)
    requires
        0 <= i < fields.len(),
        fields[i].0 != key,
    ensures
        lookup_fields(fields.skip(i), key) == lookup_fields(fields.skip(i + 1), key),
{
    assert(fields.skip(i)[0] == fields[i]);
    assert(fields.skip(i).drop_first() =~= fields.skip(i + 1));
}

impl Json {
    /// A borrow of the value of field `key`, when this document is an object
    /// that has one.
    pub fn get_field<'a>(&'a self, key: &str) -> (r: Option<&'a Json>)
        ensures
            match r {
                Some(j) => lookup(self.dv(), key@) == Some(j.dv()),
                None => lookup(self.dv(), key@) is None,
            },
    {
        match self {
            Json::Object(fields) => {
                let ghost gfields = self.dv()->Object_0;
                proof {
                    assert(gfields.skip(0) =~= gfields);
                }
                let mut i: usize = 0;
                while i < fields.len()
                    invariant
                        i <= fields@.len(),
                        gfields == fields_dv(*fields),
                        lookup(self.dv(), key@) == lookup_fields(gfields.skip(i as int), key@),
                    decreases fields@.len() - i,
                {
                    let pair = &fields[i];
                    if str_eq(pair.0.as_str(), key) {
                        proof {
                            assert(gfields.skip(i as int)[0] == gfields[i as int]);
                        }
                        return Some(&pair.1);
                    }
                    proof {
                        lemma_lookup_fields_skip(gfields, key@, i as int);
                    }
                    i += 1;
                }
                proof {
                    assert(gfields.skip(i as int) =~= Seq::<(Seq<char>, JsonView)>::empty());
                }
                None
            },
            _ => None,
        }
    }

    /// An owned copy of this document with the same mathematical value.
    #[verifier::loop_isolation(false)]
    pub fn duplicate(&self) -> (r: Json)
        ensures
            r.dv() == self.dv(),
        decreases *self,
    {
        match self {
            Json::Null => Json::Null,
            Json::Bool(b) => Json::Bool(*b),
            Json::Number(n) => Json::Number(*n),
            Json::Text(s) => Json::Text(s.clone()),
            Json::Array(items) => {
                let mut out: Vec<Json> = Vec::new();
                let mut i: usize = 0;
                while i < items.len()
                    invariant
                        i <= items@.len(),
                        out@.len() == i,
                        forall|j: int| 0 <= j < i ==> out[j].dv() == items[j].dv(),
                    decreases items@.len() - i,
                {
                    proof {
                        vstd::std_specs::vec::axiom_vec_index_decreases(*items, i as int);
                    }
                    out.push(items[i].duplicate());
                    i += 1;
                }
                proof {
                    assert(vec_dv(out) =~= vec_dv(*items));
                }
                Json::Array(out)
            },
            Json::Object(fields) => {
                let mut out: Vec<(String, Json)> = Vec::new();
                let mut i: usize = 0;
                while i < fields.len()
                    invariant
                        i <= fields@.len(),
                        out@.len() == i,
                        forall|j: int| 0 <= j < i ==> out[j].0@ == fields[j].0@ && out[j].1.dv()
                            == fields[j].1.dv(),
                    decreases fields@.len() - i,
                {
                    proof {
                        vstd::std_specs::vec::axiom_vec_index_decreases(*fields, i as int);
                    }
                    let pair = &fields[i];
                    out.push((pair.0.clone(), pair.1.duplicate()));
                    i += 1;
                }
                proof {
                    assert(fields_dv(out) =~= fields_dv(*fields));
                }
                Json::Object(out)
            },
        }
    }
}

} // verus!
