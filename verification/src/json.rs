use vstd::prelude::*;

verus! {

/// A JSON number, in the three forms that a JSON parser gives it: a
/// non-negative integer, a negative integer, or a floating-point number
/// (held here by its IEEE-754 bit pattern).
#[derive(Clone, Copy, Debug, PartialEq, Eq, Structural)]
pub enum JsonNumber {
    PosInt(u64),
    NegInt(i64),
    FloatBits(u64),
}

/// A JSON document. An object keeps its members in order; a parser never
/// gives one key twice.
#[derive(Debug)]
pub enum JsonValue {
    Null,
    Bool(bool),
    Number(JsonNumber),
    String(String),
    Array(Vec<JsonValue>),
    Object(Vec<(String, JsonValue)>),
}

/// The mathematical model of a JSON document.
#[verifier::ext_equal]
pub enum JsonView {
    Null,
    Bool(bool),
    Number(JsonNumber),
    Str(Seq<char>),
    Array(Seq<JsonView>),
    Object(Seq<(Seq<char>, JsonView)>),
}

impl JsonValue {
    pub open spec fn to_view(self) -> JsonView
        decreases self,
    {
        match self {
            JsonValue::Null => JsonView::Null,
            JsonValue::Bool(b) => JsonView::Bool(b),
            JsonValue::Number(n) => JsonView::Number(n),
            JsonValue::String(s) => JsonView::Str(s@),
            JsonValue::Array(items) => JsonView::Array(
                Seq::new(
                    items@.len(),
                    |i: int|
                        if 0 <= i < items@.len() {
                            items@[i].to_view()
                        } else {
                            JsonView::Null
                        },
                ),
            ),
            JsonValue::Object(entries) => JsonView::Object(
                Seq::new(
                    entries@.len(),
                    |i: int|
                        if 0 <= i < entries@.len() {
                            (entries@[i].0@, entries@[i].1.to_view())
                        } else {
                            (Seq::empty(), JsonView::Null)
                        },
                ),
            ),
        }
    }
}

impl View for JsonValue {
    type V = JsonView;

    open spec fn view(&self) -> JsonView {
        self.to_view()
    }
}

/// The models of a sequence of JSON documents.
pub open spec fn view_items(items: Seq<JsonValue>) -> Seq<JsonView> {
    Seq::new(items.len(), |i: int| items[i]@)
}

/// The models of a sequence of object members.
pub open spec fn view_entries(entries: Seq<(String, JsonValue)>) -> Seq<(Seq<char>, JsonView)> {
    Seq::new(entries.len(), |i: int| (entries[i].0@, entries[i].1@))
}

/// The value of the first member named `key`, if any.
pub open spec fn lookup(entries: Seq<(Seq<char>, JsonView)>, key: Seq<char>) -> Option<JsonView>
    decreases entries.len(),
{
    if entries.len() == 0 {
        None
    } else if entries[0].0 == key {
        Some(entries[0].1)
    } else {
        lookup(entries.drop_first(), key)
    }
}

/// The member `key` of an object; nothing for any other document.
pub open spec fn field(v: JsonView, key: Seq<char>) -> Option<JsonView> {
    match v {
        JsonView::Object(entries) => lookup(entries, key),
        _ => None,
    }
}

/// The text of a JSON string.
pub open spec fn str_of(v: JsonView) -> Option<Seq<char>> {
    match v {
        JsonView::Str(s) => Some(s),
        _ => None,
    }
}

/// The value of a JSON boolean.
pub open spec fn bool_of(v: JsonView) -> Option<bool> {
    match v {
        JsonView::Bool(b) => Some(b),
        _ => None,
    }
}

/// A JSON number as a signed 64-bit integer, where it is an integer in range.
pub open spec fn i64_of(v: JsonView) -> Option<i64> {
    match v {
        JsonView::Number(JsonNumber::PosInt(n)) => if n <= i64::MAX {
            Some(n as i64)
        } else {
            None
        },
        JsonView::Number(JsonNumber::NegInt(n)) => Some(n),
        _ => None,
    }
}

/// The elements of a JSON array.
pub open spec fn items_of(v: JsonView) -> Option<Seq<JsonView>> {
    match v {
        JsonView::Array(items) => Some(items),
        _ => None,
    }
}

/// The texts of the string elements, in order; other elements are skipped.
pub open spec fn strings_in(items: Seq<JsonView>) -> Seq<Seq<char>>
    decreases items.len(),
{
    if items.len() == 0 {
        Seq::empty()
    } else {
        let rest = strings_in(items.drop_last());
        match items.last() {
            JsonView::Str(s) => rest.push(s),
            _ => rest,
        }
    }
}

/// The models of an optional document.
pub open spec fn view_opt(o: Option<&JsonValue>) -> Option<JsonView> {
    match o {
        Some(v) => Some(v@),
        None => None,
    }
}

proof fn lemma_array_view(items: Vec<JsonValue>)
    ensures
        JsonValue::Array(items)@ == JsonView::Array(view_items(items@)),
{
    let v = JsonValue::Array(items)@;
    assert(v->Array_0 =~= view_items(items@));
}

proof fn lemma_object_view(entries: Vec<(String, JsonValue)>)
    ensures
        JsonValue::Object(entries)@ == JsonView::Object(view_entries(entries@)),
{
    let v = JsonValue::Object(entries)@;
    assert(v->Object_0 =~= view_entries(entries@));
}

/// Looks a member up by name in a list of object members: the first member
/// with that name, if any.
pub fn lookup_entry<'a>(entries: &'a Vec<(String, JsonValue)>, key: &str) -> (r: Option<&'a JsonValue>)
    ensures
        view_opt(r) == lookup(view_entries(entries@), key@),
{
    let k = key.to_owned();
    let ghost all = view_entries(entries@);
    let mut i: usize = 0;
    assert(all.skip(0) =~= all);
    while i < entries.len()
        invariant
            k@ == key@,
            all == view_entries(entries@),
            i <= entries.len(),
            lookup(all, key@) == lookup(all.skip(i as int), key@),
        decreases entries.len() - i,
    {
        assert(all.skip(i as int)[0] == all[i as int]);
        if entries[i].0 == k {
            return Some(&entries[i].1);
        }
        assert(all.skip(i as int).drop_first() =~= all.skip(i + 1));
        i = i + 1;
    }
    assert(all.skip(i as int).len() == 0);
    None
}

/// Builds a JSON string.
pub fn json_str(s: &str) -> (r: JsonValue)
    ensures
        r@ == JsonView::Str(s@),
{
    JsonValue::String(s.to_owned())
}

/// Builds a JSON array.
pub fn json_array(items: Vec<JsonValue>) -> (r: JsonValue)
    ensures
        r@ == JsonView::Array(view_items(items@)),
{
    proof { lemma_array_view(items); }
    JsonValue::Array(items)
}

/// Builds a JSON object from its members, in the order given.
pub fn json_object(entries: Vec<(String, JsonValue)>) -> (r: JsonValue)
    ensures
        r@ == JsonView::Object(view_entries(entries@)),
{
    proof { lemma_object_view(entries); }
    JsonValue::Object(entries)
}

impl JsonValue {
    /// The member `key` of an object (`None` for any other document).
    pub fn get(&self, key: &str) -> (r: Option<&JsonValue>)
        ensures
            view_opt(r) == field(self@, key@),
    {
        match self {
            JsonValue::Object(entries) => {
                proof { lemma_object_view(*entries); }
                lookup_entry(entries, key)
            },
            _ => None,
        }
    }

    /// The text of a JSON string.
    pub fn as_str(&self) -> (r: Option<&str>)
        ensures
            match r {
                Some(s) => str_of(self@) == Some(s@),
                None => str_of(self@) is None,
            },
    {
        match self {
            JsonValue::String(s) => Some(s.as_str()),
            _ => None,
        }
    }

    /// The value of a JSON boolean.
    pub fn as_bool(&self) -> (r: Option<bool>)
        ensures
            r == bool_of(self@),
    {
        match self {
            JsonValue::Bool(b) => Some(*b),
            _ => None,
        }
    }

    /// The number as a signed 64-bit integer, where it is an integer in range.
    pub fn as_i64(&self) -> (r: Option<i64>)
        ensures
            r == i64_of(self@),
    {
        match self {
            JsonValue::Number(JsonNumber::PosInt(n)) => {
                if *n <= 0x7fff_ffff_ffff_ffffu64 {
                    Some(*n as i64)
                } else {
                    None
                }
            },
            JsonValue::Number(JsonNumber::NegInt(n)) => Some(*n),
            _ => None,
        }
    }

    /// The elements of a JSON array.
    pub fn as_array(&self) -> (r: Option<&Vec<JsonValue>>)
        ensures
            match r {
                Some(a) => items_of(self@) == Some(view_items(a@)),
                None => items_of(self@) is None,
            },
    {
        match self {
            JsonValue::Array(items) => {
                proof { lemma_array_view(*items); }
                Some(items)
            },
            _ => None,
        }
    }
}

/// The texts of the string elements of a JSON array, in order.
pub fn string_items(items: &Vec<JsonValue>) -> (r: Vec<String>)
    ensures
        r.deep_view() == strings_in(view_items(items@)),
{
    let ghost all = view_items(items@);
    let mut out: Vec<String> = Vec::new();
    let mut i: usize = 0;
    while i < items.len()
        invariant
            all == view_items(items@),
            i <= items.len(),
            out.deep_view() == strings_in(all.take(i as int)),
        decreases items.len() - i,
    {
        assert(all.take(i + 1).drop_last() =~= all.take(i as int));
        assert(all.take(i + 1).last() == items@[i as int]@);
        match items[i].as_str() {
            Some(s) => {
                out.push(s.to_owned());
                assert(out.deep_view() =~= strings_in(all.take(i as int)).push(s@));
            },
            None => {},
        }
        i = i + 1;
    }
    assert(all.take(items.len() as int) =~= all);
    out
}


/// A JSON array of strings.
pub open spec fn str_array(texts: Seq<Seq<char>>) -> JsonView {
    JsonView::Array(Seq::new(texts.len(), |i: int| JsonView::Str(texts[i])))
}

/// Builds a JSON array of strings.
pub fn json_str_array(texts: Vec<&str>) -> (r: JsonValue)
    ensures
        r@ == str_array(texts@.map_values(|t: &str| t@)),
{
    let ghost want = texts@.map_values(|t: &str| t@);
    let mut items: Vec<JsonValue> = Vec::new();
    let mut i: usize = 0;
    while i < texts.len()
        invariant
            want == texts@.map_values(|t: &str| t@),
            i <= texts.len(),
            items@.len() == i,
            forall|j: int| 0 <= j < i ==> (#[trigger] items@[j])@ == JsonView::Str(want[j]),
        decreases texts.len() - i,
    {
        items.push(json_str(texts[i]));
        i = i + 1;
    }
    let r = json_array(items);
    assert(view_items(items@) =~= Seq::new(want.len(), |k: int| JsonView::Str(want[k])));
    r
}

/// Builds a JSON object of one member.
pub fn object1(k1: &str, v1: JsonValue) -> (r: JsonValue)
    ensures
        r@ == JsonView::Object(seq![(k1@, v1@)]),
{
    let entries = vec![(k1.to_owned(), v1)];
    let r = json_object(entries);
    assert(view_entries(entries@) =~= seq![(k1@, v1@)]);
    r
}

/// Builds a JSON object of two members, in the order given.
pub fn object2(k1: &str, v1: JsonValue, k2: &str, v2: JsonValue) -> (r: JsonValue)
    ensures
        r@ == JsonView::Object(seq![(k1@, v1@), (k2@, v2@)]),
{
    let entries = vec![(k1.to_owned(), v1), (k2.to_owned(), v2)];
    let r = json_object(entries);
    assert(view_entries(entries@) =~= seq![(k1@, v1@), (k2@, v2@)]);
    r
}

/// Builds a JSON object of three members, in the order given.
pub fn object3(k1: &str, v1: JsonValue, k2: &str, v2: JsonValue, k3: &str, v3: JsonValue) -> (r:
    JsonValue)
    ensures
        r@ == JsonView::Object(seq![(k1@, v1@), (k2@, v2@), (k3@, v3@)]),
{
    let entries = vec![(k1.to_owned(), v1), (k2.to_owned(), v2), (k3.to_owned(), v3)];
    let r = json_object(entries);
    assert(view_entries(entries@) =~= seq![(k1@, v1@), (k2@, v2@), (k3@, v3@)]);
    r
}

/// Builds a JSON object of four members, in the order given.
pub fn object4(
    k1: &str,
    v1: JsonValue,
    k2: &str,
    v2: JsonValue,
    k3: &str,
    v3: JsonValue,
    k4: &str,
    v4: JsonValue,
) -> (r: JsonValue)
    ensures
        r@ == JsonView::Object(seq![(k1@, v1@), (k2@, v2@), (k3@, v3@), (k4@, v4@)]),
{
    let entries = vec![
        (k1.to_owned(), v1),
        (k2.to_owned(), v2),
        (k3.to_owned(), v3),
        (k4.to_owned(), v4),
    ];
    let r = json_object(entries);
    assert(view_entries(entries@) =~= seq![(k1@, v1@), (k2@, v2@), (k3@, v3@), (k4@, v4@)]);
    r
}

/// Builds a JSON object of five members, in the order given.
pub fn object5(
    k1: &str,
    v1: JsonValue,
    k2: &str,
    v2: JsonValue,
    k3: &str,
    v3: JsonValue,
    k4: &str,
    v4: JsonValue,
    k5: &str,
    v5: JsonValue,
) -> (r: JsonValue)
    ensures
        r@ == JsonView::Object(seq![(k1@, v1@), (k2@, v2@), (k3@, v3@), (k4@, v4@), (k5@, v5@)]),
{
    let entries = vec![
        (k1.to_owned(), v1),
        (k2.to_owned(), v2),
        (k3.to_owned(), v3),
        (k4.to_owned(), v4),
        (k5.to_owned(), v5),
    ];
    let r = json_object(entries);
    assert(view_entries(entries@) =~= seq![
        (k1@, v1@),
        (k2@, v2@),
        (k3@, v3@),
        (k4@, v4@),
        (k5@, v5@),
    ]);
    r
}

}
