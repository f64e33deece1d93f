//! JSON values as the sing-box profile logic builds and merges them, with the
//! recursive merge of two values at the centre.
use vstd::prelude::*;

use serde_json::Value;

verus! {

/// A JSON number: the three shapes that `serde_json` keeps. A float is held as the
/// text that `serde_json` prints for it.
#[derive(Debug, PartialEq)]
pub enum JsonNumber {
    PosInt(u64),
    NegInt(i64),
    Float(String),
}

pub enum NumberV {
    PosInt(u64),
    NegInt(i64),
    Float(Seq<char>),
}

impl View for JsonNumber {
    type V = NumberV;

    open spec fn view(&self) -> NumberV {
        match self {
            JsonNumber::PosInt(u) => NumberV::PosInt(*u),
            JsonNumber::NegInt(i) => NumberV::NegInt(*i),
            JsonNumber::Float(s) => NumberV::Float(s@),
        }
    }
}

/// A JSON value. An object keeps its entries in order; the well-formed ones
/// (see [`wf`]) hold each key once.
#[derive(Debug, PartialEq)]
pub enum JsonValue {
    Null,
    Bool(bool),
    Number(JsonNumber),
    String(String),
    Array(Vec<JsonValue>),
    Object(Vec<(String, JsonValue)>),
}

/// The mathematical model of a [`JsonValue`].
pub enum JsonV {
    Null,
    Bool(bool),
    Number(NumberV),
    String(Seq<char>),
    Array(Seq<JsonV>),
    Object(Seq<(Seq<char>, JsonV)>),
}

pub open spec fn json_seq_view(s: Seq<JsonValue>) -> Seq<JsonV>
    decreases s,
{
    Seq::new(s.len(), |i: int| if 0 <= i < s.len() { s[i].model() } else { JsonV::Null })
}

pub open spec fn entries_view(s: Seq<(String, JsonValue)>) -> Seq<(Seq<char>, JsonV)>
    decreases s,
{
    Seq::new(
        s.len(),
        |i: int|
            if 0 <= i < s.len() {
                (s[i].0@, s[i].1.model())
            } else {
                (Seq::empty(), JsonV::Null)
            },
    )
}

impl JsonValue {
    pub open spec fn model(&self) -> JsonV
        decreases self,
    {
        match self {
            JsonValue::Null => JsonV::Null,
            JsonValue::Bool(b) => JsonV::Bool(*b),
            JsonValue::Number(n) => JsonV::Number(n@),
            JsonValue::String(s) => JsonV::String(s@),
            JsonValue::Array(v) => JsonV::Array(json_seq_view(v@)),
            JsonValue::Object(e) => JsonV::Object(entries_view(e@)),
        }
    }
}

impl View for JsonValue {
    type V = JsonV;

    open spec fn view(&self) -> JsonV {
        self.model()
    }
}

/// The index of the first entry of `entries` under `key`.
pub open spec fn key_index(entries: Seq<(Seq<char>, JsonV)>, key: Seq<char>) -> Option<int>
    decreases entries.len(),
{
    if entries.len() == 0 {
        None
    } else if entries[0].0 == key {
        Some(0)
    } else {
        match key_index(entries.drop_first(), key) {
            Some(i) => Some(i + 1),
            None => None,
        }
    }
}

/// Merges `b` into `a`: objects are merged key by key (a key that `a` lacks is
/// added), an array gets the elements of an array appended, or an object pushed
/// onto it, and in every other case `b` replaces `a`.
pub open spec fn merge_v(a: JsonV, b: JsonV) -> JsonV
    decreases b,
{
    match b {
        JsonV::Object(eb) => match a {
            JsonV::Object(ea) => JsonV::Object(merge_entries(ea, eb)),
            JsonV::Array(xa) => JsonV::Array(xa.push(b)),
            _ => b,
        },
        JsonV::Array(xb) => match a {
            JsonV::Array(xa) => JsonV::Array(xa + xb),
            _ => b,
        },
        _ => b,
    }
}

/// The entries of `acc` after the entries of `eb` have been merged in, in order.
pub open spec fn merge_entries(acc: Seq<(Seq<char>, JsonV)>, eb: Seq<(Seq<char>, JsonV)>) -> Seq<
    (Seq<char>, JsonV),
>
    decreases eb,
{
    if eb.len() == 0 {
        acc
    } else {
        let prev = merge_entries(acc, eb.drop_last());
        let k = eb.last().0;
        let v = eb.last().1;
        match key_index(prev, k) {
            Some(i) => prev.update(i, (k, merge_v(prev[i].1, v))),
            None => prev.push((k, merge_v(JsonV::Null, v))),
        }
    }
}

pub proof fn lemma_key_index(entries: Seq<(Seq<char>, JsonV)>, key: Seq<char>, i: int)
    requires
        0 <= i <= entries.len(),
        forall|j: int| 0 <= j < i ==> #[trigger] entries[j].0 != key,
    ensures
        i < entries.len() && entries[i].0 == key ==> key_index(entries, key) == Some(i),
        i == entries.len() ==> key_index(entries, key) is None,
    decreases i,
{
    if i > 0 {
        let rest = entries.drop_first();
        assert forall|j: int| 0 <= j < i - 1 implies #[trigger] rest[j].0 != key by {
            assert(rest[j] == entries[j + 1]);
        }
        lemma_key_index(rest, key, i - 1);
        assert(entries[0].0 != key);
    }
}

/// Where `key` first stands among the entries of an object.
pub fn find_key(entries: &Vec<(String, JsonValue)>, key: &String) -> (r: Option<usize>)
    ensures
        match r {
            Some(i) => key_index(entries_view(entries@), key@) == Some(i as int) && i
                < entries@.len() && entries@[i as int].0@ == key@,
            None => key_index(entries_view(entries@), key@) is None,
        },
{
    let ghost ev = entries_view(entries@);
    let mut i: usize = 0;
    while i < entries.len()
        invariant
            ev == entries_view(entries@),
            i <= entries@.len(),
            forall|j: int| 0 <= j < i ==> #[trigger] ev[j].0 != key@,
        decreases entries@.len() - i,
    {
        assert(ev[i as int].0 == entries@[i as int].0@);
        if entries[i].0 == *key {
            proof {
                lemma_key_index(ev, key@, i as int);
            }
            return Some(i);
        }
        i = i + 1;
    }
    proof {
        lemma_key_index(ev, key@, i as int);
    }
    None
}

impl JsonNumber {
    pub fn deep_clone(&self) -> (r: JsonNumber)
        ensures
            r@ == self@,
    {
        match self {
            JsonNumber::PosInt(u) => JsonNumber::PosInt(*u),
            JsonNumber::NegInt(i) => JsonNumber::NegInt(*i),
            JsonNumber::Float(s) => JsonNumber::Float(s.clone()),
        }
    }
}

impl JsonValue {
    /// A copy of the value, with the same model.
    pub fn deep_clone(&self) -> (r: JsonValue)
        ensures
            r@ == self@,
        decreases self,
    {
        match self {
            JsonValue::Null => JsonValue::Null,
            JsonValue::Bool(b) => JsonValue::Bool(*b),
            JsonValue::Number(n) => JsonValue::Number(n.deep_clone()),
            JsonValue::String(s) => JsonValue::String(s.clone()),
            JsonValue::Array(v) => {
                let mut out: Vec<JsonValue> = Vec::new();
                let mut i: usize = 0;
                while i < v.len()
                    invariant
                        *self == JsonValue::Array(*v),
                        i <= v@.len(),
                        out@.len() == i,
                        forall|j: int| 0 <= j < i ==> #[trigger] out@[j]@ == v@[j]@,
                    decreases v@.len() - i,
                {
                    proof {
                        assert(decreases_to!(*self => self->Array_0));
                        assert(decreases_to!(self->Array_0 => v@));
                        assert(decreases_to!(v@ => v@[i as int]));
                    }
                    let c = v[i].deep_clone();
                    out.push(c);
                    i = i + 1;
                }
                assert(json_seq_view(out@) =~= json_seq_view(v@)) by {
                    assert forall|j: int| 0 <= j < v@.len() implies #[trigger] json_seq_view(out@)[j]
                        == json_seq_view(v@)[j] by {
                        assert(out@[j]@ == v@[j]@);
                    }
                }
                JsonValue::Array(out)
            },
            JsonValue::Object(e) => {
                let mut out: Vec<(String, JsonValue)> = Vec::new();
                let mut i: usize = 0;
                while i < e.len()
                    invariant
                        *self == JsonValue::Object(*e),
                        i <= e@.len(),
                        out@.len() == i,
                        forall|j: int|
                            #![trigger out@[j]]
                            0 <= j < i ==> out@[j].0@ == e@[j].0@ && out@[j].1@ == e@[j].1@,
                    decreases e@.len() - i,
                {
                    proof {
                        assert(decreases_to!(*self => self->Object_0));
                        assert(decreases_to!(self->Object_0 => e@));
                        assert(decreases_to!(e@ => e@[i as int]));
                        assert(decreases_to!(e@[i as int] => e@[i as int].1));
                    }
                    let k = e[i].0.clone();
                    let v = e[i].1.deep_clone();
                    out.push((k, v));
                    i = i + 1;
                }
                assert(entries_view(out@) =~= entries_view(e@)) by {
                    assert forall|j: int| 0 <= j < e@.len() implies #[trigger] entries_view(out@)[j]
                        == entries_view(e@)[j] by {
                        assert(out@[j].0@ == e@[j].0@ && out@[j].1@ == e@[j].1@);
                    }
                }
                JsonValue::Object(out)
            },
        }
    }
}

/// `a` with the entries of `eb` merged in, in order.
fn merge_entries_exec(acc: Vec<(String, JsonValue)>, eb: &Vec<(String, JsonValue)>) -> (r: Vec<
    (String, JsonValue),
>)
    ensures
        entries_view(r@) == merge_entries(entries_view(acc@), entries_view(eb@)),
    decreases eb,
{
    let mut acc = acc;
    let ghost acc0 = entries_view(acc@);
    let ghost ebv = entries_view(eb@);
    let mut i: usize = 0;
    while i < eb.len()
        invariant
            i <= eb@.len(),
            ebv == entries_view(eb@),
            entries_view(acc@) == merge_entries(acc0, ebv.take(i as int)),
        decreases eb@.len() - i,
    {
        let ghost prev = entries_view(acc@);
        assert(ebv.take(i + 1).drop_last() =~= ebv.take(i as int));
        assert(ebv.take(i + 1).last() == ebv[i as int]);
        assert(ebv[i as int] == (eb@[i as int].0@, eb@[i as int].1@));
        let key = &eb[i].0;
        match find_key(&acc, key) {
            Some(j) => {
                let (k, old_v) = acc.remove(j);
                proof {
                    assert(decreases_to!(eb => eb@));
                    assert(decreases_to!(eb@ => eb@[i as int]));
                    assert(decreases_to!(eb@[i as int] => eb@[i as int].1));
                }
                let m = merged(old_v, &eb[i].1);
                acc.insert(j, (k, m));
                assert(entries_view(acc@) =~= prev.update(j as int, (ebv[i as int].0, merge_v(prev[j as int].1, ebv[i as int].1))));
                assert(key_index(prev, ebv[i as int].0) == Some(j as int));
                assert(merge_entries(acc0, ebv.take(i + 1)) == prev.update(j as int, (ebv[i as int].0, merge_v(prev[j as int].1, ebv[i as int].1))));
            },
            None => {
                let k = key.clone();
                let v = eb[i].1.deep_clone();
                acc.push((k, v));
                assert(entries_view(acc@) =~= prev.push((ebv[i as int].0, merge_v(JsonV::Null, ebv[i as int].1))));
                assert(key_index(prev, ebv[i as int].0) is None);
                assert(merge_entries(acc0, ebv.take(i + 1)) == prev.push((ebv[i as int].0, merge_v(JsonV::Null, ebv[i as int].1))));
            },
        }
        i = i + 1;
    }
    assert(ebv.take(eb@.len() as int) =~= ebv);
    acc
}

/// `a` with `b` merged into it (see [`merge_v`]).
pub fn merged(a: JsonValue, b: &JsonValue) -> (r: JsonValue)
    ensures
        r@ == merge_v(a@, b@),
    decreases b,
{
    match b {
        JsonValue::Object(eb) => match a {
            JsonValue::Object(ea) => {
                proof {
                    assert(decreases_to!(*b => b->Object_0));
                }
                JsonValue::Object(merge_entries_exec(ea, eb))
            },
            JsonValue::Array(xa) => {
                let mut xa = xa;
                let ghost xa0 = xa@;
                xa.push(b.deep_clone());
                assert(json_seq_view(xa@) =~= json_seq_view(xa0).push(b@));
                JsonValue::Array(xa)
            },
            _ => b.deep_clone(),
        },
        JsonValue::Array(xb) => match a {
            JsonValue::Array(xa) => {
                let mut xa = xa;
                let ghost xa0 = json_seq_view(xa@);
                let mut i: usize = 0;
                while i < xb.len()
                    invariant
                        i <= xb@.len(),
                        json_seq_view(xa@) == xa0 + json_seq_view(xb@).take(i as int),
                    decreases xb@.len() - i,
                {
                    let ghost before = xa@;
                    let c = xb[i].deep_clone();
                    xa.push(c);
                    assert(json_seq_view(xa@) =~= json_seq_view(before).push(xb@[i as int]@));
                    assert(json_seq_view(xb@).take(i + 1) =~= json_seq_view(xb@).take(i as int).push(
                        xb@[i as int]@,
                    ));
                    i = i + 1;
                }
                assert(json_seq_view(xb@).take(xb@.len() as int) =~= json_seq_view(xb@));
                JsonValue::Array(xa)
            },
            _ => b.deep_clone(),
        },
        _ => b.deep_clone(),
    }
}

} // verus!

verus! {

/// `b` merged into `a` in place.
pub fn merge(a: &mut JsonValue, b: &JsonValue)
    ensures
        final(a)@ == merge_v(old(a)@, b@),
{
    let mut prev = JsonValue::Null;
    std::mem::swap(a, &mut prev);
    *a = merged(prev, b);
}

/// Values that another JSON value can be merged into.
pub trait Merge {
    fn merge(&mut self, new_json_value: JsonValue);
}

impl Merge for JsonValue {
    fn merge(&mut self, new_json_value: JsonValue)
        ensures
            final(self)@ == merge_v(old(self)@, new_json_value@),
    {
        merge(self, &new_json_value);
    }
}

// ---------------------------------------------------------------------------
// Building objects field by field, as `serde` serializes a struct: fields in
// declaration order, an optional field left out where it is `None`.
// ---------------------------------------------------------------------------

pub open spec fn str_v(s: Seq<char>) -> JsonV {
    JsonV::String(s)
}

pub open spec fn uint_v(n: u64) -> JsonV {
    JsonV::Number(NumberV::PosInt(n))
}

pub open spec fn strs_v(s: Seq<Seq<char>>) -> JsonV {
    JsonV::Array(s.map_values(|x: Seq<char>| JsonV::String(x)))
}

pub open spec fn string_seq_view(s: Seq<String>) -> Seq<Seq<char>> {
    s.map_values(|x: String| x@)
}

pub open spec fn opt_string_view(o: Option<String>) -> Option<Seq<char>> {
    match o {
        Some(s) => Some(s@),
        None => None,
    }
}

pub open spec fn opt_strings_view(o: Option<Vec<String>>) -> Option<Seq<Seq<char>>> {
    match o {
        Some(v) => Some(string_seq_view(v@)),
        None => None,
    }
}

pub open spec fn opt_json_view(o: Option<JsonValue>) -> Option<JsonV> {
    match o {
        Some(v) => Some(v@),
        None => None,
    }
}

pub open spec fn opt_json(k: Seq<char>, o: Option<JsonV>) -> Seq<(Seq<char>, JsonV)> {
    match o {
        Some(v) => Seq::empty().push((k, v)),
        None => Seq::empty(),
    }
}

pub open spec fn opt_str(k: Seq<char>, o: Option<Seq<char>>) -> Seq<(Seq<char>, JsonV)> {
    match o {
        Some(s) => Seq::empty().push((k, str_v(s))),
        None => Seq::empty(),
    }
}

pub open spec fn opt_strs(k: Seq<char>, o: Option<Seq<Seq<char>>>) -> Seq<(Seq<char>, JsonV)> {
    match o {
        Some(s) => Seq::empty().push((k, strs_v(s))),
        None => Seq::empty(),
    }
}

pub open spec fn opt_uint(k: Seq<char>, o: Option<u64>) -> Seq<(Seq<char>, JsonV)> {
    match o {
        Some(n) => Seq::empty().push((k, uint_v(n))),
        None => Seq::empty(),
    }
}

pub open spec fn opt_bool(k: Seq<char>, o: Option<bool>) -> Seq<(Seq<char>, JsonV)> {
    match o {
        Some(b) => Seq::empty().push((k, JsonV::Bool(b))),
        None => Seq::empty(),
    }
}

pub open spec fn opt_u16(o: Option<u16>) -> Option<u64> {
    match o {
        Some(n) => Some(n as u64),
        None => None,
    }
}

pub open spec fn opt_u32(o: Option<u32>) -> Option<u64> {
    match o {
        Some(n) => Some(n as u64),
        None => None,
    }
}

/// An object with no entries yet.
pub fn new_entries() -> (r: Vec<(String, JsonValue)>)
    ensures
        entries_view(r@) == Seq::<(Seq<char>, JsonV)>::empty(),
{
    let r: Vec<(String, JsonValue)> = Vec::new();
    assert(entries_view(r@) =~= Seq::<(Seq<char>, JsonV)>::empty());
    r
}

pub fn push_json(e: &mut Vec<(String, JsonValue)>, key: &str, v: JsonValue)
    ensures
        entries_view(final(e)@) == entries_view(old(e)@).push((key@, v@)),
{
    let ghost before = e@;
    let k = key.to_string();
    e.push((k, v));
    assert(entries_view(e@) =~= entries_view(before).push((key@, v@)));
}

pub fn push_str(e: &mut Vec<(String, JsonValue)>, key: &str, s: &String)
    ensures
        entries_view(final(e)@) == entries_view(old(e)@).push((key@, str_v(s@))),
{
    push_json(e, key, JsonValue::String(s.clone()));
}

pub fn push_uint(e: &mut Vec<(String, JsonValue)>, key: &str, n: u64)
    ensures
        entries_view(final(e)@) == entries_view(old(e)@).push((key@, uint_v(n))),
{
    push_json(e, key, JsonValue::Number(JsonNumber::PosInt(n)));
}

pub fn push_bool(e: &mut Vec<(String, JsonValue)>, key: &str, b: bool)
    ensures
        entries_view(final(e)@) == entries_view(old(e)@).push((key@, JsonV::Bool(b))),
{
    push_json(e, key, JsonValue::Bool(b));
}

pub fn push_opt_json(e: &mut Vec<(String, JsonValue)>, key: &str, o: Option<JsonValue>)
    ensures
        entries_view(final(e)@) == entries_view(old(e)@) + opt_json(key@, opt_json_view(o)),
{
    let ghost before = entries_view(e@);
    match o {
        Some(v) => {
            push_json(e, key, v);
            assert(entries_view(e@) =~= before + opt_json(key@, opt_json_view(o)));
        },
        None => {
            assert(before =~= before + opt_json(key@, opt_json_view(o)));
        },
    }
}

pub fn push_opt_str(e: &mut Vec<(String, JsonValue)>, key: &str, o: &Option<String>)
    ensures
        entries_view(final(e)@) == entries_view(old(e)@) + opt_str(key@, opt_string_view(*o)),
{
    let ghost before = entries_view(e@);
    match o {
        Some(s) => {
            push_str(e, key, s);
            assert(entries_view(e@) =~= before + opt_str(key@, opt_string_view(*o)));
        },
        None => {
            assert(before =~= before + opt_str(key@, opt_string_view(*o)));
        },
    }
}

/// A JSON array of the given strings.
pub fn strings_value(v: &Vec<String>) -> (r: JsonValue)
    ensures
        r@ == strs_v(string_seq_view(v@)),
{
    let mut out: Vec<JsonValue> = Vec::new();
    let mut i: usize = 0;
    while i < v.len()
        invariant
            i <= v@.len(),
            out@.len() == i,
            forall|j: int| 0 <= j < i ==> #[trigger] out@[j]@ == JsonV::String(v@[j]@),
        decreases v@.len() - i,
    {
        out.push(JsonValue::String(v[i].clone()));
        i = i + 1;
    }
    let ghost target = strs_v(string_seq_view(v@))->Array_0;
    assert forall|j: int| 0 <= j < v@.len() implies #[trigger] json_seq_view(out@)[j] == target[j] by {
        assert(out@[j]@ == JsonV::String(v@[j]@));
    }
    assert(json_seq_view(out@) =~= target);
    JsonValue::Array(out)
}

pub fn push_opt_strs(e: &mut Vec<(String, JsonValue)>, key: &str, o: &Option<Vec<String>>)
    ensures
        entries_view(final(e)@) == entries_view(old(e)@) + opt_strs(key@, opt_strings_view(*o)),
{
    let ghost before = entries_view(e@);
    match o {
        Some(v) => {
            push_json(e, key, strings_value(v));
            assert(entries_view(e@) =~= before + opt_strs(key@, opt_strings_view(*o)));
        },
        None => {
            assert(before =~= before + opt_strs(key@, opt_strings_view(*o)));
        },
    }
}

pub fn push_opt_uint(e: &mut Vec<(String, JsonValue)>, key: &str, o: Option<u64>)
    ensures
        entries_view(final(e)@) == entries_view(old(e)@) + opt_uint(key@, o),
{
    let ghost before = entries_view(e@);
    match o {
        Some(n) => {
            push_uint(e, key, n);
            assert(entries_view(e@) =~= before + opt_uint(key@, o));
        },
        None => {
            assert(before =~= before + opt_uint(key@, o));
        },
    }
}

pub fn push_opt_bool(e: &mut Vec<(String, JsonValue)>, key: &str, o: Option<bool>)
    ensures
        entries_view(final(e)@) == entries_view(old(e)@) + opt_bool(key@, o),
{
    let ghost before = entries_view(e@);
    match o {
        Some(b) => {
            push_bool(e, key, b);
            assert(entries_view(e@) =~= before + opt_bool(key@, o));
        },
        None => {
            assert(before =~= before + opt_bool(key@, o));
        },
    }
}

} // verus!

verus! {

// ---------------------------------------------------------------------------
// Writing under a key: `v["key"]` on a value that is `null` or an object turns a
// `null` into an empty object and adds the key, holding `null`, where it is missing.
// ---------------------------------------------------------------------------

/// The entries of an object; none for any other value.
pub open spec fn object_entries(v: JsonV) -> Seq<(Seq<char>, JsonV)> {
    match v {
        JsonV::Object(e) => e,
        _ => Seq::empty(),
    }
}

/// The value under `key` of an object, or `null`.
pub open spec fn object_value(v: JsonV, key: Seq<char>) -> JsonV {
    let e = object_entries(v);
    match key_index(e, key) {
        Some(i) => e[i].1,
        None => JsonV::Null,
    }
}

/// The value of the first entry under `key`, where there is one.
pub open spec fn entry_lookup(e: Seq<(Seq<char>, JsonV)>, key: Seq<char>) -> Option<JsonV> {
    match key_index(e, key) {
        Some(i) => Some(e[i].1),
        None => None,
    }
}

/// Looking a key up in two runs of entries, one after the other, finds it in the first
/// run where it stands there, else in the second.
pub broadcast proof fn lemma_lookup_concat(
    a: Seq<(Seq<char>, JsonV)>,
    b: Seq<(Seq<char>, JsonV)>,
    key: Seq<char>,
)
    ensures
        #[trigger] entry_lookup(a + b, key) == (if entry_lookup(a, key) is Some {
            entry_lookup(a, key)
        } else {
            entry_lookup(b, key)
        }),
{
    let c = a + b;
    lemma_key_index_spec(a, key);
    lemma_key_index_spec(b, key);
    match key_index(a, key) {
        Some(i) => {
            assert forall|j: int| 0 <= j < i implies #[trigger] c[j].0 != key by {
                assert(c[j] == a[j]);
            }
            lemma_key_index(c, key, i);
        },
        None => {
            match key_index(b, key) {
                Some(j) => {
                    assert forall|m: int| 0 <= m < a.len() + j implies #[trigger] c[m].0 != key by {
                        if m < a.len() {
                            assert(c[m] == a[m]);
                        } else {
                            assert(c[m] == b[m - a.len()]);
                        }
                    }
                    assert(c[a.len() + j] == b[j]);
                    lemma_key_index(c, key, a.len() + j);
                },
                None => {
                    assert forall|m: int| 0 <= m < c.len() implies #[trigger] c[m].0 != key by {
                        if m < a.len() {
                            assert(c[m] == a[m]);
                        } else {
                            assert(c[m] == b[m - a.len()]);
                        }
                    }
                    lemma_key_index(c, key, c.len() as int);
                },
            }
        },
    }
}

/// Looking a key up after one more entry finds it where it stood before, else in the
/// new entry.
pub broadcast proof fn lemma_lookup_push(
    a: Seq<(Seq<char>, JsonV)>,
    x: (Seq<char>, JsonV),
    key: Seq<char>,
)
    ensures
        #[trigger] entry_lookup(a.push(x), key) == (if entry_lookup(a, key) is Some {
            entry_lookup(a, key)
        } else if x.0 == key {
            Some(x.1)
        } else {
            None::<JsonV>
        }),
{
    let one = Seq::<(Seq<char>, JsonV)>::empty().push(x);
    assert(a.push(x) =~= a + one);
    lemma_lookup_concat(a, one, key);
    if x.0 == key {
        lemma_key_index(one, key, 0);
    } else {
        lemma_key_index(one, key, 1);
    }
}

/// No key stands among no entries.
pub broadcast proof fn lemma_lookup_empty(key: Seq<char>)
    ensures
        #[trigger] entry_lookup(Seq::<(Seq<char>, JsonV)>::empty(), key) is None,
{
    lemma_key_index(Seq::<(Seq<char>, JsonV)>::empty(), key, 0);
}

/// The value under `key` of an object is what looking it up among its entries finds.
pub proof fn lemma_object_value_lookup(e: Seq<(Seq<char>, JsonV)>, key: Seq<char>)
    ensures
        object_value(JsonV::Object(e), key) == (match entry_lookup(e, key) {
            Some(x) => x,
            None => JsonV::Null,
        }),
{
}

pub broadcast group group_lookup {
    lemma_lookup_concat,
    lemma_lookup_push,
    lemma_lookup_empty,
}

/// Whether `v["key"]` can be written: `v` is `null` or an object.
pub open spec fn keyable(v: JsonV) -> bool {
    v is Null || v is Object
}

/// `v` with `x` stored under `key`: in place where the key is there, else appended.
pub open spec fn set_key(v: JsonV, key: Seq<char>, x: JsonV) -> JsonV {
    let e = object_entries(v);
    match key_index(e, key) {
        Some(i) => JsonV::Object(e.update(i, (key, x))),
        None => JsonV::Object(e.push((key, x))),
    }
}

/// `v["key"].merge(x)`.
pub open spec fn merge_at_key(v: JsonV, key: Seq<char>, x: JsonV) -> JsonV {
    set_key(v, key, merge_v(object_value(v, key), x))
}

/// What [`key_index`] says, spelled out.
pub proof fn lemma_key_index_spec(e: Seq<(Seq<char>, JsonV)>, key: Seq<char>)
    ensures
        key_index(e, key) matches Some(i) ==> 0 <= i < e.len() && e[i].0 == key && forall|j: int|
            0 <= j < i ==> #[trigger] e[j].0 != key,
        key_index(e, key) is None ==> forall|j: int| 0 <= j < e.len() ==> #[trigger] e[j].0 != key,
    decreases e.len(),
{
    if e.len() > 0 {
        let rest = e.drop_first();
        lemma_key_index_spec(rest, key);
        if e[0].0 != key {
            assert forall|j: int| 1 <= j < e.len() implies e[j].0 == rest[j - 1].0 by {}
            if let Some(i) = key_index(rest, key) {
                assert forall|j: int| 0 <= j < i + 1 implies #[trigger] e[j].0 != key by {
                    if j > 0 {
                        assert(e[j].0 == rest[j - 1].0);
                    }
                }
            } else {
                assert forall|j: int| 0 <= j < e.len() implies #[trigger] e[j].0 != key by {
                    if j > 0 {
                        assert(e[j].0 == rest[j - 1].0);
                    }
                }
            }
        }
    }
}

/// After `set_key`, the key stands where `set_key` put it, holding `x`.
pub proof fn lemma_set_key_lookup(v: JsonV, key: Seq<char>, x: JsonV)
    ensures
        object_value(set_key(v, key, x), key) == x,
        key_index(object_entries(set_key(v, key, x)), key) == (match key_index(object_entries(v), key) {
            Some(i) => Some(i),
            None => Some(object_entries(v).len() as int),
        }),
{
    let e = object_entries(v);
    lemma_key_index_spec(e, key);
    let e2 = object_entries(set_key(v, key, x));
    match key_index(e, key) {
        Some(i) => {
            assert forall|j: int| 0 <= j < i implies #[trigger] e2[j].0 != key by {
                assert(e2[j] == e[j]);
            }
            lemma_key_index(e2, key, i);
        },
        None => {
            assert forall|j: int| 0 <= j < e.len() implies #[trigger] e2[j].0 != key by {
                assert(e2[j] == e[j]);
            }
            lemma_key_index(e2, key, e.len() as int);
        },
    }
}

/// An object holding `key` where it was missing, and its index.
fn ensure_key(entries: &mut Vec<(String, JsonValue)>, key: &String) -> (r: usize)
    ensures
        r < final(entries)@.len(),
        key_index(entries_view(old(entries)@), key@) is None ==> entries_view(final(entries)@)
            == entries_view(old(entries)@).push((key@, JsonV::Null)) && r == old(entries)@.len(),
        key_index(entries_view(old(entries)@), key@) matches Some(i) ==> final(entries)@ == old(entries)@
            && r == i,
        final(entries)@[r as int].0@ == key@,
{
    match find_key(entries, key) {
        Some(i) => i,
        None => {
            let ghost before = entries@;
            entries.push((key.clone(), JsonValue::Null));
            assert(entries_view(entries@) =~= entries_view(before).push((key@, JsonV::Null)));
            entries.len() - 1
        },
    }
}

/// `v` with `x` merged into `v["key"]`.
pub fn merged_at_key(v: JsonValue, key: &str, x: &JsonValue) -> (r: JsonValue)
    requires
        keyable(v@),
    ensures
        r@ == merge_at_key(v@, key@, x@),
{
    let ghost v0 = v@;
    let mut entries = match v {
        JsonValue::Object(e) => e,
        _ => new_entries(),
    };
    let ghost e0 = entries_view(entries@);
    assert(e0 == object_entries(v0));
    let k = key.to_string();
    proof {
        lemma_key_index_spec(e0, key@);
    }
    let i = ensure_key(&mut entries, &k);
    let ghost e1 = entries@;
    assert(entries_view(e1)[i as int].1 == e1[i as int].1@);
    let (kk, old_v) = entries.remove(i);
    proof {
        match key_index(e0, key@) {
            Some(j) => {
                assert(entries_view(e1) == e0);
            },
            None => {
                assert(entries_view(e1)[i as int] == (key@, JsonV::Null));
            },
        }
    }
    assert(old_v@ == object_value(v0, key@));
    let m = merged(old_v, x);
    entries.insert(i, (kk, m));
    assert(entries_view(entries@) =~= entries_view(e1).update(i as int, (key@, m@)));
    proof {
        match key_index(e0, key@) {
            Some(j) => {
                assert(entries_view(entries@) =~= e0.update(j, (key@, m@)));
            },
            None => {
                assert(entries_view(entries@) =~= e0.push((key@, m@)));
            },
        }
    }
    JsonValue::Object(entries)
}

} // verus!

verus! {

#[verifier::external_type_specification]
#[verifier::external_body]
pub struct ExSerdeValue(Value);

/// Turns a [`JsonValue`] into a `serde_json::Value` variant by variant: numbers as
/// `serde_json::Number`s (a float from its text, `null` where that text is no number),
/// arrays and objects element by element.
#[verifier::external_body]
fn to_outside(v: &JsonValue) -> Value {
    match v {
        JsonValue::Null => Value::Null,
        JsonValue::Bool(b) => Value::Bool(*b),
        JsonValue::Number(JsonNumber::PosInt(u)) => Value::from(*u),
        JsonValue::Number(JsonNumber::NegInt(i)) => Value::from(*i),
        JsonValue::Number(JsonNumber::Float(t)) => t.parse().map_or(Value::Null, Value::Number),
        JsonValue::String(s) => Value::String(s.clone()),
        JsonValue::Array(a) => Value::Array(a.iter().map(to_outside).collect()),
        JsonValue::Object(e) => Value::Object(e.iter().map(|(k, x)| (k.clone(), to_outside(x))).collect()),
    }
}

/// Whether serde_json reads back what it writes of `v`: `v` holds no float (whose text
/// the writer may change) and no `NegInt` that is not negative (read back as `PosInt`),
/// and nests arrays and objects no deeper than `room` levels.
pub open spec fn reads_back(v: JsonV, room: nat) -> bool
    decreases v,
{
    match v {
        JsonV::Number(NumberV::Float(_)) => false,
        JsonV::Number(NumberV::NegInt(i)) => i < 0,
        JsonV::Array(s) => room > 0 && forall|i: int|
            0 <= i < s.len() ==> reads_back(#[trigger] s[i], (room - 1) as nat),
        JsonV::Object(e) => room > 0 && forall|i: int|
            0 <= i < e.len() ==> reads_back(#[trigger] e[i].1, (room - 1) as nat),
        _ => true,
    }
}

/// Whether no entry after the `j`-th has its key.
pub open spec fn last_of_key(e: Seq<(Seq<char>, JsonV)>, j: int) -> bool {
    forall|m: int| j < m < e.len() ==> #[trigger] e[m].0 != e[j].0
}

/// `w` is `v` up to the order of the entries of objects, where an object of `w` holds
/// each key of the matching object of `v` once, with the value of its last entry there.
pub open spec fn same_json(w: JsonV, v: JsonV) -> bool
    decreases v,
{
    match v {
        JsonV::Array(vs) => {
            &&& w is Array
            &&& w->Array_0.len() == vs.len()
            &&& forall|i: int|
                0 <= i < vs.len() ==> same_json(w->Array_0[i], #[trigger] vs[i])
        },
        JsonV::Object(ve) => {
            let we = w->Object_0;
            &&& w is Object
            &&& keys_unique(we)
            &&& forall|i: int| 0 <= i < we.len() ==> key_index(ve, #[trigger] we[i].0) is Some
            &&& forall|j: int| 0 <= j < ve.len() ==> key_index(we, #[trigger] ve[j].0) is Some
            &&& forall|j: int|
                0 <= j < ve.len() && last_of_key(ve, j) ==> same_json(
                    we[key_index(we, ve[j].0)->0].1,
                    #[trigger] ve[j].1,
                )
        },
        _ => w == v,
    }
}

/// serde_json reads back what it writes of an array of strings.
pub proof fn lemma_strs_reads_back(s: Seq<Seq<char>>, room: nat)
    requires
        room > 0,
    ensures
        reads_back(strs_v(s), room),
{
    let a = strs_v(s)->Array_0;
    assert forall|i: int| 0 <= i < a.len() implies reads_back(#[trigger] a[i], (room - 1) as nat) by {
    }
}

/// A value that is an array of strings up to the order of object entries is that very
/// array.
pub proof fn lemma_same_strs(w: JsonV, s: Seq<Seq<char>>)
    requires
        same_json(w, strs_v(s)),
    ensures
        w == strs_v(s),
{
    let a = strs_v(s)->Array_0;
    assert forall|i: int| 0 <= i < a.len() implies w->Array_0[i] == #[trigger] a[i] by {
        assert(same_json(w->Array_0[i], a[i]));
    }
    assert(w->Array_0 =~= a);
}

/// The compact text that `serde_json::to_string` gives for a value.
pub uninterp spec fn json_text(v: JsonV) -> Seq<char>;

/// The indented text that `serde_json::to_string_pretty` gives for a value.
pub uninterp spec fn json_text_pretty(v: JsonV) -> Seq<char>;

/// Calls `serde_json::to_string`. Claimed: it succeeds (it fails only where a
/// `Serialize` impl fails or a map key is no string; `serde_json::Value` has string keys
/// and its impl passes on the writer's errors, and writing to a `Vec` does not fail),
/// and the text is what [`json_text`] names for the value. The compact formatter writes
/// no whitespace between tokens, and a line feed within a string is escaped (`\n`), so
/// the text holds no line feed. Where [`reads_back`] holds of the value within the
/// parser's nesting limit (128 levels; 100 are claimed), `serde_json::from_str` reads
/// the text back into the same value up to the order of object entries: the value is
/// turned into a `serde_json::Value`, whose maps keep of a repeated key the last entry,
/// and that `Value` is what the parser reads back from what the writer wrote.
#[verifier::external_body]
pub fn json_to_string(v: &JsonValue) -> (r: Result<String, String>)
    ensures
        r is Ok,
        r matches Ok(s) ==> s@ == json_text(v@),
        r matches Ok(s) ==> !s@.contains('\n'),
        r matches Ok(s) ==> (reads_back(v@, 100) ==> (json_parsed(s@) matches Ok(w) && same_json(
            w,
            v@,
        ))),
{
    serde_json::to_string(&to_outside(v)).map_err(|e| e.to_string())
}

/// Calls `serde_json::to_string_pretty`. Claimed: it succeeds, for the reasons given at
/// [`json_to_string`], and the text is what [`json_text_pretty`] names for the value.
/// Where [`reads_back`] holds (as at [`json_to_string`]), the parser reads the text back
/// into the same value up to the order of object entries, and into the very value that
/// it reads from the compact text (the two texts differ in whitespace alone).
#[verifier::external_body]
pub fn json_to_string_pretty(v: &JsonValue) -> (r: Result<String, String>)
    ensures
        r is Ok,
        r matches Ok(s) ==> s@ == json_text_pretty(v@),
        r matches Ok(s) ==> (reads_back(v@, 100) ==> (json_parsed(s@) matches Ok(w) && same_json(
            w,
            v@,
        ))),
        r matches Ok(s) ==> (reads_back(v@, 100) ==> json_parsed(s@) == json_parsed(
            json_text(v@),
        )),
{
    serde_json::to_string_pretty(&to_outside(v)).map_err(|e| e.to_string())
}

/// The value that `serde_json::from_str::<serde_json::Value>` reads from a text, or the
/// message of the error that it reports.
pub uninterp spec fn json_parsed(text: Seq<char>) -> Result<JsonV, Seq<char>>;

/// Turns a `serde_json::Value` into a [`JsonValue`] variant by variant: a number that fits
/// a `u64` as `PosInt`, else one that fits an `i64` as `NegInt`, else as `Float` with its
/// text; arrays element by element, objects entry by entry in the map's order.
#[verifier::external_body]
fn from_outside(v: Value) -> JsonValue {
    match v {
        Value::Null => JsonValue::Null,
        Value::Bool(b) => JsonValue::Bool(b),
        Value::Number(n) => JsonValue::Number(match (n.as_u64(), n.as_i64()) {
            (Some(u), _) => JsonNumber::PosInt(u),
            (None, Some(i)) => JsonNumber::NegInt(i),
            _ => JsonNumber::Float(n.to_string()),
        }),
        Value::String(s) => JsonValue::String(s),
        Value::Array(a) => JsonValue::Array(a.into_iter().map(from_outside).collect()),
        Value::Object(m) => JsonValue::Object(m.into_iter().map(|(k, x)| (k, from_outside(x))).collect()),
    }
}

/// Calls `serde_json::from_str::<serde_json::Value>`. Claimed: the value read, or the
/// text of the error (its `Display`), is what [`json_parsed`] names for `text`.
#[verifier::external_body]
pub fn load_json(text: &str) -> (r: Result<JsonValue, String>)
    ensures
        match r {
            Ok(v) => json_parsed(text@) == Ok::<JsonV, Seq<char>>(v@),
            Err(m) => json_parsed(text@) == Err::<JsonV, Seq<char>>(m@),
        },
{
    match serde_json::from_str::<Value>(text) {
        Ok(v) => Ok(from_outside(v)),
        Err(e) => Err(e.to_string()),
    }
}

/// `v[i]` for reading: an element of an array, else `null`.
pub open spec fn json_index(v: JsonV, i: int) -> JsonV {
    match v {
        JsonV::Array(s) => if 0 <= i < s.len() {
            s[i]
        } else {
            JsonV::Null
        },
        _ => JsonV::Null,
    }
}

/// A copy of `v[i]`.
pub fn index_or_null(v: &JsonValue, i: usize) -> (r: JsonValue)
    ensures
        r@ == json_index(v@, i as int),
{
    match v {
        JsonValue::Array(s) => {
            if i < s.len() {
                assert(json_seq_view(s@)[i as int] == s@[i as int]@);
                s[i].deep_clone()
            } else {
                JsonValue::Null
            }
        },
        _ => JsonValue::Null,
    }
}

/// The values of an object, in order.
pub open spec fn entry_values(e: Seq<(Seq<char>, JsonV)>) -> Seq<JsonV> {
    e.map_values(|kv: (Seq<char>, JsonV)| kv.1)
}

/// The values of an object's entries, as an array.
pub fn values_array(entries: &Vec<(String, JsonValue)>) -> (r: JsonValue)
    ensures
        r@ == JsonV::Array(entry_values(entries_view(entries@))),
{
    let mut out: Vec<JsonValue> = Vec::new();
    let mut i: usize = 0;
    while i < entries.len()
        invariant
            i <= entries@.len(),
            out@.len() == i,
            forall|j: int| 0 <= j < i ==> #[trigger] out@[j]@ == entries@[j].1@,
        decreases entries@.len() - i,
    {
        out.push(entries[i].1.deep_clone());
        i = i + 1;
    }
    let ghost target = entry_values(entries_view(entries@));
    assert forall|j: int| 0 <= j < entries@.len() implies #[trigger] json_seq_view(out@)[j]
        == target[j] by {
        assert(out@[j]@ == entries@[j].1@);
        assert(entries_view(entries@)[j] == (entries@[j].0@, entries@[j].1@));
    }
    assert(json_seq_view(out@) =~= target);
    JsonValue::Array(out)
}

} // verus!

verus! {

// ---------------------------------------------------------------------------
// What merging promises.
// ---------------------------------------------------------------------------

/// No key stands twice among the entries.
pub open spec fn keys_unique(e: Seq<(Seq<char>, JsonV)>) -> bool {
    forall|i: int, j: int| 0 <= i < j < e.len() ==> #[trigger] e[i].0 != #[trigger] e[j].0
}

/// A well-formed value: every object in it holds each key once.
pub open spec fn wf(v: JsonV) -> bool
    decreases v,
{
    match v {
        JsonV::Array(s) => all_wf(s),
        JsonV::Object(e) => keys_unique(e) && all_values_wf(e),
        _ => true,
    }
}

pub open spec fn all_wf(s: Seq<JsonV>) -> bool
    decreases s,
{
    if s.len() == 0 {
        true
    } else {
        all_wf(s.drop_last()) && wf(s.last())
    }
}

pub open spec fn all_values_wf(e: Seq<(Seq<char>, JsonV)>) -> bool
    decreases e,
{
    if e.len() == 0 {
        true
    } else {
        all_values_wf(e.drop_last()) && wf(e.last().1)
    }
}

pub proof fn lemma_all_wf(s: Seq<JsonV>)
    ensures
        all_wf(s) <==> forall|i: int| 0 <= i < s.len() ==> #[trigger] wf(s[i]),
    decreases s.len(),
{
    if s.len() > 0 {
        let r = s.drop_last();
        lemma_all_wf(r);
        assert(all_wf(s) == (all_wf(r) && wf(s.last())));
        if all_wf(s) {
            assert forall|i: int| 0 <= i < s.len() implies #[trigger] wf(s[i]) by {
                if i < s.len() - 1 {
                    assert(r[i] == s[i]);
                    assert(wf(r[i]));
                }
            }
        }
        if forall|i: int| 0 <= i < s.len() ==> #[trigger] wf(s[i]) {
            assert forall|i: int| 0 <= i < r.len() implies #[trigger] wf(r[i]) by {
                assert(r[i] == s[i]);
                assert(wf(s[i]));
            }
            assert(wf(s[s.len() - 1]));
        }
    }
}

pub proof fn lemma_all_values_wf(e: Seq<(Seq<char>, JsonV)>)
    ensures
        all_values_wf(e) <==> forall|i: int| 0 <= i < e.len() ==> #[trigger] wf(e[i].1),
    decreases e.len(),
{
    if e.len() > 0 {
        let r = e.drop_last();
        lemma_all_values_wf(r);
        assert(all_values_wf(e) == (all_values_wf(r) && wf(e.last().1)));
        if all_values_wf(e) {
            assert forall|i: int| 0 <= i < e.len() implies #[trigger] wf(e[i].1) by {
                if i < e.len() - 1 {
                    assert(r[i] == e[i]);
                    assert(wf(r[i].1));
                }
            }
        }
        if forall|i: int| 0 <= i < e.len() ==> #[trigger] wf(e[i].1) {
            assert forall|i: int| 0 <= i < r.len() implies #[trigger] wf(r[i].1) by {
                assert(r[i] == e[i]);
                assert(wf(e[i].1));
            }
            assert(wf(e[e.len() - 1].1));
        }
    }
}

/// The keys of an object's entries.
pub open spec fn entry_keys(e: Seq<(Seq<char>, JsonV)>) -> Set<Seq<char>> {
    Set::new(|k: Seq<char>| key_index(e, k) is Some)
}

/// Merging into `null` gives the merged value itself.
pub proof fn lemma_merge_into_null(b: JsonV)
    ensures
        merge_v(JsonV::Null, b) == b,
{
}

/// Merging an array into an array appends its elements.
pub proof fn lemma_merge_arrays(x: Seq<JsonV>, y: Seq<JsonV>)
    ensures
        merge_v(JsonV::Array(x), JsonV::Array(y)) == JsonV::Array(x + y),
{
}

/// Merging an object into an array pushes the object onto it.
pub proof fn lemma_merge_object_into_array(x: Seq<JsonV>, e: Seq<(Seq<char>, JsonV)>)
    ensures
        merge_v(JsonV::Array(x), JsonV::Object(e)) == JsonV::Array(x.push(JsonV::Object(e))),
{
}

/// A value that is neither an array nor an object replaces what it is merged into, and
/// so does an array or an object merged into a value of another kind (an object into
/// an array excepted).
pub proof fn lemma_merge_replaces(a: JsonV, b: JsonV)
    requires
        !(b is Array || b is Object) || (b is Array && !(a is Array)) || (b is Object && !(
        a is Array || a is Object)),
    ensures
        merge_v(a, b) == b,
{
}

/// Merging an empty array or an empty object into a value of the same kind leaves it
/// unchanged.
pub proof fn lemma_merge_empty(a: JsonV)
    ensures
        a is Array ==> merge_v(a, JsonV::Array(Seq::empty())) == a,
        a is Object ==> merge_v(a, JsonV::Object(Seq::empty())) == a,
{
    if let JsonV::Array(x) = a {
        assert(x + Seq::<JsonV>::empty() =~= x);
    }
}

proof fn lemma_keys_unique_update(e: Seq<(Seq<char>, JsonV)>, i: int, v: JsonV)
    requires
        keys_unique(e),
        0 <= i < e.len(),
    ensures
        keys_unique(e.update(i, (e[i].0, v))),
{
    let e2 = e.update(i, (e[i].0, v));
    assert forall|a: int, b: int| 0 <= a < b < e2.len() implies #[trigger] e2[a].0
        != #[trigger] e2[b].0 by {
        assert(e2[a].0 == e[a].0 && e2[b].0 == e[b].0);
    }
}

proof fn lemma_keys_unique_push(e: Seq<(Seq<char>, JsonV)>, k: Seq<char>, v: JsonV)
    requires
        keys_unique(e),
        key_index(e, k) is None,
    ensures
        keys_unique(e.push((k, v))),
{
    lemma_key_index_spec(e, k);
    let e2 = e.push((k, v));
    assert forall|a: int, b: int| 0 <= a < b < e2.len() implies #[trigger] e2[a].0
        != #[trigger] e2[b].0 by {
        if b == e.len() {
            assert(e2[a].0 == e[a].0);
        } else {
            assert(e2[a].0 == e[a].0 && e2[b].0 == e[b].0);
        }
    }
}

/// Merging keeps values well-formed.
pub proof fn lemma_merge_wf(a: JsonV, b: JsonV)
    requires
        wf(a),
        wf(b),
    ensures
        wf(merge_v(a, b)),
    decreases b,
{
    match b {
        JsonV::Object(eb) => match a {
            JsonV::Object(ea) => {
                lemma_all_values_wf(ea);
                lemma_all_values_wf(eb);
                lemma_merge_entries_wf(ea, eb);
                lemma_all_values_wf(merge_entries(ea, eb));
            },
            JsonV::Array(xa) => {
                lemma_all_wf(xa);
                let r = xa.push(b);
                assert forall|i: int| 0 <= i < r.len() implies #[trigger] wf(r[i]) by {
                    if i < xa.len() {
                        assert(r[i] == xa[i]);
                    }
                }
                lemma_all_wf(r);
            },
            _ => {},
        },
        JsonV::Array(xb) => match a {
            JsonV::Array(xa) => {
                lemma_all_wf(xa);
                lemma_all_wf(xb);
                let r = xa + xb;
                assert forall|i: int| 0 <= i < r.len() implies #[trigger] wf(r[i]) by {
                    if i < xa.len() {
                        assert(r[i] == xa[i]);
                    } else {
                        assert(r[i] == xb[i - xa.len()]);
                    }
                }
                lemma_all_wf(r);
            },
            _ => {},
        },
        _ => {},
    }
}

/// Merging entries into an object keeps each key once and every value well-formed.
pub proof fn lemma_merge_entries_wf(acc: Seq<(Seq<char>, JsonV)>, eb: Seq<(Seq<char>, JsonV)>)
    requires
        keys_unique(acc),
        forall|i: int| 0 <= i < acc.len() ==> #[trigger] wf(acc[i].1),
        forall|i: int| 0 <= i < eb.len() ==> #[trigger] wf(eb[i].1),
    ensures
        keys_unique(merge_entries(acc, eb)),
        forall|i: int|
            0 <= i < merge_entries(acc, eb).len() ==> #[trigger] wf(merge_entries(acc, eb)[i].1),
    decreases eb,
{
    lemma_all_values_wf(merge_entries(acc, eb));
    if eb.len() > 0 {
        let rest = eb.drop_last();
        assert forall|i: int| 0 <= i < rest.len() implies #[trigger] wf(rest[i].1) by {
            assert(rest[i] == eb[i]);
        }
        lemma_merge_entries_wf(acc, rest);
        let prev = merge_entries(acc, rest);
        lemma_all_values_wf(prev);
        let k = eb.last().0;
        let v = eb.last().1;
        assert(wf(v));
        lemma_key_index_spec(prev, k);
        match key_index(prev, k) {
            Some(i) => {
                assert(wf(prev[i].1));
                lemma_merge_wf(prev[i].1, v);
                lemma_keys_unique_update(prev, i, merge_v(prev[i].1, v));
                let r = prev.update(i, (k, merge_v(prev[i].1, v)));
                assert forall|j: int| 0 <= j < r.len() implies #[trigger] wf(r[j].1) by {
                    if j != i {
                        assert(r[j] == prev[j]);
                    }
                }
            },
            None => {
                lemma_keys_unique_push(prev, k, merge_v(JsonV::Null, v));
                let r = prev.push((k, merge_v(JsonV::Null, v)));
                assert forall|j: int| 0 <= j < r.len() implies #[trigger] wf(r[j].1) by {
                    if j < prev.len() {
                        assert(r[j] == prev[j]);
                    }
                }
            },
        }
    }
}

} // verus!

verus! {

/// Storing under one key leaves every other key where it was, with its value.
pub proof fn lemma_set_key_other(v: JsonV, key: Seq<char>, x: JsonV, k: Seq<char>)
    requires
        k != key,
    ensures
        object_value(set_key(v, key, x), k) == object_value(v, k),
        key_index(object_entries(set_key(v, key, x)), k) == key_index(object_entries(v), k),
{
    let e = object_entries(v);
    let e2 = object_entries(set_key(v, key, x));
    lemma_key_index_spec(e, key);
    lemma_key_index_spec(e, k);
    assert(forall|j: int| 0 <= j < e.len() ==> #[trigger] e2[j].0 == e[j].0);
    match key_index(e, k) {
        Some(i) => {
            assert forall|j: int| 0 <= j < i implies #[trigger] e2[j].0 != k by {
                assert(e2[j].0 == e[j].0);
            }
            lemma_key_index(e2, k, i);
            assert(e2[i] == e[i]);
        },
        None => {
            assert forall|j: int| 0 <= j < e2.len() implies #[trigger] e2[j].0 != k by {
                if j < e.len() {
                    assert(e2[j].0 == e[j].0);
                }
            }
            lemma_key_index(e2, k, e2.len() as int);
        },
    }
}

/// One step of [`merge_entries`] is a merge under one key.
proof fn lemma_merge_entries_step(acc: Seq<(Seq<char>, JsonV)>, eb: Seq<(Seq<char>, JsonV)>)
    requires
        eb.len() > 0,
    ensures
        JsonV::Object(merge_entries(acc, eb)) == merge_at_key(
            JsonV::Object(merge_entries(acc, eb.drop_last())),
            eb.last().0,
            eb.last().1,
        ),
{
    let prev = merge_entries(acc, eb.drop_last());
    lemma_key_index_spec(prev, eb.last().0);
}

/// Merging two objects merges them key by key: a key of `b` holds its value merged
/// into what `a` held under it (`null` where `a` lacks it), any other key keeps its
/// value in `a`, and the keys are those of `a` and of `b`. (`b` holds each key once.)
pub proof fn lemma_merge_objects(ea: Seq<(Seq<char>, JsonV)>, eb: Seq<(Seq<char>, JsonV)>, k: Seq<char>)
    requires
        keys_unique(eb),
    ensures
        object_value(merge_v(JsonV::Object(ea), JsonV::Object(eb)), k) == (if key_index(eb, k) is Some {
            merge_v(object_value(JsonV::Object(ea), k), object_value(JsonV::Object(eb), k))
        } else {
            object_value(JsonV::Object(ea), k)
        }),
        key_index(object_entries(merge_v(JsonV::Object(ea), JsonV::Object(eb))), k) is Some
            <==> (key_index(ea, k) is Some || key_index(eb, k) is Some),
    decreases eb.len(),
{
    if eb.len() > 0 {
        let rest = eb.drop_last();
        let kl = eb.last().0;
        let vl = eb.last().1;
        assert(keys_unique(rest)) by {
            assert forall|i: int, j: int| 0 <= i < j < rest.len() implies #[trigger] rest[i].0
                != #[trigger] rest[j].0 by {
                assert(rest[i] == eb[i] && rest[j] == eb[j]);
            }
        }
        lemma_merge_objects(ea, rest, k);
        lemma_merge_entries_step(ea, eb);
        let prev = JsonV::Object(merge_entries(ea, rest));
        lemma_key_index_spec(eb, k);
        lemma_key_index_spec(rest, k);
        if k == kl {
            lemma_set_key_lookup(prev, kl, merge_v(object_value(prev, kl), vl));
            // `kl` stands only last in `eb`
            assert forall|j: int| 0 <= j < rest.len() implies #[trigger] rest[j].0 != k by {
                assert(rest[j] == eb[j]);
                assert(eb[j].0 != eb[eb.len() - 1].0);
            }
            lemma_key_index(rest, k, rest.len() as int);
            assert forall|j: int| 0 <= j < eb.len() - 1 implies #[trigger] eb[j].0 != k by {
                assert(rest[j] == eb[j]);
            }
            lemma_key_index(eb, k, eb.len() - 1);
        } else {
            lemma_set_key_other(prev, kl, merge_v(object_value(prev, kl), vl), k);
            assert forall|j: int| 0 <= j < rest.len() implies eb[j] == rest[j] by {}
            match key_index(rest, k) {
                Some(i) => {
                    lemma_key_index(eb, k, i);
                },
                None => {
                    assert forall|j: int| 0 <= j < eb.len() implies #[trigger] eb[j].0 != k by {
                        if j < rest.len() {
                            assert(eb[j] == rest[j]);
                        }
                    }
                    lemma_key_index(eb, k, eb.len() as int);
                },
            }
        }
    }
}

} // verus!
