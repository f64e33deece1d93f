//! A YAML document as the configuration logic reads it, with the lookups of
//! `yaml_rust::Yaml` (`doc["key"]`, `doc[0]`, `into_string`, `as_i64`, ...)
//! written and verified over a model of its own.
use vstd::prelude::*;

use crate::text::str_eq;

verus! {

/// A YAML node: the same shapes as `yaml_rust::Yaml`. A hash keeps its entries in
/// insertion order.
#[derive(Debug, PartialEq)]
pub enum YamlNode {
    Real(String),
    Integer(i64),
    String(String),
    Boolean(bool),
    Array(Vec<YamlNode>),
    Hash(Vec<(YamlNode, YamlNode)>),
    Alias(usize),
    Null,
    BadValue,
}

/// The mathematical model of a [`YamlNode`].
pub enum YamlV {
    Real(Seq<char>),
    Integer(i64),
    String(Seq<char>),
    Boolean(bool),
    Array(Seq<YamlV>),
    Hash(Seq<(YamlV, YamlV)>),
    Alias(usize),
    Null,
    BadValue,
}

pub open spec fn yaml_seq_view(s: Seq<YamlNode>) -> Seq<YamlV>
    decreases s,
{
    Seq::new(s.len(), |i: int| if 0 <= i < s.len() { s[i].model() } else { YamlV::Null })
}

pub open spec fn yaml_pairs_view(s: Seq<(YamlNode, YamlNode)>) -> Seq<(YamlV, YamlV)>
    decreases s,
{
    Seq::new(
        s.len(),
        |i: int|
            if 0 <= i < s.len() {
                (s[i].0.model(), s[i].1.model())
            } else {
                (YamlV::Null, YamlV::Null)
            },
    )
}

impl YamlNode {
    pub open spec fn model(&self) -> YamlV
        decreases self,
    {
        match self {
            YamlNode::Real(s) => YamlV::Real(s@),
            YamlNode::Integer(i) => YamlV::Integer(*i),
            YamlNode::String(s) => YamlV::String(s@),
            YamlNode::Boolean(b) => YamlV::Boolean(*b),
            YamlNode::Array(v) => YamlV::Array(yaml_seq_view(v@)),
            YamlNode::Hash(h) => YamlV::Hash(yaml_pairs_view(h@)),
            YamlNode::Alias(a) => YamlV::Alias(*a),
            YamlNode::Null => YamlV::Null,
            YamlNode::BadValue => YamlV::BadValue,
        }
    }
}

impl View for YamlNode {
    type V = YamlV;

    open spec fn view(&self) -> YamlV {
        self.model()
    }
}

/// The index of the first entry of `entries` whose key is `key`.
pub open spec fn first_key_index(entries: Seq<(YamlV, YamlV)>, key: YamlV) -> Option<int>
    decreases entries.len(),
{
    if entries.len() == 0 {
        None
    } else if entries[0].0 == key {
        Some(0)
    } else {
        match first_key_index(entries.drop_first(), key) {
            Some(i) => Some(i + 1),
            None => None,
        }
    }
}

/// The value stored under `key` in a hash, or `BadValue`.
pub open spec fn hash_lookup(entries: Seq<(YamlV, YamlV)>, key: YamlV) -> YamlV {
    match first_key_index(entries, key) {
        Some(i) => entries[i].1,
        None => YamlV::BadValue,
    }
}

impl YamlV {
    /// `node["key"]`: the value under the string key `key` of a hash, else `BadValue`.
    pub open spec fn get(self, key: Seq<char>) -> YamlV {
        match self {
            YamlV::Hash(h) => hash_lookup(h, YamlV::String(key)),
            _ => YamlV::BadValue,
        }
    }

    /// `node[idx]`: an element of an array, the value under the integer key `idx` of a
    /// hash, else `BadValue`.
    pub open spec fn at(self, idx: usize) -> YamlV {
        match self {
            YamlV::Array(v) => if idx < v.len() {
                v[idx as int]
            } else {
                YamlV::BadValue
            },
            YamlV::Hash(h) => hash_lookup(h, YamlV::Integer(idx as i64)),
            _ => YamlV::BadValue,
        }
    }

    /// `into_string`: the text of a string scalar.
    pub open spec fn as_string(self) -> Option<Seq<char>> {
        match self {
            YamlV::String(s) => Some(s),
            _ => None,
        }
    }

    pub open spec fn as_i64(self) -> Option<i64> {
        match self {
            YamlV::Integer(i) => Some(i),
            _ => None,
        }
    }

    pub open spec fn as_bool(self) -> Option<bool> {
        match self {
            YamlV::Boolean(b) => Some(b),
            _ => None,
        }
    }

    /// What iterating over the node yields: the elements of an array, else nothing.
    pub open spec fn items(self) -> Seq<YamlV> {
        match self {
            YamlV::Array(v) => v,
            _ => Seq::empty(),
        }
    }
}

proof fn lemma_first_key_index(entries: Seq<(YamlV, YamlV)>, key: YamlV, i: int)
    requires
        0 <= i <= entries.len(),
        forall|j: int| 0 <= j < i ==> #[trigger] entries[j].0 != key,
    ensures
        i < entries.len() && entries[i].0 == key ==> first_key_index(entries, key) == Some(i),
        i == entries.len() ==> first_key_index(entries, key) is None,
    decreases i,
{
    if i > 0 {
        let rest = entries.drop_first();
        assert forall|j: int| 0 <= j < i - 1 implies #[trigger] rest[j].0 != key by {
            assert(rest[j] == entries[j + 1]);
        }
        lemma_first_key_index(rest, key, i - 1);
        assert(entries[0].0 != key);
    }
}

impl YamlNode {
    /// A copy of the node, with the same model.
    pub fn deep_clone(&self) -> (r: YamlNode)
        ensures
            r@ == self@,
        decreases self,
    {
        match self {
            YamlNode::Real(s) => YamlNode::Real(s.clone()),
            YamlNode::Integer(i) => YamlNode::Integer(*i),
            YamlNode::String(s) => YamlNode::String(s.clone()),
            YamlNode::Boolean(b) => YamlNode::Boolean(*b),
            YamlNode::Array(v) => {
                let mut out: Vec<YamlNode> = Vec::new();
                let mut i: usize = 0;
                while i < v.len()
                    invariant
                        *self == YamlNode::Array(*v),
                        i <= v@.len(),
                        out@.len() == i,
                        forall|j: int| 0 <= j < i ==> #[trigger] out@[j]@ == v@[j]@,
                    decreases v@.len() - i,
                {
                    proof {
                        assert(decreases_to!(*self => self->Array_0));
                        assert(decreases_to!(self->Array_0 => v@));
                        assert(decreases_to!(v@ => v@[i as int]));
                    }
                    let c = v[i].deep_clone();
                    out.push(c);
                    i = i + 1;
                }
                assert(yaml_seq_view(out@) =~= yaml_seq_view(v@)) by {
                    assert forall|j: int| 0 <= j < v@.len() implies #[trigger] yaml_seq_view(out@)[j]
                        == yaml_seq_view(v@)[j] by {
                        assert(out@[j]@ == v@[j]@);
                    }
                }
                YamlNode::Array(out)
            },
            YamlNode::Hash(h) => {
                let mut out: Vec<(YamlNode, YamlNode)> = Vec::new();
                let mut i: usize = 0;
                while i < h.len()
                    invariant
                        *self == YamlNode::Hash(*h),
                        i <= h@.len(),
                        out@.len() == i,
                        forall|j: int|
                            #![trigger out@[j]]
                            0 <= j < i ==> out@[j].0@ == h@[j].0@ && out@[j].1@ == h@[j].1@,
                    decreases h@.len() - i,
                {
                    proof {
                        assert(decreases_to!(*self => self->Hash_0));
                        assert(decreases_to!(self->Hash_0 => h@));
                        assert(decreases_to!(h@ => h@[i as int]));
                        assert(decreases_to!(h@[i as int] => h@[i as int].0));
                        assert(decreases_to!(h@[i as int] => h@[i as int].1));
                    }
                    let k = h[i].0.deep_clone();
                    let v = h[i].1.deep_clone();
                    out.push((k, v));
                    i = i + 1;
                }
                assert(yaml_pairs_view(out@) =~= yaml_pairs_view(h@)) by {
                    assert forall|j: int| 0 <= j < h@.len() implies #[trigger] yaml_pairs_view(
                        out@,
                    )[j] == yaml_pairs_view(h@)[j] by {
                        assert(out@[j].0@ == h@[j].0@ && out@[j].1@ == h@[j].1@);
                    }
                }
                YamlNode::Hash(out)
            },
            YamlNode::Alias(a) => YamlNode::Alias(*a),
            YamlNode::Null => YamlNode::Null,
            YamlNode::BadValue => YamlNode::BadValue,
        }
    }

    /// A copy of the value under the string key `key` of a hash (`node["key"]`), or
    /// `BadValue` where there is none.
    pub fn get(&self, key: &str) -> (r: YamlNode)
        ensures
            r@ == self@.get(key@),
    {
        match self {
            YamlNode::Hash(h) => {
                let ghost entries = yaml_pairs_view(h@);
                let ghost target = YamlV::String(key@);
                let mut i: usize = 0;
                while i < h.len()
                    invariant
                        *self == YamlNode::Hash(*h),
                        entries == yaml_pairs_view(h@),
                        target == YamlV::String(key@),
                        i <= h@.len(),
                        forall|j: int| 0 <= j < i ==> #[trigger] entries[j].0 != target,
                    decreases h@.len() - i,
                {
                    let hit = match &h[i].0 {
                        YamlNode::String(k) => str_eq(k.as_str(), key),
                        _ => false,
                    };
                    assert(entries[i as int] == (h@[i as int].0@, h@[i as int].1@));
                    if hit {
                        proof {
                            lemma_first_key_index(entries, target, i as int);
                        }
                        return h[i].1.deep_clone();
                    }
                    i = i + 1;
                }
                proof {
                    lemma_first_key_index(entries, target, i as int);
                }
                YamlNode::BadValue
            },
            _ => YamlNode::BadValue,
        }
    }

    /// A copy of the element at `idx` of an array, or of the value under the integer key
    /// `idx` of a hash (`node[idx]`), or `BadValue` where there is none.
    pub fn at(&self, idx: usize) -> (r: YamlNode)
        ensures
            r@ == self@.at(idx),
    {
        match self {
            YamlNode::Array(v) => {
                if idx < v.len() {
                    v[idx].deep_clone()
                } else {
                    YamlNode::BadValue
                }
            },
            YamlNode::Hash(h) => {
                let ghost entries = yaml_pairs_view(h@);
                let ghost target = YamlV::Integer(idx as i64);
                let wanted: i64 = idx as i64;
                let mut i: usize = 0;
                while i < h.len()
                    invariant
                        *self == YamlNode::Hash(*h),
                        entries == yaml_pairs_view(h@),
                        target == YamlV::Integer(wanted),
                        wanted == idx as i64,
                        i <= h@.len(),
                        forall|j: int| 0 <= j < i ==> #[trigger] entries[j].0 != target,
                    decreases h@.len() - i,
                {
                    let hit = match &h[i].0 {
                        YamlNode::Integer(k) => *k == wanted,
                        _ => false,
                    };
                    assert(entries[i as int] == (h@[i as int].0@, h@[i as int].1@));
                    if hit {
                        proof {
                            lemma_first_key_index(entries, target, i as int);
                        }
                        return h[i].1.deep_clone();
                    }
                    i = i + 1;
                }
                proof {
                    lemma_first_key_index(entries, target, i as int);
                }
                YamlNode::BadValue
            },
            _ => YamlNode::BadValue,
        }
    }

    /// The text of a string scalar.
    pub fn into_string(self) -> (r: Option<String>)
        ensures
            match r {
                Some(s) => self@.as_string() == Some(s@),
                None => self@.as_string() is None,
            },
    {
        match self {
            YamlNode::String(s) => Some(s),
            _ => None,
        }
    }

    pub fn as_i64(&self) -> (r: Option<i64>)
        ensures
            r == self@.as_i64(),
    {
        match self {
            YamlNode::Integer(i) => Some(*i),
            _ => None,
        }
    }

    pub fn as_bool(&self) -> (r: Option<bool>)
        ensures
            r == self@.as_bool(),
    {
        match self {
            YamlNode::Boolean(b) => Some(*b),
            _ => None,
        }
    }

    pub fn is_badvalue(&self) -> (r: bool)
        ensures
            r == (self@ is BadValue),
    {
        match self {
            YamlNode::BadValue => true,
            _ => false,
        }
    }

    /// The elements that iterating over the node yields: those of an array, else none.
    pub fn into_items(self) -> (r: Vec<YamlNode>)
        ensures
            yaml_seq_view(r@) == self@.items(),
    {
        match self {
            YamlNode::Array(v) => v,
            _ => {
                let r: Vec<YamlNode> = Vec::new();
                assert(yaml_seq_view(r@) =~= Seq::<YamlV>::empty());
                r
            },
        }
    }
}

} // verus!

verus! {

#[verifier::external_type_specification]
#[verifier::external_body]
pub struct ExYaml(yaml_rust::Yaml);

/// The documents that `yaml_rust::YamlLoader::load_from_str` reads from a text, or the
/// message of the error that it reports.
pub uninterp spec fn yaml_documents(text: Seq<char>) -> Result<Seq<YamlV>, Seq<char>>;

/// Turns a `yaml_rust::Yaml` into a [`YamlNode`] variant by variant, moving the scalars
/// and converting the elements of arrays and hashes the same way (in hash order).
#[verifier::external_body]
fn node_from_outside(y: yaml_rust::Yaml) -> YamlNode {
    match y {
        yaml_rust::Yaml::Real(s) => YamlNode::Real(s),
        yaml_rust::Yaml::Integer(i) => YamlNode::Integer(i),
        yaml_rust::Yaml::String(s) => YamlNode::String(s),
        yaml_rust::Yaml::Boolean(b) => YamlNode::Boolean(b),
        yaml_rust::Yaml::Array(v) => YamlNode::Array(v.into_iter().map(node_from_outside).collect()),
        yaml_rust::Yaml::Hash(h) => YamlNode::Hash(
            h.into_iter().map(|(k, v)| (node_from_outside(k), node_from_outside(v))).collect(),
        ),
        yaml_rust::Yaml::Alias(a) => YamlNode::Alias(a),
        yaml_rust::Yaml::Null => YamlNode::Null,
        yaml_rust::Yaml::BadValue => YamlNode::BadValue,
    }
}

/// Calls `yaml_rust::YamlLoader::load_from_str`. Claimed: the documents read, or the
/// text of the `ScanError` (its `Display`), are what [`yaml_documents`] names for `text`.
#[verifier::external_body]
pub fn load_yaml(text: &str) -> (r: Result<Vec<YamlNode>, String>)
    ensures
        match r {
            Ok(docs) => yaml_documents(text@) == Ok::<Seq<YamlV>, Seq<char>>(yaml_seq_view(docs@)),
            Err(m) => yaml_documents(text@) == Err::<Seq<YamlV>, Seq<char>>(m@),
        },
{
    match yaml_rust::YamlLoader::load_from_str(text) {
        Ok(docs) => Ok(docs.into_iter().map(node_from_outside).collect()),
        Err(e) => Err(e.to_string()),
    }
}

} // verus!
