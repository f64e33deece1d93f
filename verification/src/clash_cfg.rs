//! Reading a clash configuration and converting all of its proxies.
use vstd::prelude::*;

use crate::helper::{name_of, type_of, NodeInfo};
use crate::json::{
    entries_view, entry_values, index_or_null, json_seq_view, object_value, string_seq_view,
    reads_back, values_array, JsonV, JsonValue,
};
use crate::sb_def::variant_name;
use crate::text::owned;
use crate::utils::{
    convertible, is_converted_kind, kind_of_type, kind_tag, lemma_converted_iff_named,
    lemma_outbound_head, lemma_outbound_reads_back, outbound_json, proxy_kind,
};
use crate::yaml::{load_yaml, yaml_documents, yaml_seq_view, YamlNode, YamlV};
use crate::{ClashCfg, CtosError, PerClashProxy};

verus! {

/// The entries of the `proxies` list of a configuration.
pub open spec fn proxies_of(cfg: YamlV) -> Seq<YamlV> {
    cfg.get("proxies"@).items()
}

/// Whether a text that is YAML holds at least one document (the configuration is the
/// first of them).
pub open spec fn has_document(text: Seq<char>) -> bool {
    yaml_documents(text) matches Ok(docs) ==> docs.len() > 0
}

/// Whether every proxy of a configuration is of a kind that is converted, and holds
/// what its conversion reads.
pub open spec fn all_convertible(cfg: YamlV) -> bool {
    forall|i: int|
        0 <= i < proxies_of(cfg).len() ==> convertible(#[trigger] proxies_of(cfg)[i])
            && is_converted_kind(proxy_kind(proxies_of(cfg)[i]))
}

impl ClashCfg {
    /// The first YAML document of `raw`.
    pub fn to_yaml_data(raw: &str) -> (r: Result<YamlNode, CtosError>)
        requires
            has_document(raw@),
        ensures
            match yaml_documents(raw@) {
                Ok(docs) => r matches Ok(d) && d@ == docs[0],
                Err(m) => r matches Err(CtosError::Yaml(e)) && e@ == m,
            },
    {
        match load_yaml(raw) {
            Ok(docs) => {
                let mut docs = docs;
                assert(yaml_seq_view(docs@)[0] == docs@[0]@);
                Ok(docs.remove(0))
            },
            Err(e) => Err(CtosError::Yaml(e)),
        }
    }

    /// The configuration in the first YAML document of `t`.
    pub fn new_from_plain_text(t: &str) -> (r: Result<ClashCfg, CtosError>)
        requires
            has_document(t@),
        ensures
            match yaml_documents(t@) {
                Ok(docs) => r matches Ok(c) && c@ == docs[0],
                Err(m) => r matches Err(CtosError::Yaml(e)) && e@ == m,
            },
    {
        match Self::to_yaml_data(t) {
            Ok(d) => Ok(ClashCfg::new(d)),
            Err(e) => Err(e),
        }
    }

    /// As [`ClashCfg::new_from_plain_text`], and `NoDocument` for a text that holds no
    /// YAML document.
    pub fn parse_plain_text(t: &str) -> (r: Result<ClashCfg, CtosError>)
        ensures
            match yaml_documents(t@) {
                Ok(docs) => if docs.len() > 0 {
                    r matches Ok(c) && c@ == docs[0]
                } else {
                    r matches Err(CtosError::NoDocument)
                },
                Err(m) => r matches Err(CtosError::Yaml(e)) && e@ == m,
            },
    {
        match load_yaml(t) {
            Ok(docs) => {
                if docs.len() == 0 {
                    Err(CtosError::NoDocument)
                } else {
                    Self::new_from_plain_text(t)
                }
            },
            Err(e) => Err(CtosError::Yaml(e)),
        }
    }

    /// The `proxies` entry of the configuration.
    pub fn get_proxies(&self) -> (r: Result<YamlNode, CtosError>)
        ensures
            r matches Ok(p) && p@ == self@.get("proxies"@),
    {
        Ok(self.0.get("proxies"))
    }

    /// The name of every proxy (`unnamed` where it has none).
    pub fn get_node_tags(&self) -> (r: Vec<String>)
        ensures
            string_seq_view(r@) == proxies_of(self@).map_values(|p: YamlV| name_of(p)),
    {
        let proxies = self.0.get("proxies").into_items();
        let ghost ps = proxies_of(self@);
        let mut tags: Vec<String> = Vec::new();
        let mut i: usize = 0;
        while i < proxies.len()
            invariant
                yaml_seq_view(proxies@) == ps,
                i <= proxies@.len(),
                tags@.len() == i,
                forall|j: int| 0 <= j < i ==> #[trigger] tags@[j]@ == name_of(ps[j]),
            decreases proxies@.len() - i,
        {
            assert(ps[i as int] == proxies@[i as int]@);
            let entry = PerClashProxy::from(proxies[i].deep_clone());
            tags.push(entry.named());
            i = i + 1;
        }
        assert(string_seq_view(tags@) =~= ps.map_values(|p: YamlV| name_of(p)));
        tags
    }

    /// The clash type of every proxy (`unknown` where it has none).
    pub fn get_node_types(&self) -> (r: Vec<String>)
        ensures
            string_seq_view(r@) == proxies_of(self@).map_values(|p: YamlV| type_of(p)),
    {
        let proxies = self.0.get("proxies").into_items();
        let ghost ps = proxies_of(self@);
        let mut types: Vec<String> = Vec::new();
        let mut i: usize = 0;
        while i < proxies.len()
            invariant
                yaml_seq_view(proxies@) == ps,
                i <= proxies@.len(),
                types@.len() == i,
                forall|j: int| 0 <= j < i ==> #[trigger] types@[j]@ == type_of(ps[j]),
            decreases proxies@.len() - i,
        {
            assert(ps[i as int] == proxies@[i as int]@);
            let entry = PerClashProxy::from(proxies[i].deep_clone());
            types.push(entry.typed());
            i = i + 1;
        }
        assert(string_seq_view(types@) =~= ps.map_values(|p: YamlV| type_of(p)));
        types
    }

    /// The sing-box definition name of each clash type (empty for a type that is not
    /// converted).
    pub fn type_converter(ts: Vec<String>) -> (r: Vec<String>)
        ensures
            string_seq_view(r@) == string_seq_view(ts@).map_values(|t: Seq<char>| kind_tag(t)),
    {
        let mut out: Vec<String> = Vec::new();
        let mut i: usize = 0;
        while i < ts.len()
            invariant
                i <= ts@.len(),
                out@.len() == i,
                forall|j: int| 0 <= j < i ==> #[trigger] out@[j]@ == kind_tag(ts@[j]@),
            decreases ts@.len() - i,
        {
            out.push(kind_of_type(ts[i].as_str()));
            i = i + 1;
        }
        assert(string_seq_view(out@) =~= string_seq_view(ts@).map_values(
            |t: Seq<char>| kind_tag(t),
        ));
        out
    }

    /// Every proxy converted to its sing-box outbound, with the proxies' names as tags.
    pub fn get_node_data_full(&self) -> (r: Result<NodeInfo, CtosError>)
        requires
            all_convertible(self@),
        ensures
            r matches Ok(info) && json_seq_view(info.list@) == proxies_of(self@).map_values(
                |p: YamlV| outbound_json(p),
            ) && string_seq_view(info.tags@) == proxies_of(self@).map_values(
                |p: YamlV| name_of(p),
            ),
    {
        let proxies = self.0.get("proxies").into_items();
        let tags = self.get_node_tags();
        let ghost ps = proxies_of(self@);
        let mut list: Vec<JsonValue> = Vec::new();
        let mut i: usize = 0;
        while i < proxies.len()
            invariant
                yaml_seq_view(proxies@) == ps,
                all_convertible(self@),
                ps == proxies_of(self@),
                i <= proxies@.len(),
                list@.len() == i,
                forall|j: int| 0 <= j < i ==> #[trigger] list@[j]@ == outbound_json(ps[j]),
            decreases proxies@.len() - i,
        {
            assert(ps[i as int] == proxies@[i as int]@);
            assert(convertible(ps[i as int]) && is_converted_kind(proxy_kind(ps[i as int])));
            let entry = PerClashProxy::from(proxies[i].deep_clone());
            let def = entry.convert_to_singbox_def().unwrap();
            let tagged = def.to_json();
            let node = match &tagged {
                JsonValue::Object(e) => {
                    let values = values_array(e);
                    assert(entry_values(entries_view(e@)) =~= Seq::empty().push(def.inner_json()));
                    index_or_null(&values, 0)
                },
                _ => JsonValue::Null,
            };
            list.push(node);
            i = i + 1;
        }
        assert forall|j: int| 0 <= j < ps.len() implies #[trigger] json_seq_view(list@)[j]
            == ps.map_values(|p: YamlV| outbound_json(p))[j] by {
            assert(list@[j]@ == outbound_json(ps[j]));
        }
        assert(json_seq_view(list@) =~= ps.map_values(|p: YamlV| outbound_json(p)));
        Ok(NodeInfo { list, tags })
    }
}

} // verus!

verus! {

/// The tags of a converted configuration name its outbounds: the `tag` of the i-th
/// outbound of `get_node_data_full` is its i-th tag (both are taken from the i-th proxy).
pub proof fn lemma_tags_name_outbounds(cfg: YamlV)
    requires
        all_convertible(cfg),
    ensures
        forall|i: int|
            0 <= i < proxies_of(cfg).len() ==> object_value(
                outbound_json(#[trigger] proxies_of(cfg)[i]),
                "tag"@,
            ) == JsonV::String(name_of(proxies_of(cfg)[i])),
{
    let ps = proxies_of(cfg);
    assert forall|i: int| 0 <= i < ps.len() implies object_value(
        outbound_json(#[trigger] ps[i]),
        "tag"@,
    ) == JsonV::String(name_of(ps[i])) by {
        assert(convertible(ps[i]) && is_converted_kind(proxy_kind(ps[i])));
        lemma_outbound_head(ps[i]);
    }
}

/// serde_json reads back the outbounds of a converted configuration: the list that
/// `get_node_data_full` gives holds no float and no negative number and nests only a
/// few levels, so `proxies_string` and `proxies_string_pretty` print texts that parse
/// back into that list (up to the order of object entries).
pub proof fn lemma_node_list_reads_back(cfg: YamlV)
    requires
        all_convertible(cfg),
    ensures
        reads_back(JsonV::Array(proxies_of(cfg).map_values(|p: YamlV| outbound_json(p))), 100),
{
    let ps = proxies_of(cfg);
    let a = ps.map_values(|p: YamlV| outbound_json(p));
    assert forall|i: int| 0 <= i < a.len() implies reads_back(#[trigger] a[i], 99) by {
        assert(convertible(ps[i]) && is_converted_kind(proxy_kind(ps[i])));
        lemma_outbound_reads_back(ps[i], 99);
    }
}

/// `convert_to_singbox_def` converts exactly the proxies of type `http` and those for
/// whose type `type_converter` (applied to `get_node_types`) names a definition (a name
/// that is not empty).
pub proof fn lemma_types_name_converted(cfg: YamlV)
    ensures
        forall|i: int|
            0 <= i < proxies_of(cfg).len() ==> (is_converted_kind(
                proxy_kind(#[trigger] proxies_of(cfg)[i]),
            ) <==> (type_of(proxies_of(cfg)[i]) == "http"@ || kind_tag(type_of(proxies_of(cfg)[i]))
                != ""@)),
{
    let ps = proxies_of(cfg);
    assert forall|i: int| 0 <= i < ps.len() implies (is_converted_kind(
        proxy_kind(#[trigger] ps[i]),
    ) <==> (type_of(ps[i]) == "http"@ || kind_tag(type_of(ps[i])) != ""@)) by {
        lemma_converted_iff_named(type_of(ps[i]));
    }
}

} // verus!

verus! {

impl ClashCfg {
    /// Whether every proxy can be converted (what `get_node_data_full` needs).
    pub fn all_proxies_convertible(&self) -> (r: bool)
        ensures
            r == all_convertible(self@),
    {
        let proxies = self.0.get("proxies").into_items();
        let ghost ps = proxies_of(self@);
        let mut i: usize = 0;
        while i < proxies.len()
            invariant
                yaml_seq_view(proxies@) == ps,
                ps == proxies_of(self@),
                i <= proxies@.len(),
                forall|j: int|
                    0 <= j < i ==> convertible(#[trigger] ps[j]) && is_converted_kind(
                        proxy_kind(ps[j]),
                    ),
            decreases proxies@.len() - i,
        {
            assert(ps[i as int] == proxies@[i as int]@);
            let entry = PerClashProxy::from(proxies[i].deep_clone());
            if !entry.is_convertible() {
                return false;
            }
            i = i + 1;
        }
        true
    }
}

} // verus!
