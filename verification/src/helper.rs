//! Reading the fields of one clash proxy entry, and the node list that a
//! conversion yields.
use vstd::prelude::*;

use crate::json::{
    entries_view, find_key, json_seq_view, keyable, lemma_key_index, lemma_set_key_lookup,
    lemma_set_key_other, merge_at_key, merge_v, merged_at_key, new_entries, object_entries,
    object_value, set_key,
    json_parsed, json_text, json_text_pretty, lemma_same_strs, lemma_strs_reads_back, load_json,
    reads_back, same_json, json_to_string, json_to_string_pretty, string_seq_view,
    strings_value, strs_v, JsonV, JsonValue,
};
use crate::paradigm::PARADIGM;
use crate::sb_def::{
    opt_tls_json, opt_transport_json, tls_json, transport_json, utls_json, Tls, Transport, Utls,
};
use crate::text::{concatenated, owned, parse_decimal, parse_unsigned, str_eq};
use crate::yaml::{YamlNode, YamlV};
use crate::{CtosError, PerClashProxy};

verus! {

/// The text under `key`, where it is a string.
pub open spec fn str_field(p: YamlV, key: Seq<char>) -> Option<Seq<char>> {
    p.get(key).as_string()
}

/// A port-like number under `key`: an integer truncated to 16 bits, or a string that
/// parses as a `u16`.
pub open spec fn int_field(p: YamlV, key: Seq<char>) -> Option<u16> {
    match p.get(key) {
        YamlV::Integer(i) => Some(i as u16),
        YamlV::String(s) => match parse_unsigned(s, 65535) {
            Some(v) => Some(v as u16),
            None => None,
        },
        _ => None,
    }
}

/// The sing-box name of a clash plugin.
pub open spec fn plugin_name(s: Seq<char>) -> Seq<char> {
    if s == "obfs"@ {
        "obfs-local"@
    } else if s == "v2ray-plugin"@ {
        "v2ray-plugin"@
    } else {
        s
    }
}

pub open spec fn optional_plugin_field(p: YamlV, key: Seq<char>) -> Option<Seq<char>> {
    match str_field(p, key) {
        Some(s) => Some(plugin_name(s)),
        None => None,
    }
}

/// The proxy's name, or `unnamed`.
pub open spec fn name_of(p: YamlV) -> Seq<char> {
    match str_field(p, "name"@) {
        Some(s) => s,
        None => "unnamed"@,
    }
}

/// The proxy's clash type, or `unknown`.
pub open spec fn type_of(p: YamlV) -> Seq<char> {
    match str_field(p, "type"@) {
        Some(s) => s,
        None => "unknown"@,
    }
}

/// `obfs=<mode>;obfs-host=<host>` from the `plugin-opts` of a proxy.
pub open spec fn plugin_opts_text(opts: YamlV) -> Seq<char> {
    "obfs="@ + opts.get("mode"@).as_string().unwrap() + ";obfs-host="@ + opts.get(
        "host"@,
    ).as_string().unwrap()
}

pub open spec fn plugin_opts_defined(opts: YamlV) -> bool {
    opts.get("mode"@).as_string() is Some && opts.get("host"@).as_string() is Some
}

/// The TLS settings of a proxy: present exactly where the proxy has a `tls` entry.
pub open spec fn tls_of(p: YamlV) -> Option<JsonV> {
    if p.get("tls"@) is BadValue {
        None
    } else {
        Some(
            tls_json(
                true,
                str_field(p, "sni"@) == Some("true"@),
                match str_field(p, "sni"@) {
                    Some(s) => Some(s),
                    None => str_field(p, "servername"@),
                },
                false,
                match str_field(p, "alpn"@) {
                    Some(_) => Some(Seq::empty().push("h2"@)),
                    None => None,
                },
                utls_json(true, "chrome"@),
                str_field(p, "ca"@),
                str_field(p, "ca_str"@),
                None,
            ),
        )
    }
}

/// Whether the proxy's `network`, where it is a string, names a transport that is known.
pub open spec fn transport_defined(p: YamlV) -> bool {
    match str_field(p, "network"@) {
        Some(n) => n == "http"@ || n == "ws"@ || n == "grpc"@,
        None => true,
    }
}

pub open spec fn max_early_data_of(p: YamlV) -> Option<u32> {
    match p.get("ws-opts"@).get("max-early-data"@).as_string() {
        Some(s) => match parse_unsigned(s, 4294967295) {
            Some(v) => Some(v as u32),
            None => None,
        },
        None => None,
    }
}

/// The v2ray transport of a proxy, chosen by its `network`.
pub open spec fn transport_of(p: YamlV) -> Option<JsonV> {
    match str_field(p, "network"@) {
        Some(n) => if n == "http"@ {
            Some(
                transport_json(
                    "http"@,
                    None,
                    p.get("http-opts"@).get("path"@).at(0).as_string(),
                    p.get("http-ops"@).get("method"@).as_string(),
                    None,
                    None,
                    None,
                    None,
                ),
            )
        } else if n == "ws"@ {
            Some(
                transport_json(
                    "ws"@,
                    None,
                    p.get("ws-opts"@).get("path"@).as_string(),
                    None,
                    None,
                    max_early_data_of(p),
                    p.get("ws-opts"@).get("early-data-header-name"@).as_string(),
                    None,
                ),
            )
        } else {
            Some(
                transport_json(
                    "grpc"@,
                    None,
                    None,
                    None,
                    None,
                    None,
                    None,
                    p.get("grpc-opts"@).get("grpc-service-name"@).as_string(),
                ),
            )
        },
        None => None,
    }
}

impl View for PerClashProxy {
    type V = YamlV;

    open spec fn view(&self) -> YamlV {
        self.0@
    }
}

impl PerClashProxy {
    /// The string under `s`; the proxy must hold one there.
    pub fn str_param(&self, s: &str) -> (r: String)
        requires
            str_field(self@, s@) is Some,
        ensures
            Some(r@) == str_field(self@, s@),
    {
        self.0.get(s).into_string().unwrap()
    }

    /// The number under `s`: an integer truncated to 16 bits, or a string parsed as a
    /// `u16`; the proxy must hold one of them there.
    pub fn int_param(&self, s: &str) -> (r: u16)
        requires
            int_field(self@, s@) is Some,
        ensures
            Some(r) == int_field(self@, s@),
    {
        let v = self.0.get(s);
        match v.as_i64() {
            Some(i) => i as u16,
            None => {
                let text = v.into_string().unwrap();
                let n = parse_decimal(text.as_str(), 65535).unwrap();
                assert(parse_unsigned(text@, 65535) == Some(n as int));
                assert(n <= 65535);
                n as u16
            },
        }
    }

    /// The string under `s`, with a clash plugin name turned into its sing-box name.
    pub fn optional_plugin(&self, s: &str) -> (r: Option<String>)
        ensures
            match r {
                Some(t) => optional_plugin_field(self@, s@) == Some(t@),
                None => optional_plugin_field(self@, s@) is None,
            },
    {
        match self.0.get(s).into_string() {
            Some(i) => {
                if str_eq(i.as_str(), "obfs") {
                    Some(owned("obfs-local"))
                } else if str_eq(i.as_str(), "v2ray-plugin") {
                    Some(owned("v2ray-plugin"))
                } else {
                    Some(i)
                }
            },
            None => None,
        }
    }

    pub fn named(&self) -> (r: String)
        ensures
            r@ == name_of(self@),
    {
        match self.0.get("name").into_string() {
            Some(s) => s,
            None => owned("unnamed"),
        }
    }

    pub fn typed(&self) -> (r: String)
        ensures
            r@ == type_of(self@),
    {
        match self.0.get("type").into_string() {
            Some(s) => s,
            None => owned("unknown"),
        }
    }

    /// The TLS settings, where the proxy has a `tls` entry.
    pub fn parse_tls(&self) -> (r: Option<Tls>)
        ensures
            opt_tls_json(r) == tls_of(self@),
    {
        if !self.0.get("tls").is_badvalue() {
            let sni = self.0.get("sni").into_string();
            let enabled = !(self.0.get("tls").is_badvalue() && self.0.get("sni").is_badvalue()
                && self.0.get("alpn").is_badvalue() && self.0.get("skip-cert-verify").is_badvalue()
                && self.0.get("servername").is_badvalue());
            let disable_sni = match &sni {
                Some(s) => str_eq(s.as_str(), "true"),
                None => false,
            };
            let server_name = match sni {
                Some(_) => Some(self.str_param("sni")),
                None => match self.0.get("servername").into_string() {
                    Some(_) => Some(self.str_param("servername")),
                    None => None,
                },
            };
            let alpn = match self.0.get("alpn").into_string() {
                Some(_) => {
                    let mut v: Vec<String> = Vec::new();
                    v.push(owned("h2"));
                    Some(v)
                },
                None => None,
            };
            let tls = Tls {
                enabled,
                disable_sni,
                server_name,
                insecure: false,
                alpn,
                utls: Utls { enabled: true, fingerprint: owned("chrome") },
                certificate_path: self.0.get("ca").into_string(),
                certificate: self.0.get("ca_str").into_string(),
                reality: None,
            };
            assert(tls.alpn matches Some(v) ==> strs_v(crate::json::string_seq_view(v@)) == strs_v(Seq::empty().push("h2"@))) by {
                if let Some(v) = tls.alpn {
                    assert(crate::json::string_seq_view(v@) =~= Seq::empty().push("h2"@));
                }
            }
            return Some(tls);
        }
        None
    }

    /// The v2ray transport named by `network`, where there is one; an unknown
    /// `network` is not accepted.
    pub fn parse_transport(&self) -> (r: Option<Transport>)
        requires
            transport_defined(self@),
        ensures
            opt_transport_json(r) == transport_of(self@),
    {
        match self.0.get("network").into_string() {
            Some(i) => {
                if str_eq(i.as_str(), "http") {
                    Some(
                        Transport {
                            kind: owned("http"),
                            host: None,
                            path: self.0.get("http-opts").get("path").at(0).into_string(),
                            method: self.0.get("http-ops").get("method").into_string(),
                            header: None,
                            max_early_data: None,
                            early_data_header_name: None,
                            service_name: None,
                        },
                    )
                } else if str_eq(i.as_str(), "ws") {
                    let max_early_data = match self.0.get("ws-opts").get(
                        "max-early-data",
                    ).into_string() {
                        Some(t) => match parse_decimal(t.as_str(), 4294967295) {
                            Some(n) => {
                                assert(parse_unsigned(t@, 4294967295) == Some(n as int));
                                Some(n as u32)
                            },
                            None => None,
                        },
                        None => None,
                    };
                    Some(
                        Transport {
                            kind: owned("ws"),
                            host: None,
                            path: self.0.get("ws-opts").get("path").into_string(),
                            method: None,
                            header: None,
                            max_early_data,
                            early_data_header_name: self.0.get("ws-opts").get(
                                "early-data-header-name",
                            ).into_string(),
                            service_name: None,
                        },
                    )
                } else {
                    Some(
                        Transport {
                            kind: owned("grpc"),
                            host: None,
                            path: None,
                            method: None,
                            header: None,
                            max_early_data: None,
                            early_data_header_name: None,
                            service_name: self.0.get("grpc-opts").get(
                                "grpc-service-name",
                            ).into_string(),
                        },
                    )
                }
            },
            None => None,
        }
    }

    /// `obfs=<mode>;obfs-host=<host>`; `opts` must hold both as strings.
    pub fn plugin_opts_to_string(opts: YamlNode) -> (r: String)
        requires
            plugin_opts_defined(opts@),
        ensures
            r@ == plugin_opts_text(opts@),
    {
        let mode = opts.get("mode").into_string().unwrap();
        let host = opts.get("host").into_string().unwrap();
        let a = concatenated("obfs=", mode.as_str());
        let b = concatenated(a.as_str(), ";obfs-host=");
        concatenated(b.as_str(), host.as_str())
    }
}

} // verus!

verus! {

/// The converted proxies and their tags, in the order of the clash `proxies` list.
pub struct NodeInfo {
    pub list: Vec<JsonValue>,
    pub tags: Vec<String>,
}

/// Whether `merge_to_value` can merge into `outer`: it is `null` or an object, and once
/// the proxies have been merged into its `outbounds`, that is an array of at least two
/// entries whose second is `null` or an object.
pub open spec fn profile_accepts(outer: JsonV, proxies: JsonV) -> bool {
    &&& keyable(outer)
    &&& object_value(merge_at_key(outer, "outbounds"@, proxies), "outbounds"@) matches JsonV::Array(
        list,
    ) && list.len() >= 2 && keyable(list[1])
}

/// Whether the minimal profile [`PARADIGM`] reads as JSON and `merge_to_value` can merge
/// `proxies` into it.
pub open spec fn paradigm_accepts(proxies: JsonV) -> bool {
    json_parsed(PARADIGM@) matches Ok(p) && profile_accepts(p, proxies)
}

/// `outer` with `proxies` merged into its `outbounds`, then `tags` merged into the
/// `outbounds` of the second of those outbounds (the group that selects among them).
pub open spec fn merged_profile(outer: JsonV, proxies: JsonV, tags: JsonV) -> JsonV {
    let o1 = merge_at_key(outer, "outbounds"@, proxies);
    let list = object_value(o1, "outbounds"@)->Array_0;
    set_key(
        o1,
        "outbounds"@,
        JsonV::Array(list.update(1, merge_at_key(list[1], "outbounds"@, tags))),
    )
}

impl NodeInfo {
    /// The proxies as one JSON array.
    pub open spec fn proxies_json(&self) -> JsonV {
        JsonV::Array(json_seq_view(self.list@))
    }

    /// The tags as one JSON array of strings.
    pub open spec fn tags_json(&self) -> JsonV {
        strs_v(string_seq_view(self.tags@))
    }

    pub fn sum_proxies(&self) -> (r: JsonValue)
        ensures
            r@ == self.proxies_json(),
    {
        let mut out: Vec<JsonValue> = Vec::new();
        let mut i: usize = 0;
        while i < self.list.len()
            invariant
                i <= self.list@.len(),
                out@.len() == i,
                forall|j: int| 0 <= j < i ==> #[trigger] out@[j]@ == self.list@[j]@,
            decreases self.list@.len() - i,
        {
            out.push(self.list[i].deep_clone());
            i = i + 1;
        }
        assert(json_seq_view(out@) =~= json_seq_view(self.list@)) by {
            assert forall|j: int| 0 <= j < self.list@.len() implies #[trigger] json_seq_view(
                out@,
            )[j] == json_seq_view(self.list@)[j] by {
                assert(out@[j]@ == self.list@[j]@);
            }
        }
        JsonValue::Array(out)
    }

    pub fn sum_tags(&self) -> (r: JsonValue)
        ensures
            r@ == self.tags_json(),
    {
        strings_value(&self.tags)
    }

    /// Whether [`NodeInfo::merge_to_value`] accepts `outer`.
    pub fn can_merge_into(&self, outer: &JsonValue) -> (r: bool)
        ensures
            r == profile_accepts(outer@, self.proxies_json()),
    {
        let keyable_outer = match outer {
            JsonValue::Null => true,
            JsonValue::Object(_) => true,
            _ => false,
        };
        if !keyable_outer {
            return false;
        }
        let o1 = merged_at_key(outer.deep_clone(), "outbounds", &self.sum_proxies());
        proof {
            lemma_set_key_lookup(
                outer@,
                "outbounds"@,
                merge_v(object_value(outer@, "outbounds"@), self.proxies_json()),
            );
        }
        match &o1 {
            JsonValue::Object(entries) => {
                let key = owned("outbounds");
                match find_key(entries, &key) {
                    Some(i) => {
                        assert(entries_view(entries@)[i as int] == (
                            entries@[i as int].0@,
                            entries@[i as int].1@,
                        ));
                        assert(object_value(o1@, "outbounds"@) == entries@[i as int].1@);
                        match &entries[i].1 {
                            JsonValue::Array(list) => {
                                if list.len() < 2 {
                                    return false;
                                }
                                assert(json_seq_view(list@)[1] == list@[1]@);
                                match &list[1] {
                                    JsonValue::Null => true,
                                    JsonValue::Object(_) => true,
                                    _ => false,
                                }
                            },
                            _ => false,
                        }
                    },
                    None => false,
                }
            },
            _ => false,
        }
    }

    /// Merges the proxies into `outer["outbounds"]` and their tags into
    /// `outer["outbounds"][1]["outbounds"]`.
    pub fn merge_to_value(&self, outer: &mut JsonValue)
        requires
            profile_accepts(old(outer)@, self.proxies_json()),
        ensures
            final(outer)@ == merged_profile(old(outer)@, self.proxies_json(), self.tags_json()),
    {
        let ghost o0 = outer@;
        let mut o = JsonValue::Null;
        std::mem::swap(outer, &mut o);
        let o1 = merged_at_key(o, "outbounds", &self.sum_proxies());
        let ghost o1v = o1@;
        proof {
            lemma_set_key_lookup(
                o0,
                "outbounds"@,
                merge_v(object_value(o0, "outbounds"@), self.proxies_json()),
            );
        }
        let mut entries = match o1 {
            JsonValue::Object(e) => e,
            _ => new_entries(),
        };
        assert(entries_view(entries@) == object_entries(o1v));
        let key = owned("outbounds");
        let i = find_key(&entries, &key).unwrap();
        let ghost e1 = entries@;
        assert(entries_view(e1)[i as int] == (e1[i as int].0@, e1[i as int].1@));
        let (k, ob) = entries.remove(i);
        assert(ob@ == object_value(o1v, "outbounds"@));
        let mut list = match ob {
            JsonValue::Array(l) => l,
            _ => Vec::new(),
        };
        let ghost l1 = list@;
        assert(json_seq_view(l1)[1] == l1[1]@);
        let g = list.remove(1);
        let g2 = merged_at_key(g, "outbounds", &self.sum_tags());
        list.insert(1, g2);
        assert(json_seq_view(list@) =~= json_seq_view(l1).update(1, g2@));
        entries.insert(i, (k, JsonValue::Array(list)));
        assert(entries_view(entries@) =~= entries_view(e1).update(
            i as int,
            ("outbounds"@, JsonV::Array(json_seq_view(l1).update(1, g2@))),
        ));
        *outer = JsonValue::Object(entries);
    }

    /// The minimal profile, read from [`PARADIGM`] by serde_json, with the proxies and
    /// their tags merged in. The profile must read as JSON and accept the proxies.
    pub fn merge_min(&self) -> (r: JsonValue)
        requires
            paradigm_accepts(self.proxies_json()),
        ensures
            json_parsed(PARADIGM@) matches Ok(p) && r@ == merged_profile(
                p,
                self.proxies_json(),
                self.tags_json(),
            ),
    {
        match load_json(PARADIGM) {
            Ok(p) => {
                let mut parad = p;
                self.merge_to_value(&mut parad);
                parad
            },
            Err(_) => JsonValue::Null,
        }
    }

    /// [`NodeInfo::merge_min`] where the minimal profile reads as JSON and accepts the
    /// proxies, else `None`.
    pub fn try_merge_min(&self) -> (r: Option<JsonValue>)
        ensures
            r is Some <==> paradigm_accepts(self.proxies_json()),
            r matches Some(v) ==> (json_parsed(PARADIGM@) matches Ok(p) && v@ == merged_profile(
                p,
                self.proxies_json(),
                self.tags_json(),
            )),
    {
        match load_json(PARADIGM) {
            Ok(p) => {
                if self.can_merge_into(&p) {
                    Some(self.merge_min())
                } else {
                    None
                }
            },
            Err(_) => None,
        }
    }
}

} // verus!

verus! {

/// A JSON rendering that succeeded with `text`.
pub open spec fn rendered(r: Result<String, CtosError>, text: Seq<char>) -> bool {
    r matches Ok(s) && s@ == text
}

fn render(r: Result<String, String>) -> (out: Result<String, CtosError>)
    ensures
        match r {
            Ok(s) => out matches Ok(t) && t@ == s@,
            Err(m) => out matches Err(CtosError::Json(e)) && e@ == m@,
        },
{
    match r {
        Ok(s) => Ok(s),
        Err(m) => Err(CtosError::Json(m)),
    }
}

impl NodeInfo {
    /// The tags as indented JSON; writing a JSON value does not fail.
    pub fn print_tags(&self) -> (r: Result<String, CtosError>)
        ensures
            rendered(r, json_text_pretty(self.tags_json())),
            r matches Ok(s) ==> json_parsed(s@) == Ok::<JsonV, Seq<char>>(self.tags_json()),
    {
        let t = self.sum_tags();
        proof {
            lemma_strs_reads_back(string_seq_view(self.tags@), 100);
        }
        let out = json_to_string_pretty(&t);
        proof {
            lemma_same_strs(json_parsed(out->Ok_0@)->Ok_0, string_seq_view(self.tags@));
        }
        render(out)
    }

    /// The proxies as compact JSON, on one line; writing a JSON value does not fail.
    pub fn proxies_string(&self) -> (r: Result<String, CtosError>)
        ensures
            rendered(r, json_text(self.proxies_json())),
            r matches Ok(s) ==> !s@.contains('\n'),
            r matches Ok(s) ==> (reads_back(self.proxies_json(), 100) ==> (json_parsed(s@) matches Ok(
                w,
            ) && same_json(w, self.proxies_json()))),
    {
        render(json_to_string(&self.sum_proxies()))
    }

    /// The proxies as indented JSON; writing a JSON value does not fail.
    pub fn proxies_string_pretty(&self) -> (r: Result<String, CtosError>)
        ensures
            rendered(r, json_text_pretty(self.proxies_json())),
            r matches Ok(s) ==> (reads_back(self.proxies_json(), 100) ==> (json_parsed(s@) matches Ok(
                w,
            ) && same_json(w, self.proxies_json()))),
            r matches Ok(s) ==> (reads_back(self.proxies_json(), 100) ==> json_parsed(s@)
                == json_parsed(json_text(self.proxies_json()))),
    {
        render(json_to_string_pretty(&self.sum_proxies()))
    }
}

impl Default for NodeInfo {
    fn default() -> (r: NodeInfo)
        ensures
            r.list@.len() == 0,
            r.tags@.len() == 0,
    {
        NodeInfo { list: Vec::new(), tags: Vec::new() }
    }
}

} // verus!

verus! {

/// Merging a node list into a profile whose `outbounds` hold at least two entries, the
/// second an object, appends the proxies to those outbounds, merges the tags into the
/// `outbounds` of the second of them (its other keys unchanged), and leaves every other
/// key of the profile as it was.
pub proof fn lemma_merge_to_value(
    outer: JsonV,
    obs: Seq<JsonV>,
    proxies: Seq<JsonV>,
    tags: JsonV,
    k: Seq<char>,
)
    requires
        outer is Object,
        object_value(outer, "outbounds"@) == JsonV::Array(obs),
        obs.len() >= 2,
        obs[1] is Object,
    ensures
        profile_accepts(outer, JsonV::Array(proxies)),
        ({
            let r = merged_profile(outer, JsonV::Array(proxies), tags);
            let out = object_value(r, "outbounds"@);
            &&& out is Array
            &&& out->Array_0.len() == obs.len() + proxies.len()
            &&& forall|i: int|
                0 <= i < obs.len() && i != 1 ==> #[trigger] out->Array_0[i] == obs[i]
            &&& forall|j: int|
                0 <= j < proxies.len() ==> #[trigger] out->Array_0[obs.len() + j] == proxies[j]
            &&& object_value(out->Array_0[1], "outbounds"@) == merge_v(
                object_value(obs[1], "outbounds"@),
                tags,
            )
            &&& k != "outbounds"@ ==> object_value(out->Array_0[1], k) == object_value(obs[1], k)
            &&& k != "outbounds"@ ==> object_value(r, k) == object_value(outer, k)
        }),
{
    let key = "outbounds"@;
    let px = JsonV::Array(proxies);
    lemma_set_key_lookup(outer, key, merge_v(object_value(outer, key), px));
    let o1 = merge_at_key(outer, key, px);
    let list = object_value(o1, key)->Array_0;
    assert(list == obs + proxies);
    assert(list[1] == obs[1]);
    let g = merge_at_key(list[1], key, tags);
    lemma_set_key_lookup(list[1], key, merge_v(object_value(list[1], key), tags));
    let r = set_key(o1, key, JsonV::Array(list.update(1, g)));
    lemma_set_key_lookup(o1, key, JsonV::Array(list.update(1, g)));
    let out = list.update(1, g);
    assert forall|j: int| 0 <= j < proxies.len() implies #[trigger] out[obs.len() + j]
        == proxies[j] by {
        assert(out[obs.len() + j] == list[obs.len() + j]);
    }
    assert forall|i: int| 0 <= i < obs.len() && i != 1 implies #[trigger] out[i] == obs[i] by {
        assert(out[i] == list[i]);
    }
    if k != key {
        lemma_set_key_other(list[1], key, merge_v(object_value(list[1], key), tags), k);
        lemma_set_key_other(o1, key, JsonV::Array(out), k);
        lemma_set_key_other(outer, key, merge_v(object_value(outer, key), px), k);
    }
}

/// The minimal profile with a node list merged in: where [`PARADIGM`] reads as an
/// object whose `outbounds` hold at least two entries, the second an object, the merged
/// profile's `outbounds` are those of the minimal profile followed by the proxies, and
/// the tags are merged into the `outbounds` of the second of them.
pub proof fn lemma_merge_min(p: JsonV, obs: Seq<JsonV>, proxies: Seq<JsonV>, tags: JsonV)
    requires
        json_parsed(PARADIGM@) == Ok::<JsonV, Seq<char>>(p),
        p is Object,
        object_value(p, "outbounds"@) == JsonV::Array(obs),
        obs.len() >= 2,
        obs[1] is Object,
    ensures
        paradigm_accepts(JsonV::Array(proxies)),
        ({
            let r = merged_profile(p, JsonV::Array(proxies), tags);
            let out = object_value(r, "outbounds"@);
            &&& out is Array
            &&& out->Array_0.len() == obs.len() + proxies.len()
            &&& forall|i: int|
                0 <= i < obs.len() && i != 1 ==> #[trigger] out->Array_0[i] == obs[i]
            &&& forall|j: int|
                0 <= j < proxies.len() ==> #[trigger] out->Array_0[obs.len() + j] == proxies[j]
            &&& object_value(out->Array_0[1], "outbounds"@) == merge_v(
                object_value(obs[1], "outbounds"@),
                tags,
            )
        }),
{
    lemma_merge_to_value(p, obs, proxies, tags, "outbounds"@);
}

} // verus!
