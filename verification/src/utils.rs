//! Converting one clash proxy into the sing-box outbound of its protocol.
use vstd::prelude::*;

use crate::helper::{
    int_field, name_of, optional_plugin_field, plugin_opts_defined, plugin_opts_text, str_field,
    tls_of, transport_defined, transport_of, type_of,
};
use crate::json::{lemma_key_index, object_entries, object_value, reads_back, JsonV, NumberV};
use crate::sb_def::{
    http_json, utls_json, hysteria_json, shadowsocks_json, shadowsocksr_json, socks_json, trojan_json, variant_name,
    vless_json, vmess_json, Http, Hysteria, Shadowsocks, Shadowsocksr, SingboxNodeDef, Socks,
    Trojan, VMess, Vless,
};
use crate::text::{owned, parse_decimal, str_eq};
use crate::yaml::YamlV;
use crate::PerClashProxy;

verus! {

/// The definition name that `type_converter` gives a clash proxy type, or the empty
/// text for a type that it does not name.
pub open spec fn kind_tag(t: Seq<char>) -> Seq<char> {
    if t == "ss"@ {
        "Shadowsocks"@
    } else if t == "trojan"@ {
        "Trojan"@
    } else if t == "socks5"@ {
        "Socks"@
    } else if t == "hysteria"@ {
        "Hysteria"@
    } else if t == "vmess"@ {
        "VMess"@
    } else if t == "ssr"@ {
        "Shadowsocksr"@
    } else if t == "vless"@ {
        "Vless"@
    } else {
        ""@
    }
}

/// The name of the sing-box definition that a clash proxy type is converted into: an
/// `http` proxy becomes an `Http` outbound, and any other type the definition that
/// [`kind_tag`] names (the empty text for a type that is not converted).
pub open spec fn def_kind(t: Seq<char>) -> Seq<char> {
    if t == "http"@ {
        "Http"@
    } else {
        kind_tag(t)
    }
}

/// The definitions that a clash proxy can be converted into.
pub open spec fn is_converted_kind(k: Seq<char>) -> bool {
    ||| k == "Shadowsocks"@
    ||| k == "Http"@
    ||| k == "Shadowsocksr"@
    ||| k == "Socks"@
    ||| k == "Trojan"@
    ||| k == "Hysteria"@
    ||| k == "VMess"@
    ||| k == "Vless"@
}

/// The definition name of a proxy.
pub open spec fn proxy_kind(p: YamlV) -> Seq<char> {
    def_kind(type_of(p))
}

/// `None` (udp allowed) where `udp` is `true`, else tcp only.
pub open spec fn udp_network(p: YamlV) -> Option<Seq<char>> {
    match p.get("udp"@).as_bool() {
        Some(true) => None,
        _ => Some("tcp"@),
    }
}

/// Whether the proxy holds everything that the conversion of its kind reads.
pub open spec fn convertible(p: YamlV) -> bool {
    let k = proxy_kind(p);
    let base = str_field(p, "server"@) is Some && int_field(p, "port"@) is Some;
    if k == "Shadowsocks"@ {
        &&& base
        &&& str_field(p, "cipher"@) is Some
        &&& str_field(p, "password"@) is Some
        &&& str_field(p, "plugin"@) is Some ==> plugin_opts_defined(p.get("plugin-opts"@))
    } else if k == "Shadowsocksr"@ {
        &&& base
        &&& str_field(p, "cipher"@) is Some
        &&& str_field(p, "password"@) is Some
        &&& str_field(p, "obfs"@) is Some
        &&& str_field(p, "obfs-param"@) is Some
        &&& str_field(p, "protocol"@) is Some
        &&& str_field(p, "protocol-param"@) is Some
    } else if k == "Socks"@ {
        base
    } else if k == "Http"@ {
        base
    } else if k == "Trojan"@ {
        base && str_field(p, "password"@) is Some
    } else if k == "Hysteria"@ {
        &&& base
        &&& !(p.get("recv_window_conn"@) is BadValue) ==> int_field(p, "recv_window_conn"@) is Some
        &&& !(p.get("recv_window"@) is BadValue) ==> int_field(p, "recv_window"@) is Some
    } else if k == "VMess"@ {
        &&& base
        &&& str_field(p, "uuid"@) is Some
        &&& str_field(p, "alertId"@) is Some ==> int_field(p, "alertId"@) is Some
        &&& transport_defined(p)
    } else if k == "Vless"@ {
        &&& base
        &&& str_field(p, "uuid"@) is Some
        &&& transport_defined(p)
    } else {
        true
    }
}

pub open spec fn opt_window(p: YamlV, key: Seq<char>) -> Option<u32> {
    if p.get(key) is BadValue {
        None
    } else {
        Some(int_field(p, key).unwrap() as u32)
    }
}

/// The JSON form of the sing-box outbound that a proxy of a converted kind becomes.
pub open spec fn outbound_json(p: YamlV) -> JsonV {
    let k = proxy_kind(p);
    let server = str_field(p, "server"@).unwrap();
    let port = int_field(p, "port"@).unwrap();
    if k == "Shadowsocks"@ {
        shadowsocks_json(
            "shadowsocks"@,
            name_of(p),
            server,
            port,
            str_field(p, "cipher"@).unwrap(),
            str_field(p, "password"@).unwrap(),
            optional_plugin_field(p, "plugin"@),
            match str_field(p, "plugin"@) {
                Some(_) => Some(plugin_opts_text(p.get("plugin-opts"@))),
                None => None,
            },
            udp_network(p),
            false,
        )
    } else if k == "Shadowsocksr"@ {
        shadowsocksr_json(
            "shadowsocksr"@,
            name_of(p),
            server,
            port,
            str_field(p, "cipher"@).unwrap(),
            str_field(p, "password"@).unwrap(),
            str_field(p, "obfs"@),
            str_field(p, "obfs-param"@),
            str_field(p, "protocol"@),
            str_field(p, "protocol-param"@),
            udp_network(p),
        )
    } else if k == "Socks"@ {
        socks_json(
            "socks"@,
            name_of(p),
            server,
            port,
            5,
            optional_plugin_field(p, "username"@),
            optional_plugin_field(p, "username"@),
            udp_network(p),
            false,
        )
    } else if k == "Http"@ {
        http_json(
            "http"@,
            name_of(p),
            server,
            port,
            optional_plugin_field(p, "username"@),
            optional_plugin_field(p, "password"@),
            tls_of(p),
        )
    } else if k == "Trojan"@ {
        trojan_json(
            "trojan"@,
            name_of(p),
            server,
            port,
            str_field(p, "password"@).unwrap(),
            udp_network(p),
            tls_of(p),
        )
    } else if k == "Hysteria"@ {
        hysteria_json(
            "hysteria"@,
            name_of(p),
            server,
            port,
            str_field(p, "up"@),
            None,
            str_field(p, "down"@),
            None,
            str_field(p, "obfs"@),
            None,
            str_field(p, "auth_str"@),
            opt_window(p, "recv_window_conn"@),
            opt_window(p, "recv_window"@),
            if str_field(p, "sni"@) == Some("true"@) {
                Some(true)
            } else {
                None
            },
            tls_of(p),
        )
    } else if k == "VMess"@ {
        vmess_json(
            "vmess"@,
            name_of(p),
            server,
            port,
            str_field(p, "uuid"@).unwrap(),
            Some("auto"@),
            if str_field(p, "alertId"@) is Some {
                int_field(p, "alertId"@)
            } else {
                Some(0)
            },
            None,
            None,
            udp_network(p),
            tls_of(p),
            transport_of(p),
        )
    } else {
        vless_json(
            "vless"@,
            name_of(p),
            server,
            port,
            str_field(p, "uuid"@).unwrap(),
            udp_network(p),
            tls_of(p),
            None,
            transport_of(p),
        )
    }
}

/// The definition name for a clash proxy type (see [`kind_tag`]).
pub fn kind_of_type(t: &str) -> (r: String)
    ensures
        r@ == kind_tag(t@),
{
    if str_eq(t, "ss") {
        owned("Shadowsocks")
    } else if str_eq(t, "trojan") {
        owned("Trojan")
    } else if str_eq(t, "socks5") {
        owned("Socks")
    } else if str_eq(t, "hysteria") {
        owned("Hysteria")
    } else if str_eq(t, "vmess") {
        owned("VMess")
    } else if str_eq(t, "ssr") {
        owned("Shadowsocksr")
    } else if str_eq(t, "vless") {
        owned("Vless")
    } else {
        owned("")
    }
}

/// The definition name that a clash proxy type is converted into (see [`def_kind`]).
fn definition_of_type(t: &str) -> (r: String)
    ensures
        r@ == def_kind(t@),
{
    if str_eq(t, "http") {
        owned("Http")
    } else {
        kind_of_type(t)
    }
}

impl PerClashProxy {
    fn udp_network(&self) -> (r: Option<String>)
        ensures
            r matches Some(s) ==> udp_network(self@) == Some(s@),
            r is None ==> udp_network(self@) is None,
    {
        match self.0.get("udp").as_bool() {
            Some(true) => None,
            _ => Some(owned("tcp")),
        }
    }

    /// The sing-box outbound of this proxy, where its type is one that is converted.
    pub fn convert_to_singbox_def(&self) -> (r: Option<SingboxNodeDef>)
        requires
            convertible(self@),
        ensures
            r is Some <==> is_converted_kind(proxy_kind(self@)),
            r matches Some(d) ==> variant_name(d) == proxy_kind(self@) && d.inner_json()
                == outbound_json(self@),
    {
        let proxy_type = self.typed();
        let type_fixed = definition_of_type(proxy_type.as_str());
        let k = type_fixed.as_str();
        if str_eq(k, "Shadowsocks") {
            let plugin_opts = match self.0.get("plugin").into_string() {
                Some(_) => Some(PerClashProxy::plugin_opts_to_string(self.0.get("plugin-opts"))),
                None => None,
            };
            return Some(
                SingboxNodeDef::Shadowsocks(
                    Shadowsocks {
                        kind: owned("shadowsocks"),
                        tag: self.named(),
                        server: self.str_param("server"),
                        server_port: self.int_param("port"),
                        method: self.str_param("cipher"),
                        password: self.str_param("password"),
                        plugin: self.optional_plugin("plugin"),
                        plugin_opts,
                        network: self.udp_network(),
                        udp_over_tcp: false,
                    },
                ),
            );
        }
        if str_eq(k, "Shadowsocksr") {
            return Some(
                SingboxNodeDef::Shadowsocksr(
                    Shadowsocksr {
                        kind: owned("shadowsocksr"),
                        tag: self.named(),
                        server: self.str_param("server"),
                        server_port: self.int_param("port"),
                        method: self.str_param("cipher"),
                        password: self.str_param("password"),
                        obfs: Some(self.str_param("obfs")),
                        obfs_param: Some(self.str_param("obfs-param")),
                        protocol: Some(self.str_param("protocol")),
                        protocol_param: Some(self.str_param("protocol-param")),
                        network: self.udp_network(),
                    },
                ),
            );
        }
        if str_eq(k, "Socks") {
            return Some(
                SingboxNodeDef::Socks(
                    Socks {
                        kind: owned("socks"),
                        tag: self.named(),
                        server: self.str_param("server"),
                        server_port: self.int_param("port"),
                        version: 5,
                        username: self.optional_plugin("username"),
                        password: self.optional_plugin("username"),
                        network: self.udp_network(),
                        udp_over_tcp: false,
                    },
                ),
            );
        }
        if str_eq(k, "Http") {
            return Some(
                SingboxNodeDef::Http(
                    Http {
                        kind: owned("http"),
                        tag: self.named(),
                        server: self.str_param("server"),
                        server_port: self.int_param("port"),
                        username: self.optional_plugin("username"),
                        password: self.optional_plugin("password"),
                        tls: self.parse_tls(),
                    },
                ),
            );
        }
        if str_eq(k, "Trojan") {
            return Some(
                SingboxNodeDef::Trojan(
                    Trojan {
                        kind: owned("trojan"),
                        tag: self.named(),
                        server: self.str_param("server"),
                        server_port: self.int_param("port"),
                        password: self.str_param("password"),
                        network: self.udp_network(),
                        tls: self.parse_tls(),
                    },
                ),
            );
        }
        if str_eq(k, "Hysteria") {
            let recv_window_conn = if self.0.get("recv_window_conn").is_badvalue() {
                None
            } else {
                Some(self.int_param("recv_window_conn") as u32)
            };
            let recv_window = if self.0.get("recv_window").is_badvalue() {
                None
            } else {
                Some(self.int_param("recv_window") as u32)
            };
            let disable_mtu_discovery = match self.0.get("sni").into_string() {
                Some(s) => if str_eq(s.as_str(), "true") {
                    Some(true)
                } else {
                    None
                },
                None => None,
            };
            return Some(
                SingboxNodeDef::Hysteria(
                    Hysteria {
                        kind: owned("hysteria"),
                        tag: self.named(),
                        server: self.str_param("server"),
                        server_port: self.int_param("port"),
                        up: self.0.get("up").into_string(),
                        up_mbps: None,
                        down: self.0.get("down").into_string(),
                        down_mbps: None,
                        obfs: self.0.get("obfs").into_string(),
                        auth: None,
                        auth_str: self.0.get("auth_str").into_string(),
                        recv_window_conn,
                        recv_window,
                        disable_mtu_discovery,
                        tls: self.parse_tls(),
                    },
                ),
            );
        }
        if str_eq(k, "VMess") {
            let alter_id = if self.0.get("alertId").into_string().is_some() {
                Some(self.int_param("alertId"))
            } else {
                Some(0)
            };
            return Some(
                SingboxNodeDef::VMess(
                    VMess {
                        kind: owned("vmess"),
                        tag: self.named(),
                        server: self.str_param("server"),
                        server_port: self.int_param("port"),
                        uuid: self.str_param("uuid"),
                        security: Some(owned("auto")),
                        alter_id,
                        global_padding: None,
                        authenticated_length: None,
                        network: self.udp_network(),
                        tls: self.parse_tls(),
                        transport: self.parse_transport(),
                    },
                ),
            );
        }
        if str_eq(k, "Vless") {
            return Some(
                SingboxNodeDef::Vless(
                    Vless {
                        kind: owned("vless"),
                        tag: self.named(),
                        server: self.str_param("server"),
                        server_port: self.int_param("port"),
                        uuid: self.str_param("uuid"),
                        network: self.udp_network(),
                        tls: self.parse_tls(),
                        packet_encoding: None,
                        transport: self.parse_transport(),
                    },
                ),
            );
        }
        None
    }
}

} // verus!

verus! {

/// A proxy is converted exactly when its type is `http` or `type_converter` names a
/// definition for its type (a name that is not empty).
pub proof fn lemma_converted_iff_named(t: Seq<char>)
    ensures
        is_converted_kind(def_kind(t)) <==> (t == "http"@ || kind_tag(t) != ""@),
{
    reveal_strlit("");
    reveal_strlit("Http");
    reveal_strlit("Shadowsocks");
    reveal_strlit("Trojan");
    reveal_strlit("Socks");
    reveal_strlit("Hysteria");
    reveal_strlit("VMess");
    reveal_strlit("Shadowsocksr");
    reveal_strlit("Vless");
    assert(""@.len() == 0);
    assert("Http"@.len() > 0);
    assert("Shadowsocks"@.len() > 0);
    assert("Trojan"@.len() > 0);
    assert("Socks"@.len() > 0);
    assert("Hysteria"@.len() > 0);
    assert("VMess"@.len() > 0);
    assert("Shadowsocksr"@.len() > 0);
    assert("Vless"@.len() > 0);
}

proof fn lemma_entries_reads_back(e: Seq<(Seq<char>, JsonV)>, room: nat)
    requires
        forall|i: int| 0 <= i < e.len() ==> reads_back(#[trigger] e[i].1, room),
    ensures
        reads_back(JsonV::Object(e), room + 1),
{
}

proof fn lemma_tls_reads_back(p: YamlV, room: nat)
    requires
        room >= 2,
    ensures
        tls_of(p) matches Some(t) ==> reads_back(t, room),
{
    if tls_of(p) is Some {
        let u = utls_json(true, "chrome"@);
        assert(reads_back(u, (room - 1) as nat)) by {
            let ue = u->Object_0;
            assert forall|i: int| 0 <= i < ue.len() implies reads_back(
                #[trigger] ue[i].1,
                (room - 2) as nat,
            ) by {}
            lemma_entries_reads_back(ue, (room - 2) as nat);
        }
        let t = tls_of(p).unwrap();
        let te = t->Object_0;
        assert forall|i: int| 0 <= i < te.len() implies reads_back(
            #[trigger] te[i].1,
            (room - 1) as nat,
        ) by {
            if te[i].1 is Array {
                let a = te[i].1->Array_0;
                assert forall|j: int| 0 <= j < a.len() implies reads_back(
                    #[trigger] a[j],
                    (room - 2) as nat,
                ) by {}
            }
        }
        lemma_entries_reads_back(te, (room - 1) as nat);
    }
}

proof fn lemma_transport_reads_back(p: YamlV, room: nat)
    requires
        room >= 2,
    ensures
        transport_of(p) matches Some(t) ==> reads_back(t, room),
{
    if transport_of(p) is Some {
        let t = transport_of(p).unwrap();
        let te = t->Object_0;
        assert forall|i: int| 0 <= i < te.len() implies reads_back(
            #[trigger] te[i].1,
            (room - 1) as nat,
        ) by {
            if te[i].1 is Array {
                let a = te[i].1->Array_0;
                assert forall|j: int| 0 <= j < a.len() implies reads_back(
                    #[trigger] a[j],
                    (room - 2) as nat,
                ) by {}
            }
        }
        lemma_entries_reads_back(te, (room - 1) as nat);
    }
}

/// serde_json reads back what it writes of every converted outbound: it holds no float
/// and no negative number, and nests at most three levels of objects and arrays.
#[verifier::spinoff_prover]
#[verifier::rlimit(60)]
pub proof fn lemma_outbound_reads_back(p: YamlV, room: nat)
    requires
        is_converted_kind(proxy_kind(p)),
        room >= 3,
    ensures
        reads_back(outbound_json(p), room),
{
    let r2 = (room - 1) as nat;
    lemma_tls_reads_back(p, r2);
    lemma_transport_reads_back(p, r2);
    let k = proxy_kind(p);
    let e = outbound_json(p)->Object_0;
    if k == "Shadowsocks"@ {
        assert forall|i: int| 0 <= i < e.len() implies reads_back(#[trigger] e[i].1, r2) by {}
    } else if k == "Shadowsocksr"@ {
        assert forall|i: int| 0 <= i < e.len() implies reads_back(#[trigger] e[i].1, r2) by {}
    } else if k == "Socks"@ {
        assert forall|i: int| 0 <= i < e.len() implies reads_back(#[trigger] e[i].1, r2) by {}
    } else if k == "Http"@ {
        assert forall|i: int| 0 <= i < e.len() implies reads_back(#[trigger] e[i].1, r2) by {}
    } else if k == "Trojan"@ {
        assert forall|i: int| 0 <= i < e.len() implies reads_back(#[trigger] e[i].1, r2) by {}
    } else if k == "Hysteria"@ {
        assert forall|i: int| 0 <= i < e.len() implies reads_back(#[trigger] e[i].1, r2) by {}
    } else if k == "VMess"@ {
        assert forall|i: int| 0 <= i < e.len() implies reads_back(#[trigger] e[i].1, r2) by {}
    } else {
        assert forall|i: int| 0 <= i < e.len() implies reads_back(#[trigger] e[i].1, r2) by {}
    }
    lemma_entries_reads_back(e, r2);
}

/// The `type` that the sing-box outbound of a definition carries.
pub open spec fn outbound_type(k: Seq<char>) -> Seq<char> {
    if k == "Shadowsocks"@ {
        "shadowsocks"@
    } else if k == "Shadowsocksr"@ {
        "shadowsocksr"@
    } else if k == "Socks"@ {
        "socks"@
    } else if k == "Http"@ {
        "http"@
    } else if k == "Trojan"@ {
        "trojan"@
    } else if k == "Hysteria"@ {
        "hysteria"@
    } else if k == "VMess"@ {
        "vmess"@
    } else {
        "vless"@
    }
}

/// Every converted outbound carries the `type` of its definition, the proxy's name as
/// its `tag`, and the proxy's `server` and `port` as its `server` and `server_port`.
#[verifier::spinoff_prover]
#[verifier::rlimit(40)]
pub proof fn lemma_outbound_head(p: YamlV)
    requires
        is_converted_kind(proxy_kind(p)),
    ensures
        object_value(outbound_json(p), "type"@) == JsonV::String(outbound_type(proxy_kind(p))),
        object_value(outbound_json(p), "tag"@) == JsonV::String(name_of(p)),
        object_value(outbound_json(p), "server"@) == JsonV::String(
            str_field(p, "server"@).unwrap(),
        ),
        object_value(outbound_json(p), "server_port"@) == JsonV::Number(
            NumberV::PosInt(int_field(p, "port"@).unwrap() as u64),
        ),
{
    reveal_strlit("type");
    reveal_strlit("tag");
    reveal_strlit("server");
    reveal_strlit("server_port");
    assert("type"@.len() == 4 && "tag"@.len() == 3 && "server"@.len() == 6
        && "server_port"@.len() == 11);
    let e = object_entries(outbound_json(p));
    assert(e.len() >= 4);
    assert(e[0] == ("type"@, JsonV::String(outbound_type(proxy_kind(p)))));
    assert(e[1] == ("tag"@, JsonV::String(name_of(p))));
    assert(e[2] == ("server"@, JsonV::String(str_field(p, "server"@).unwrap())));
    assert(e[3] == ("server_port"@, JsonV::Number(
        NumberV::PosInt(int_field(p, "port"@).unwrap() as u64),
    )));
    lemma_key_index(e, "type"@, 0);
    lemma_key_index(e, "tag"@, 1);
    lemma_key_index(e, "server"@, 2);
    lemma_key_index(e, "server_port"@, 3);
}

} // verus!

verus! {

impl PerClashProxy {
    fn has_str_param(&self, s: &str) -> (r: bool)
        ensures
            r == (str_field(self@, s@) is Some),
    {
        self.0.get(s).into_string().is_some()
    }

    fn has_int_param(&self, s: &str) -> (r: bool)
        ensures
            r == (int_field(self@, s@) is Some),
    {
        let v = self.0.get(s);
        if v.as_i64().is_some() {
            return true;
        }
        match v.into_string() {
            Some(t) => parse_decimal(t.as_str(), 65535).is_some(),
            None => false,
        }
    }

    fn has_known_transport(&self) -> (r: bool)
        ensures
            r == transport_defined(self@),
    {
        match self.0.get("network").into_string() {
            Some(n) => str_eq(n.as_str(), "http") || str_eq(n.as_str(), "ws") || str_eq(
                n.as_str(),
                "grpc",
            ),
            None => true,
        }
    }

    /// Whether the proxy is of a kind that is converted and holds everything that its
    /// conversion reads.
    pub fn is_convertible(&self) -> (r: bool)
        ensures
            r == (convertible(self@) && is_converted_kind(proxy_kind(self@))),
    {
        let proxy_type = self.typed();
        let type_fixed = definition_of_type(proxy_type.as_str());
        let k = type_fixed.as_str();
        let base = self.has_str_param("server") && self.has_int_param("port");
        if str_eq(k, "Shadowsocks") {
            let plugin_ok = if self.has_str_param("plugin") {
                let opts = PerClashProxy(self.0.get("plugin-opts"));
                opts.has_str_param("mode") && opts.has_str_param("host")
            } else {
                true
            };
            base && self.has_str_param("cipher") && self.has_str_param("password") && plugin_ok
        } else if str_eq(k, "Shadowsocksr") {
            base && self.has_str_param("cipher") && self.has_str_param("password")
                && self.has_str_param("obfs") && self.has_str_param("obfs-param")
                && self.has_str_param("protocol") && self.has_str_param("protocol-param")
        } else if str_eq(k, "Socks") {
            base
        } else if str_eq(k, "Http") {
            base
        } else if str_eq(k, "Trojan") {
            base && self.has_str_param("password")
        } else if str_eq(k, "Hysteria") {
            let conn_ok = self.0.get("recv_window_conn").is_badvalue() || self.has_int_param(
                "recv_window_conn",
            );
            let window_ok = self.0.get("recv_window").is_badvalue() || self.has_int_param(
                "recv_window",
            );
            base && conn_ok && window_ok
        } else if str_eq(k, "VMess") {
            let alter_ok = !self.has_str_param("alertId") || self.has_int_param("alertId");
            base && self.has_str_param("uuid") && alter_ok && self.has_known_transport()
        } else if str_eq(k, "Vless") {
            base && self.has_str_param("uuid") && self.has_known_transport()
        } else {
            false
        }
    }
}

} // verus!
