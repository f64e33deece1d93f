//! The sing-box outbound definitions that a clash proxy is converted into, and
//! their JSON form: fields in declaration order, an optional field left out
//! where it is `None` (a struct's `kind` is the JSON key `type`).
use vstd::prelude::*;

use crate::json::{
    entries_view, new_entries, opt_bool, opt_json, opt_json_view, opt_str, opt_string_view,
    opt_strings_view, opt_strs, opt_u16, opt_u32, opt_uint, push_bool, push_json, push_opt_bool,
    push_opt_json, push_opt_str, push_opt_strs, push_opt_uint, push_str, push_uint, str_v, uint_v,
    JsonNumber, JsonV, JsonValue,
};

verus! {

#[derive(Debug)]
pub struct Socks {
    pub kind: String,
    pub tag: String,
    pub server: String,
    pub server_port: u16,
    pub version: u16,
    pub username: Option<String>,
    pub password: Option<String>,
    pub network: Option<String>,
    pub udp_over_tcp: bool,
}

#[derive(Debug)]
pub struct Http {
    pub kind: String,
    pub tag: String,
    pub server: String,
    pub server_port: u16,
    pub username: Option<String>,
    pub password: Option<String>,
    pub tls: Option<Tls>,
}

#[derive(Debug)]
pub struct Shadowsocks {
    pub kind: String,
    pub tag: String,
    pub server: String,
    pub server_port: u16,
    pub method: String,
    pub password: String,
    pub plugin: Option<String>,
    pub plugin_opts: Option<String>,
    pub network: Option<String>,
    pub udp_over_tcp: bool,
}

#[derive(Debug)]
pub struct Shadowsocksr {
    pub kind: String,
    pub tag: String,
    pub server: String,
    pub server_port: u16,
    pub method: String,
    pub password: String,
    pub obfs: Option<String>,
    pub obfs_param: Option<String>,
    pub protocol: Option<String>,
    pub protocol_param: Option<String>,
    pub network: Option<String>,
}

#[derive(Debug)]
pub struct Trojan {
    pub kind: String,
    pub tag: String,
    pub server: String,
    pub server_port: u16,
    pub password: String,
    pub network: Option<String>,
    pub tls: Option<Tls>,
}

#[derive(Debug)]
pub struct Hysteria {
    pub kind: String,
    pub tag: String,
    pub server: String,
    pub server_port: u16,
    pub up: Option<String>,
    pub up_mbps: Option<u32>,
    pub down: Option<String>,
    pub down_mbps: Option<u32>,
    pub obfs: Option<String>,
    pub auth: Option<String>,
    pub auth_str: Option<String>,
    pub recv_window_conn: Option<u32>,
    pub recv_window: Option<u32>,
    pub disable_mtu_discovery: Option<bool>,
    pub tls: Option<Tls>,
}

#[derive(Debug)]
pub struct VMess {
    pub kind: String,
    pub tag: String,
    pub server: String,
    pub server_port: u16,
    pub uuid: String,
    pub security: Option<String>,
    pub alter_id: Option<u16>,
    pub global_padding: Option<bool>,
    pub authenticated_length: Option<bool>,
    pub network: Option<String>,
    pub tls: Option<Tls>,
    pub transport: Option<Transport>,
}

#[derive(Debug)]
pub struct Vless {
    pub kind: String,
    pub tag: String,
    pub server: String,
    pub server_port: u16,
    pub uuid: String,
    pub network: Option<String>,
    pub tls: Option<Tls>,
    pub packet_encoding: Option<String>,
    pub transport: Option<Transport>,
}

#[derive(Debug)]
pub struct Tuic {
    pub kind: String,
    pub tag: String,
}

#[derive(Debug)]
pub struct Tls {
    pub enabled: bool,
    pub disable_sni: bool,
    pub server_name: Option<String>,
    pub insecure: bool,
    pub alpn: Option<Vec<String>>,
    pub utls: Utls,
    pub certificate_path: Option<String>,
    pub certificate: Option<String>,
    pub reality: Option<RealityOpts>,
}

/// uTLS client fingerprint settings (sing-box honours them only when built with uTLS).
#[derive(Debug)]
pub struct Utls {
    pub enabled: bool,
    pub fingerprint: String,
}

#[derive(Debug)]
pub struct Multiplex {
    pub enable: bool,
    pub protocol: String,
    pub max_connections: u16,
    pub min_streams: u16,
    pub max_streams: u16,
}

/// A v2ray transport of sing-box.
#[derive(Debug)]
pub struct Transport {
    pub kind: String,
    pub host: Option<Vec<String>>,
    pub path: Option<String>,
    pub method: Option<String>,
    pub header: Option<Vec<String>>,
    pub max_early_data: Option<u32>,
    pub early_data_header_name: Option<String>,
    pub service_name: Option<String>,
}

#[derive(Debug)]
pub struct RealityOpts {
    pub enabled: bool,
    pub public_key: Option<String>,
    pub short_id: Option<String>,
}

/// One outbound of any of the supported protocols.
#[derive(Debug)]
pub enum SingboxNodeDef {
    Socks(Socks),
    Http(Http),
    Shadowsocks(Shadowsocks),
    Shadowsocksr(Shadowsocksr),
    Trojan(Trojan),
    Hysteria(Hysteria),
    VMess(VMess),
    Vless(Vless),
    Tuic(Tuic),
}

// ---------------------------------------------------------------------------
// The JSON form of each definition, over the models of its fields.
// ---------------------------------------------------------------------------

pub open spec fn socks_json(
    kind: Seq<char>,
    tag: Seq<char>,
    server: Seq<char>,
    server_port: u16,
    version: u16,
    username: Option<Seq<char>>,
    password: Option<Seq<char>>,
    network: Option<Seq<char>>,
    udp_over_tcp: bool,
) -> JsonV {
    let e = Seq::empty().push(("type"@, str_v(kind))).push(("tag"@, str_v(tag))).push(
        ("server"@, str_v(server)),
    ).push(("server_port"@, uint_v(server_port as u64))).push(
        ("version"@, uint_v(version as u64)),
    );
    let e = e + opt_str("username"@, username);
    let e = e + opt_str("password"@, password);
    let e = e + opt_str("network"@, network);
    JsonV::Object(e.push(("udp_over_tcp"@, JsonV::Bool(udp_over_tcp))))
}

pub open spec fn http_json(
    kind: Seq<char>,
    tag: Seq<char>,
    server: Seq<char>,
    server_port: u16,
    username: Option<Seq<char>>,
    password: Option<Seq<char>>,
    tls: Option<JsonV>,
) -> JsonV {
    let e = Seq::empty().push(("type"@, str_v(kind))).push(("tag"@, str_v(tag))).push(
        ("server"@, str_v(server)),
    ).push(("server_port"@, uint_v(server_port as u64)));
    let e = e + opt_str("username"@, username);
    let e = e + opt_str("password"@, password);
    JsonV::Object(e + opt_json("tls"@, tls))
}

pub open spec fn shadowsocks_json(
    kind: Seq<char>,
    tag: Seq<char>,
    server: Seq<char>,
    server_port: u16,
    method: Seq<char>,
    password: Seq<char>,
    plugin: Option<Seq<char>>,
    plugin_opts: Option<Seq<char>>,
    network: Option<Seq<char>>,
    udp_over_tcp: bool,
) -> JsonV {
    let e = Seq::empty().push(("type"@, str_v(kind))).push(("tag"@, str_v(tag))).push(
        ("server"@, str_v(server)),
    ).push(("server_port"@, uint_v(server_port as u64))).push(("method"@, str_v(method))).push(
        ("password"@, str_v(password)),
    );
    let e = e + opt_str("plugin"@, plugin);
    let e = e + opt_str("plugin_opts"@, plugin_opts);
    let e = e + opt_str("network"@, network);
    JsonV::Object(e.push(("udp_over_tcp"@, JsonV::Bool(udp_over_tcp))))
}

pub open spec fn shadowsocksr_json(
    kind: Seq<char>,
    tag: Seq<char>,
    server: Seq<char>,
    server_port: u16,
    method: Seq<char>,
    password: Seq<char>,
    obfs: Option<Seq<char>>,
    obfs_param: Option<Seq<char>>,
    protocol: Option<Seq<char>>,
    protocol_param: Option<Seq<char>>,
    network: Option<Seq<char>>,
) -> JsonV {
    let e = Seq::empty().push(("type"@, str_v(kind))).push(("tag"@, str_v(tag))).push(
        ("server"@, str_v(server)),
    ).push(("server_port"@, uint_v(server_port as u64))).push(("method"@, str_v(method))).push(
        ("password"@, str_v(password)),
    );
    let e = e + opt_str("obfs"@, obfs);
    let e = e + opt_str("obfs_param"@, obfs_param);
    let e = e + opt_str("protocol"@, protocol);
    let e = e + opt_str("protocol_param"@, protocol_param);
    JsonV::Object(e + opt_str("network"@, network))
}

pub open spec fn trojan_json(
    kind: Seq<char>,
    tag: Seq<char>,
    server: Seq<char>,
    server_port: u16,
    password: Seq<char>,
    network: Option<Seq<char>>,
    tls: Option<JsonV>,
) -> JsonV {
    let e = Seq::empty().push(("type"@, str_v(kind))).push(("tag"@, str_v(tag))).push(
        ("server"@, str_v(server)),
    ).push(("server_port"@, uint_v(server_port as u64))).push(("password"@, str_v(password)));
    let e = e + opt_str("network"@, network);
    JsonV::Object(e + opt_json("tls"@, tls))
}

pub open spec fn hysteria_json(
    kind: Seq<char>,
    tag: Seq<char>,
    server: Seq<char>,
    server_port: u16,
    up: Option<Seq<char>>,
    up_mbps: Option<u32>,
    down: Option<Seq<char>>,
    down_mbps: Option<u32>,
    obfs: Option<Seq<char>>,
    auth: Option<Seq<char>>,
    auth_str: Option<Seq<char>>,
    recv_window_conn: Option<u32>,
    recv_window: Option<u32>,
    disable_mtu_discovery: Option<bool>,
    tls: Option<JsonV>,
) -> JsonV {
    let e = Seq::empty().push(("type"@, str_v(kind))).push(("tag"@, str_v(tag))).push(
        ("server"@, str_v(server)),
    ).push(("server_port"@, uint_v(server_port as u64)));
    let e = e + opt_str("up"@, up);
    let e = e + opt_uint("up_mbps"@, opt_u32(up_mbps));
    let e = e + opt_str("down"@, down);
    let e = e + opt_uint("down_mbps"@, opt_u32(down_mbps));
    let e = e + opt_str("obfs"@, obfs);
    let e = e + opt_str("auth"@, auth);
    let e = e + opt_str("auth_str"@, auth_str);
    let e = e + opt_uint("recv_window_conn"@, opt_u32(recv_window_conn));
    let e = e + opt_uint("recv_window"@, opt_u32(recv_window));
    let e = e + opt_bool("disable_mtu_discovery"@, disable_mtu_discovery);
    JsonV::Object(e + opt_json("tls"@, tls))
}

pub open spec fn vmess_json(
    kind: Seq<char>,
    tag: Seq<char>,
    server: Seq<char>,
    server_port: u16,
    uuid: Seq<char>,
    security: Option<Seq<char>>,
    alter_id: Option<u16>,
    global_padding: Option<bool>,
    authenticated_length: Option<bool>,
    network: Option<Seq<char>>,
    tls: Option<JsonV>,
    transport: Option<JsonV>,
) -> JsonV {
    let e = Seq::empty().push(("type"@, str_v(kind))).push(("tag"@, str_v(tag))).push(
        ("server"@, str_v(server)),
    ).push(("server_port"@, uint_v(server_port as u64))).push(("uuid"@, str_v(uuid)));
    let e = e + opt_str("security"@, security);
    let e = e + opt_uint("alter_id"@, opt_u16(alter_id));
    let e = e + opt_bool("global_padding"@, global_padding);
    let e = e + opt_bool("authenticated_length"@, authenticated_length);
    let e = e + opt_str("network"@, network);
    let e = e + opt_json("tls"@, tls);
    JsonV::Object(e + opt_json("transport"@, transport))
}

pub open spec fn vless_json(
    kind: Seq<char>,
    tag: Seq<char>,
    server: Seq<char>,
    server_port: u16,
    uuid: Seq<char>,
    network: Option<Seq<char>>,
    tls: Option<JsonV>,
    packet_encoding: Option<Seq<char>>,
    transport: Option<JsonV>,
) -> JsonV {
    let e = Seq::empty().push(("type"@, str_v(kind))).push(("tag"@, str_v(tag))).push(
        ("server"@, str_v(server)),
    ).push(("server_port"@, uint_v(server_port as u64))).push(("uuid"@, str_v(uuid)));
    let e = e + opt_str("network"@, network);
    let e = e + opt_json("tls"@, tls);
    let e = e + opt_str("packet_encoding"@, packet_encoding);
    JsonV::Object(e + opt_json("transport"@, transport))
}

pub open spec fn tuic_json(kind: Seq<char>, tag: Seq<char>) -> JsonV {
    JsonV::Object(Seq::empty().push(("type"@, str_v(kind))).push(("tag"@, str_v(tag))))
}

pub open spec fn tls_json(
    enabled: bool,
    disable_sni: bool,
    server_name: Option<Seq<char>>,
    insecure: bool,
    alpn: Option<Seq<Seq<char>>>,
    utls: JsonV,
    certificate_path: Option<Seq<char>>,
    certificate: Option<Seq<char>>,
    reality: Option<JsonV>,
) -> JsonV {
    let e = Seq::empty().push(("enabled"@, JsonV::Bool(enabled))).push(
        ("disable_sni"@, JsonV::Bool(disable_sni)),
    );
    let e = e + opt_str("server_name"@, server_name);
    let e = e.push(("insecure"@, JsonV::Bool(insecure)));
    let e = e + opt_strs("alpn"@, alpn);
    let e = e.push(("utls"@, utls));
    let e = e + opt_str("certificate_path"@, certificate_path);
    let e = e + opt_str("certificate"@, certificate);
    JsonV::Object(e + opt_json("reality"@, reality))
}

pub open spec fn utls_json(enabled: bool, fingerprint: Seq<char>) -> JsonV {
    JsonV::Object(
        Seq::empty().push(("enabled"@, JsonV::Bool(enabled))).push(
            ("fingerprint"@, str_v(fingerprint)),
        ),
    )
}

pub open spec fn transport_json(
    kind: Seq<char>,
    host: Option<Seq<Seq<char>>>,
    path: Option<Seq<char>>,
    method: Option<Seq<char>>,
    header: Option<Seq<Seq<char>>>,
    max_early_data: Option<u32>,
    early_data_header_name: Option<Seq<char>>,
    service_name: Option<Seq<char>>,
) -> JsonV {
    let e = Seq::empty().push(("type"@, str_v(kind)));
    let e = e + opt_strs("host"@, host);
    let e = e + opt_str("path"@, path);
    let e = e + opt_str("method"@, method);
    let e = e + opt_strs("header"@, header);
    let e = e + opt_uint("max_early_data"@, opt_u32(max_early_data));
    let e = e + opt_str("early_data_header_name"@, early_data_header_name);
    JsonV::Object(e + opt_str("service_name"@, service_name))
}

/// A field that the JSON form always holds: `null` where it is `None`.
pub open spec fn nullable_str(s: Option<Seq<char>>) -> JsonV {
    match s {
        Some(t) => str_v(t),
        None => JsonV::Null,
    }
}

pub open spec fn reality_json(
    enabled: bool,
    public_key: Option<Seq<char>>,
    short_id: Option<Seq<char>>,
) -> JsonV {
    JsonV::Object(
        Seq::empty().push(("enabled"@, JsonV::Bool(enabled))).push(
            ("public_key"@, nullable_str(public_key)),
        ).push(("short_id"@, nullable_str(short_id))),
    )
}

pub open spec fn multiplex_json(
    enable: bool,
    protocol: Seq<char>,
    max_connections: u16,
    min_streams: u16,
    max_streams: u16,
) -> JsonV {
    JsonV::Object(
        Seq::empty().push(("enable"@, JsonV::Bool(enable))).push(
            ("protocol"@, str_v(protocol)),
        ).push(("max_connections"@, uint_v(max_connections as u64))).push(
            ("min_streams"@, uint_v(min_streams as u64)),
        ).push(("max_streams"@, uint_v(max_streams as u64))),
    )
}

pub open spec fn opt_tls_json(t: Option<Tls>) -> Option<JsonV> {
    match t {
        Some(t) => Some(t.json()),
        None => None,
    }
}

pub open spec fn opt_transport_json(t: Option<Transport>) -> Option<JsonV> {
    match t {
        Some(t) => Some(t.json()),
        None => None,
    }
}

pub open spec fn opt_reality_json(r: Option<RealityOpts>) -> Option<JsonV> {
    match r {
        Some(r) => Some(r.json()),
        None => None,
    }
}

impl Utls {
    pub open spec fn json(&self) -> JsonV {
        utls_json(self.enabled, self.fingerprint@)
    }

    pub fn to_json(&self) -> (r: JsonValue)
        ensures
            r@ == self.json(),
    {
        let mut e = new_entries();
        push_bool(&mut e, "enabled", self.enabled);
        push_str(&mut e, "fingerprint", &self.fingerprint);
        JsonValue::Object(e)
    }
}

impl RealityOpts {
    pub open spec fn json(&self) -> JsonV {
        reality_json(self.enabled, opt_string_view(self.public_key), opt_string_view(self.short_id))
    }

    pub fn to_json(&self) -> (r: JsonValue)
        ensures
            r@ == self.json(),
    {
        let mut e = new_entries();
        push_bool(&mut e, "enabled", self.enabled);
        let pk = match &self.public_key {
            Some(s) => JsonValue::String(s.clone()),
            None => JsonValue::Null,
        };
        push_json(&mut e, "public_key", pk);
        let sid = match &self.short_id {
            Some(s) => JsonValue::String(s.clone()),
            None => JsonValue::Null,
        };
        push_json(&mut e, "short_id", sid);
        JsonValue::Object(e)
    }
}

impl Tls {
    pub open spec fn json(&self) -> JsonV {
        tls_json(
            self.enabled,
            self.disable_sni,
            opt_string_view(self.server_name),
            self.insecure,
            opt_strings_view(self.alpn),
            self.utls.json(),
            opt_string_view(self.certificate_path),
            opt_string_view(self.certificate),
            opt_reality_json(self.reality),
        )
    }

    pub fn to_json(&self) -> (r: JsonValue)
        ensures
            r@ == self.json(),
    {
        let mut e = new_entries();
        push_bool(&mut e, "enabled", self.enabled);
        push_bool(&mut e, "disable_sni", self.disable_sni);
        push_opt_str(&mut e, "server_name", &self.server_name);
        push_bool(&mut e, "insecure", self.insecure);
        push_opt_strs(&mut e, "alpn", &self.alpn);
        push_json(&mut e, "utls", self.utls.to_json());
        push_opt_str(&mut e, "certificate_path", &self.certificate_path);
        push_opt_str(&mut e, "certificate", &self.certificate);
        let reality = match &self.reality {
            Some(r) => Some(r.to_json()),
            None => None,
        };
        push_opt_json(&mut e, "reality", reality);
        JsonValue::Object(e)
    }
}

impl Multiplex {
    pub open spec fn json(&self) -> JsonV {
        multiplex_json(
            self.enable,
            self.protocol@,
            self.max_connections,
            self.min_streams,
            self.max_streams,
        )
    }

    pub fn to_json(&self) -> (r: JsonValue)
        ensures
            r@ == self.json(),
    {
        let mut e = new_entries();
        push_bool(&mut e, "enable", self.enable);
        push_str(&mut e, "protocol", &self.protocol);
        push_uint(&mut e, "max_connections", self.max_connections as u64);
        push_uint(&mut e, "min_streams", self.min_streams as u64);
        push_uint(&mut e, "max_streams", self.max_streams as u64);
        JsonValue::Object(e)
    }
}

fn opt_u32_wide(o: Option<u32>) -> (r: Option<u64>)
    ensures
        r == opt_u32(o),
{
    match o {
        Some(n) => Some(n as u64),
        None => None,
    }
}

fn opt_u16_wide(o: Option<u16>) -> (r: Option<u64>)
    ensures
        r == opt_u16(o),
{
    match o {
        Some(n) => Some(n as u64),
        None => None,
    }
}

fn tls_value(t: &Option<Tls>) -> (r: Option<JsonValue>)
    ensures
        opt_json_view(r) == opt_tls_json(*t),
{
    match t {
        Some(t) => Some(t.to_json()),
        None => None,
    }
}

fn transport_value(t: &Option<Transport>) -> (r: Option<JsonValue>)
    ensures
        opt_json_view(r) == opt_transport_json(*t),
{
    match t {
        Some(t) => Some(t.to_json()),
        None => None,
    }
}

impl Transport {
    pub open spec fn json(&self) -> JsonV {
        transport_json(
            self.kind@,
            opt_strings_view(self.host),
            opt_string_view(self.path),
            opt_string_view(self.method),
            opt_strings_view(self.header),
            self.max_early_data,
            opt_string_view(self.early_data_header_name),
            opt_string_view(self.service_name),
        )
    }

    pub fn to_json(&self) -> (r: JsonValue)
        ensures
            r@ == self.json(),
    {
        let mut e = new_entries();
        push_str(&mut e, "type", &self.kind);
        push_opt_strs(&mut e, "host", &self.host);
        push_opt_str(&mut e, "path", &self.path);
        push_opt_str(&mut e, "method", &self.method);
        push_opt_strs(&mut e, "header", &self.header);
        push_opt_uint(&mut e, "max_early_data", opt_u32_wide(self.max_early_data));
        push_opt_str(&mut e, "early_data_header_name", &self.early_data_header_name);
        push_opt_str(&mut e, "service_name", &self.service_name);
        JsonValue::Object(e)
    }
}

impl Socks {
    pub open spec fn json(&self) -> JsonV {
        socks_json(
            self.kind@,
            self.tag@,
            self.server@,
            self.server_port,
            self.version,
            opt_string_view(self.username),
            opt_string_view(self.password),
            opt_string_view(self.network),
            self.udp_over_tcp,
        )
    }

    pub fn to_json(&self) -> (r: JsonValue)
        ensures
            r@ == self.json(),
    {
        let mut e = new_entries();
        push_str(&mut e, "type", &self.kind);
        push_str(&mut e, "tag", &self.tag);
        push_str(&mut e, "server", &self.server);
        push_uint(&mut e, "server_port", self.server_port as u64);
        push_uint(&mut e, "version", self.version as u64);
        push_opt_str(&mut e, "username", &self.username);
        push_opt_str(&mut e, "password", &self.password);
        push_opt_str(&mut e, "network", &self.network);
        push_bool(&mut e, "udp_over_tcp", self.udp_over_tcp);
        JsonValue::Object(e)
    }
}

impl Http {
    pub open spec fn json(&self) -> JsonV {
        http_json(
            self.kind@,
            self.tag@,
            self.server@,
            self.server_port,
            opt_string_view(self.username),
            opt_string_view(self.password),
            opt_tls_json(self.tls),
        )
    }

    pub fn to_json(&self) -> (r: JsonValue)
        ensures
            r@ == self.json(),
    {
        let mut e = new_entries();
        push_str(&mut e, "type", &self.kind);
        push_str(&mut e, "tag", &self.tag);
        push_str(&mut e, "server", &self.server);
        push_uint(&mut e, "server_port", self.server_port as u64);
        push_opt_str(&mut e, "username", &self.username);
        push_opt_str(&mut e, "password", &self.password);
        push_opt_json(&mut e, "tls", tls_value(&self.tls));
        JsonValue::Object(e)
    }
}

impl Shadowsocks {
    pub open spec fn json(&self) -> JsonV {
        shadowsocks_json(
            self.kind@,
            self.tag@,
            self.server@,
            self.server_port,
            self.method@,
            self.password@,
            opt_string_view(self.plugin),
            opt_string_view(self.plugin_opts),
            opt_string_view(self.network),
            self.udp_over_tcp,
        )
    }

    pub fn to_json(&self) -> (r: JsonValue)
        ensures
            r@ == self.json(),
    {
        let mut e = new_entries();
        push_str(&mut e, "type", &self.kind);
        push_str(&mut e, "tag", &self.tag);
        push_str(&mut e, "server", &self.server);
        push_uint(&mut e, "server_port", self.server_port as u64);
        push_str(&mut e, "method", &self.method);
        push_str(&mut e, "password", &self.password);
        push_opt_str(&mut e, "plugin", &self.plugin);
        push_opt_str(&mut e, "plugin_opts", &self.plugin_opts);
        push_opt_str(&mut e, "network", &self.network);
        push_bool(&mut e, "udp_over_tcp", self.udp_over_tcp);
        JsonValue::Object(e)
    }
}

impl Shadowsocksr {
    pub open spec fn json(&self) -> JsonV {
        shadowsocksr_json(
            self.kind@,
            self.tag@,
            self.server@,
            self.server_port,
            self.method@,
            self.password@,
            opt_string_view(self.obfs),
            opt_string_view(self.obfs_param),
            opt_string_view(self.protocol),
            opt_string_view(self.protocol_param),
            opt_string_view(self.network),
        )
    }

    pub fn to_json(&self) -> (r: JsonValue)
        ensures
            r@ == self.json(),
    {
        let mut e = new_entries();
        push_str(&mut e, "type", &self.kind);
        push_str(&mut e, "tag", &self.tag);
        push_str(&mut e, "server", &self.server);
        push_uint(&mut e, "server_port", self.server_port as u64);
        push_str(&mut e, "method", &self.method);
        push_str(&mut e, "password", &self.password);
        push_opt_str(&mut e, "obfs", &self.obfs);
        push_opt_str(&mut e, "obfs_param", &self.obfs_param);
        push_opt_str(&mut e, "protocol", &self.protocol);
        push_opt_str(&mut e, "protocol_param", &self.protocol_param);
        push_opt_str(&mut e, "network", &self.network);
        JsonValue::Object(e)
    }
}

impl Trojan {
    pub open spec fn json(&self) -> JsonV {
        trojan_json(
            self.kind@,
            self.tag@,
            self.server@,
            self.server_port,
            self.password@,
            opt_string_view(self.network),
            opt_tls_json(self.tls),
        )
    }

    pub fn to_json(&self) -> (r: JsonValue)
        ensures
            r@ == self.json(),
    {
        let mut e = new_entries();
        push_str(&mut e, "type", &self.kind);
        push_str(&mut e, "tag", &self.tag);
        push_str(&mut e, "server", &self.server);
        push_uint(&mut e, "server_port", self.server_port as u64);
        push_str(&mut e, "password", &self.password);
        push_opt_str(&mut e, "network", &self.network);
        push_opt_json(&mut e, "tls", tls_value(&self.tls));
        JsonValue::Object(e)
    }
}

impl Hysteria {
    pub open spec fn json(&self) -> JsonV {
        hysteria_json(
            self.kind@,
            self.tag@,
            self.server@,
            self.server_port,
            opt_string_view(self.up),
            self.up_mbps,
            opt_string_view(self.down),
            self.down_mbps,
            opt_string_view(self.obfs),
            opt_string_view(self.auth),
            opt_string_view(self.auth_str),
            self.recv_window_conn,
            self.recv_window,
            self.disable_mtu_discovery,
            opt_tls_json(self.tls),
        )
    }

    pub fn to_json(&self) -> (r: JsonValue)
        ensures
            r@ == self.json(),
    {
        let mut e = new_entries();
        push_str(&mut e, "type", &self.kind);
        push_str(&mut e, "tag", &self.tag);
        push_str(&mut e, "server", &self.server);
        push_uint(&mut e, "server_port", self.server_port as u64);
        push_opt_str(&mut e, "up", &self.up);
        push_opt_uint(&mut e, "up_mbps", opt_u32_wide(self.up_mbps));
        push_opt_str(&mut e, "down", &self.down);
        push_opt_uint(&mut e, "down_mbps", opt_u32_wide(self.down_mbps));
        push_opt_str(&mut e, "obfs", &self.obfs);
        push_opt_str(&mut e, "auth", &self.auth);
        push_opt_str(&mut e, "auth_str", &self.auth_str);
        push_opt_uint(&mut e, "recv_window_conn", opt_u32_wide(self.recv_window_conn));
        push_opt_uint(&mut e, "recv_window", opt_u32_wide(self.recv_window));
        push_opt_bool(&mut e, "disable_mtu_discovery", self.disable_mtu_discovery);
        push_opt_json(&mut e, "tls", tls_value(&self.tls));
        JsonValue::Object(e)
    }
}

impl VMess {
    pub open spec fn json(&self) -> JsonV {
        vmess_json(
            self.kind@,
            self.tag@,
            self.server@,
            self.server_port,
            self.uuid@,
            opt_string_view(self.security),
            self.alter_id,
            self.global_padding,
            self.authenticated_length,
            opt_string_view(self.network),
            opt_tls_json(self.tls),
            opt_transport_json(self.transport),
        )
    }

    pub fn to_json(&self) -> (r: JsonValue)
        ensures
            r@ == self.json(),
    {
        let mut e = new_entries();
        push_str(&mut e, "type", &self.kind);
        push_str(&mut e, "tag", &self.tag);
        push_str(&mut e, "server", &self.server);
        push_uint(&mut e, "server_port", self.server_port as u64);
        push_str(&mut e, "uuid", &self.uuid);
        push_opt_str(&mut e, "security", &self.security);
        push_opt_uint(&mut e, "alter_id", opt_u16_wide(self.alter_id));
        push_opt_bool(&mut e, "global_padding", self.global_padding);
        push_opt_bool(&mut e, "authenticated_length", self.authenticated_length);
        push_opt_str(&mut e, "network", &self.network);
        push_opt_json(&mut e, "tls", tls_value(&self.tls));
        push_opt_json(&mut e, "transport", transport_value(&self.transport));
        JsonValue::Object(e)
    }
}

impl Vless {
    pub open spec fn json(&self) -> JsonV {
        vless_json(
            self.kind@,
            self.tag@,
            self.server@,
            self.server_port,
            self.uuid@,
            opt_string_view(self.network),
            opt_tls_json(self.tls),
            opt_string_view(self.packet_encoding),
            opt_transport_json(self.transport),
        )
    }

    pub fn to_json(&self) -> (r: JsonValue)
        ensures
            r@ == self.json(),
    {
        let mut e = new_entries();
        push_str(&mut e, "type", &self.kind);
        push_str(&mut e, "tag", &self.tag);
        push_str(&mut e, "server", &self.server);
        push_uint(&mut e, "server_port", self.server_port as u64);
        push_str(&mut e, "uuid", &self.uuid);
        push_opt_str(&mut e, "network", &self.network);
        push_opt_json(&mut e, "tls", tls_value(&self.tls));
        push_opt_str(&mut e, "packet_encoding", &self.packet_encoding);
        push_opt_json(&mut e, "transport", transport_value(&self.transport));
        JsonValue::Object(e)
    }
}

impl Tuic {
    pub open spec fn json(&self) -> JsonV {
        tuic_json(self.kind@, self.tag@)
    }

    pub fn to_json(&self) -> (r: JsonValue)
        ensures
            r@ == self.json(),
    {
        let mut e = new_entries();
        push_str(&mut e, "type", &self.kind);
        push_str(&mut e, "tag", &self.tag);
        JsonValue::Object(e)
    }
}

/// The name under which `serde` tags each variant of [`SingboxNodeDef`].
pub open spec fn variant_name(d: SingboxNodeDef) -> Seq<char> {
    match d {
        SingboxNodeDef::Socks(_) => "Socks"@,
        SingboxNodeDef::Http(_) => "Http"@,
        SingboxNodeDef::Shadowsocks(_) => "Shadowsocks"@,
        SingboxNodeDef::Shadowsocksr(_) => "Shadowsocksr"@,
        SingboxNodeDef::Trojan(_) => "Trojan"@,
        SingboxNodeDef::Hysteria(_) => "Hysteria"@,
        SingboxNodeDef::VMess(_) => "VMess"@,
        SingboxNodeDef::Vless(_) => "Vless"@,
        SingboxNodeDef::Tuic(_) => "Tuic"@,
    }
}

impl SingboxNodeDef {
    /// The JSON form of the definition that it wraps.
    pub open spec fn inner_json(&self) -> JsonV {
        match self {
            SingboxNodeDef::Socks(d) => d.json(),
            SingboxNodeDef::Http(d) => d.json(),
            SingboxNodeDef::Shadowsocks(d) => d.json(),
            SingboxNodeDef::Shadowsocksr(d) => d.json(),
            SingboxNodeDef::Trojan(d) => d.json(),
            SingboxNodeDef::Hysteria(d) => d.json(),
            SingboxNodeDef::VMess(d) => d.json(),
            SingboxNodeDef::Vless(d) => d.json(),
            SingboxNodeDef::Tuic(d) => d.json(),
        }
    }

    /// The JSON form, externally tagged: `{ "<variant>": <definition> }`.
    pub open spec fn json(&self) -> JsonV {
        JsonV::Object(Seq::empty().push((variant_name(*self), self.inner_json())))
    }

    pub fn to_json(&self) -> (r: JsonValue)
        ensures
            r@ == self.json(),
    {
        let mut e = new_entries();
        match self {
            SingboxNodeDef::Socks(d) => push_json(&mut e, "Socks", d.to_json()),
            SingboxNodeDef::Http(d) => push_json(&mut e, "Http", d.to_json()),
            SingboxNodeDef::Shadowsocks(d) => push_json(&mut e, "Shadowsocks", d.to_json()),
            SingboxNodeDef::Shadowsocksr(d) => push_json(&mut e, "Shadowsocksr", d.to_json()),
            SingboxNodeDef::Trojan(d) => push_json(&mut e, "Trojan", d.to_json()),
            SingboxNodeDef::Hysteria(d) => push_json(&mut e, "Hysteria", d.to_json()),
            SingboxNodeDef::VMess(d) => push_json(&mut e, "VMess", d.to_json()),
            SingboxNodeDef::Vless(d) => push_json(&mut e, "Vless", d.to_json()),
            SingboxNodeDef::Tuic(d) => push_json(&mut e, "Tuic", d.to_json()),
        }
        JsonValue::Object(e)
    }
}

} // verus!
