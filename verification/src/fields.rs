//! What the JSON form of each sing-box definition holds under each key: every field of
//! the struct under its own name (`kind` under `type`), an optional field that is `None`
//! reading as `null` (it is left out).
use vstd::prelude::*;

use crate::json::{
    group_lookup, lemma_object_value_lookup, object_entries, object_value, string_seq_view,
    strs_v, JsonV, NumberV,
};
use crate::helper::{int_field, name_of, tls_of, transport_of, type_of};
use crate::utils::{def_kind, kind_tag, outbound_json, proxy_kind};
use crate::text::{all_digits, lemma_decimal_value_nonneg, parse_unsigned, unsigned_digits};
use crate::yaml::YamlV;
use crate::sb_def::{
    Http, Hysteria, Multiplex, RealityOpts, Shadowsocks, Shadowsocksr, Socks, Tls, Transport,
    Trojan, Tuic, Utls, VMess, Vless,
};

verus! {

broadcast use group_lookup;

/// An optional text as JSON: the string, or `null` where there is none.
pub open spec fn text_or_null(o: Option<String>) -> JsonV {
    match o {
        Some(s) => JsonV::String(s@),
        None => JsonV::Null,
    }
}

/// An optional list of texts as JSON: the array of the strings, or `null` where there is
/// none.
pub open spec fn texts_or_null(o: Option<Vec<String>>) -> JsonV {
    match o {
        Some(v) => strs_v(string_seq_view(v@)),
        None => JsonV::Null,
    }
}

/// An optional number as JSON: the number, or `null` where there is none.
pub open spec fn u32_or_null(o: Option<u32>) -> JsonV {
    match o {
        Some(n) => JsonV::Number(NumberV::PosInt(n as u64)),
        None => JsonV::Null,
    }
}

/// An optional number as JSON: the number, or `null` where there is none.
pub open spec fn u16_or_null(o: Option<u16>) -> JsonV {
    match o {
        Some(n) => JsonV::Number(NumberV::PosInt(n as u64)),
        None => JsonV::Null,
    }
}

/// An optional flag as JSON: the flag, or `null` where there is none.
pub open spec fn bool_or_null(o: Option<bool>) -> JsonV {
    match o {
        Some(b) => JsonV::Bool(b),
        None => JsonV::Null,
    }
}

/// The length of each key of the JSON forms, and the characters that tell apart the
/// keys of one length.
pub(crate) proof fn lemma_keys_differ()
    ensures
        "alpn"@.len() == 4,
        "alpn"@[0] == 'a',
        "alpn"@[1] == 'l',
        "alter_id"@.len() == 8,
        "alter_id"@[0] == 'a',
        "alter_id"@[1] == 'l',
        "auth"@.len() == 4,
        "auth"@[0] == 'a',
        "auth"@[1] == 'u',
        "auth_str"@.len() == 8,
        "auth_str"@[0] == 'a',
        "auth_str"@[1] == 'u',
        "authenticated_length"@.len() == 20,
        "certificate"@.len() == 11,
        "certificate"@[0] == 'c',
        "certificate_path"@.len() == 16,
        "certificate_path"@[0] == 'c',
        "disable_mtu_discovery"@.len() == 21,
        "disable_sni"@.len() == 11,
        "disable_sni"@[0] == 'd',
        "down"@.len() == 4,
        "down"@[0] == 'd',
        "down_mbps"@.len() == 9,
        "down_mbps"@[0] == 'd',
        "early_data_header_name"@.len() == 22,
        "enable"@.len() == 6,
        "enable"@[0] == 'e',
        "enabled"@.len() == 7,
        "enabled"@[0] == 'e',
        "fingerprint"@.len() == 11,
        "fingerprint"@[0] == 'f',
        "global_padding"@.len() == 14,
        "global_padding"@[0] == 'g',
        "header"@.len() == 6,
        "header"@[0] == 'h',
        "host"@.len() == 4,
        "host"@[0] == 'h',
        "insecure"@.len() == 8,
        "insecure"@[0] == 'i',
        "max_connections"@.len() == 15,
        "max_connections"@[0] == 'm',
        "max_early_data"@.len() == 14,
        "max_early_data"@[0] == 'm',
        "max_streams"@.len() == 11,
        "max_streams"@[0] == 'm',
        "max_streams"@[1] == 'a',
        "method"@.len() == 6,
        "method"@[0] == 'm',
        "min_streams"@.len() == 11,
        "min_streams"@[0] == 'm',
        "min_streams"@[1] == 'i',
        "network"@.len() == 7,
        "network"@[0] == 'n',
        "obfs"@.len() == 4,
        "obfs"@[0] == 'o',
        "obfs_param"@.len() == 10,
        "obfs_param"@[0] == 'o',
        "packet_encoding"@.len() == 15,
        "packet_encoding"@[0] == 'p',
        "password"@.len() == 8,
        "password"@[0] == 'p',
        "password"@[1] == 'a',
        "path"@.len() == 4,
        "path"@[0] == 'p',
        "plugin"@.len() == 6,
        "plugin"@[0] == 'p',
        "plugin_opts"@.len() == 11,
        "plugin_opts"@[0] == 'p',
        "protocol"@.len() == 8,
        "protocol"@[0] == 'p',
        "protocol"@[1] == 'r',
        "protocol_param"@.len() == 14,
        "protocol_param"@[0] == 'p',
        "public_key"@.len() == 10,
        "public_key"@[0] == 'p',
        "reality"@.len() == 7,
        "reality"@[0] == 'r',
        "recv_window"@.len() == 11,
        "recv_window"@[0] == 'r',
        "recv_window_conn"@.len() == 16,
        "recv_window_conn"@[0] == 'r',
        "security"@.len() == 8,
        "security"@[0] == 's',
        "security"@[1] == 'e',
        "server"@.len() == 6,
        "server"@[0] == 's',
        "server_name"@.len() == 11,
        "server_name"@[0] == 's',
        "server_name"@[7] == 'n',
        "server_port"@.len() == 11,
        "server_port"@[0] == 's',
        "server_port"@[7] == 'p',
        "service_name"@.len() == 12,
        "service_name"@[0] == 's',
        "short_id"@.len() == 8,
        "short_id"@[0] == 's',
        "short_id"@[1] == 'h',
        "tag"@.len() == 3,
        "tag"@[1] == 'a',
        "tls"@.len() == 3,
        "tls"@[1] == 'l',
        "transport"@.len() == 9,
        "transport"@[0] == 't',
        "type"@.len() == 4,
        "type"@[0] == 't',
        "udp_over_tcp"@.len() == 12,
        "udp_over_tcp"@[0] == 'u',
        "up"@.len() == 2,
        "up_mbps"@.len() == 7,
        "up_mbps"@[0] == 'u',
        "username"@.len() == 8,
        "username"@[0] == 'u',
        "utls"@.len() == 4,
        "utls"@[0] == 'u',
        "utls"@[1] == 't',
        "uuid"@.len() == 4,
        "uuid"@[0] == 'u',
        "uuid"@[1] == 'u',
        "version"@.len() == 7,
        "version"@[0] == 'v',
{
    reveal_strlit("alpn");
    reveal_strlit("alter_id");
    reveal_strlit("auth");
    reveal_strlit("auth_str");
    reveal_strlit("authenticated_length");
    reveal_strlit("certificate");
    reveal_strlit("certificate_path");
    reveal_strlit("disable_mtu_discovery");
    reveal_strlit("disable_sni");
    reveal_strlit("down");
    reveal_strlit("down_mbps");
    reveal_strlit("early_data_header_name");
    reveal_strlit("enable");
    reveal_strlit("enabled");
    reveal_strlit("fingerprint");
    reveal_strlit("global_padding");
    reveal_strlit("header");
    reveal_strlit("host");
    reveal_strlit("insecure");
    reveal_strlit("max_connections");
    reveal_strlit("max_early_data");
    reveal_strlit("max_streams");
    reveal_strlit("method");
    reveal_strlit("min_streams");
    reveal_strlit("network");
    reveal_strlit("obfs");
    reveal_strlit("obfs_param");
    reveal_strlit("packet_encoding");
    reveal_strlit("password");
    reveal_strlit("path");
    reveal_strlit("plugin");
    reveal_strlit("plugin_opts");
    reveal_strlit("protocol");
    reveal_strlit("protocol_param");
    reveal_strlit("public_key");
    reveal_strlit("reality");
    reveal_strlit("recv_window");
    reveal_strlit("recv_window_conn");
    reveal_strlit("security");
    reveal_strlit("server");
    reveal_strlit("server_name");
    reveal_strlit("server_port");
    reveal_strlit("service_name");
    reveal_strlit("short_id");
    reveal_strlit("tag");
    reveal_strlit("tls");
    reveal_strlit("transport");
    reveal_strlit("type");
    reveal_strlit("udp_over_tcp");
    reveal_strlit("up");
    reveal_strlit("up_mbps");
    reveal_strlit("username");
    reveal_strlit("utls");
    reveal_strlit("uuid");
    reveal_strlit("version");
}

/// The JSON form of a `Socks` holds each of its fields under the field's name (`kind`
/// under `type`); an optional field that is `None` reads as `null`.
pub proof fn lemma_socks_fields(d: Socks)
    ensures
        object_value(d.json(), "type"@) == JsonV::String(d.kind@),
        object_value(d.json(), "tag"@) == JsonV::String(d.tag@),
        object_value(d.json(), "server"@) == JsonV::String(d.server@),
        object_value(d.json(), "server_port"@) == JsonV::Number(NumberV::PosInt(d.server_port as u64)),
        object_value(d.json(), "version"@) == JsonV::Number(NumberV::PosInt(d.version as u64)),
        object_value(d.json(), "username"@) == text_or_null(d.username),
        object_value(d.json(), "password"@) == text_or_null(d.password),
        object_value(d.json(), "network"@) == text_or_null(d.network),
        object_value(d.json(), "udp_over_tcp"@) == JsonV::Bool(d.udp_over_tcp),
{
    lemma_keys_differ();
    let e = object_entries(d.json());
    lemma_object_value_lookup(e, "type"@);
    lemma_object_value_lookup(e, "tag"@);
    lemma_object_value_lookup(e, "server"@);
    lemma_object_value_lookup(e, "server_port"@);
    lemma_object_value_lookup(e, "version"@);
    lemma_object_value_lookup(e, "username"@);
    lemma_object_value_lookup(e, "password"@);
    lemma_object_value_lookup(e, "network"@);
    lemma_object_value_lookup(e, "udp_over_tcp"@);
}

/// The JSON form of an `Http` holds each of its fields under the field's name (`kind`
/// under `type`); an optional field that is `None` reads as `null`.
pub proof fn lemma_http_fields(d: Http)
    ensures
        object_value(d.json(), "type"@) == JsonV::String(d.kind@),
        object_value(d.json(), "tag"@) == JsonV::String(d.tag@),
        object_value(d.json(), "server"@) == JsonV::String(d.server@),
        object_value(d.json(), "server_port"@) == JsonV::Number(NumberV::PosInt(d.server_port as u64)),
        object_value(d.json(), "username"@) == text_or_null(d.username),
        object_value(d.json(), "password"@) == text_or_null(d.password),
        object_value(d.json(), "tls"@) == (match d.tls { Some(t) => t.json(), None => JsonV::Null }),
{
    lemma_keys_differ();
    let e = object_entries(d.json());
    lemma_object_value_lookup(e, "type"@);
    lemma_object_value_lookup(e, "tag"@);
    lemma_object_value_lookup(e, "server"@);
    lemma_object_value_lookup(e, "server_port"@);
    lemma_object_value_lookup(e, "username"@);
    lemma_object_value_lookup(e, "password"@);
    lemma_object_value_lookup(e, "tls"@);
}

/// The JSON form of a `Shadowsocks` holds each of its fields under the field's name (`kind`
/// under `type`); an optional field that is `None` reads as `null`.
pub proof fn lemma_shadowsocks_fields(d: Shadowsocks)
    ensures
        object_value(d.json(), "type"@) == JsonV::String(d.kind@),
        object_value(d.json(), "tag"@) == JsonV::String(d.tag@),
        object_value(d.json(), "server"@) == JsonV::String(d.server@),
        object_value(d.json(), "server_port"@) == JsonV::Number(NumberV::PosInt(d.server_port as u64)),
        object_value(d.json(), "method"@) == JsonV::String(d.method@),
        object_value(d.json(), "password"@) == JsonV::String(d.password@),
        object_value(d.json(), "plugin"@) == text_or_null(d.plugin),
        object_value(d.json(), "plugin_opts"@) == text_or_null(d.plugin_opts),
        object_value(d.json(), "network"@) == text_or_null(d.network),
        object_value(d.json(), "udp_over_tcp"@) == JsonV::Bool(d.udp_over_tcp),
{
    lemma_keys_differ();
    let e = object_entries(d.json());
    lemma_object_value_lookup(e, "type"@);
    lemma_object_value_lookup(e, "tag"@);
    lemma_object_value_lookup(e, "server"@);
    lemma_object_value_lookup(e, "server_port"@);
    lemma_object_value_lookup(e, "method"@);
    lemma_object_value_lookup(e, "password"@);
    lemma_object_value_lookup(e, "plugin"@);
    lemma_object_value_lookup(e, "plugin_opts"@);
    lemma_object_value_lookup(e, "network"@);
    lemma_object_value_lookup(e, "udp_over_tcp"@);
}

/// The JSON form of a `Shadowsocksr` holds each of its fields under the field's name (`kind`
/// under `type`); an optional field that is `None` reads as `null`.
pub proof fn lemma_shadowsocksr_fields(d: Shadowsocksr)
    ensures
        object_value(d.json(), "type"@) == JsonV::String(d.kind@),
        object_value(d.json(), "tag"@) == JsonV::String(d.tag@),
        object_value(d.json(), "server"@) == JsonV::String(d.server@),
        object_value(d.json(), "server_port"@) == JsonV::Number(NumberV::PosInt(d.server_port as u64)),
        object_value(d.json(), "method"@) == JsonV::String(d.method@),
        object_value(d.json(), "password"@) == JsonV::String(d.password@),
        object_value(d.json(), "obfs"@) == text_or_null(d.obfs),
        object_value(d.json(), "obfs_param"@) == text_or_null(d.obfs_param),
        object_value(d.json(), "protocol"@) == text_or_null(d.protocol),
        object_value(d.json(), "protocol_param"@) == text_or_null(d.protocol_param),
        object_value(d.json(), "network"@) == text_or_null(d.network),
{
    lemma_keys_differ();
    let e = object_entries(d.json());
    lemma_object_value_lookup(e, "type"@);
    lemma_object_value_lookup(e, "tag"@);
    lemma_object_value_lookup(e, "server"@);
    lemma_object_value_lookup(e, "server_port"@);
    lemma_object_value_lookup(e, "method"@);
    lemma_object_value_lookup(e, "password"@);
    lemma_object_value_lookup(e, "obfs"@);
    lemma_object_value_lookup(e, "obfs_param"@);
    lemma_object_value_lookup(e, "protocol"@);
    lemma_object_value_lookup(e, "protocol_param"@);
    lemma_object_value_lookup(e, "network"@);
}

/// The JSON form of a `Trojan` holds each of its fields under the field's name (`kind`
/// under `type`); an optional field that is `None` reads as `null`.
pub proof fn lemma_trojan_fields(d: Trojan)
    ensures
        object_value(d.json(), "type"@) == JsonV::String(d.kind@),
        object_value(d.json(), "tag"@) == JsonV::String(d.tag@),
        object_value(d.json(), "server"@) == JsonV::String(d.server@),
        object_value(d.json(), "server_port"@) == JsonV::Number(NumberV::PosInt(d.server_port as u64)),
        object_value(d.json(), "password"@) == JsonV::String(d.password@),
        object_value(d.json(), "network"@) == text_or_null(d.network),
        object_value(d.json(), "tls"@) == (match d.tls { Some(t) => t.json(), None => JsonV::Null }),
{
    lemma_keys_differ();
    let e = object_entries(d.json());
    lemma_object_value_lookup(e, "type"@);
    lemma_object_value_lookup(e, "tag"@);
    lemma_object_value_lookup(e, "server"@);
    lemma_object_value_lookup(e, "server_port"@);
    lemma_object_value_lookup(e, "password"@);
    lemma_object_value_lookup(e, "network"@);
    lemma_object_value_lookup(e, "tls"@);
}

/// The JSON form of a `Hysteria` holds each of its fields under the field's name (`kind`
/// under `type`); an optional field that is `None` reads as `null`.
#[verifier::spinoff_prover]
#[verifier::rlimit(30)]
pub proof fn lemma_hysteria_fields(d: Hysteria)
    ensures
        object_value(d.json(), "type"@) == JsonV::String(d.kind@),
        object_value(d.json(), "tag"@) == JsonV::String(d.tag@),
        object_value(d.json(), "server"@) == JsonV::String(d.server@),
        object_value(d.json(), "server_port"@) == JsonV::Number(NumberV::PosInt(d.server_port as u64)),
        object_value(d.json(), "up"@) == text_or_null(d.up),
        object_value(d.json(), "up_mbps"@) == u32_or_null(d.up_mbps),
        object_value(d.json(), "down"@) == text_or_null(d.down),
        object_value(d.json(), "down_mbps"@) == u32_or_null(d.down_mbps),
        object_value(d.json(), "obfs"@) == text_or_null(d.obfs),
        object_value(d.json(), "auth"@) == text_or_null(d.auth),
        object_value(d.json(), "auth_str"@) == text_or_null(d.auth_str),
        object_value(d.json(), "recv_window_conn"@) == u32_or_null(d.recv_window_conn),
        object_value(d.json(), "recv_window"@) == u32_or_null(d.recv_window),
        object_value(d.json(), "disable_mtu_discovery"@) == bool_or_null(d.disable_mtu_discovery),
        object_value(d.json(), "tls"@) == (match d.tls { Some(t) => t.json(), None => JsonV::Null }),
{
    let e = object_entries(d.json());
    assert(object_value(d.json(), "type"@) == JsonV::String(d.kind@)) by {
        lemma_keys_differ();
        lemma_object_value_lookup(e, "type"@);
    }
    assert(object_value(d.json(), "tag"@) == JsonV::String(d.tag@)) by {
        lemma_keys_differ();
        lemma_object_value_lookup(e, "tag"@);
    }
    assert(object_value(d.json(), "server"@) == JsonV::String(d.server@)) by {
        lemma_keys_differ();
        lemma_object_value_lookup(e, "server"@);
    }
    assert(object_value(d.json(), "server_port"@) == JsonV::Number(NumberV::PosInt(d.server_port as u64))) by {
        lemma_keys_differ();
        lemma_object_value_lookup(e, "server_port"@);
    }
    assert(object_value(d.json(), "up"@) == text_or_null(d.up)) by {
        lemma_keys_differ();
        lemma_object_value_lookup(e, "up"@);
    }
    assert(object_value(d.json(), "up_mbps"@) == u32_or_null(d.up_mbps)) by {
        lemma_keys_differ();
        lemma_object_value_lookup(e, "up_mbps"@);
    }
    assert(object_value(d.json(), "down"@) == text_or_null(d.down)) by {
        lemma_keys_differ();
        lemma_object_value_lookup(e, "down"@);
    }
    assert(object_value(d.json(), "down_mbps"@) == u32_or_null(d.down_mbps)) by {
        lemma_keys_differ();
        lemma_object_value_lookup(e, "down_mbps"@);
    }
    assert(object_value(d.json(), "obfs"@) == text_or_null(d.obfs)) by {
        lemma_keys_differ();
        lemma_object_value_lookup(e, "obfs"@);
    }
    assert(object_value(d.json(), "auth"@) == text_or_null(d.auth)) by {
        lemma_keys_differ();
        lemma_object_value_lookup(e, "auth"@);
    }
    assert(object_value(d.json(), "auth_str"@) == text_or_null(d.auth_str)) by {
        lemma_keys_differ();
        lemma_object_value_lookup(e, "auth_str"@);
    }
    assert(object_value(d.json(), "recv_window_conn"@) == u32_or_null(d.recv_window_conn)) by {
        lemma_keys_differ();
        lemma_object_value_lookup(e, "recv_window_conn"@);
    }
    assert(object_value(d.json(), "recv_window"@) == u32_or_null(d.recv_window)) by {
        lemma_keys_differ();
        lemma_object_value_lookup(e, "recv_window"@);
    }
    assert(object_value(d.json(), "disable_mtu_discovery"@) == bool_or_null(d.disable_mtu_discovery)) by {
        lemma_keys_differ();
        lemma_object_value_lookup(e, "disable_mtu_discovery"@);
    }
    assert(object_value(d.json(), "tls"@) == (match d.tls { Some(t) => t.json(), None => JsonV::Null })) by {
        lemma_keys_differ();
        lemma_object_value_lookup(e, "tls"@);
    }
}

/// The JSON form of a `VMess` holds each of its fields under the field's name (`kind`
/// under `type`); an optional field that is `None` reads as `null`.
pub proof fn lemma_vmess_fields(d: VMess)
    ensures
        object_value(d.json(), "type"@) == JsonV::String(d.kind@),
        object_value(d.json(), "tag"@) == JsonV::String(d.tag@),
        object_value(d.json(), "server"@) == JsonV::String(d.server@),
        object_value(d.json(), "server_port"@) == JsonV::Number(NumberV::PosInt(d.server_port as u64)),
        object_value(d.json(), "uuid"@) == JsonV::String(d.uuid@),
        object_value(d.json(), "security"@) == text_or_null(d.security),
        object_value(d.json(), "alter_id"@) == u16_or_null(d.alter_id),
        object_value(d.json(), "global_padding"@) == bool_or_null(d.global_padding),
        object_value(d.json(), "authenticated_length"@) == bool_or_null(d.authenticated_length),
        object_value(d.json(), "network"@) == text_or_null(d.network),
        object_value(d.json(), "tls"@) == (match d.tls { Some(t) => t.json(), None => JsonV::Null }),
        object_value(d.json(), "transport"@) == (match d.transport { Some(t) => t.json(), None => JsonV::Null }),
{
    lemma_keys_differ();
    let e = object_entries(d.json());
    lemma_object_value_lookup(e, "type"@);
    lemma_object_value_lookup(e, "tag"@);
    lemma_object_value_lookup(e, "server"@);
    lemma_object_value_lookup(e, "server_port"@);
    lemma_object_value_lookup(e, "uuid"@);
    lemma_object_value_lookup(e, "security"@);
    lemma_object_value_lookup(e, "alter_id"@);
    lemma_object_value_lookup(e, "global_padding"@);
    lemma_object_value_lookup(e, "authenticated_length"@);
    lemma_object_value_lookup(e, "network"@);
    lemma_object_value_lookup(e, "tls"@);
    lemma_object_value_lookup(e, "transport"@);
}

/// The JSON form of a `Vless` holds each of its fields under the field's name (`kind`
/// under `type`); an optional field that is `None` reads as `null`.
pub proof fn lemma_vless_fields(d: Vless)
    ensures
        object_value(d.json(), "type"@) == JsonV::String(d.kind@),
        object_value(d.json(), "tag"@) == JsonV::String(d.tag@),
        object_value(d.json(), "server"@) == JsonV::String(d.server@),
        object_value(d.json(), "server_port"@) == JsonV::Number(NumberV::PosInt(d.server_port as u64)),
        object_value(d.json(), "uuid"@) == JsonV::String(d.uuid@),
        object_value(d.json(), "network"@) == text_or_null(d.network),
        object_value(d.json(), "tls"@) == (match d.tls { Some(t) => t.json(), None => JsonV::Null }),
        object_value(d.json(), "packet_encoding"@) == text_or_null(d.packet_encoding),
        object_value(d.json(), "transport"@) == (match d.transport { Some(t) => t.json(), None => JsonV::Null }),
{
    lemma_keys_differ();
    let e = object_entries(d.json());
    lemma_object_value_lookup(e, "type"@);
    lemma_object_value_lookup(e, "tag"@);
    lemma_object_value_lookup(e, "server"@);
    lemma_object_value_lookup(e, "server_port"@);
    lemma_object_value_lookup(e, "uuid"@);
    lemma_object_value_lookup(e, "network"@);
    lemma_object_value_lookup(e, "tls"@);
    lemma_object_value_lookup(e, "packet_encoding"@);
    lemma_object_value_lookup(e, "transport"@);
}

/// The JSON form of a `Tuic` holds each of its fields under the field's name (`kind`
/// under `type`); an optional field that is `None` reads as `null`.
pub proof fn lemma_tuic_fields(d: Tuic)
    ensures
        object_value(d.json(), "type"@) == JsonV::String(d.kind@),
        object_value(d.json(), "tag"@) == JsonV::String(d.tag@),
{
    lemma_keys_differ();
    let e = object_entries(d.json());
    lemma_object_value_lookup(e, "type"@);
    lemma_object_value_lookup(e, "tag"@);
}

/// The JSON form of a `Tls` holds each of its fields under the field's name (`kind`
/// under `type`); an optional field that is `None` reads as `null`.
pub proof fn lemma_tls_fields(d: Tls)
    ensures
        object_value(d.json(), "enabled"@) == JsonV::Bool(d.enabled),
        object_value(d.json(), "disable_sni"@) == JsonV::Bool(d.disable_sni),
        object_value(d.json(), "server_name"@) == text_or_null(d.server_name),
        object_value(d.json(), "insecure"@) == JsonV::Bool(d.insecure),
        object_value(d.json(), "alpn"@) == texts_or_null(d.alpn),
        object_value(d.json(), "utls"@) == d.utls.json(),
        object_value(d.json(), "certificate_path"@) == text_or_null(d.certificate_path),
        object_value(d.json(), "certificate"@) == text_or_null(d.certificate),
        object_value(d.json(), "reality"@) == (match d.reality { Some(t) => t.json(), None => JsonV::Null }),
{
    lemma_keys_differ();
    let e = object_entries(d.json());
    lemma_object_value_lookup(e, "enabled"@);
    lemma_object_value_lookup(e, "disable_sni"@);
    lemma_object_value_lookup(e, "server_name"@);
    lemma_object_value_lookup(e, "insecure"@);
    lemma_object_value_lookup(e, "alpn"@);
    lemma_object_value_lookup(e, "utls"@);
    lemma_object_value_lookup(e, "certificate_path"@);
    lemma_object_value_lookup(e, "certificate"@);
    lemma_object_value_lookup(e, "reality"@);
}

/// The JSON form of a `Utls` holds each of its fields under the field's name (`kind`
/// under `type`); an optional field that is `None` reads as `null`.
pub proof fn lemma_utls_fields(d: Utls)
    ensures
        object_value(d.json(), "enabled"@) == JsonV::Bool(d.enabled),
        object_value(d.json(), "fingerprint"@) == JsonV::String(d.fingerprint@),
{
    lemma_keys_differ();
    let e = object_entries(d.json());
    lemma_object_value_lookup(e, "enabled"@);
    lemma_object_value_lookup(e, "fingerprint"@);
}

/// The JSON form of a `Multiplex` holds each of its fields under the field's name (`kind`
/// under `type`); an optional field that is `None` reads as `null`.
pub proof fn lemma_multiplex_fields(d: Multiplex)
    ensures
        object_value(d.json(), "enable"@) == JsonV::Bool(d.enable),
        object_value(d.json(), "protocol"@) == JsonV::String(d.protocol@),
        object_value(d.json(), "max_connections"@) == JsonV::Number(NumberV::PosInt(d.max_connections as u64)),
        object_value(d.json(), "min_streams"@) == JsonV::Number(NumberV::PosInt(d.min_streams as u64)),
        object_value(d.json(), "max_streams"@) == JsonV::Number(NumberV::PosInt(d.max_streams as u64)),
{
    lemma_keys_differ();
    let e = object_entries(d.json());
    lemma_object_value_lookup(e, "enable"@);
    lemma_object_value_lookup(e, "protocol"@);
    lemma_object_value_lookup(e, "max_connections"@);
    lemma_object_value_lookup(e, "min_streams"@);
    lemma_object_value_lookup(e, "max_streams"@);
}

/// The JSON form of a `Transport` holds each of its fields under the field's name (`kind`
/// under `type`); an optional field that is `None` reads as `null`.
pub proof fn lemma_transport_fields(d: Transport)
    ensures
        object_value(d.json(), "type"@) == JsonV::String(d.kind@),
        object_value(d.json(), "host"@) == texts_or_null(d.host),
        object_value(d.json(), "path"@) == text_or_null(d.path),
        object_value(d.json(), "method"@) == text_or_null(d.method),
        object_value(d.json(), "header"@) == texts_or_null(d.header),
        object_value(d.json(), "max_early_data"@) == u32_or_null(d.max_early_data),
        object_value(d.json(), "early_data_header_name"@) == text_or_null(d.early_data_header_name),
        object_value(d.json(), "service_name"@) == text_or_null(d.service_name),
{
    lemma_keys_differ();
    let e = object_entries(d.json());
    lemma_object_value_lookup(e, "type"@);
    lemma_object_value_lookup(e, "host"@);
    lemma_object_value_lookup(e, "path"@);
    lemma_object_value_lookup(e, "method"@);
    lemma_object_value_lookup(e, "header"@);
    lemma_object_value_lookup(e, "max_early_data"@);
    lemma_object_value_lookup(e, "early_data_header_name"@);
    lemma_object_value_lookup(e, "service_name"@);
}

/// The JSON form of a `RealityOpts` holds each of its fields under the field's name (`kind`
/// under `type`); an optional field that is `None` reads as `null`.
pub proof fn lemma_realityopts_fields(d: RealityOpts)
    ensures
        object_value(d.json(), "enabled"@) == JsonV::Bool(d.enabled),
        object_value(d.json(), "public_key"@) == text_or_null(d.public_key),
        object_value(d.json(), "short_id"@) == text_or_null(d.short_id),
{
    lemma_keys_differ();
    let e = object_entries(d.json());
    lemma_object_value_lookup(e, "enabled"@);
    lemma_object_value_lookup(e, "public_key"@);
    lemma_object_value_lookup(e, "short_id"@);
}

/// A text that may be missing, as JSON: the string, or `null`.
pub open spec fn seq_or_null(o: Option<Seq<char>>) -> JsonV {
    match o {
        Some(s) => JsonV::String(s),
        None => JsonV::Null,
    }
}

/// The TLS block of a proxy is there exactly when the proxy has a `tls` entry. It is
/// enabled, sends SNI unless `sni` is the text `true`, names the server by `sni` or else
/// `servername`, does not skip verification, offers `h2` where the proxy has an `alpn`
/// text, takes the certificate file from `ca` and the certificate itself from `ca_str`,
/// fingerprints as chrome, and has no reality settings.
#[verifier::spinoff_prover]
#[verifier::rlimit(30)]
pub proof fn lemma_tls_block(p: YamlV)
    ensures
        tls_of(p) is Some <==> !(p.get("tls"@) is BadValue),
        tls_of(p) matches Some(t) ==> {
            &&& object_value(t, "enabled"@) == JsonV::Bool(true)
            &&& object_value(t, "disable_sni"@) == JsonV::Bool(
                p.get("sni"@).as_string() == Some("true"@),
            )
            &&& object_value(t, "server_name"@) == (match p.get("sni"@).as_string() {
                Some(s) => JsonV::String(s),
                None => seq_or_null(p.get("servername"@).as_string()),
            })
            &&& object_value(t, "insecure"@) == JsonV::Bool(false)
            &&& object_value(t, "alpn"@) == (if p.get("alpn"@).as_string() is Some {
                JsonV::Array(Seq::empty().push(JsonV::String("h2"@)))
            } else {
                JsonV::Null
            })
            &&& object_value(object_value(t, "utls"@), "enabled"@) == JsonV::Bool(true)
            &&& object_value(object_value(t, "utls"@), "fingerprint"@) == JsonV::String("chrome"@)
            &&& object_value(t, "certificate_path"@) == seq_or_null(p.get("ca"@).as_string())
            &&& object_value(t, "certificate"@) == seq_or_null(p.get("ca_str"@).as_string())
            &&& object_value(t, "reality"@) == JsonV::Null
        },
{
    if let Some(t) = tls_of(p) {
        let e = object_entries(t);
        let u = object_value(t, "utls"@);
        assert(object_value(t, "enabled"@) == JsonV::Bool(true)) by {
            lemma_keys_differ();
            lemma_object_value_lookup(e, "enabled"@);
        }
        assert(object_value(t, "disable_sni"@) == JsonV::Bool(
            p.get("sni"@).as_string() == Some("true"@),
        )) by {
            lemma_keys_differ();
            lemma_object_value_lookup(e, "disable_sni"@);
        }
        assert(object_value(t, "server_name"@) == (match p.get("sni"@).as_string() {
            Some(s) => JsonV::String(s),
            None => seq_or_null(p.get("servername"@).as_string()),
        })) by {
            lemma_keys_differ();
            lemma_object_value_lookup(e, "server_name"@);
        }
        assert(object_value(t, "insecure"@) == JsonV::Bool(false)) by {
            lemma_keys_differ();
            lemma_object_value_lookup(e, "insecure"@);
        }
        assert(object_value(t, "alpn"@) == (if p.get("alpn"@).as_string() is Some {
            JsonV::Array(Seq::empty().push(JsonV::String("h2"@)))
        } else {
            JsonV::Null
        })) by {
            lemma_keys_differ();
            lemma_object_value_lookup(e, "alpn"@);
            if p.get("alpn"@).as_string() is Some {
                let h = Seq::empty().push("h2"@);
                assert(h.map_values(|x: Seq<char>| JsonV::String(x)) =~= Seq::empty().push(
                    JsonV::String("h2"@),
                ));
            }
        }
        assert(u == JsonV::Object(
            Seq::empty().push(("enabled"@, JsonV::Bool(true))).push(
                ("fingerprint"@, JsonV::String("chrome"@)),
            ),
        )) by {
            lemma_keys_differ();
            lemma_object_value_lookup(e, "utls"@);
        }
        assert(object_value(u, "enabled"@) == JsonV::Bool(true)) by {
            lemma_keys_differ();
            lemma_object_value_lookup(object_entries(u), "enabled"@);
        }
        assert(object_value(u, "fingerprint"@) == JsonV::String("chrome"@)) by {
            lemma_keys_differ();
            lemma_object_value_lookup(object_entries(u), "fingerprint"@);
        }
        assert(object_value(t, "certificate_path"@) == seq_or_null(p.get("ca"@).as_string())) by {
            lemma_keys_differ();
            lemma_object_value_lookup(e, "certificate_path"@);
        }
        assert(object_value(t, "certificate"@) == seq_or_null(p.get("ca_str"@).as_string())) by {
            lemma_keys_differ();
            lemma_object_value_lookup(e, "certificate"@);
        }
        assert(object_value(t, "reality"@) == JsonV::Null) by {
            lemma_keys_differ();
            lemma_object_value_lookup(e, "reality"@);
        }
    }
}

/// The transport of a proxy follows its `network`: none without one; for `ws`, the
/// `path` and `early-data-header-name` of `ws-opts` and its `max-early-data` read as a
/// number; for `http`, the first `path` of `http-opts` and the `method` of `http-ops`;
/// for `grpc`, the `grpc-service-name` of `grpc-opts`.
#[verifier::spinoff_prover]
#[verifier::rlimit(30)]
pub proof fn lemma_transport_block(p: YamlV)
    ensures
        transport_of(p) is Some <==> p.get("network"@).as_string() is Some,
        p.get("network"@).as_string() == Some("ws"@) ==> ({
            let t = transport_of(p).unwrap();
            let o = p.get("ws-opts"@);
            &&& object_value(t, "type"@) == JsonV::String("ws"@)
            &&& object_value(t, "path"@) == seq_or_null(o.get("path"@).as_string())
            &&& object_value(t, "early_data_header_name"@) == seq_or_null(
                o.get("early-data-header-name"@).as_string(),
            )
            &&& object_value(t, "max_early_data"@) == (match o.get("max-early-data"@).as_string() {
                Some(s) => match parse_unsigned(s, 4294967295) {
                    Some(n) => JsonV::Number(NumberV::PosInt(n as u64)),
                    None => JsonV::Null,
                },
                None => JsonV::Null,
            })
            &&& object_value(t, "service_name"@) == JsonV::Null
            &&& object_value(t, "method"@) == JsonV::Null
        }),
        p.get("network"@).as_string() == Some("http"@) ==> ({
            let t = transport_of(p).unwrap();
            &&& object_value(t, "type"@) == JsonV::String("http"@)
            &&& object_value(t, "path"@) == seq_or_null(
                p.get("http-opts"@).get("path"@).at(0).as_string(),
            )
            &&& object_value(t, "method"@) == seq_or_null(
                p.get("http-ops"@).get("method"@).as_string(),
            )
            &&& object_value(t, "service_name"@) == JsonV::Null
        }),
        p.get("network"@).as_string() == Some("grpc"@) ==> ({
            let t = transport_of(p).unwrap();
            &&& object_value(t, "type"@) == JsonV::String("grpc"@)
            &&& object_value(t, "service_name"@) == seq_or_null(
                p.get("grpc-opts"@).get("grpc-service-name"@).as_string(),
            )
            &&& object_value(t, "path"@) == JsonV::Null
        }),
{
    reveal_strlit("ws");
    reveal_strlit("http");
    reveal_strlit("grpc");
    assert("ws"@.len() == 2 && "http"@.len() == 4 && "grpc"@.len() == 4);
    assert("http"@[0] == 'h' && "grpc"@[0] == 'g');
    if let Some(s) = p.get("ws-opts"@).get("max-early-data"@).as_string() {
        let d = unsigned_digits(s);
        if d.len() > 0 && all_digits(d) {
            lemma_decimal_value_nonneg(d);
        }
    }
    if let Some(t) = transport_of(p) {
        let e = object_entries(t);
        lemma_keys_differ();
        lemma_object_value_lookup(e, "type"@);
        lemma_object_value_lookup(e, "path"@);
        lemma_object_value_lookup(e, "method"@);
        lemma_object_value_lookup(e, "early_data_header_name"@);
        lemma_object_value_lookup(e, "max_early_data"@);
        lemma_object_value_lookup(e, "service_name"@);
    }
}

/// A proxy is named by its `name` text and typed by its `type` text, whatever they hold;
/// `unnamed` and `unknown` stand only where there is no such text.
pub proof fn lemma_name_and_type(p: YamlV)
    ensures
        p.get("name"@) matches YamlV::String(s) ==> name_of(p) == s,
        !(p.get("name"@) is String) ==> name_of(p) == "unnamed"@,
        p.get("type"@) matches YamlV::String(s) ==> type_of(p) == s,
        !(p.get("type"@) is String) ==> type_of(p) == "unknown"@,
{
}

/// The length of each clash type name and definition name, and the characters that
/// tell apart the names of one length.
proof fn lemma_names_differ()
    ensures
        "ss"@.len() == 2,
        "trojan"@.len() == 6,
        "trojan"@[0] == 't',
        "socks5"@.len() == 6,
        "socks5"@[0] == 's',
        "hysteria"@.len() == 8,
        "hysteria"@[0] == 'h',
        "vmess"@.len() == 5,
        "vmess"@[0] == 'v',
        "vmess"@[1] == 'm',
        "ssr"@.len() == 3,
        "vless"@.len() == 5,
        "vless"@[0] == 'v',
        "vless"@[1] == 'l',
        "http"@.len() == 4,
        "http"@[0] == 'h',
        "tuic"@.len() == 4,
        "tuic"@[0] == 't',
        "tuic"@[1] == 'u',
        ""@.len() == 0,
        "Shadowsocks"@.len() == 11,
        "Shadowsocksr"@.len() == 12,
        "Shadowsocksr"@[0] == 'S',
        "Socks"@.len() == 5,
        "Socks"@[0] == 'S',
        "Http"@.len() == 4,
        "Http"@[0] == 'H',
        "Trojan"@.len() == 6,
        "Trojan"@[0] == 'T',
        "Hysteria"@.len() == 8,
        "Hysteria"@[0] == 'H',
        "VMess"@.len() == 5,
        "VMess"@[0] == 'V',
        "VMess"@[1] == 'M',
        "Vless"@.len() == 5,
        "Vless"@[0] == 'V',
        "Vless"@[1] == 'l',
        "obfs"@.len() == 4,
        "obfs"@[0] == 'o',
        "v2ray-plugin"@.len() == 12,
        "v2ray-plugin"@[0] == 'v',
        "true"@.len() == 4,
        "true"@[0] == 't',
        "true"@[1] == 'r',
{
    reveal_strlit("ss");
    reveal_strlit("trojan");
    reveal_strlit("socks5");
    reveal_strlit("hysteria");
    reveal_strlit("vmess");
    reveal_strlit("ssr");
    reveal_strlit("vless");
    reveal_strlit("http");
    reveal_strlit("tuic");
    reveal_strlit("");
    reveal_strlit("Shadowsocks");
    reveal_strlit("Shadowsocksr");
    reveal_strlit("Socks");
    reveal_strlit("Http");
    reveal_strlit("Trojan");
    reveal_strlit("Hysteria");
    reveal_strlit("VMess");
    reveal_strlit("Vless");
    reveal_strlit("obfs");
    reveal_strlit("v2ray-plugin");
    reveal_strlit("true");
}

/// A Shadowsocks proxy becomes a shadowsocks outbound: its `cipher` as `method`, its `password`, its `plugin` (with `obfs` named `obfs-local`) and the `obfs=<mode>;obfs-host=<host>` text of its `plugin-opts` where it has a plugin, tcp only unless `udp` is true, and no udp over tcp; its `type`, `tag`, `server` and `server_port` are as
/// [`lemma_outbound_head`] says.
#[verifier::spinoff_prover]
#[verifier::rlimit(30)]
pub proof fn lemma_shadowsocks_outbound(p: YamlV)
    requires
        type_of(p) == "ss"@,
    ensures
        proxy_kind(p) == "Shadowsocks"@,
        object_value(outbound_json(p), "type"@) == JsonV::String("shadowsocks"@),
        object_value(outbound_json(p), "method"@) == JsonV::String(p.get("cipher"@).as_string().unwrap()),
        object_value(outbound_json(p), "password"@) == JsonV::String(p.get("password"@).as_string().unwrap()),
        object_value(outbound_json(p), "plugin"@) == (match p.get("plugin"@).as_string() {
            Some(s) => JsonV::String(if s == "obfs"@ { "obfs-local"@ } else { s }),
            None => JsonV::Null,
        }),
        object_value(outbound_json(p), "plugin_opts"@) == (match p.get("plugin"@).as_string() {
            Some(_) => JsonV::String(
                "obfs="@ + p.get("plugin-opts"@).get("mode"@).as_string().unwrap() + ";obfs-host="@
                    + p.get("plugin-opts"@).get("host"@).as_string().unwrap(),
            ),
            None => JsonV::Null,
        }),
        object_value(outbound_json(p), "network"@) == (match p.get("udp"@).as_bool() {
            Some(true) => JsonV::Null,
            _ => JsonV::String("tcp"@),
        }),
        object_value(outbound_json(p), "udp_over_tcp"@) == JsonV::Bool(false),
{
    lemma_names_differ();
    assert(proxy_kind(p) == "Shadowsocks"@);
    let e = object_entries(outbound_json(p));
    assert(object_value(outbound_json(p), "type"@) == JsonV::String("shadowsocks"@)) by {
        lemma_keys_differ();
        lemma_object_value_lookup(e, "type"@);
    }
    assert(object_value(outbound_json(p), "method"@) == JsonV::String(p.get("cipher"@).as_string().unwrap())) by {
        lemma_keys_differ();
        lemma_object_value_lookup(e, "method"@);
    }
    assert(object_value(outbound_json(p), "password"@) == JsonV::String(p.get("password"@).as_string().unwrap())) by {
        lemma_keys_differ();
        lemma_object_value_lookup(e, "password"@);
    }
    assert(object_value(outbound_json(p), "plugin"@) == (match p.get("plugin"@).as_string() {
            Some(s) => JsonV::String(if s == "obfs"@ { "obfs-local"@ } else { s }),
            None => JsonV::Null,
        })) by {
        lemma_keys_differ();
        lemma_object_value_lookup(e, "plugin"@);
    }
    assert(object_value(outbound_json(p), "plugin_opts"@) == (match p.get("plugin"@).as_string() {
            Some(_) => JsonV::String(
                "obfs="@ + p.get("plugin-opts"@).get("mode"@).as_string().unwrap() + ";obfs-host="@
                    + p.get("plugin-opts"@).get("host"@).as_string().unwrap(),
            ),
            None => JsonV::Null,
        })) by {
        lemma_keys_differ();
        lemma_object_value_lookup(e, "plugin_opts"@);
    }
    assert(object_value(outbound_json(p), "network"@) == (match p.get("udp"@).as_bool() {
            Some(true) => JsonV::Null,
            _ => JsonV::String("tcp"@),
        })) by {
        lemma_keys_differ();
        lemma_object_value_lookup(e, "network"@);
    }
    assert(object_value(outbound_json(p), "udp_over_tcp"@) == JsonV::Bool(false)) by {
        lemma_keys_differ();
        lemma_object_value_lookup(e, "udp_over_tcp"@);
    }
}

/// A ShadowsocksR proxy becomes a shadowsocksr outbound: its `cipher` as `method`, its `password`, `obfs`, `obfs-param`, `protocol` and `protocol-param`, tcp only unless `udp` is true; its `type`, `tag`, `server` and `server_port` are as
/// [`lemma_outbound_head`] says.
#[verifier::spinoff_prover]
#[verifier::rlimit(30)]
pub proof fn lemma_shadowsocksr_outbound(p: YamlV)
    requires
        type_of(p) == "ssr"@,
    ensures
        proxy_kind(p) == "Shadowsocksr"@,
        object_value(outbound_json(p), "type"@) == JsonV::String("shadowsocksr"@),
        object_value(outbound_json(p), "method"@) == JsonV::String(p.get("cipher"@).as_string().unwrap()),
        object_value(outbound_json(p), "password"@) == JsonV::String(p.get("password"@).as_string().unwrap()),
        object_value(outbound_json(p), "obfs"@) == seq_or_null(p.get("obfs"@).as_string()),
        object_value(outbound_json(p), "obfs_param"@) == seq_or_null(p.get("obfs-param"@).as_string()),
        object_value(outbound_json(p), "protocol"@) == seq_or_null(p.get("protocol"@).as_string()),
        object_value(outbound_json(p), "protocol_param"@) == seq_or_null(p.get("protocol-param"@).as_string()),
        object_value(outbound_json(p), "network"@) == (match p.get("udp"@).as_bool() {
            Some(true) => JsonV::Null,
            _ => JsonV::String("tcp"@),
        }),
{
    lemma_names_differ();
    assert(proxy_kind(p) == "Shadowsocksr"@);
    let e = object_entries(outbound_json(p));
    assert(object_value(outbound_json(p), "type"@) == JsonV::String("shadowsocksr"@)) by {
        lemma_keys_differ();
        lemma_object_value_lookup(e, "type"@);
    }
    assert(object_value(outbound_json(p), "method"@) == JsonV::String(p.get("cipher"@).as_string().unwrap())) by {
        lemma_keys_differ();
        lemma_object_value_lookup(e, "method"@);
    }
    assert(object_value(outbound_json(p), "password"@) == JsonV::String(p.get("password"@).as_string().unwrap())) by {
        lemma_keys_differ();
        lemma_object_value_lookup(e, "password"@);
    }
    assert(object_value(outbound_json(p), "obfs"@) == seq_or_null(p.get("obfs"@).as_string())) by {
        lemma_keys_differ();
        lemma_object_value_lookup(e, "obfs"@);
    }
    assert(object_value(outbound_json(p), "obfs_param"@) == seq_or_null(p.get("obfs-param"@).as_string())) by {
        lemma_keys_differ();
        lemma_object_value_lookup(e, "obfs_param"@);
    }
    assert(object_value(outbound_json(p), "protocol"@) == seq_or_null(p.get("protocol"@).as_string())) by {
        lemma_keys_differ();
        lemma_object_value_lookup(e, "protocol"@);
    }
    assert(object_value(outbound_json(p), "protocol_param"@) == seq_or_null(p.get("protocol-param"@).as_string())) by {
        lemma_keys_differ();
        lemma_object_value_lookup(e, "protocol_param"@);
    }
    assert(object_value(outbound_json(p), "network"@) == (match p.get("udp"@).as_bool() {
            Some(true) => JsonV::Null,
            _ => JsonV::String("tcp"@),
        })) by {
        lemma_keys_differ();
        lemma_object_value_lookup(e, "network"@);
    }
}

/// A socks5 proxy becomes a socks outbound of version 5: its `username` as user name and (as the conversion reads it) as password too, tcp only unless `udp` is true, and no udp over tcp; its `type`, `tag`, `server` and `server_port` are as
/// [`lemma_outbound_head`] says.
#[verifier::spinoff_prover]
#[verifier::rlimit(30)]
pub proof fn lemma_socks_outbound(p: YamlV)
    requires
        type_of(p) == "socks5"@,
    ensures
        proxy_kind(p) == "Socks"@,
        object_value(outbound_json(p), "type"@) == JsonV::String("socks"@),
        object_value(outbound_json(p), "version"@) == JsonV::Number(NumberV::PosInt(5)),
        object_value(outbound_json(p), "username"@) == (match p.get("username"@).as_string() {
            Some(s) => JsonV::String(if s == "obfs"@ { "obfs-local"@ } else { s }),
            None => JsonV::Null,
        }),
        object_value(outbound_json(p), "password"@) == (match p.get("username"@).as_string() {
            Some(s) => JsonV::String(if s == "obfs"@ { "obfs-local"@ } else { s }),
            None => JsonV::Null,
        }),
        object_value(outbound_json(p), "network"@) == (match p.get("udp"@).as_bool() {
            Some(true) => JsonV::Null,
            _ => JsonV::String("tcp"@),
        }),
        object_value(outbound_json(p), "udp_over_tcp"@) == JsonV::Bool(false),
{
    lemma_names_differ();
    assert(proxy_kind(p) == "Socks"@);
    let e = object_entries(outbound_json(p));
    assert(object_value(outbound_json(p), "type"@) == JsonV::String("socks"@)) by {
        lemma_keys_differ();
        lemma_object_value_lookup(e, "type"@);
    }
    assert(object_value(outbound_json(p), "version"@) == JsonV::Number(NumberV::PosInt(5))) by {
        lemma_keys_differ();
        lemma_object_value_lookup(e, "version"@);
    }
    assert(object_value(outbound_json(p), "username"@) == (match p.get("username"@).as_string() {
            Some(s) => JsonV::String(if s == "obfs"@ { "obfs-local"@ } else { s }),
            None => JsonV::Null,
        })) by {
        lemma_keys_differ();
        lemma_object_value_lookup(e, "username"@);
    }
    assert(object_value(outbound_json(p), "password"@) == (match p.get("username"@).as_string() {
            Some(s) => JsonV::String(if s == "obfs"@ { "obfs-local"@ } else { s }),
            None => JsonV::Null,
        })) by {
        lemma_keys_differ();
        lemma_object_value_lookup(e, "password"@);
    }
    assert(object_value(outbound_json(p), "network"@) == (match p.get("udp"@).as_bool() {
            Some(true) => JsonV::Null,
            _ => JsonV::String("tcp"@),
        })) by {
        lemma_keys_differ();
        lemma_object_value_lookup(e, "network"@);
    }
    assert(object_value(outbound_json(p), "udp_over_tcp"@) == JsonV::Bool(false)) by {
        lemma_keys_differ();
        lemma_object_value_lookup(e, "udp_over_tcp"@);
    }
}

/// A http proxy becomes an http outbound: its `username`, its `password`, and its TLS block; its `type`, `tag`, `server` and `server_port` are as
/// [`lemma_outbound_head`] says.
#[verifier::spinoff_prover]
#[verifier::rlimit(30)]
pub proof fn lemma_http_outbound(p: YamlV)
    requires
        type_of(p) == "http"@,
    ensures
        proxy_kind(p) == "Http"@,
        object_value(outbound_json(p), "type"@) == JsonV::String("http"@),
        object_value(outbound_json(p), "username"@) == (match p.get("username"@).as_string() {
            Some(s) => JsonV::String(if s == "obfs"@ { "obfs-local"@ } else { s }),
            None => JsonV::Null,
        }),
        object_value(outbound_json(p), "password"@) == (match p.get("password"@).as_string() {
            Some(s) => JsonV::String(if s == "obfs"@ { "obfs-local"@ } else { s }),
            None => JsonV::Null,
        }),
        object_value(outbound_json(p), "tls"@) == (match tls_of(p) {
            Some(t) => t,
            None => JsonV::Null,
        }),
{
    lemma_names_differ();
    assert(proxy_kind(p) == "Http"@);
    let e = object_entries(outbound_json(p));
    assert(object_value(outbound_json(p), "type"@) == JsonV::String("http"@)) by {
        lemma_keys_differ();
        lemma_object_value_lookup(e, "type"@);
    }
    assert(object_value(outbound_json(p), "username"@) == (match p.get("username"@).as_string() {
            Some(s) => JsonV::String(if s == "obfs"@ { "obfs-local"@ } else { s }),
            None => JsonV::Null,
        })) by {
        lemma_keys_differ();
        lemma_object_value_lookup(e, "username"@);
    }
    assert(object_value(outbound_json(p), "password"@) == (match p.get("password"@).as_string() {
            Some(s) => JsonV::String(if s == "obfs"@ { "obfs-local"@ } else { s }),
            None => JsonV::Null,
        })) by {
        lemma_keys_differ();
        lemma_object_value_lookup(e, "password"@);
    }
    assert(object_value(outbound_json(p), "tls"@) == (match tls_of(p) {
            Some(t) => t,
            None => JsonV::Null,
        })) by {
        lemma_keys_differ();
        lemma_object_value_lookup(e, "tls"@);
    }
}

/// A Trojan proxy becomes a trojan outbound: its `password`, tcp only unless `udp` is true, and its TLS block; its `type`, `tag`, `server` and `server_port` are as
/// [`lemma_outbound_head`] says.
#[verifier::spinoff_prover]
#[verifier::rlimit(30)]
pub proof fn lemma_trojan_outbound(p: YamlV)
    requires
        type_of(p) == "trojan"@,
    ensures
        proxy_kind(p) == "Trojan"@,
        object_value(outbound_json(p), "type"@) == JsonV::String("trojan"@),
        object_value(outbound_json(p), "password"@) == JsonV::String(p.get("password"@).as_string().unwrap()),
        object_value(outbound_json(p), "network"@) == (match p.get("udp"@).as_bool() {
            Some(true) => JsonV::Null,
            _ => JsonV::String("tcp"@),
        }),
        object_value(outbound_json(p), "tls"@) == (match tls_of(p) {
            Some(t) => t,
            None => JsonV::Null,
        }),
{
    lemma_names_differ();
    assert(proxy_kind(p) == "Trojan"@);
    let e = object_entries(outbound_json(p));
    assert(object_value(outbound_json(p), "type"@) == JsonV::String("trojan"@)) by {
        lemma_keys_differ();
        lemma_object_value_lookup(e, "type"@);
    }
    assert(object_value(outbound_json(p), "password"@) == JsonV::String(p.get("password"@).as_string().unwrap())) by {
        lemma_keys_differ();
        lemma_object_value_lookup(e, "password"@);
    }
    assert(object_value(outbound_json(p), "network"@) == (match p.get("udp"@).as_bool() {
            Some(true) => JsonV::Null,
            _ => JsonV::String("tcp"@),
        })) by {
        lemma_keys_differ();
        lemma_object_value_lookup(e, "network"@);
    }
    assert(object_value(outbound_json(p), "tls"@) == (match tls_of(p) {
            Some(t) => t,
            None => JsonV::Null,
        })) by {
        lemma_keys_differ();
        lemma_object_value_lookup(e, "tls"@);
    }
}

/// A Hysteria proxy becomes a hysteria outbound: its `up`, `down`, `obfs` and `auth_str` texts, its receive windows read as numbers, path MTU discovery disabled where `sni` is the text `true`, and its TLS block; its `type`, `tag`, `server` and `server_port` are as
/// [`lemma_outbound_head`] says.
#[verifier::spinoff_prover]
#[verifier::rlimit(30)]
pub proof fn lemma_hysteria_outbound(p: YamlV)
    requires
        type_of(p) == "hysteria"@,
    ensures
        proxy_kind(p) == "Hysteria"@,
        object_value(outbound_json(p), "type"@) == JsonV::String("hysteria"@),
        object_value(outbound_json(p), "up"@) == seq_or_null(p.get("up"@).as_string()),
        object_value(outbound_json(p), "up_mbps"@) == JsonV::Null,
        object_value(outbound_json(p), "down"@) == seq_or_null(p.get("down"@).as_string()),
        object_value(outbound_json(p), "down_mbps"@) == JsonV::Null,
        object_value(outbound_json(p), "obfs"@) == seq_or_null(p.get("obfs"@).as_string()),
        object_value(outbound_json(p), "auth"@) == JsonV::Null,
        object_value(outbound_json(p), "auth_str"@) == seq_or_null(p.get("auth_str"@).as_string()),
        object_value(outbound_json(p), "recv_window_conn"@) == (if p.get("recv_window_conn"@) is BadValue {
            JsonV::Null
        } else {
            JsonV::Number(NumberV::PosInt((int_field(p, "recv_window_conn"@).unwrap() as u32) as u64))
        }),
        object_value(outbound_json(p), "recv_window"@) == (if p.get("recv_window"@) is BadValue {
            JsonV::Null
        } else {
            JsonV::Number(NumberV::PosInt((int_field(p, "recv_window"@).unwrap() as u32) as u64))
        }),
        object_value(outbound_json(p), "disable_mtu_discovery"@) == (if p.get("sni"@).as_string() == Some("true"@) {
            JsonV::Bool(true)
        } else {
            JsonV::Null
        }),
        object_value(outbound_json(p), "tls"@) == (match tls_of(p) {
            Some(t) => t,
            None => JsonV::Null,
        }),
{
    lemma_names_differ();
    assert(proxy_kind(p) == "Hysteria"@);
    let e = object_entries(outbound_json(p));
    assert(object_value(outbound_json(p), "type"@) == JsonV::String("hysteria"@)) by {
        lemma_keys_differ();
        lemma_object_value_lookup(e, "type"@);
    }
    assert(object_value(outbound_json(p), "up"@) == seq_or_null(p.get("up"@).as_string())) by {
        lemma_keys_differ();
        lemma_object_value_lookup(e, "up"@);
    }
    assert(object_value(outbound_json(p), "up_mbps"@) == JsonV::Null) by {
        lemma_keys_differ();
        lemma_object_value_lookup(e, "up_mbps"@);
    }
    assert(object_value(outbound_json(p), "down"@) == seq_or_null(p.get("down"@).as_string())) by {
        lemma_keys_differ();
        lemma_object_value_lookup(e, "down"@);
    }
    assert(object_value(outbound_json(p), "down_mbps"@) == JsonV::Null) by {
        lemma_keys_differ();
        lemma_object_value_lookup(e, "down_mbps"@);
    }
    assert(object_value(outbound_json(p), "obfs"@) == seq_or_null(p.get("obfs"@).as_string())) by {
        lemma_keys_differ();
        lemma_object_value_lookup(e, "obfs"@);
    }
    assert(object_value(outbound_json(p), "auth"@) == JsonV::Null) by {
        lemma_keys_differ();
        lemma_object_value_lookup(e, "auth"@);
    }
    assert(object_value(outbound_json(p), "auth_str"@) == seq_or_null(p.get("auth_str"@).as_string())) by {
        lemma_keys_differ();
        lemma_object_value_lookup(e, "auth_str"@);
    }
    assert(object_value(outbound_json(p), "recv_window_conn"@) == (if p.get("recv_window_conn"@) is BadValue {
            JsonV::Null
        } else {
            JsonV::Number(NumberV::PosInt((int_field(p, "recv_window_conn"@).unwrap() as u32) as u64))
        })) by {
        lemma_keys_differ();
        lemma_object_value_lookup(e, "recv_window_conn"@);
    }
    assert(object_value(outbound_json(p), "recv_window"@) == (if p.get("recv_window"@) is BadValue {
            JsonV::Null
        } else {
            JsonV::Number(NumberV::PosInt((int_field(p, "recv_window"@).unwrap() as u32) as u64))
        })) by {
        lemma_keys_differ();
        lemma_object_value_lookup(e, "recv_window"@);
    }
    assert(object_value(outbound_json(p), "disable_mtu_discovery"@) == (if p.get("sni"@).as_string() == Some("true"@) {
            JsonV::Bool(true)
        } else {
            JsonV::Null
        })) by {
        lemma_keys_differ();
        lemma_object_value_lookup(e, "disable_mtu_discovery"@);
    }
    assert(object_value(outbound_json(p), "tls"@) == (match tls_of(p) {
            Some(t) => t,
            None => JsonV::Null,
        })) by {
        lemma_keys_differ();
        lemma_object_value_lookup(e, "tls"@);
    }
}

/// A VMess proxy becomes a vmess outbound: its `uuid`, security `auto`, its `alertId` read as a number (0 where it has none), tcp only unless `udp` is true, its TLS block and its transport; its `type`, `tag`, `server` and `server_port` are as
/// [`lemma_outbound_head`] says.
#[verifier::spinoff_prover]
#[verifier::rlimit(30)]
pub proof fn lemma_vmess_outbound(p: YamlV)
    requires
        type_of(p) == "vmess"@,
    ensures
        proxy_kind(p) == "VMess"@,
        object_value(outbound_json(p), "type"@) == JsonV::String("vmess"@),
        object_value(outbound_json(p), "uuid"@) == JsonV::String(p.get("uuid"@).as_string().unwrap()),
        object_value(outbound_json(p), "security"@) == JsonV::String("auto"@),
        object_value(outbound_json(p), "alter_id"@) == (if p.get("alertId"@).as_string() is Some {
            u16_or_null(int_field(p, "alertId"@))
        } else {
            JsonV::Number(NumberV::PosInt(0))
        }),
        object_value(outbound_json(p), "global_padding"@) == JsonV::Null,
        object_value(outbound_json(p), "authenticated_length"@) == JsonV::Null,
        object_value(outbound_json(p), "network"@) == (match p.get("udp"@).as_bool() {
            Some(true) => JsonV::Null,
            _ => JsonV::String("tcp"@),
        }),
        object_value(outbound_json(p), "tls"@) == (match tls_of(p) {
            Some(t) => t,
            None => JsonV::Null,
        }),
        object_value(outbound_json(p), "transport"@) == (match transport_of(p) {
            Some(t) => t,
            None => JsonV::Null,
        }),
{
    lemma_names_differ();
    assert(proxy_kind(p) == "VMess"@);
    let e = object_entries(outbound_json(p));
    assert(object_value(outbound_json(p), "type"@) == JsonV::String("vmess"@)) by {
        lemma_keys_differ();
        lemma_object_value_lookup(e, "type"@);
    }
    assert(object_value(outbound_json(p), "uuid"@) == JsonV::String(p.get("uuid"@).as_string().unwrap())) by {
        lemma_keys_differ();
        lemma_object_value_lookup(e, "uuid"@);
    }
    assert(object_value(outbound_json(p), "security"@) == JsonV::String("auto"@)) by {
        lemma_keys_differ();
        lemma_object_value_lookup(e, "security"@);
    }
    assert(object_value(outbound_json(p), "alter_id"@) == (if p.get("alertId"@).as_string() is Some {
            u16_or_null(int_field(p, "alertId"@))
        } else {
            JsonV::Number(NumberV::PosInt(0))
        })) by {
        lemma_keys_differ();
        lemma_object_value_lookup(e, "alter_id"@);
    }
    assert(object_value(outbound_json(p), "global_padding"@) == JsonV::Null) by {
        lemma_keys_differ();
        lemma_object_value_lookup(e, "global_padding"@);
    }
    assert(object_value(outbound_json(p), "authenticated_length"@) == JsonV::Null) by {
        lemma_keys_differ();
        lemma_object_value_lookup(e, "authenticated_length"@);
    }
    assert(object_value(outbound_json(p), "network"@) == (match p.get("udp"@).as_bool() {
            Some(true) => JsonV::Null,
            _ => JsonV::String("tcp"@),
        })) by {
        lemma_keys_differ();
        lemma_object_value_lookup(e, "network"@);
    }
    assert(object_value(outbound_json(p), "tls"@) == (match tls_of(p) {
            Some(t) => t,
            None => JsonV::Null,
        })) by {
        lemma_keys_differ();
        lemma_object_value_lookup(e, "tls"@);
    }
    assert(object_value(outbound_json(p), "transport"@) == (match transport_of(p) {
            Some(t) => t,
            None => JsonV::Null,
        })) by {
        lemma_keys_differ();
        lemma_object_value_lookup(e, "transport"@);
    }
}

/// A VLESS proxy becomes a vless outbound: its `uuid`, tcp only unless `udp` is true, its TLS block and its transport; its `type`, `tag`, `server` and `server_port` are as
/// [`lemma_outbound_head`] says.
#[verifier::spinoff_prover]
#[verifier::rlimit(30)]
pub proof fn lemma_vless_outbound(p: YamlV)
    requires
        type_of(p) == "vless"@,
    ensures
        proxy_kind(p) == "Vless"@,
        object_value(outbound_json(p), "type"@) == JsonV::String("vless"@),
        object_value(outbound_json(p), "uuid"@) == JsonV::String(p.get("uuid"@).as_string().unwrap()),
        object_value(outbound_json(p), "network"@) == (match p.get("udp"@).as_bool() {
            Some(true) => JsonV::Null,
            _ => JsonV::String("tcp"@),
        }),
        object_value(outbound_json(p), "tls"@) == (match tls_of(p) {
            Some(t) => t,
            None => JsonV::Null,
        }),
        object_value(outbound_json(p), "packet_encoding"@) == JsonV::Null,
        object_value(outbound_json(p), "transport"@) == (match transport_of(p) {
            Some(t) => t,
            None => JsonV::Null,
        }),
{
    lemma_names_differ();
    assert(proxy_kind(p) == "Vless"@);
    let e = object_entries(outbound_json(p));
    assert(object_value(outbound_json(p), "type"@) == JsonV::String("vless"@)) by {
        lemma_keys_differ();
        lemma_object_value_lookup(e, "type"@);
    }
    assert(object_value(outbound_json(p), "uuid"@) == JsonV::String(p.get("uuid"@).as_string().unwrap())) by {
        lemma_keys_differ();
        lemma_object_value_lookup(e, "uuid"@);
    }
    assert(object_value(outbound_json(p), "network"@) == (match p.get("udp"@).as_bool() {
            Some(true) => JsonV::Null,
            _ => JsonV::String("tcp"@),
        })) by {
        lemma_keys_differ();
        lemma_object_value_lookup(e, "network"@);
    }
    assert(object_value(outbound_json(p), "tls"@) == (match tls_of(p) {
            Some(t) => t,
            None => JsonV::Null,
        })) by {
        lemma_keys_differ();
        lemma_object_value_lookup(e, "tls"@);
    }
    assert(object_value(outbound_json(p), "packet_encoding"@) == JsonV::Null) by {
        lemma_keys_differ();
        lemma_object_value_lookup(e, "packet_encoding"@);
    }
    assert(object_value(outbound_json(p), "transport"@) == (match transport_of(p) {
            Some(t) => t,
            None => JsonV::Null,
        })) by {
        lemma_keys_differ();
        lemma_object_value_lookup(e, "transport"@);
    }
}

/// `type_converter` names, for every clash type but `http`, the very definition that
/// the conversion produces for a proxy of that type (`http` it leaves unnamed, though
/// such a proxy is converted to `Http`).
pub proof fn lemma_type_names_definition(t: Seq<char>)
    ensures
        t != "http"@ ==> kind_tag(t) == def_kind(t),
        t == "http"@ ==> kind_tag(t) == ""@ && def_kind(t) == "Http"@,
{
    lemma_names_differ();
}

} // verus!
