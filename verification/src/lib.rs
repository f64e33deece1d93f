//! Converts the proxies of a clash configuration into sing-box outbounds, and merges
//! them into a sing-box profile.
use vstd::prelude::*;

pub mod clash_cfg;
pub mod fields;
pub mod helper;
pub mod json;
pub mod paradigm;
pub mod sb_def;
pub mod text;
pub mod utils;
pub mod yaml;

use crate::json::{json_parsed, load_json, JsonV, JsonValue};
use crate::yaml::{YamlNode, YamlV};

verus! {

/// A clash configuration: the first YAML document of its text.
pub struct ClashCfg(pub YamlNode);

/// A sing-box profile.
pub struct SingboxCfg(pub JsonValue);

/// One entry of the `proxies` list of a clash configuration.
pub struct PerClashProxy(pub YamlNode);

/// Why a configuration could not be read or a result could not be written.
#[derive(Debug, PartialEq)]
pub enum CtosError {
    /// The text is no YAML; the scanner's message.
    Yaml(String),
    /// The text holds no YAML document.
    NoDocument,
    /// serde_json refused a text as JSON; its message.
    Json(String),
}

impl View for ClashCfg {
    type V = YamlV;

    open spec fn view(&self) -> YamlV {
        self.0@
    }
}

impl View for SingboxCfg {
    type V = JsonV;

    open spec fn view(&self) -> JsonV {
        self.0@
    }
}

impl SingboxCfg {
    /// The sing-box profile written in `text`, or the JSON parser's message.
    pub fn from_text(text: &str) -> (r: Result<SingboxCfg, CtosError>)
        ensures
            match json_parsed(text@) {
                Ok(v) => r matches Ok(c) && c@ == v,
                Err(m) => r matches Err(CtosError::Json(e)) && e@ == m,
            },
    {
        match load_json(text) {
            Ok(v) => Ok(SingboxCfg(v)),
            Err(m) => Err(CtosError::Json(m)),
        }
    }
}

impl ClashCfg {
    pub fn new(doc: YamlNode) -> (r: ClashCfg)
        ensures
            r@ == doc@,
    {
        ClashCfg(doc)
    }
}

impl PerClashProxy {
    pub fn from(entry: YamlNode) -> (r: PerClashProxy)
        ensures
            r@ == entry@,
    {
        PerClashProxy(entry)
    }
}

} // verus!
