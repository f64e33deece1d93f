# ctos

Converts the proxies of a clash configuration (YAML) into sing-box outbounds and
merges them into a sing-box profile (JSON). The library is verified with Verus.

Layout:

- `src/yaml.rs`: the YAML values the library reads, and the call into `yaml-rust`
  that parses a text into documents.
- `src/json.rs`: JSON values, the recursive merge of one value into another and its
  laws, and the calls into `serde_json` that read a profile text and write a value as text.
- `src/text.rs`: string helpers and decimal parsing.
- `src/sb_def.rs`: the sing-box outbound definitions and the JSON layout of each.
- `src/helper.rs`: reading the fields of one clash proxy; `NodeInfo`, the converted
  proxies with their tags, and merging them into a profile.
- `src/utils.rs`: converting one clash proxy into its sing-box definition.
- `src/paradigm.rs`: the text of the minimal sing-box profile, which `merge_min` reads.
- `src/clash_cfg.rs`: reading a configuration and converting all of its proxies.
- `app/main.rs`: the command line program (fetching a subscription, files, printing).
- `tests/`: tests of the library on concrete values.
