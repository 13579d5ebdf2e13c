//! The workspace's `opencode.json(c)`: which file is used, and how a preset
//! updates it (required plugins, the Chrome DevTools MCP server).

use vstd::prelude::*;
use crate::json::{
    JsonTree, JsonNode, JsonMap, json_tree, json_map, json5_document, pretty_json_text, trees,
    node_of, value_of, map_new, map_get, map_contains_key, map_insert, parse_json5, render_pretty,
};
use crate::plugins::{merged_plugins, merge_plugins, lemma_merge_keeps_existing};
use crate::text::{texts, strs, same_text, owned};

verus! {

/// The configuration file of a workspace.
#[derive(PartialEq, Eq, Structural, Debug, Clone, Copy)]
pub enum ConfigFile {
    /// `opencode.jsonc`
    Jsonc,
    /// `opencode.json`
    Json,
}

/// Picks the configuration file: `opencode.jsonc` if it exists, else
/// `opencode.json` if that exists, else `opencode.jsonc` (to be created).
pub fn choose_config_file(jsonc_exists: bool, json_exists: bool) -> (r: ConfigFile)
    ensures
        r == (if !jsonc_exists && json_exists { ConfigFile::Json } else { ConfigFile::Jsonc }),
{
    if jsonc_exists {
        ConfigFile::Jsonc
    } else if json_exists {
        ConfigFile::Json
    } else {
        ConfigFile::Jsonc
    }
}

/// The plugins that a preset requires.
pub open spec fn required_plugins_for(preset: Seq<char>) -> Seq<Seq<char>> {
    if preset == "starter"@ || preset == "automation"@ {
        seq!["opencode-scheduler"@]
    } else {
        seq![]
    }
}

/// Whether a preset configures the Chrome DevTools MCP server.
pub open spec fn seeds_chrome_mcp(preset: Seq<char>) -> bool {
    preset == "starter"@
}

/// The plugins that a preset requires, in order.
pub fn required_plugins(preset: &str) -> (r: Vec<&'static str>)
    ensures
        strs(r@) == required_plugins_for(preset@),
{
    if same_text(preset, "starter") || same_text(preset, "automation") {
        let r = vec!["opencode-scheduler"];
        assert(strs(r@) =~= seq!["opencode-scheduler"@]);
        r
    } else {
        let r: Vec<&'static str> = Vec::new();
        assert(strs(r@) =~= Seq::<Seq<char>>::empty());
        r
    }
}

/// Whether a preset configures the Chrome DevTools MCP server.
pub fn should_seed_chrome_mcp(preset: &str) -> (r: bool)
    ensures
        r == seeds_chrome_mcp(preset@),
{
    same_text(preset, "starter")
}

/// The object a new configuration starts from.
pub open spec fn schema_config() -> Map<Seq<char>, JsonTree> {
    Map::empty().insert("$schema"@, JsonTree::Str("https://opencode.ai/config.json"@))
}

/// The Chrome DevTools MCP server entry.
pub open spec fn chrome_mcp_server() -> JsonTree {
    JsonTree::Object(
        Map::empty().insert("type"@, JsonTree::Str("local"@)).insert(
            "command"@,
            JsonTree::Array(
                seq![
                    JsonTree::Str("npx"@),
                    JsonTree::Str("-y"@),
                    JsonTree::Str("chrome-devtools-mcp@latest"@),
                ],
            ),
        ),
    )
}

/// The value of key `k` in an object, if it has one.
pub open spec fn field(obj: Map<Seq<char>, JsonTree>, k: Seq<char>) -> Option<JsonTree> {
    if obj.contains_key(k) {
        Some(obj[k])
    } else {
        None
    }
}

/// The strings among the items of an array, in order.
pub open spec fn string_items(items: Seq<JsonTree>) -> Seq<Seq<char>>
    decreases items.len(),
{
    if items.len() == 0 {
        seq![]
    } else {
        let prev = string_items(items.drop_last());
        match items.last() {
            JsonTree::Str(s) => prev.push(s),
            _ => prev,
        }
    }
}

/// The plugins that a `plugin` field lists: the strings of an array, or a
/// single string; nothing for any other value or a missing field.
pub open spec fn listed_plugins(plugin_field: Option<JsonTree>) -> Seq<Seq<char>> {
    match plugin_field {
        Some(JsonTree::Array(items)) => string_items(items),
        Some(JsonTree::Str(s)) => seq![s],
        _ => seq![],
    }
}

/// An array of strings.
pub open spec fn string_array(names: Seq<Seq<char>>) -> JsonTree {
    JsonTree::Array(names.map_values(|s: Seq<char>| JsonTree::Str(s)))
}

/// The configuration as it was found: `None` when there is no file, `Some(None)`
/// when its text is not a JSON5 document, `Some(Some(doc))` otherwise.
pub open spec fn read_config(text: Option<String>) -> Option<Option<JsonTree>> {
    match text {
        None => None,
        Some(raw) => Some(json5_document(raw@)),
    }
}

/// The object a preset is applied to, and whether it already differs from the
/// file: a missing file starts from the schema object; an unreadable file is
/// taken as an empty object; a document that is not an object is replaced by
/// the schema object.
pub open spec fn starting_config(found: Option<Option<JsonTree>>) -> (Map<Seq<char>, JsonTree>, bool) {
    match found {
        None => (schema_config(), true),
        Some(None) => (Map::empty(), false),
        Some(Some(JsonTree::Object(m))) => (m, false),
        Some(Some(_)) => (schema_config(), true),
    }
}

/// Sets the `plugin` field to the merge of what it lists with what the preset
/// requires, if the preset requires any; a change is a merged list that
/// differs from the listed one.
pub open spec fn with_required_plugins(m: Map<Seq<char>, JsonTree>, preset: Seq<char>) -> (Map<Seq<char>, JsonTree>, bool) {
    let required = required_plugins_for(preset);
    if required.len() == 0 {
        (m, false)
    } else {
        let listed = listed_plugins(field(m, "plugin"@));
        let merged = merged_plugins(listed, required);
        (m.insert("plugin"@, string_array(merged)), merged != listed)
    }
}

/// For the starter preset, makes `mcp` an object (keeping its servers if it
/// was one) that has a `chrome-devtools` server, adding it if missing; adding
/// it is a change.
pub open spec fn with_chrome_mcp(m: Map<Seq<char>, JsonTree>, preset: Seq<char>) -> (Map<Seq<char>, JsonTree>, bool) {
    if !seeds_chrome_mcp(preset) {
        (m, false)
    } else {
        let servers = match field(m, "mcp"@) {
            Some(JsonTree::Object(s)) => s,
            _ => Map::empty(),
        };
        if servers.contains_key("chrome-devtools"@) {
            (m.insert("mcp"@, JsonTree::Object(servers)), false)
        } else {
            (m.insert("mcp"@, JsonTree::Object(servers.insert("chrome-devtools"@, chrome_mcp_server()))), true)
        }
    }
}

/// The configuration after applying a preset, and whether it must be written.
pub open spec fn preset_config(found: Option<Option<JsonTree>>, preset: Seq<char>) -> (JsonTree, bool) {
    let (m0, c0) = starting_config(found);
    let (m1, c1) = with_required_plugins(m0, preset);
    let (m2, c2) = with_chrome_mcp(m1, preset);
    (JsonTree::Object(m2), c0 || c1 || c2)
}

/// The trees of a loaded configuration.
pub open spec fn loaded_trees(loaded: Option<Option<serde_json::Value>>) -> Option<Option<JsonTree>> {
    match loaded {
        None => None,
        Some(None) => Some(None),
        Some(Some(v)) => Some(Some(json_tree(v))),
    }
}

/// The plugins a `plugin` field lists.
fn plugin_names(plugin_field: Option<serde_json::Value>) -> (r: Vec<String>)
    ensures
        texts(r@) == listed_plugins(
            match plugin_field {
                Some(v) => Some(json_tree(v)),
                None => None,
            },
        ),
{
    let mut out: Vec<String> = Vec::new();
    match plugin_field {
        None => {
            assert(texts(out@) =~= Seq::<Seq<char>>::empty());
            out
        },
        Some(v) => {
            match node_of(v) {
                JsonNode::Array(items) => {
                    let ghost all = trees(items@);
                    let mut rest = items;
                    let ghost mut k: int = 0;
                    assert(trees(rest@) =~= all.skip(0));
                    assert(all.take(0) =~= Seq::<JsonTree>::empty());
                    assert(texts(out@) =~= Seq::<Seq<char>>::empty());
                    while rest.len() > 0
                        invariant
                            0 <= k <= all.len(),
                            trees(rest@) == all.skip(k),
                            texts(out@) == string_items(all.take(k)),
                        decreases rest.len(),
                    {
                        let ghost before = out@;
                        let ghost old_rest = rest@;
                        assert(trees(old_rest).len() == old_rest.len());
                        let item = rest.remove(0);
                        proof {
                            assert(k < all.len());
                            assert(json_tree(item) == trees(old_rest)[0]);
                            assert(all.skip(k)[0] == all[k]);
                            assert(all.take(k + 1).drop_last() =~= all.take(k));
                            assert forall|j: int| 0 <= j < rest@.len() implies trees(rest@)[j] == all.skip(k + 1)[j] by {
                                assert(rest@[j] == old_rest[j + 1]);
                                assert(trees(old_rest)[j + 1] == all.skip(k)[j + 1]);
                            }
                            assert(trees(rest@) =~= all.skip(k + 1));
                        }
                        match node_of(item) {
                            JsonNode::Str(s) => {
                                out.push(s);
                                assert(texts(out@) =~= texts(before).push(all[k]->Str_0));
                            },
                            _ => {},
                        }
                        proof { k = k + 1; }
                    }
                    assert(all.take(k) =~= all);
                    out
                },
                JsonNode::Str(s) => {
                    out.push(s);
                    assert(texts(out@) =~= seq![out@[0]@]);
                    out
                },
                _ => {
                    assert(texts(out@) =~= Seq::<Seq<char>>::empty());
                    out
                },
            }
        },
    }
}

/// An array value of the given strings.
fn string_array_value(names: Vec<String>) -> (v: serde_json::Value)
    ensures
        json_tree(v) == string_array(texts(names@)),
{
    let ghost all = texts(names@);
    let mut rest = names;
    let mut vals: Vec<serde_json::Value> = Vec::new();
    let ghost mut k: int = 0;
    assert(texts(rest@) =~= all.skip(0));
    assert(trees(vals@) =~= all.take(0).map_values(|s: Seq<char>| JsonTree::Str(s)));
    while rest.len() > 0
        invariant
            0 <= k <= all.len(),
            texts(rest@) == all.skip(k),
            trees(vals@) == all.take(k).map_values(|s: Seq<char>| JsonTree::Str(s)),
        decreases rest.len(),
    {
        let ghost before = vals@;
        let ghost old_rest = rest@;
        assert(texts(old_rest).len() == old_rest.len());
        let s = rest.remove(0);
        proof {
            assert(k < all.len());
            assert(s@ == texts(old_rest)[0]);
            assert(all.skip(k)[0] == all[k]);
            assert forall|j: int| 0 <= j < rest@.len() implies texts(rest@)[j] == all.skip(k + 1)[j] by {
                assert(rest@[j] == old_rest[j + 1]);
                assert(texts(old_rest)[j + 1] == all.skip(k)[j + 1]);
            }
            assert(texts(rest@) =~= all.skip(k + 1));
        }
        let x = value_of(JsonNode::Str(s));
        vals.push(x);
        proof {
            assert(trees(vals@) =~= trees(before).push(JsonTree::Str(all[k])));
            assert(all.take(k + 1).map_values(|s: Seq<char>| JsonTree::Str(s))
                =~= all.take(k).map_values(|s: Seq<char>| JsonTree::Str(s)).push(JsonTree::Str(all[k])));
            k = k + 1;
        }
    }
    assert(all.take(k) =~= all);
    value_of(JsonNode::Array(vals))
}

/// A string value.
fn string_value(s: &str) -> (v: serde_json::Value)
    ensures
        json_tree(v) == JsonTree::Str(s@),
{
    value_of(JsonNode::Str(owned(s)))
}

/// The Chrome DevTools MCP server entry, as a value.
pub fn chrome_mcp_value() -> (v: serde_json::Value)
    ensures
        json_tree(v) == chrome_mcp_server(),
{
    let cmd_items = vec![string_value("npx"), string_value("-y"), string_value("chrome-devtools-mcp@latest")];
    assert(trees(cmd_items@) =~= seq![
        JsonTree::Str("npx"@),
        JsonTree::Str("-y"@),
        JsonTree::Str("chrome-devtools-mcp@latest"@),
    ]);
    let cmd = value_of(JsonNode::Array(cmd_items));
    let mut m = map_new();
    assert(json_map(m) =~= Map::<Seq<char>, JsonTree>::empty());
    map_insert(&mut m, owned("type"), string_value("local"));
    map_insert(&mut m, owned("command"), cmd);
    value_of(JsonNode::Object(m))
}

/// The object a new configuration starts from.
fn schema_object() -> (m: JsonMap)
    ensures
        json_map(m) == schema_config(),
{
    let mut m = map_new();
    assert(json_map(m) =~= Map::<Seq<char>, JsonTree>::empty());
    map_insert(&mut m, owned("$schema"), string_value("https://opencode.ai/config.json"));
    m
}

/// Applies a preset to a loaded configuration (`None`: no file; `Some(None)`:
/// a file that is not JSON5; `Some(Some(v))`: the document read), returning
/// the resulting document and whether it must be written back.
pub fn apply_preset(loaded: Option<Option<serde_json::Value>>, preset: &str) -> (r: (serde_json::Value, bool))
    ensures
        (json_tree(r.0), r.1) == preset_config(loaded_trees(loaded), preset@),
{
    let ghost found = loaded_trees(loaded);
    let (mut config, mut changed) = match loaded {
        None => (schema_object(), true),
        Some(None) => (map_new(), false),
        Some(Some(v)) => {
            match node_of(v) {
                JsonNode::Object(m) => (m, false),
                _ => (schema_object(), true),
            }
        },
    };
    let ghost m0 = json_map(config);
    assert((m0, changed) == starting_config(found));

    let required = required_plugins(preset);
    if required.len() > 0 {
        let plugin_field = map_get(&config, "plugin");
        let listed = plugin_names(plugin_field);
        let ghost listed_view = texts(listed@);
        let n = listed.len();
        let merged = merge_plugins(listed, required.as_slice());
        proof {
            lemma_merge_keeps_existing(listed_view, strs(required@));
            assert(listed_view == listed_plugins(field(m0, "plugin"@)));
        }
        if merged.len() != n {
            changed = true;
        } else {
            assert(texts(merged@) =~= texts(merged@).take(n as int));
        }
        let ghost merged_view = texts(merged@);
        let arr = string_array_value(merged);
        map_insert(&mut config, owned("plugin"), arr);
        assert(json_map(config) == m0.insert("plugin"@, string_array(merged_view)));
    }
    let ghost m1 = json_map(config);
    assert((m1, changed) == (with_required_plugins(m0, preset@).0, starting_config(found).1 || with_required_plugins(m0, preset@).1));

    if should_seed_chrome_mcp(preset) {
        let mcp_field = map_get(&config, "mcp");
        let mut servers: JsonMap = match mcp_field {
            Some(v) => match node_of(v) {
                JsonNode::Object(s) => s,
                _ => map_new(),
            },
            None => map_new(),
        };
        assert(json_map(servers) == match field(m1, "mcp"@) {
            Some(JsonTree::Object(s)) => s,
            _ => Map::<Seq<char>, JsonTree>::empty(),
        });
        if !map_contains_key(&servers, "chrome-devtools") {
            map_insert(&mut servers, owned("chrome-devtools"), chrome_mcp_value());
            changed = true;
        }
        let obj = value_of(JsonNode::Object(servers));
        map_insert(&mut config, owned("mcp"), obj);
        assert(json_map(config) == with_chrome_mcp(m1, preset@).0);
    }
    let out = value_of(JsonNode::Object(config));
    (out, changed)
}

/// The text to write to the configuration file, given its current text (or
/// `None` when there is no file) and the preset: `Ok(None)` when nothing
/// changes, `Ok(Some(text))` with the pretty-printed new document otherwise.
pub fn updated_config_text(existing: Option<String>, preset: &str) -> (r: Result<Option<String>, String>)
    ensures
        !preset_config(read_config(existing), preset@).1 ==> r == Ok::<Option<String>, String>(None),
        preset_config(read_config(existing), preset@).1 ==> (r matches Ok(Some(s))
            && s@ == pretty_json_text(preset_config(read_config(existing), preset@).0)),
{
    let loaded: Option<Option<serde_json::Value>> = match existing {
        None => None,
        Some(raw) => match parse_json5(raw.as_str()) {
            Ok(v) => Some(Some(v)),
            Err(_) => Some(None),
        },
    };
    let (doc, changed) = apply_preset(loaded, preset);
    if !changed {
        return Ok(None);
    }
    match render_pretty(&doc) {
        Ok(s) => Ok(Some(s)),
        Err(e) => Err(e.to_string()),
    }
}

} // verus!
