//! What applying a preset to a configuration guarantees.

use vstd::prelude::*;
use crate::json::JsonTree;
use crate::config::{
    preset_config, starting_config, with_required_plugins, with_chrome_mcp, required_plugins_for,
    seeds_chrome_mcp, listed_plugins, string_items, string_array, field, schema_config,
    chrome_mcp_server,
};
use crate::plugins::{
    merged_plugins, lemma_merge_idempotent, lemma_merge_covers_required, lemma_merge_keeps_existing,
    lemma_merge_unchanged_iff_present, lemma_merge_only_known, lemma_merge_appends_fresh,
};

verus! {

/// The strings of an array of strings are those strings.
pub proof fn lemma_string_items_of_array(names: Seq<Seq<char>>)
    ensures
        listed_plugins(Some(string_array(names))) == names,
{
    lemma_string_items_map(names);
}

proof fn lemma_string_items_map(names: Seq<Seq<char>>)
    ensures
        string_items(names.map_values(|s: Seq<char>| JsonTree::Str(s))) == names,
    decreases names.len(),
{
    let items = names.map_values(|s: Seq<char>| JsonTree::Str(s));
    if names.len() > 0 {
        lemma_string_items_map(names.drop_last());
        assert(items.drop_last() =~= names.drop_last().map_values(|s: Seq<char>| JsonTree::Str(s)));
        assert(names.drop_last().push(names.last()) =~= names);
    } else {
        assert(names =~= Seq::<Seq<char>>::empty());
    }
}

proof fn lemma_keys_differ()
    ensures
        "plugin"@ != "mcp"@,
{
    reveal_strlit("plugin");
    reveal_strlit("mcp");
    assert("plugin"@.len() != "mcp"@.len());
}

/// Applying a preset to the document it produced changes nothing and asks
/// for no write: the preset's document is a fixed point.
pub proof fn law_preset_is_idempotent(found: Option<Option<JsonTree>>, preset: Seq<char>)
    ensures
        preset_config(Some(Some(preset_config(found, preset).0)), preset)
            == (preset_config(found, preset).0, false),
{
    lemma_keys_differ();
    let (m0, c0) = starting_config(found);
    let (m1, c1) = with_required_plugins(m0, preset);
    let (m2, c2) = with_chrome_mcp(m1, preset);
    let required = required_plugins_for(preset);
    if required.len() > 0 {
        let listed = listed_plugins(field(m0, "plugin"@));
        let merged = merged_plugins(listed, required);
        assert(field(m2, "plugin"@) == Some(string_array(merged)));
        lemma_string_items_of_array(merged);
        lemma_merge_idempotent(listed, required);
        assert(m2.insert("plugin"@, string_array(merged)) =~= m2);
    }
    let (n1, d1) = with_required_plugins(m2, preset);
    assert(n1 == m2 && !d1);
    if seeds_chrome_mcp(preset) {
        let servers = match field(m1, "mcp"@) {
            Some(JsonTree::Object(s)) => s,
            _ => Map::empty(),
        };
        let servers2 = if servers.contains_key("chrome-devtools"@) {
            servers
        } else {
            servers.insert("chrome-devtools"@, chrome_mcp_server())
        };
        assert(m2 == m1.insert("mcp"@, JsonTree::Object(servers2)));
        assert(field(m2, "mcp"@) == Some(JsonTree::Object(servers2)));
        assert(servers2.contains_key("chrome-devtools"@));
        assert(m2.insert("mcp"@, JsonTree::Object(servers2)) =~= m2);
    }
}

/// After applying a preset, every plugin it requires is listed, and the
/// plugins listed before stay first, in their order.
pub proof fn law_required_plugins_listed(found: Option<Option<JsonTree>>, preset: Seq<char>)
    ensures
        ({
            let before = listed_plugins(field(starting_config(found).0, "plugin"@));
            let after = match preset_config(found, preset).0 {
                JsonTree::Object(m) => listed_plugins(field(m, "plugin"@)),
                _ => seq![],
            };
            required_plugins_for(preset).len() > 0 ==> {
                &&& forall|i: int| 0 <= i < required_plugins_for(preset).len()
                    ==> after.contains(#[trigger] required_plugins_for(preset)[i])
                &&& after.len() >= before.len()
                &&& after.take(before.len() as int) == before
            }
        }),
{
    lemma_keys_differ();
    let (m0, c0) = starting_config(found);
    let required = required_plugins_for(preset);
    if required.len() > 0 {
        let listed = listed_plugins(field(m0, "plugin"@));
        let merged = merged_plugins(listed, required);
        let (m1, c1) = with_required_plugins(m0, preset);
        let (m2, c2) = with_chrome_mcp(m1, preset);
        assert(field(m2, "plugin"@) == Some(string_array(merged)));
        lemma_string_items_of_array(merged);
        lemma_merge_covers_required(listed, required);
        lemma_merge_keeps_existing(listed, required);
    }
}

/// Applying a preset to an object keeps every field other than `plugin` and
/// `mcp` as it was.
pub proof fn law_other_fields_kept(m: Map<Seq<char>, JsonTree>, preset: Seq<char>, k: Seq<char>)
    requires
        k != "plugin"@,
        k != "mcp"@,
    ensures
        preset_config(Some(Some(JsonTree::Object(m))), preset).0 matches JsonTree::Object(out)
            && field(out, k) == field(m, k),
{
}

/// A preset that requires no plugin and is not the starter preset leaves a
/// readable configuration as it is, and nothing is written.
pub proof fn law_plain_preset_changes_nothing(m: Map<Seq<char>, JsonTree>, preset: Seq<char>)
    requires
        required_plugins_for(preset).len() == 0,
        !seeds_chrome_mcp(preset),
    ensures
        preset_config(Some(Some(JsonTree::Object(m))), preset) == (JsonTree::Object(m), false),
        preset_config(Some(None), preset) == (JsonTree::Object(Map::<Seq<char>, JsonTree>::empty()), false),
{
}

/// With the starter preset, `mcp` ends up an object holding a
/// `chrome-devtools` server; one that was there already is kept as it was.
pub proof fn law_starter_has_chrome_mcp(found: Option<Option<JsonTree>>, preset: Seq<char>)
    requires
        seeds_chrome_mcp(preset),
    ensures
        match preset_config(found, preset).0 {
            JsonTree::Object(out) => match field(out, "mcp"@) {
                Some(JsonTree::Object(servers)) => {
                    &&& servers.contains_key("chrome-devtools"@)
                    &&& match field(with_required_plugins(starting_config(found).0, preset).0, "mcp"@) {
                        Some(JsonTree::Object(old_servers)) => old_servers.contains_key("chrome-devtools"@)
                            ==> servers["chrome-devtools"@] == old_servers["chrome-devtools"@],
                        _ => true,
                    }
                },
                _ => false,
            },
            _ => false,
        },
{
}

/// A missing configuration is always written, and it declares the schema.
pub proof fn law_missing_config_written(preset: Seq<char>)
    ensures
        preset_config(None, preset).1,
        preset_config(None, preset).0 matches JsonTree::Object(out)
            && field(out, "$schema"@) == field(schema_config(), "$schema"@),
{
    reveal_strlit("$schema");
    reveal_strlit("plugin");
    reveal_strlit("mcp");
    assert("$schema"@.len() != "plugin"@.len());
    assert("$schema"@ != "mcp"@);
}

/// With the starter preset, every server of an existing `mcp` object is kept
/// with its settings, and the only server that may be added is
/// `chrome-devtools`.
pub proof fn law_starter_keeps_mcp_servers(m: Map<Seq<char>, JsonTree>, preset: Seq<char>, old: Map<Seq<char>, JsonTree>)
    requires
        seeds_chrome_mcp(preset),
        field(m, "mcp"@) == Some(JsonTree::Object(old)),
    ensures
        match preset_config(Some(Some(JsonTree::Object(m))), preset).0 {
            JsonTree::Object(out) => match field(out, "mcp"@) {
                Some(JsonTree::Object(servers)) => {
                    &&& forall|s: Seq<char>| #[trigger] old.contains_key(s)
                        ==> servers.contains_key(s) && servers[s] == old[s]
                    &&& forall|s: Seq<char>| #[trigger] servers.contains_key(s)
                        ==> old.contains_key(s) || s == "chrome-devtools"@
                },
                _ => false,
            },
            _ => false,
        },
{
    lemma_keys_differ();
    let m1 = with_required_plugins(m, preset).0;
    assert(field(m1, "mcp"@) == field(m, "mcp"@));
}

/// The plugins a field lists once the preset's required ones are merged in,
/// compared with those it listed: the merge changes the list exactly when a
/// required plugin was missing.
proof fn lemma_plugin_step(m: Map<Seq<char>, JsonTree>, preset: Seq<char>)
    ensures
        with_required_plugins(m, preset).1 <==> exists|i: int|
            0 <= i < required_plugins_for(preset).len()
                && !listed_plugins(field(m, "plugin"@)).contains(#[trigger] required_plugins_for(preset)[i]),
        field(with_required_plugins(m, preset).0, "mcp"@) == field(m, "mcp"@),
        forall|k: Seq<char>| k != "plugin"@ ==> #[trigger] field(with_required_plugins(m, preset).0, k) == field(m, k),
        listed_plugins(field(with_required_plugins(m, preset).0, "plugin"@))
            == merged_plugins(listed_plugins(field(m, "plugin"@)), required_plugins_for(preset)),
{
    lemma_keys_differ();
    let required = required_plugins_for(preset);
    let listed = listed_plugins(field(m, "plugin"@));
    lemma_merge_unchanged_iff_present(listed, required);
    if required.len() > 0 {
        lemma_string_items_of_array(merged_plugins(listed, required));
    } else {
        assert(merged_plugins(listed, required) == listed);
    }
}

/// Applying a preset to an object asks for a write exactly when a required
/// plugin is not listed yet, or when the starter preset finds no
/// `chrome-devtools` server in an `mcp` object.
pub proof fn law_change_flag_exact(m: Map<Seq<char>, JsonTree>, preset: Seq<char>)
    ensures
        preset_config(Some(Some(JsonTree::Object(m))), preset).1 <==> {
            ||| exists|i: int|
                0 <= i < required_plugins_for(preset).len()
                    && !listed_plugins(field(m, "plugin"@)).contains(#[trigger] required_plugins_for(preset)[i])
            ||| seeds_chrome_mcp(preset) && !(field(m, "mcp"@) matches Some(JsonTree::Object(s))
                && s.contains_key("chrome-devtools"@))
        },
{
    lemma_plugin_step(m, preset);
}

/// Applying a preset to an object asks for a write only when the document
/// changes; when it asks for none, every field other than `plugin` is as it
/// was and `plugin` lists the same plugins (it may be rewritten as an array
/// of those strings).
pub proof fn law_write_iff_content_changes(m: Map<Seq<char>, JsonTree>, preset: Seq<char>)
    ensures
        preset_config(Some(Some(JsonTree::Object(m))), preset).1
            ==> preset_config(Some(Some(JsonTree::Object(m))), preset).0 != JsonTree::Object(m),
        !preset_config(Some(Some(JsonTree::Object(m))), preset).1 ==> match preset_config(
            Some(Some(JsonTree::Object(m))),
            preset,
        ).0 {
            JsonTree::Object(out) => {
                &&& forall|k: Seq<char>| k != "plugin"@ ==> #[trigger] field(out, k) == field(m, k)
                &&& listed_plugins(field(out, "plugin"@)) == listed_plugins(field(m, "plugin"@))
            },
            _ => false,
        },
{
    lemma_keys_differ();
    lemma_plugin_step(m, preset);
    let required = required_plugins_for(preset);
    let listed = listed_plugins(field(m, "plugin"@));
    let (m1, c1) = with_required_plugins(m, preset);
    let (m2, c2) = with_chrome_mcp(m1, preset);
    assert(field(m2, "plugin"@) == field(m1, "plugin"@));
    if c1 {
        lemma_merge_unchanged_iff_present(listed, required);
        if m2 == m {
            assert(field(m2, "plugin"@) == field(m, "plugin"@));
        }
    }
    if c2 {
        assert(field(m2, "mcp"@) matches Some(JsonTree::Object(s)) && s.contains_key("chrome-devtools"@));
    }
    if !c1 && !c2 {
        lemma_merge_unchanged_iff_present(listed, required);
        if seeds_chrome_mcp(preset) {
            assert(m2 =~= m1);
        }
    }
}

/// A configuration that is not an object, or is missing, is replaced by the
/// object that declares the schema and is always written; an unreadable one
/// is taken as an empty object.
pub proof fn law_replaced_documents(preset: Seq<char>, doc: JsonTree)
    requires
        !(doc is Object),
    ensures
        preset_config(Some(Some(doc)), preset)
            == (preset_config(Some(Some(JsonTree::Object(schema_config()))), preset).0, true),
        preset_config(None, preset)
            == (preset_config(Some(Some(JsonTree::Object(schema_config()))), preset).0, true),
        preset_config(Some(None), preset)
            == preset_config(Some(Some(JsonTree::Object(Map::<Seq<char>, JsonTree>::empty()))), preset),
{
}

/// Applying a preset lists no other plugin than those listed before and
/// those it requires: what it appends after the plugins listed before is
/// new, and appended once; a preset that requires none lists the same
/// plugins as before.
pub proof fn law_plugins_only_added_as_required(found: Option<Option<JsonTree>>, preset: Seq<char>)
    ensures
        ({
            let required = required_plugins_for(preset);
            let before = listed_plugins(field(starting_config(found).0, "plugin"@));
            let after = match preset_config(found, preset).0 {
                JsonTree::Object(m) => listed_plugins(field(m, "plugin"@)),
                _ => seq![],
            };
            &&& forall|i: int| 0 <= i < after.len()
                ==> before.contains(#[trigger] after[i]) || required.contains(after[i])
            &&& forall|i: int| before.len() <= i < after.len() ==> !before.contains(#[trigger] after[i])
            &&& forall|i: int, j: int| before.len() <= i < j < after.len() ==> #[trigger] after[i] != #[trigger] after[j]
            &&& required.len() == 0 ==> after == before
        }),
{
    lemma_keys_differ();
    let m0 = starting_config(found).0;
    let required = required_plugins_for(preset);
    let listed = listed_plugins(field(m0, "plugin"@));
    lemma_plugin_step(m0, preset);
    let (m1, c1) = with_required_plugins(m0, preset);
    let (m2, c2) = with_chrome_mcp(m1, preset);
    assert(field(m2, "plugin"@) == field(m1, "plugin"@));
    lemma_merge_only_known(listed, required);
    lemma_merge_appends_fresh(listed, required);
    lemma_merge_keeps_existing(listed, required);
}

} // verus!
