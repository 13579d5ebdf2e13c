use openwork_workspace::plugins::merge_plugins;

fn owned(v: &[&str]) -> Vec<String> {
    v.iter().map(|s| s.to_string()).collect()
}

#[test]
fn merge_appends_missing_plugins_in_order() {
    let out = merge_plugins(owned(&["a", "b"]), &["c", "a", "d"]);
    assert_eq!(out, owned(&["a", "b", "c", "d"]));
}

#[test]
fn merge_into_empty_list() {
    let out = merge_plugins(Vec::new(), &["opencode-scheduler"]);
    assert_eq!(out, owned(&["opencode-scheduler"]));
}

#[test]
fn merge_without_requirements_keeps_list() {
    let out = merge_plugins(owned(&["x", "y"]), &[]);
    assert_eq!(out, owned(&["x", "y"]));
}

#[test]
fn merge_does_not_add_a_required_plugin_twice() {
    let out = merge_plugins(owned(&["x"]), &["y", "y", "x"]);
    assert_eq!(out, owned(&["x", "y"]));
}

#[test]
fn merge_keeps_duplicates_already_listed() {
    let out = merge_plugins(owned(&["x", "x"]), &["x"]);
    assert_eq!(out, owned(&["x", "x"]));
}

#[test]
fn merge_twice_changes_nothing_more() {
    let once = merge_plugins(owned(&["p"]), &["q", "r"]);
    let twice = merge_plugins(once.clone(), &["q", "r"]);
    assert_eq!(once, twice);
}

#[test]
fn merge_unchanged_when_all_present() {
    let out = merge_plugins(owned(&["r", "q"]), &["q", "r"]);
    assert_eq!(out, owned(&["r", "q"]));
}

#[test]
fn merge_compares_whole_names() {
    let out = merge_plugins(owned(&["opencode-scheduler-2"]), &["opencode-scheduler"]);
    assert_eq!(out, owned(&["opencode-scheduler-2", "opencode-scheduler"]));
}
