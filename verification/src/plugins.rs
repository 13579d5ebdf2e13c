//! Plugin lists: merging the plugins a preset requires into the ones a
//! configuration already names.

use vstd::prelude::*;
use crate::text::{texts, strs, same_text, owned};

verus! {

/// The plugin list after appending, in order, each required plugin that is
/// not yet listed.
pub open spec fn merged_plugins(existing: Seq<Seq<char>>, required: Seq<Seq<char>>) -> Seq<Seq<char>>
    decreases required.len(),
{
    if required.len() == 0 {
        existing
    } else {
        let prev = merged_plugins(existing, required.drop_last());
        if prev.contains(required.last()) {
            prev
        } else {
            prev.push(required.last())
        }
    }
}

/// Whether `name` occurs in `list`.
fn lists_plugin(list: &Vec<String>, name: &str) -> (r: bool)
    ensures
        r == texts(list@).contains(name@),
{
    let mut i: usize = 0;
    while i < list.len()
        invariant
            i <= list.len(),
            forall|j: int| 0 <= j < i ==> list@[j]@ != name@,
        decreases list.len() - i,
    {
        if same_text(list[i].as_str(), name) {
            assert(texts(list@)[i as int] == name@);
            return true;
        }
        i = i + 1;
    }
    assert forall|j: int| 0 <= j < texts(list@).len() implies texts(list@)[j] != name@ by {
        assert(list@[j]@ != name@);
    }
    false
}

/// Appends to `existing`, in order, each plugin of `required` that it does not
/// list yet. Plugins already listed keep their place; nothing is removed.
pub fn merge_plugins(existing: Vec<String>, required: &[&str]) -> (out: Vec<String>)
    ensures
        texts(out@) == merged_plugins(texts(existing@), strs(required@)),
{
    let mut out = existing;
    let ghost base = texts(out@);
    let mut i: usize = 0;
    while i < required.len()
        invariant
            i <= required.len(),
            texts(out@) == merged_plugins(base, strs(required@).take(i as int)),
        decreases required.len() - i,
    {
        let plugin: &str = required[i];
        proof {
            assert(strs(required@).take(i + 1).drop_last() =~= strs(required@).take(i as int));
            assert(strs(required@).take(i + 1).last() == plugin@);
        }
        if !lists_plugin(&out, plugin) {
            let ghost before = out@;
            out.push(owned(plugin));
            assert(texts(out@) =~= texts(before).push(plugin@));
        }
        i = i + 1;
    }
    assert(strs(required@).take(required@.len() as int) =~= strs(required@));
    out
}


/// Merging never reorders or drops what was listed: the existing plugins are a
/// prefix of the merged list.
pub proof fn lemma_merge_keeps_existing(existing: Seq<Seq<char>>, required: Seq<Seq<char>>)
    ensures
        merged_plugins(existing, required).len() >= existing.len(),
        merged_plugins(existing, required).take(existing.len() as int) == existing,
    decreases required.len(),
{
    if required.len() > 0 {
        lemma_merge_keeps_existing(existing, required.drop_last());
        let prev = merged_plugins(existing, required.drop_last());
        assert(prev.push(required.last()).take(existing.len() as int) =~= prev.take(existing.len() as int));
    }
}

/// Every required plugin is listed after merging.
pub proof fn lemma_merge_covers_required(existing: Seq<Seq<char>>, required: Seq<Seq<char>>)
    ensures
        forall|i: int| 0 <= i < required.len() ==> merged_plugins(existing, required).contains(#[trigger] required[i]),
    decreases required.len(),
{
    if required.len() > 0 {
        let prev = merged_plugins(existing, required.drop_last());
        lemma_merge_covers_required(existing, required.drop_last());
        assert forall|i: int| 0 <= i < required.len() implies merged_plugins(existing, required).contains(#[trigger] required[i]) by {
            if i < required.len() - 1 {
                assert(required.drop_last()[i] == required[i]);
                assert(prev.contains(required[i]));
                if !prev.contains(required.last()) {
                    let k = choose|k: int| 0 <= k < prev.len() && prev[k] == required[i];
                    assert(prev.push(required.last())[k] == required[i]);
                }
            } else {
                if !prev.contains(required.last()) {
                    assert(prev.push(required.last())[prev.len() as int] == required.last());
                }
            }
        }
    }
}

/// Merging lists nothing new but required plugins.
pub proof fn lemma_merge_only_known(existing: Seq<Seq<char>>, required: Seq<Seq<char>>)
    ensures
        forall|i: int| 0 <= i < merged_plugins(existing, required).len() ==>
            existing.contains(#[trigger] merged_plugins(existing, required)[i])
            || required.contains(merged_plugins(existing, required)[i]),
    decreases required.len(),
{
    if required.len() > 0 {
        let prev = merged_plugins(existing, required.drop_last());
        lemma_merge_only_known(existing, required.drop_last());
        let m = merged_plugins(existing, required);
        assert forall|i: int| 0 <= i < m.len() implies existing.contains(#[trigger] m[i]) || required.contains(m[i]) by {
            if i < prev.len() {
                assert(m[i] == prev[i]);
                if required.drop_last().contains(prev[i]) {
                    let k = choose|k: int| 0 <= k < required.drop_last().len() && required.drop_last()[k] == prev[i];
                    assert(required[k] == prev[i]);
                }
            } else {
                assert(m[i] == required[required.len() - 1]);
            }
        }
    }
}

/// What merging appends is new: no appended plugin was listed before, and none
/// is appended twice.
pub proof fn lemma_merge_appends_fresh(existing: Seq<Seq<char>>, required: Seq<Seq<char>>)
    ensures
        forall|i: int| existing.len() <= i < merged_plugins(existing, required).len()
            ==> !existing.contains(#[trigger] merged_plugins(existing, required)[i]),
        forall|i: int, j: int| existing.len() <= i < j < merged_plugins(existing, required).len()
            ==> #[trigger] merged_plugins(existing, required)[i] != #[trigger] merged_plugins(existing, required)[j],
    decreases required.len(),
{
    lemma_merge_keeps_existing(existing, required);
    if required.len() > 0 {
        let prev = merged_plugins(existing, required.drop_last());
        lemma_merge_appends_fresh(existing, required.drop_last());
        lemma_merge_keeps_existing(existing, required.drop_last());
        let m = merged_plugins(existing, required);
        if !prev.contains(required.last()) {
            assert forall|i: int| existing.len() <= i < m.len() implies !existing.contains(#[trigger] m[i]) by {
                if i == prev.len() {
                    if existing.contains(m[i]) {
                        let k = choose|k: int| 0 <= k < existing.len() && existing[k] == m[i];
                        assert(prev.take(existing.len() as int)[k] == prev[k]);
                        assert(prev.contains(required.last()));
                    }
                } else {
                    assert(m[i] == prev[i]);
                }
            }
            assert forall|i: int, j: int| existing.len() <= i < j < m.len() implies #[trigger] m[i] != #[trigger] m[j] by {
                if j == prev.len() {
                    assert(m[i] == prev[i]);
                    assert(prev.contains(prev[i]));
                } else {
                    assert(m[i] == prev[i]);
                    assert(m[j] == prev[j]);
                }
            }
        }
    }
}

/// The merge leaves the list unchanged exactly when every required plugin is
/// already listed.
pub proof fn lemma_merge_unchanged_iff_present(existing: Seq<Seq<char>>, required: Seq<Seq<char>>)
    ensures
        (merged_plugins(existing, required) == existing)
            <==> (forall|i: int| 0 <= i < required.len() ==> existing.contains(#[trigger] required[i])),
    decreases required.len(),
{
    lemma_merge_covers_required(existing, required);
    if required.len() > 0 {
        let prev = merged_plugins(existing, required.drop_last());
        lemma_merge_unchanged_iff_present(existing, required.drop_last());
        lemma_merge_keeps_existing(existing, required.drop_last());
        if forall|i: int| 0 <= i < required.len() ==> existing.contains(#[trigger] required[i]) {
            assert forall|i: int| 0 <= i < required.drop_last().len() implies existing.contains(#[trigger] required.drop_last()[i]) by {
                assert(required.drop_last()[i] == required[i]);
            }
            assert(prev == existing);
            assert(existing.contains(required[required.len() - 1]));
        }
        if merged_plugins(existing, required) == existing {
            assert(forall|i: int| 0 <= i < required.len() ==> existing.contains(#[trigger] required[i]));
        }
    }
}

/// Merging the same requirements twice changes nothing more.
pub proof fn lemma_merge_idempotent(existing: Seq<Seq<char>>, required: Seq<Seq<char>>)
    ensures
        merged_plugins(merged_plugins(existing, required), required) == merged_plugins(existing, required),
{
    lemma_merge_covers_required(existing, required);
    lemma_merge_unchanged_iff_present(merged_plugins(existing, required), required);
}

} // verus!
